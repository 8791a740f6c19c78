//! The session log of a sandbox: where it lives and what is written to it.

use vstd::prelude::*;

verus! {

/// The text appended to a session log after a run: the standard output and the
/// standard error, each under its own heading and only when it is not empty.
pub open spec fn pty_record_text(stdout: Seq<char>, stderr: Seq<char>) -> Seq<char> {
    (if stdout.len() > 0 { "stdout:\n"@ + stdout + "\n"@ } else { Seq::empty() }) + (if stderr.len()
        > 0 {
        "stderr:\n"@ + stderr + "\n"@
    } else {
        Seq::empty()
    })
}

/// The session log of one sandbox, named by its path.
#[derive(Debug)]
pub struct PtySession {
    path: String,
}

impl Clone for PtySession {
    /// A copy naming the same log.
    fn clone(&self) -> (s: Self)
        ensures
            s.spec_path() == self.spec_path(),
    {
        PtySession { path: self.path.clone() }
    }
}

impl PtySession {
    /// The path of the session log.
    pub closed spec fn spec_path(&self) -> Seq<char> {
        self.path@
    }

    /// A session whose log lives at `path`.
    pub fn from_path(path: String) -> (s: Self)
        ensures
            s.spec_path() == path@,
    {
        PtySession { path }
    }

    /// The path of the session log.
    pub fn path(&self) -> (p: &str)
        ensures
            p@ == self.spec_path(),
    {
        self.path.as_str()
    }

    /// The file name of a session log for a fresh session id.
    pub fn file_name(session_id: &str) -> (s: String)
        ensures
            s@ == session_id@ + ".pty"@,
    {
        let mut s = session_id.to_owned();
        s.append(".pty");
        s
    }

    /// The first line written to every new session log.
    pub fn banner() -> (s: &'static str)
        ensures
            s@ == "vas-crucible pty session\n"@,
    {
        "vas-crucible pty session\n"
    }

    /// The text to append to the log after a run: each non-empty stream whole, under its
    /// heading and ended by a newline.
    pub fn output_record(stdout: &str, stderr: &str) -> (s: String)
        ensures
            s@ == pty_record_text(stdout@, stderr@),
            s@.len() == (if stdout@.len() > 0 { stdout@.len() + 9 } else { 0 }) + (if stderr@.len()
                > 0 {
                stderr@.len() + 9
            } else {
                0
            }),
            stdout@.len() > 0 ==> s@.subrange(0, stdout@.len() + 9 as int) == "stdout:\n"@ + stdout@
                + "\n"@,
            stderr@.len() > 0 ==> s@.subrange(s@.len() - stderr@.len() - 9, s@.len() as int)
                == "stderr:\n"@ + stderr@ + "\n"@,
    {
        proof {
            lemma_record_holds_whole_streams(stdout@, stderr@);
        }
        let mut s = String::new();
        if !stdout.is_empty() {
            s.append("stdout:\n");
            s.append(stdout);
            s.append("\n");
        }
        if !stderr.is_empty() {
            s.append("stderr:\n");
            s.append(stderr);
            s.append("\n");
        }
        assert(s@ =~= pty_record_text(stdout@, stderr@));
        s
    }
}

/// A session log record holds each non-empty stream whole, whatever its length: the
/// standard output under `stdout:` first, then the standard error under `stderr:`, each
/// ended by a newline, and nothing else.
pub proof fn lemma_record_holds_whole_streams(stdout: Seq<char>, stderr: Seq<char>)
    ensures
        ({
            let r = pty_record_text(stdout, stderr);
            let head: int = if stdout.len() > 0 { stdout.len() + 9 as int } else { 0 };
            &&& r.len() == head + (if stderr.len() > 0 { stderr.len() + 9 } else { 0 })
            &&& stdout.len() > 0 ==> r.subrange(0, head) == "stdout:\n"@ + stdout + "\n"@
            &&& stderr.len() > 0 ==> r.subrange(head, r.len() as int) == "stderr:\n"@ + stderr
                + "\n"@
            &&& stdout.len() > 0 ==> r.subrange(8, 8 + stdout.len() as int) == stdout
            &&& stderr.len() == 0 ==> r.subrange(head, r.len() as int) == Seq::<char>::empty()
            &&& stdout.len() == 0 && stderr.len() == 0 ==> r.len() == 0
        }),
{
    reveal_strlit("stdout:\n");
    reveal_strlit("stderr:\n");
    reveal_strlit("\n");
    let r = pty_record_text(stdout, stderr);
    let a: Seq<char> = if stdout.len() > 0 { "stdout:\n"@ + stdout + "\n"@ } else { Seq::empty() };
    let b: Seq<char> = if stderr.len() > 0 { "stderr:\n"@ + stderr + "\n"@ } else { Seq::empty() };
    assert(r == a + b);
    assert(r.subrange(0, a.len() as int) =~= a);
    assert(r.subrange(a.len() as int, r.len() as int) =~= b);
    if stdout.len() > 0 {
        assert(a.subrange(8, 8 + stdout.len() as int) =~= stdout);
        assert(r.subrange(8, 8 + stdout.len() as int) =~= a.subrange(8, 8 + stdout.len() as int));
    }
}

} // verus!
