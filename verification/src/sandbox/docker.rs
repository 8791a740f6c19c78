//! What the container and local backends run: commands per language, container
//! settings, sandbox ids, and the checks the local backend applies.

use vstd::prelude::*;

use crate::sandbox::limits::{
    limits_valid, network_mode_text, HostConfig, ResourceLimitConfig,
    BYTES_PER_MB, MAX_CPU_CORES, MAX_MEMORY_MB, NANO_CPUS_PER_CORE,
};
use crate::sandbox::SandboxError;
use crate::text::str_eq;

verus! {

/// Whether the language runs as a shell script.
pub open spec fn is_shell_language(language: Seq<char>) -> bool {
    language == "sh"@ || language == "bash"@
}

/// A shell script that feeds `code` to `python3` on standard input.
pub open spec fn python_heredoc(code: Seq<char>) -> Seq<char> {
    "python3 - <<'PY'\n"@ + code + "\nPY"@
}

/// A PowerShell script that pipes `code` to `python`.
pub open spec fn python_powershell(code: Seq<char>) -> Seq<char> {
    "@'\n"@ + code + "\n'@ | python -"@
}

/// The command run in a container for code in a language, or `None` for a language
/// that is not supported (only `sh`, `bash` and `python` are).
pub open spec fn container_command(language: Seq<char>, code: Seq<char>) -> Option<Seq<Seq<char>>> {
    if is_shell_language(language) {
        Some(seq!["/bin/sh"@, "-lc"@, code])
    } else if language == "python"@ {
        Some(seq!["/bin/sh"@, "-lc"@, python_heredoc(code)])
    } else {
        None
    }
}

/// The shell the local backend starts: PowerShell on Windows, `/bin/sh` elsewhere.
pub open spec fn local_shell(windows: bool) -> Seq<Seq<char>> {
    if windows {
        seq!["powershell"@, "-NoProfile"@, "-Command"@]
    } else {
        seq!["/bin/sh"@, "-lc"@]
    }
}

/// The script the local backend hands its shell, or `None` for an unsupported language.
pub open spec fn local_script(language: Seq<char>, code: Seq<char>, windows: bool) -> Option<Seq<char>> {
    if is_shell_language(language) {
        Some(code)
    } else if language == "python"@ {
        Some(if windows { python_powershell(code) } else { python_heredoc(code) })
    } else {
        None
    }
}

/// Shell code runs as given: for `sh` and for `bash` alike, on every platform, the
/// script is the code itself, both in a container and on the local host, and the two
/// shell languages give the same commands; only python code is wrapped.
pub proof fn lemma_shell_code_runs_as_given(code: Seq<char>, windows: bool)
    ensures
        local_script("sh"@, code, windows) == Some(code),
        local_script("bash"@, code, windows) == Some(code),
        local_script("sh"@, code, windows) == local_script("bash"@, code, windows),
        container_command("sh"@, code) == Some(seq!["/bin/sh"@, "-lc"@, code]),
        container_command("bash"@, code) == Some(seq!["/bin/sh"@, "-lc"@, code]),
        local_shell(false) == seq!["/bin/sh"@, "-lc"@],
        local_shell(true) == seq!["powershell"@, "-NoProfile"@, "-Command"@],
        local_script("python"@, code, false) == Some("python3 - <<'PY'\n"@ + code + "\nPY"@),
        local_script("python"@, code, true) == Some("@'\n"@ + code + "\n'@ | python -"@),
        container_command("python"@, code) == Some(
            seq!["/bin/sh"@, "-lc"@, "python3 - <<'PY'\n"@ + code + "\nPY"@],
        ),
{
    reveal_strlit("sh");
    reveal_strlit("bash");
    reveal_strlit("python");
    assert("python"@.len() == 6 && "sh"@.len() == 2 && "bash"@.len() == 4);
}

/// The views of a list of strings.
pub open spec fn texts(v: Seq<String>) -> Seq<Seq<char>> {
    v.map_values(|s: String| s@)
}

fn text_vec3(a: &str, b: &str, c: &str) -> (v: Vec<String>)
    ensures
        texts(v@) == seq![a@, b@, c@],
{
    let v = vec![a.to_owned(), b.to_owned(), c.to_owned()];
    assert(texts(v@) =~= seq![a@, b@, c@]);
    v
}

fn heredoc(code: &str) -> (s: String)
    ensures
        s@ == python_heredoc(code@),
{
    let mut s = String::from_str("python3 - <<'PY'\n");
    s.append(code);
    s.append("\nPY");
    s
}

/// The argument vector that runs `code` in a container.
pub fn command_for(language: &str, code: &str) -> (r: Result<Vec<String>, SandboxError>)
    ensures
        match container_command(language@, code@) {
            Some(argv) => r matches Ok(v) && texts(v@) == argv,
            None => r matches Err(SandboxError::UnsupportedLanguage(l)) && l@ == language@,
        },
        language@ == "sh"@ || language@ == "bash"@ ==> (r matches Ok(v) && texts(v@) == seq![
            "/bin/sh"@,
            "-lc"@,
            code@,
        ]),
{
    proof {
        lemma_shell_code_runs_as_given(code@, false);
    }
    if str_eq(language, "sh") || str_eq(language, "bash") {
        Ok(text_vec3("/bin/sh", "-lc", code))
    } else if str_eq(language, "python") {
        let script = heredoc(code);
        Ok(text_vec3("/bin/sh", "-lc", script.as_str()))
    } else {
        Err(SandboxError::UnsupportedLanguage(language.to_owned()))
    }
}

/// The argument vector (program first) that runs `code` on the local host.
pub fn shell_command(language: &str, code: &str, windows: bool) -> (r: Result<Vec<String>, SandboxError>)
    ensures
        match local_script(language@, code@, windows) {
            Some(script) => r matches Ok(v) && texts(v@) == local_shell(windows).push(script),
            None => r matches Err(SandboxError::UnsupportedLanguage(l)) && l@ == language@,
        },
        language@ == "sh"@ || language@ == "bash"@ ==> (r matches Ok(v) && texts(v@) == (if windows {
            seq!["powershell"@, "-NoProfile"@, "-Command"@, code@]
        } else {
            seq!["/bin/sh"@, "-lc"@, code@]
        })),
{
    proof {
        lemma_shell_code_runs_as_given(code@, windows);
    }
    let script = if str_eq(language, "sh") || str_eq(language, "bash") {
        code.to_owned()
    } else if str_eq(language, "python") {
        if windows {
            let mut s = String::from_str("@'\n");
            s.append(code);
            s.append("\n'@ | python -");
            s
        } else {
            heredoc(code)
        }
    } else {
        return Err(SandboxError::UnsupportedLanguage(language.to_owned()));
    };
    let mut argv = if windows {
        text_vec3("powershell", "-NoProfile", "-Command")
    } else {
        let v = vec![String::from_str("/bin/sh"), String::from_str("-lc")];
        assert(texts(v@) =~= seq!["/bin/sh"@, "-lc"@]);
        v
    };
    let ghost shell = texts(argv@);
    argv.push(script);
    assert(texts(argv@) =~= shell.push(script@));
    Ok(argv)
}

/// The id of a container sandbox made from a fresh unique id.
pub fn container_sandbox_id(unique: &str) -> (s: String)
    ensures
        s@ == "sandbox-"@ + unique@,
{
    let mut s = String::from_str("sandbox-");
    s.append(unique);
    s
}

/// The id of a local sandbox made from a fresh unique id.
pub fn local_sandbox_id(unique: &str) -> (s: String)
    ensures
        s@ == "local-"@ + unique@,
{
    let mut s = String::from_str("local-");
    s.append(unique);
    s
}

/// The bind mount of a workspace directory: read-write at `/workspace`.
pub fn workspace_bind(workspace_dir: &str) -> (s: String)
    ensures
        s@ == workspace_dir@ + ":/workspace:rw"@,
{
    let mut s = workspace_dir.to_owned();
    s.append(":/workspace:rw");
    s
}

/// A container's health check: the test command and its timing in nanoseconds.
#[derive(Debug, Clone, PartialEq, Eq)]
pub struct HealthCheck {
    pub test: Vec<String>,
    pub interval: i64,
    pub timeout: i64,
    pub retries: i64,
    pub start_period: i64,
}

/// Everything a sandbox container is created with.
#[derive(Debug, Clone, PartialEq, Eq)]
pub struct ContainerSpec {
    pub name: String,
    pub image: String,
    pub cmd: Vec<String>,
    pub working_dir: String,
    pub tty: bool,
    pub open_stdin: bool,
    pub healthcheck: HealthCheck,
    pub host_config: HostConfig,
}

/// The container for a sandbox: named by its id, idling in `/workspace` with a
/// terminal attached, checked every 5 s for its workspace, under the given limits.
pub fn container_spec(
    sandbox_id: &str,
    image: &str,
    limits: &ResourceLimitConfig,
    workspace_dir: &str,
) -> (c: ContainerSpec)
    requires
        limits_valid(*limits),
    ensures
        c.name@ == sandbox_id@,
        c.image@ == image@,
        texts(c.cmd@) == seq!["/bin/sh"@, "-lc"@, "sleep infinity"@],
        c.working_dir@ == "/workspace"@,
        c.tty,
        c.open_stdin,
        texts(c.healthcheck.test@) == seq!["CMD-SHELL"@, "test -d /workspace"@],
        c.healthcheck.interval == 5_000_000_000,
        c.healthcheck.timeout == 2_000_000_000,
        c.healthcheck.retries == 3,
        c.healthcheck.start_period == 1_000_000_000,
        texts(c.host_config.binds@) == seq![workspace_dir@ + ":/workspace:rw"@],
        c.host_config.memory == limits.memory_mb * BYTES_PER_MB,
        c.host_config.nano_cpus == limits.cpu_cores * NANO_CPUS_PER_CORE,
        c.host_config.network_mode@ == network_mode_text(limits.network_enabled),
        c.host_config.auto_remove,
{
    proof {
        crate::sandbox::limits::lemma_valid_limits_bound_the_container(*limits);
    }
    let binds = vec![workspace_bind(workspace_dir)];
    assert(texts(binds@) =~= seq![workspace_dir@ + ":/workspace:rw"@]);
    let host_config = limits.to_host_config(binds);
    let test = vec![String::from_str("CMD-SHELL"), String::from_str("test -d /workspace")];
    assert(texts(test@) =~= seq!["CMD-SHELL"@, "test -d /workspace"@]);
    ContainerSpec {
        name: sandbox_id.to_owned(),
        image: image.to_owned(),
        cmd: text_vec3("/bin/sh", "-lc", "sleep infinity"),
        working_dir: String::from_str("/workspace"),
        tty: true,
        open_stdin: true,
        healthcheck: HealthCheck {
            test,
            interval: 5_000_000_000,
            timeout: 2_000_000_000,
            retries: 3,
            start_period: 1_000_000_000,
        },
        host_config,
    }
}

/// The exit code reported for a finished exec: the inspected code cut to 32 bits, or
/// 0 when the container runtime reports none.
pub fn exit_code_of(inspected: Option<i64>) -> (code: i32)
    ensures
        code == (match inspected {
            Some(c) => c as i32,
            None => 0i32,
        }),
{
    match inspected {
        Some(c) => c as i32,
        None => 0,
    }
}

/// Which stream a chunk of exec output came on.
#[derive(Debug, Clone, Copy, PartialEq, Eq)]
pub enum OutputStream {
    StdOut,
    StdErr,
    /// Input echoed back, or console output: not collected.
    Other,
}

/// Collects a chunk of exec output: standard output and standard error are each
/// appended to their own text; anything else is dropped.
pub fn collect_output(stream: OutputStream, text: &str, stdout: &mut String, stderr: &mut String)
    ensures
        final(stdout)@ == (if stream == OutputStream::StdOut {
            old(stdout)@ + text@
        } else {
            old(stdout)@
        }),
        final(stderr)@ == (if stream == OutputStream::StdErr {
            old(stderr)@ + text@
        } else {
            old(stderr)@
        }),
{
    match stream {
        OutputStream::StdOut => stdout.append(text),
        OutputStream::StdErr => stderr.append(text),
        OutputStream::Other => {},
    }
}

/// Whether an inspected container counts as alive: only when the runtime reports it
/// running; an unknown state counts as not running.
pub fn container_alive(running: Option<bool>) -> (alive: bool)
    ensures
        alive == (running == Some(true)),
{
    match running {
        Some(r) => r,
        None => false,
    }
}

/// The exit code reported for a local process: its status code, or -1 when it has none
/// (it was ended by a signal).
pub fn local_exit_code(status_code: Option<i32>) -> (code: i32)
    ensures
        code == (match status_code {
            Some(c) => c,
            None => -1i32,
        }),
{
    match status_code {
        Some(c) => c,
        None => -1,
    }
}

/// Whether limits exceed what the local backend runs: more than 512 MiB or one core.
pub open spec fn exceeds_local_bounds(limits: ResourceLimitConfig) -> bool {
    limits.memory_mb > MAX_MEMORY_MB || limits.cpu_cores > MAX_CPU_CORES
}

/// Refuses limits beyond the local backend's bounds.
pub fn check_local_bounds(limits: &ResourceLimitConfig) -> (r: Result<(), SandboxError>)
    ensures
        r is Ok == !exceeds_local_bounds(*limits),
        r matches Err(e) ==> e == SandboxError::LocalBoundsExceeded,
{
    if limits.memory_mb > MAX_MEMORY_MB || limits.cpu_cores > MAX_CPU_CORES {
        Err(SandboxError::LocalBoundsExceeded)
    } else {
        Ok(())
    }
}

/// When a local sandbox was last seen alive: now, but never before its creation.
pub fn local_last_seen(created_at: i64, now: i64) -> (t: i64)
    ensures
        t == if created_at >= now { created_at } else { now },
        t >= created_at,
        t >= now,
{
    if created_at >= now { created_at } else { now }
}

/// Valid limits are within the local backend's bounds, so a sandbox that passed
/// validation at creation is never refused by the local bounds check.
pub proof fn lemma_valid_limits_within_local_bounds(limits: ResourceLimitConfig)
    requires
        limits_valid(limits),
    ensures
        !exceeds_local_bounds(limits),
{
}

} // verus!
