//! The sidecar's defaults and its command line.

use vstd::prelude::*;

use crate::text::str_eq;

verus! {

/// The address the sidecar listens on unless told otherwise.
pub open spec fn default_listen() -> Seq<char> {
    "0.0.0.0:50051"@
}

/// The HS256 secret the sidecar uses unless told otherwise (for development only).
pub open spec fn default_secret() -> Seq<char> {
    "development-secret"@
}

/// The image sandbox containers run.
pub fn default_docker_image() -> (s: String)
    ensures
        s@ == "alpine:3.20"@,
{
    String::from_str("alpine:3.20")
}

/// The name of the directory, under the system's temporary directory, that holds
/// session logs.
pub fn default_pty_dir_name() -> (s: String)
    ensures
        s@ == "vas-crucible-pty"@,
{
    String::from_str("vas-crucible-pty")
}

/// What the command line sets.
#[derive(Debug, Clone, PartialEq, Eq)]
pub struct CliOptions {
    pub listen: String,
    pub hs256_secret: String,
}

/// The listen address and secret after reading the arguments from position `i` on,
/// starting from the values given: `--listen` and `--hs256-secret` take the next
/// argument, whatever it is; a flag with nothing after it, and any other argument,
/// changes nothing.
pub open spec fn options_from(
    args: Seq<Seq<char>>,
    i: int,
    listen: Seq<char>,
    secret: Seq<char>,
) -> (Seq<char>, Seq<char>)
    decreases args.len() - i,
{
    if i < 0 || i >= args.len() {
        (listen, secret)
    } else if args[i] == "--listen"@ && i + 1 < args.len() {
        options_from(args, i + 2, args[i + 1], secret)
    } else if args[i] == "--hs256-secret"@ && i + 1 < args.len() {
        options_from(args, i + 2, listen, args[i + 1])
    } else {
        options_from(args, i + 1, listen, secret)
    }
}

/// The views of a list of strings.
pub open spec fn arg_texts(args: Seq<String>) -> Seq<Seq<char>> {
    args.map_values(|s: String| s@)
}

/// Reads the command line (without the program name).
pub fn parse_args(args: &Vec<String>) -> (o: CliOptions)
    ensures
        (o.listen@, o.hs256_secret@) == options_from(
            arg_texts(args@),
            0,
            default_listen(),
            default_secret(),
        ),
{
    let ghost texts = arg_texts(args@);
    let mut listen = String::from_str("0.0.0.0:50051");
    let mut hs256_secret = String::from_str("development-secret");
    let n = args.len();
    let mut i: usize = 0;
    while i < n
        invariant
            n == args@.len(),
            texts == arg_texts(args@),
            i <= n,
            options_from(texts, 0, default_listen(), default_secret()) == options_from(
                texts,
                i as int,
                listen@,
                hs256_secret@,
            ),
        decreases n - i,
    {
        let is_listen = str_eq(args[i].as_str(), "--listen");
        let is_secret = str_eq(args[i].as_str(), "--hs256-secret");
        assert(texts[i as int] == args@[i as int]@);
        if is_listen && i + 1 < n {
            assert(texts[i + 1] == args@[i + 1]@);
            listen = args[i + 1].clone();
            i = i + 2;
        } else if is_secret && i + 1 < n {
            assert(texts[i + 1] == args@[i + 1]@);
            hs256_secret = args[i + 1].clone();
            i = i + 2;
        } else {
            i = i + 1;
        }
    }
    CliOptions { listen, hs256_secret }
}

/// Reading from an offset into a longer argument list is reading the rest on its own.
proof fn lemma_options_shift(
    a: Seq<Seq<char>>,
    b: Seq<Seq<char>>,
    j: int,
    listen: Seq<char>,
    secret: Seq<char>,
)
    requires
        0 <= j,
    ensures
        options_from(a + b, a.len() + j, listen, secret) == options_from(b, j, listen, secret),
    decreases b.len() - j,
{
    let ab = a + b;
    if j < b.len() {
        assert(ab[a.len() + j] == b[j]);
        if j + 1 < b.len() {
            assert(ab[a.len() + j + 1] == b[j + 1]);
            lemma_options_shift(a, b, j + 2, b[j + 1], secret);
            lemma_options_shift(a, b, j + 2, listen, b[j + 1]);
        }
        lemma_options_shift(a, b, j + 1, listen, secret);
    }
}

/// How the command line is read, argument by argument from the front, whatever follows:
/// `--listen` and `--hs256-secret` each take the next argument as their value and
/// reading goes on after it; a flag with no value and any other argument change
/// nothing; at the end the values read stand. So the address is the value of the last
/// `--listen` read as a flag and the secret that of the last `--hs256-secret`, in any
/// order.
pub proof fn lemma_arguments_read_in_order(
    rest: Seq<Seq<char>>,
    value: Seq<char>,
    other: Seq<char>,
    listen: Seq<char>,
    secret: Seq<char>,
)
    ensures
        options_from(Seq::empty(), 0, listen, secret) == (listen, secret),
        options_from(seq!["--listen"@, value] + rest, 0, listen, secret) == options_from(
            rest,
            0,
            value,
            secret,
        ),
        options_from(seq!["--hs256-secret"@, value] + rest, 0, listen, secret) == options_from(
            rest,
            0,
            listen,
            value,
        ),
        other != "--listen"@ && other != "--hs256-secret"@ ==> options_from(
            seq![other] + rest,
            0,
            listen,
            secret,
        ) == options_from(rest, 0, listen, secret),
        options_from(seq!["--listen"@], 0, listen, secret) == (listen, secret),
        options_from(seq!["--hs256-secret"@], 0, listen, secret) == (listen, secret),
        options_from(seq!["--hs256-secret"@, secret, "--listen"@, value], 0, default_listen(), default_secret())
            == (value, secret),
        options_from(seq!["--listen"@, value, "--hs256-secret"@, secret], 0, default_listen(), default_secret())
            == (value, secret),
{
    reveal_strlit("--listen");
    reveal_strlit("--hs256-secret");
    assert("--listen"@.len() == 8 && "--hs256-secret"@.len() == 14);
    let p2 = seq!["--listen"@, value];
    let q2 = seq!["--hs256-secret"@, value];
    let o1 = seq![other];
    lemma_options_shift(p2, rest, 0, value, secret);
    lemma_options_shift(q2, rest, 0, listen, value);
    lemma_options_shift(o1, rest, 0, listen, secret);
    assert((p2 + rest)[0] == "--listen"@ && (p2 + rest)[1] == value);
    assert((q2 + rest)[0] == "--hs256-secret"@ && (q2 + rest)[1] == value);
    assert((o1 + rest)[0] == other);
    let x = seq!["--hs256-secret"@, secret, "--listen"@, value];
    let y = seq!["--listen"@, value, "--hs256-secret"@, secret];
    assert(x[2] == "--listen"@ && x[0] == "--hs256-secret"@ && x[1] == secret && x[3] == value);
    assert(options_from(x, 4, value, secret) == (value, secret));
    assert(options_from(x, 2, default_listen(), secret) == (value, secret));
    assert(y[2] == "--hs256-secret"@ && y[0] == "--listen"@ && y[1] == value && y[3] == secret);
    assert(options_from(y, 4, value, secret) == (value, secret));
    assert(options_from(y, 2, value, default_secret()) == (value, secret));
    assert("--hs256-secret"@ != "--listen"@);
    assert(options_from(seq!["--listen"@], 1, listen, secret) == (listen, secret));
    assert(options_from(seq!["--hs256-secret"@], 1, listen, secret) == (listen, secret));
    assert(options_from(x, 0, default_listen(), default_secret()) == options_from(
        x,
        2,
        default_listen(),
        secret,
    ));
    assert(options_from(y, 0, default_listen(), default_secret()) == options_from(
        y,
        2,
        value,
        default_secret(),
    ));
}

/// With no arguments the sidecar listens on the default address with the default secret.
pub proof fn lemma_no_arguments_give_defaults()
    ensures
        options_from(Seq::empty(), 0, default_listen(), default_secret()) == (
            default_listen(),
            default_secret(),
        ),
{
}

} // verus!
