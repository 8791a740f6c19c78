use vas_crucible::enforcer::ebpf_loader::{EbpfEnforcer, EnforcerError};
use vas_crucible::enforcer::syscalls::InterceptedSyscall;
use vas_crucible::sidecar::{default_docker_image, default_pty_dir_name, parse_args};

fn args(list: &[&str]) -> Vec<String> {
    list.iter().map(|s| s.to_string()).collect()
}

#[test]
fn command_line_defaults_and_overrides() {
    let o = parse_args(&args(&[]));
    assert_eq!(o.listen, "0.0.0.0:50051");
    assert_eq!(o.hs256_secret, "development-secret");

    let o = parse_args(&args(&["--listen", "127.0.0.1:9000", "--hs256-secret", "s3"]));
    assert_eq!(o.listen, "127.0.0.1:9000");
    assert_eq!(o.hs256_secret, "s3");

    // The last occurrence wins, unknown arguments are skipped, a trailing flag is ignored.
    let o = parse_args(&args(&["--listen", "a", "--verbose", "--listen", "b", "--hs256-secret"]));
    assert_eq!(o.listen, "b");
    assert_eq!(o.hs256_secret, "development-secret");

    // A flag takes the next argument whatever it is.
    let o = parse_args(&args(&["--listen", "--hs256-secret", "x"]));
    assert_eq!(o.listen, "--hs256-secret");
    assert_eq!(o.hs256_secret, "development-secret");
}

#[test]
fn sidecar_defaults() {
    assert_eq!(default_docker_image(), "alpine:3.20");
    assert_eq!(default_pty_dir_name(), "vas-crucible-pty");
}

#[test]
fn enforcer_is_not_available_in_this_build() {
    let error = EbpfEnforcer::load().err().expect("feature disabled");
    assert_eq!(error, EnforcerError::FeatureNotEnabled);
    assert_eq!(error.message(), "ebpf feature not enabled");
}

#[test]
fn syscall_numbers() {
    for (sc, n) in [
        (InterceptedSyscall::Execve, 59),
        (InterceptedSyscall::Open, 2),
        (InterceptedSyscall::Connect, 42),
        (InterceptedSyscall::Socket, 41),
    ] {
        assert_eq!(sc.number(), n);
    }
}
