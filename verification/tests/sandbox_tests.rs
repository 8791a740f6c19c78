use vas_crucible::sandbox::docker::{
    check_local_bounds, collect_output, command_for, container_alive, local_exit_code, container_sandbox_id, container_spec, exit_code_of,
    local_last_seen, local_sandbox_id, shell_command, workspace_bind, OutputStream,
};
use vas_crucible::sandbox::limits::ResourceLimitConfig;
use vas_crucible::sandbox::pty::PtySession;
use vas_crucible::sandbox::table::KeyedTable;
use vas_crucible::sandbox::{seconds_since_epoch, SandboxError, SandboxInfo, SandboxRegistry, SandboxStatus};

fn info(id: &str, created_at: i64) -> SandboxInfo {
    SandboxInfo {
        sandbox_id: id.to_string(),
        pty_path: format!("/tmp/{id}.pty"),
        created_at,
    }
}

#[test]
fn default_limits_are_valid() {
    let limits = ResourceLimitConfig::default();
    assert_eq!(limits.cpu_cores, 1);
    assert_eq!(limits.memory_mb, 512);
    assert!(!limits.network_enabled);
    assert!(limits.validate().is_ok());
}

#[test]
fn limit_validation_names_the_offending_limit() {
    let too_many_cores = ResourceLimitConfig {
        cpu_cores: 2,
        memory_mb: 512,
        network_enabled: false,
    };
    let error = too_many_cores.validate().expect_err("limits should fail");
    assert!(error.message().contains("cpu_cores"));
    assert_eq!(error.message(), "cpu_cores must be between 1 and 1");

    let no_cores = ResourceLimitConfig {
        cpu_cores: 0,
        memory_mb: 0,
        network_enabled: false,
    };
    assert_eq!(no_cores.validate(), Err(SandboxError::InvalidCpuCores));

    let too_much_memory = ResourceLimitConfig {
        cpu_cores: 1,
        memory_mb: 513,
        network_enabled: true,
    };
    let error = too_much_memory.validate().expect_err("memory should fail");
    assert_eq!(error.message(), "memory_mb must be between 1 and 512");

    let least = ResourceLimitConfig {
        cpu_cores: 1,
        memory_mb: 1,
        network_enabled: true,
    };
    assert!(least.validate().is_ok());
}

#[test]
fn host_config_enforces_limits() {
    let limits = ResourceLimitConfig::default();
    let host = limits.to_host_config(vec!["/w:/workspace:rw".to_string()]);
    assert_eq!(host.binds, vec!["/w:/workspace:rw".to_string()]);
    assert_eq!(host.memory, 512 * 1024 * 1024);
    assert_eq!(host.nano_cpus, 1_000_000_000);
    assert_eq!(host.network_mode, "none");
    assert!(host.auto_remove);

    let networked = ResourceLimitConfig {
        network_enabled: true,
        ..limits
    };
    assert_eq!(networked.to_host_config(vec![]).network_mode, "bridge");
}

#[test]
fn container_commands_per_language() {
    assert_eq!(
        command_for("bash", "printf 'hello\\n'").unwrap(),
        vec!["/bin/sh", "-lc", "printf 'hello\\n'"]
    );
    assert_eq!(command_for("sh", "ls").unwrap(), vec!["/bin/sh", "-lc", "ls"]);
    assert_eq!(
        command_for("python", "print(1)").unwrap(),
        vec!["/bin/sh", "-lc", "python3 - <<'PY'\nprint(1)\nPY"]
    );
    let error = command_for("ruby", "puts 1").expect_err("unsupported");
    assert_eq!(error, SandboxError::UnsupportedLanguage("ruby".to_string()));
    assert_eq!(error.message(), "unsupported language: ruby");
}

#[test]
fn local_commands_per_platform() {
    assert_eq!(
        shell_command("bash", "echo hi", false).unwrap(),
        vec!["/bin/sh", "-lc", "echo hi"]
    );
    assert_eq!(
        shell_command("python", "print(1)", false).unwrap(),
        vec!["/bin/sh", "-lc", "python3 - <<'PY'\nprint(1)\nPY"]
    );
    assert_eq!(
        shell_command("sh", "Write-Output 'hello'", true).unwrap(),
        vec!["powershell", "-NoProfile", "-Command", "Write-Output 'hello'"]
    );
    assert_eq!(
        shell_command("python", "print(1)", true).unwrap(),
        vec!["powershell", "-NoProfile", "-Command", "@'\nprint(1)\n'@ | python -"]
    );
    assert!(shell_command("go", "x", false).is_err());
}

#[test]
fn sandbox_ids_and_binds() {
    assert_eq!(container_sandbox_id("abc"), "sandbox-abc");
    assert_eq!(local_sandbox_id("abc"), "local-abc");
    assert_eq!(workspace_bind("/home/w"), "/home/w:/workspace:rw");
}

#[test]
fn container_spec_values() {
    let limits = ResourceLimitConfig::default();
    let spec = container_spec("sandbox-1", "alpine:3.20", &limits, "/ws");
    assert_eq!(spec.name, "sandbox-1");
    assert_eq!(spec.image, "alpine:3.20");
    assert_eq!(spec.cmd, vec!["/bin/sh", "-lc", "sleep infinity"]);
    assert_eq!(spec.working_dir, "/workspace");
    assert!(spec.tty && spec.open_stdin);
    assert_eq!(spec.healthcheck.test, vec!["CMD-SHELL", "test -d /workspace"]);
    assert_eq!(spec.healthcheck.interval, 5_000_000_000);
    assert_eq!(spec.healthcheck.timeout, 2_000_000_000);
    assert_eq!(spec.healthcheck.retries, 3);
    assert_eq!(spec.healthcheck.start_period, 1_000_000_000);
    assert_eq!(spec.host_config.binds, vec!["/ws:/workspace:rw"]);
    assert_eq!(spec.host_config.memory, 536_870_912);
}

#[test]
fn exit_codes_and_local_checks() {
    assert_eq!(exit_code_of(Some(3)), 3);
    assert_eq!(exit_code_of(None), 0);
    assert_eq!(exit_code_of(Some(4_294_967_297)), 1);
    assert_eq!(exit_code_of(Some(-1)), -1);
    assert_eq!(local_exit_code(Some(2)), 2);
    assert_eq!(local_exit_code(None), -1);

    assert!(check_local_bounds(&ResourceLimitConfig::default()).is_ok());
    let big = ResourceLimitConfig {
        cpu_cores: 1,
        memory_mb: 1024,
        network_enabled: false,
    };
    assert_eq!(check_local_bounds(&big), Err(SandboxError::LocalBoundsExceeded));
    assert_eq!(
        SandboxError::LocalBoundsExceeded.message(),
        "resource limits exceed local backend bounds"
    );

    assert_eq!(local_last_seen(100, 50), 100);
    assert_eq!(local_last_seen(100, 150), 150);
}

#[test]
fn registry_records_the_lifecycle_of_a_sandbox() {
    let mut registry = SandboxRegistry::new();
    assert_eq!(registry.len(), 0);
    registry.record_created(info("local-1", 10), "agent-1".to_string(), 11);
    registry.record_created(info("local-2", 20), "agent-2".to_string(), 21);
    assert_eq!(registry.len(), 2);

    let rec = registry.get("local-1").expect("registered");
    assert_eq!(rec.agent_id, "agent-1");
    assert_eq!(rec.last_seen, 11);
    assert_eq!(rec.info.created_at, 10);

    registry.record_activity("local-1", 30);
    assert_eq!(registry.get("local-1").unwrap().last_seen, 30);
    registry.record_activity("missing", 40);
    assert_eq!(registry.len(), 2);

    registry.record_heartbeat(
        "local-2",
        &SandboxStatus {
            alive: false,
            last_seen: 99,
        },
    );
    assert_eq!(registry.get("local-2").unwrap().last_seen, 21);
    registry.record_heartbeat(
        "local-2",
        &SandboxStatus {
            alive: true,
            last_seen: 99,
        },
    );
    assert_eq!(registry.get("local-2").unwrap().last_seen, 99);

    registry.record_terminated("local-1");
    assert!(registry.get("local-1").is_none());
    assert_eq!(registry.get("local-2").unwrap().agent_id, "agent-2");
    assert_eq!(registry.len(), 1);
}

#[test]
fn re_creating_an_id_replaces_its_record() {
    let mut registry = SandboxRegistry::new();
    registry.record_created(info("s", 1), "a".to_string(), 1);
    registry.record_created(info("s", 2), "b".to_string(), 2);
    assert_eq!(registry.len(), 1);
    assert_eq!(registry.get("s").unwrap().agent_id, "b");
}

#[test]
fn table_reports_missing_sandboxes() {
    let mut table: KeyedTable<u32> = KeyedTable::new();
    table.insert("sandbox-1".to_string(), 7);
    assert_eq!(table.require("sandbox-1").ok(), Some(&7));
    assert_eq!(table.take("sandbox-1"), Ok(7));
    let error = table.require("sandbox-1").err().expect("gone");
    assert!(error.message().contains("sandbox not found"));
    assert_eq!(error.message(), "sandbox not found: sandbox-1");
    assert_eq!(table.take("sandbox-1"), Err(SandboxError::NotFound("sandbox-1".to_string())));
    assert_eq!(table.remove("sandbox-1"), None);
}

#[test]
fn session_log_records() {
    assert_eq!(PtySession::file_name("abc"), "abc.pty");
    assert_eq!(PtySession::banner(), "vas-crucible pty session\n");
    assert_eq!(
        PtySession::output_record("out", "err"),
        "stdout:\nout\nstderr:\nerr\n"
    );
    assert_eq!(PtySession::output_record("", "err"), "stderr:\nerr\n");
    assert_eq!(PtySession::output_record("out", ""), "stdout:\nout\n");
    assert_eq!(PtySession::output_record("", ""), "");
    let session = PtySession::from_path("/tmp/x.pty".to_string());
    assert_eq!(session.path(), "/tmp/x.pty");
}

#[test]
fn clock_reads_a_recent_time() {
    // 2023-11-14 in Unix seconds; the clock must read later than that.
    assert!(vas_crucible::sandbox::unix_now() > 1_700_000_000);
}

#[test]
fn container_is_alive_only_when_running() {
    assert!(container_alive(Some(true)));
    assert!(!container_alive(Some(false)));
    assert!(!container_alive(None));
}

#[test]
fn clock_readings_become_epoch_seconds() {
    assert_eq!(seconds_since_epoch(Ok(1_700_000_123)), 1_700_000_123);
    assert_eq!(seconds_since_epoch(Ok(0)), 0);
    assert_eq!(seconds_since_epoch(Err(5)), -5);
    assert_eq!(seconds_since_epoch(Err(i64::MAX as u64)), -i64::MAX);
    assert_eq!(seconds_since_epoch(Err(u64::MAX)), i64::MIN);
    assert_eq!(seconds_since_epoch(Ok(u64::MAX)), -1);
}

#[test]
fn cloned_session_names_the_same_log() {
    let session = PtySession::from_path("/tmp/pty/abc.pty".to_string());
    let copy = session.clone();
    assert_eq!(copy.path(), session.path());
    assert_eq!(copy.path(), "/tmp/pty/abc.pty");
}

#[test]
fn exec_output_goes_to_its_stream() {
    let mut stdout = String::from("a");
    let mut stderr = String::new();
    collect_output(OutputStream::StdOut, "b", &mut stdout, &mut stderr);
    collect_output(OutputStream::StdErr, "oops", &mut stdout, &mut stderr);
    collect_output(OutputStream::Other, "echo", &mut stdout, &mut stderr);
    assert_eq!(stdout, "ab");
    assert_eq!(stderr, "oops");
}
