use astrid_capsule::process::compat::{
    cursor_v10_to_v11, err_v11_to_v10, exit_v11_to_v10, kill_result_v11_to_v10, log_chunk_v11_to_v10,
    log_stream_v10_to_v11, process_info_v11_to_v10, process_infos_v11_to_v10,
    process_result_v11_to_v10,
    read_logs_v11_to_v10, signal_v10_to_v11, spawn_request_v10_to_v11,
};
use astrid_capsule::process::types::ErrorCode as B;
use astrid_capsule::process::v10::ErrorCode as A;
use astrid_capsule::process::{types as v11, v10};

#[test]
fn err_v11_to_v10_is_total_and_identity() {
    assert!(matches!(err_v11_to_v10(B::CapabilityDenied), A::CapabilityDenied));
    assert!(matches!(err_v11_to_v10(B::InvalidInput), A::InvalidInput));
    assert!(matches!(err_v11_to_v10(B::BoundaryEscape), A::BoundaryEscape));
    assert!(matches!(err_v11_to_v10(B::Quota), A::Quota));
    assert!(matches!(err_v11_to_v10(B::TooLarge), A::TooLarge));
    assert!(matches!(err_v11_to_v10(B::Closed), A::Closed));
    assert!(matches!(err_v11_to_v10(B::Cancelled), A::Cancelled));
    assert!(matches!(err_v11_to_v10(B::WaitTimeout), A::WaitTimeout));
    assert!(matches!(err_v11_to_v10(B::NoSuchProcess), A::NoSuchProcess));
    assert!(matches!(err_v11_to_v10(B::RegistryFull), A::RegistryFull));
    assert!(matches!(err_v11_to_v10(B::PersistUnsupported), A::PersistUnsupported));
    match err_v11_to_v10(B::Unknown("boom".into())) {
        A::Unknown(s) => assert_eq!(s, "boom"),
        other => panic!("Unknown did not round-trip: {other:?}"),
    }
}

#[test]
fn v10_spawn_request_becomes_v11_with_empty_injections() {
    let req = v10::SpawnRequest {
        cmd: "echo".into(),
        args: vec!["hi".into(), "there".into()],
        stdin: Some(vec![1, 2, 3]),
        env: vec![v10::EnvVar { key: "K".into(), value: "V".into() }],
        cwd: Some("sub/dir".into()),
        limits: Some(v10::ResourceLimits {
            max_memory_bytes: Some(1024),
            max_cpu_secs: Some(5),
            max_pids: Some(8),
            max_open_files: Some(64),
        }),
        label: Some("job".into()),
        keep_stdin_open: Some(true),
        overflow: Some(v10::OverflowPolicy::Backpressure),
        log_ring_bytes: Some(4096),
        max_lifetime_ms: Some(60_000),
        idle_timeout_ms: Some(30_000),
        exit_retention_ms: Some(15_000),
    };

    let out = spawn_request_v10_to_v11(req);

    assert!(out.file_injections.is_empty(), "@1.0.0 spawn must inject nothing");
    assert_eq!(out.cmd, "echo");
    assert_eq!(out.args, vec!["hi".to_string(), "there".to_string()]);
    assert_eq!(out.stdin, Some(vec![1, 2, 3]));
    assert_eq!(out.env.len(), 1);
    assert_eq!(out.env[0].key, "K");
    assert_eq!(out.env[0].value, "V");
    assert_eq!(out.cwd.as_deref(), Some("sub/dir"));
    let limits = out.limits.expect("limits preserved");
    assert_eq!(limits.max_memory_bytes, Some(1024));
    assert_eq!(limits.max_cpu_secs, Some(5));
    assert_eq!(limits.max_pids, Some(8));
    assert_eq!(limits.max_open_files, Some(64));
    assert_eq!(out.label.as_deref(), Some("job"));
    assert_eq!(out.keep_stdin_open, Some(true));
    assert!(matches!(out.overflow, Some(v11::OverflowPolicy::Backpressure)));
    assert_eq!(out.log_ring_bytes, Some(4096));
    assert_eq!(out.max_lifetime_ms, Some(60_000));
    assert_eq!(out.idle_timeout_ms, Some(30_000));
    assert_eq!(out.exit_retention_ms, Some(15_000));
}

#[test]
fn process_info_round_trips_v11_to_v10() {
    let info = v11::ProcessInfo {
        id: "abc".into(),
        label: "svc".into(),
        command: "sleep 1".into(),
        os_pid: Some(4321),
        phase: v11::ProcessPhase::Running,
        exit: Some(v11::ExitInfo { exit_code: Some(0), signal: None }),
        age_ms: 100,
        idle_ms: 10,
        buffered_bytes: 2048,
        bytes_dropped: 3,
        stdin_open: true,
        cpu_ms: Some(7),
        mem_bytes_peak: Some(9999),
    };

    let out = process_info_v11_to_v10(info);
    assert_eq!(out.id, "abc");
    assert_eq!(out.label, "svc");
    assert_eq!(out.command, "sleep 1");
    assert_eq!(out.os_pid, Some(4321));
    assert!(matches!(out.phase, v10::ProcessPhase::Running));
    let exit = out.exit.expect("exit preserved");
    assert_eq!(exit.exit_code, Some(0));
    assert_eq!(exit.signal, None);
    assert_eq!(out.age_ms, 100);
    assert_eq!(out.idle_ms, 10);
    assert_eq!(out.buffered_bytes, 2048);
    assert_eq!(out.bytes_dropped, 3);
    assert!(out.stdin_open);
    assert_eq!(out.cpu_ms, Some(7));
    assert_eq!(out.mem_bytes_peak, Some(9999));
}

#[test]
fn signal_and_log_stream_map_across_versions() {
    assert!(matches!(signal_v10_to_v11(v10::ProcessSignal::Term), v11::ProcessSignal::Term));
    assert!(matches!(signal_v10_to_v11(v10::ProcessSignal::Cont), v11::ProcessSignal::Cont));
    assert!(matches!(log_stream_v10_to_v11(v10::LogStream::Stderr), v11::LogStream::Stderr));
}

#[test]
fn log_chunk_round_trips_v11_to_v10() {
    let chunk = v11::LogChunk {
        data: vec![9, 8, 7],
        next: v11::LogCursor { token: Some("cur".into()) },
        bytes_dropped: 42,
        drained_eof: true,
    };
    let out = log_chunk_v11_to_v10(chunk);
    assert_eq!(out.data, vec![9, 8, 7]);
    assert_eq!(out.next.token.as_deref(), Some("cur"));
    assert_eq!(out.bytes_dropped, 42);
    assert!(out.drained_eof);
}

#[test]
fn results_keep_every_field() {
    let exit = v11::ExitInfo { exit_code: Some(2), signal: Some(9) };
    let old = v10::ExitInfo { exit_code: Some(2), signal: Some(9) };
    assert_eq!(exit_v11_to_v10(exit), old);
    let result = process_result_v11_to_v10(v11::ProcessResult {
        stdout: "o".into(),
        stderr: "e".into(),
        exit,
    });
    assert_eq!((result.stdout.as_str(), result.stderr.as_str()), ("o", "e"));
    assert_eq!(result.exit, old);
    let logs = read_logs_v11_to_v10(v11::ReadLogsResult {
        stdout: "o".into(),
        stderr: "e".into(),
        running: true,
        exit: Some(exit),
    });
    assert!(logs.running);
    assert_eq!(logs.exit, Some(old));
    let kill = kill_result_v11_to_v10(v11::KillResult {
        killed: true,
        exit: None,
        stdout: "o".into(),
        stderr: "e".into(),
    });
    assert!(kill.killed && kill.exit.is_none());
    assert_eq!(kill.stdout, "o");
}

#[test]
fn lists_and_cursors_keep_their_order() {
    let info = |id: &str| v11::ProcessInfo {
        id: id.into(),
        label: "svc".into(),
        command: "sleep 1".into(),
        os_pid: None,
        phase: v11::ProcessPhase::Exited,
        exit: None,
        age_ms: 1,
        idle_ms: 2,
        buffered_bytes: 3,
        bytes_dropped: 4,
        stdin_open: false,
        cpu_ms: None,
        mem_bytes_peak: None,
    };
    let out = process_infos_v11_to_v10(vec![info("a"), info("b")]);
    assert_eq!(out.len(), 2);
    assert_eq!((out[0].id.as_str(), out[1].id.as_str()), ("a", "b"));
    assert!(matches!(out[0].phase, v10::ProcessPhase::Exited));
    assert!(process_infos_v11_to_v10(vec![]).is_empty());
    let cursor = cursor_v10_to_v11(v10::LogCursor { token: Some("t".into()) });
    assert_eq!(cursor.token.as_deref(), Some("t"));
}
