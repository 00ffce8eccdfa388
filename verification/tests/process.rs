use astrid_capsule::audit::{AuditEvent, AuditOutcome};
use astrid_capsule::host_state::types::PrincipalId;
use astrid_capsule::process::audit::{
    audit_process, audit_process_id, audit_process_injections, audit_spawn_result, env_summary,
    injection_line, is_spawn_op, record_process_denied, signal_descriptor,
};
use astrid_capsule::process::context::{
    home_to_resolve, map_fs_path_error, passthrough_keys, prepare_spawn_context, relative_cwd,
    reserved_process_env, resolve_workspace_cwd, valid_env_key, ContextInputs, FsErrorCode,
    WriteCandidate,
};
use astrid_capsule::process::counts::{process_cap, ProcessCounts};
use astrid_capsule::process::inert;
use astrid_capsule::process::inject::{
    check_injection, pin, prepare_injections, validate_env_name, validate_fixed_path,
    verify_snapshot, SnapshotStep,
};
use astrid_capsule::process::managed::{
    kill_and_reap, merge_env, prepare_sandboxed_command, resolve_program, sandbox_error, ChildPoll, KillAnswer,
    ManagedProcess, OutputBuffer, PrepareCommandError, WaitAnswer, MAX_BUFFER_BYTES,
};
use astrid_capsule::process::ops;
use astrid_capsule::process::persistent::config::{
    clamp_label, clamp_log_ring, resolve_ttls, stop_grace, MAX_LABEL_BYTES,
};
use astrid_capsule::process::persistent::entry::{exit_record, ExitRecord};
use astrid_capsule::process::persistent::ids::{base32_lower, mint_id};
use astrid_capsule::process::platform::{
    group_signal_result, name_of_signal, raw_pid, root_signal_result, signal_process_tree,
    signal_root_process, signal_supported, terminate_result, usable_pid, SignalError, SignalPlan,
    Termination,
};
use astrid_capsule::process::tracker::{FirstSignal, Platform, ProcessTracker, TrackedOwner};
use astrid_capsule::process::types::{
    EnvVar, ErrorCode, ExitInfo, FileInjection, InjectionPlacement, ProcessSignal, SpawnRequest,
};
use astrid_capsule::process::windows::{
    absolute_path, bare_name, chosen_place, env_value, extension, leads_to_batch, program_plan,
    resolve_planned_program, resolve_windows_candidate, resolve_windows_program,
    windows_candidates, windows_executable_extensions, ProgramPlan, ProgramSearch,
};

fn principal(name: &str) -> PrincipalId {
    PrincipalId { name: name.to_owned() }
}

fn pair(a: &str, b: &str) -> (String, String) {
    (a.to_owned(), b.to_owned())
}

fn request(cmd: &str) -> SpawnRequest {
    SpawnRequest {
        cmd: cmd.to_owned(),
        args: vec![],
        stdin: None,
        env: vec![],
        cwd: None,
        limits: None,
        label: None,
        keep_stdin_open: None,
        overflow: None,
        log_ring_bytes: None,
        max_lifetime_ms: None,
        idle_timeout_ms: None,
        exit_retention_ms: None,
        file_injections: vec![],
    }
}

fn var(key: &str, value: &str) -> EnvVar {
    EnvVar { key: key.to_owned(), value: value.to_owned() }
}

fn inputs() -> ContextInputs {
    ContextInputs {
        passthrough: vec![pair("PATH", "/bin"), pair("LANG", "C")],
        home_env: Ok("/home/alice".to_owned()),
        home_cwd: Ok("/home/alice/work".to_owned()),
        workspace_root: "/ws".to_owned(),
        canonical_root: "/real/ws".to_owned(),
        canonical_cwd: None,
        home_root: Some("/home/alice".to_owned()),
        gate_present: true,
        write_candidates: vec![],
    }
}

// ---- tracking ----

#[test]
fn register_adds_pid() {
    let mut t = ProcessTracker::new();
    t.register(42, None);
    assert_eq!(t.active_pids_snapshot(), vec![42]);
    assert!(t.has_active(&vec![]));
}

#[test]
fn unregister_removes_pid() {
    let mut t = ProcessTracker::new();
    t.register(42, None);
    t.register(99, Some("call-a".into()));
    t.unregister(42);
    assert_eq!(t.active_pids_snapshot(), vec![99]);
}

#[test]
fn pid_zero_is_rejected() {
    let mut t = ProcessTracker::new();
    t.register(0, None);
    assert!(t.active_pids_snapshot().is_empty());
}

#[test]
fn double_register_overwrites_call_id() {
    let mut t = ProcessTracker::new();
    t.register(42, Some("call-a".into()));
    t.register(42, Some("call-b".into()));
    assert_eq!(t.active_pids_snapshot(), vec![42]);
}

#[test]
fn unregister_after_register_clears_call_id_match() {
    let mut t = ProcessTracker::new();
    t.register(42, Some("call-a".into()));
    t.unregister(42);
    assert!(t.active_pids_snapshot().is_empty());
}

#[test]
fn stale_unregister_does_not_remove_reused_pid_owner() {
    let mut t = ProcessTracker::new();
    t.register_tree(42, 100, Some("old".into()));
    t.register_tree(42, 200, Some("new".into()));

    t.unregister_identity(42, 100);
    assert_eq!(t.active_pids_snapshot(), vec![42]);
    assert_eq!(t.owner_of(42), Some(TrackedOwner::Tree(200)));
}

#[test]
fn cancelled_calls_take_only_their_own_children() {
    let mut t = ProcessTracker::new();
    t.register(10, Some("call-a".into()));
    t.register(20, Some("call-b".into()));
    t.register(30, None);
    t.register_tree(40, 7, Some("call-a".into()));
    let pids = |targets: Vec<astrid_capsule::process::tracker::CancellationTarget>| {
        targets.iter().map(|t| t.pid).collect::<Vec<u32>>()
    };
    let a = vec!["call-a".to_owned()];
    assert_eq!(pids(t.cancel_by_call_ids(&a, &vec![7])), vec![10, 30, 40]);
    assert_eq!(pids(t.cancel_by_call_ids(&a, &vec![])), vec![10, 30]);
    assert!(t.cancel_by_call_ids(&vec![], &vec![7]).is_empty());
    assert_eq!(pids(t.cancel_all(&vec![7])), vec![10, 20, 30, 40]);
    assert!(t.has_active(&vec![]));
    assert_eq!(t.active_pids_snapshot(), vec![10, 20, 30]);
}

#[test]
fn cancelling_interrupts_first_on_unix() {
    let mut t = ProcessTracker::new();
    t.register(10, None);
    t.register_tree(40, 7, None);
    let targets = t.cancel_all(&vec![7]);
    let unix = ProcessTracker::signal_targets(&targets, Platform::Unix);
    assert_eq!(unix.now, vec![FirstSignal::InterruptPid(10), FirstSignal::InterruptRoot(7)]);
    assert_eq!(unix.recheck.len(), 2);
    let windows = ProcessTracker::signal_targets(&targets, Platform::Windows);
    assert_eq!(windows.now, vec![FirstSignal::TerminateTree(7)]);
    assert!(windows.recheck.is_empty());
}

#[test]
fn reused_process_ids_are_spared() {
    let mut t = ProcessTracker::new();
    t.register(10, None);
    t.register_tree(40, 7, None);
    t.register_tree(50, 8, None);
    let targets = t.cancel_all(&vec![7, 8]);
    let plan = ProcessTracker::signal_targets(&targets, Platform::Unix);
    assert_eq!(t.escalate(&plan.recheck), vec![10, 40, 50]);
    t.unregister(10);
    t.register_tree(40, 9, None);
    assert_eq!(t.escalate(&plan.recheck), vec![50]);
}

#[test]
fn inert_tracking_cancels_nothing() {
    let mut t = inert::ProcessTracker::new();
    t.register(5);
    assert!(t.contains(5));
    assert!(t.cancel_by_call_ids(&vec!["a".to_owned()]).is_empty());
    t.unregister(5);
    assert!(!t.contains(5));
}

// ---- environment and working directory ----

#[test]
fn environment_keys_are_strict_and_portable() {
    assert!(valid_env_key("HOME"));
    assert!(valid_env_key("_AOS_1"));
    assert!(!valid_env_key(""));
    assert!(!valid_env_key("1HOME"));
    assert!(!valid_env_key("BAD-NAME"));
    assert!(reserved_process_env("PATH"));
    assert!(reserved_process_env("LD_PRELOAD"));
    assert!(reserved_process_env("DYLD_INSERT_LIBRARIES"));
    assert!(reserved_process_env("ASTRID_SESSION_TOKEN"));
    assert!(!reserved_process_env("ANTHROPIC_API_KEY"));
}

#[test]
fn working_directories_stay_in_the_workspace() {
    let inside = Some("/real/ws/inside".to_owned());
    assert_eq!(
        resolve_workspace_cwd("inside", "/real/ws", &inside),
        Ok("/real/ws/inside".to_owned())
    );
    assert_eq!(
        resolve_workspace_cwd("cwd://inside", "/real/ws", &inside),
        Ok("/real/ws/inside".to_owned())
    );
    assert_eq!(
        resolve_workspace_cwd("../outside", "/real/ws", &inside),
        Err(ErrorCode::BoundaryEscape)
    );
    assert_eq!(
        resolve_workspace_cwd("/outside", "/real/ws", &inside),
        Err(ErrorCode::BoundaryEscape)
    );
    assert_eq!(
        resolve_workspace_cwd("escape", "/real/ws", &Some("/real/outside".to_owned())),
        Err(ErrorCode::BoundaryEscape)
    );
    assert_eq!(resolve_workspace_cwd("gone", "/real/ws", &None), Err(ErrorCode::InvalidInput));
    assert_eq!(relative_cwd("cwd://a/b"), Ok("a/b".to_owned()));
}

#[test]
fn contexts_start_from_what_is_inherited() {
    let mut r = request("ls");
    r.env = vec![var("ZED", "1"), var("LANG", "de")];
    let context = match prepare_spawn_context(&r, &inputs()) {
        Ok(context) => context,
        Err(code) => panic!("{code:?}"),
    };
    assert_eq!(context.cwd, "/ws");
    assert_eq!(context.env, vec![pair("LANG", "de"), pair("PATH", "/bin"), pair("ZED", "1")]);
    assert!(context.read_paths.is_empty() && context.write_paths.is_empty());
    let mut more = inputs();
    more.passthrough.push(pair("AWS_SECRET", "s"));
    more.passthrough.push(pair("TZ", "UTC"));
    match prepare_spawn_context(&r, &more) {
        Ok(context) => assert_eq!(
            context.env,
            vec![pair("LANG", "de"), pair("PATH", "/bin"), pair("TZ", "UTC"), pair("ZED", "1")]
        ),
        Err(code) => panic!("{code:?}"),
    }
    assert_eq!(passthrough_keys(), vec!["PATH", "LANG", "LC_ALL", "LC_CTYPE", "TZ"]);
}

fn context_error(env: Vec<EnvVar>, cwd: Option<&str>, inputs: &ContextInputs) -> ErrorCode {
    let mut r = request("ls");
    r.env = env;
    r.cwd = cwd.map(str::to_owned);
    match prepare_spawn_context(&r, inputs) {
        Ok(_) => panic!("not refused"),
        Err(code) => code,
    }
}

#[test]
fn contexts_are_refused_for_the_first_thing_wrong() {
    let ok = inputs();
    let many = (0..257).map(|i| var(&format!("K{i}"), "")).collect::<Vec<EnvVar>>();
    assert_eq!(context_error(many, None, &ok), ErrorCode::TooLarge);
    assert_eq!(context_error(vec![var("BAD-KEY", "")], None, &ok), ErrorCode::InvalidInput);
    assert_eq!(context_error(vec![var("K", "a\0b")], None, &ok), ErrorCode::InvalidInput);
    assert_eq!(
        context_error(vec![var("K", &"x".repeat(65537))], None, &ok),
        ErrorCode::InvalidInput
    );
    assert_eq!(
        context_error(vec![var("K", "1"), var("K", "2")], None, &ok),
        ErrorCode::InvalidInput
    );
    assert_eq!(context_error(vec![var("LD_PRELOAD", "x")], None, &ok), ErrorCode::InvalidInput);
    assert_eq!(context_error(vec![], Some("../x"), &ok), ErrorCode::BoundaryEscape);
    assert_eq!(context_error(vec![], Some("gone"), &ok), ErrorCode::InvalidInput);
    let mut denied = inputs();
    denied.home_env = Err(FsErrorCode::Access);
    assert_eq!(
        context_error(vec![var("HOME", "home://"), var("BAD-KEY", "")], Some("../x"), &denied),
        ErrorCode::CapabilityDenied
    );
    let mut homeless = inputs();
    homeless.home_root = None;
    assert_eq!(
        context_error(vec![var("HOME", "home://")], None, &homeless),
        ErrorCode::CapabilityDenied
    );
    let mut ungated = inputs();
    ungated.gate_present = false;
    assert_eq!(
        context_error(vec![], Some("home://work"), &ungated),
        ErrorCode::CapabilityDenied
    );
}

#[test]
fn homes_come_with_the_directories_children_may_write() {
    let mut i = inputs();
    i.write_candidates = vec![
        WriteCandidate { path: "/home/alice/b".to_owned(), exists: true, authorized: Ok(()) },
        WriteCandidate { path: "/home/alice/a".to_owned(), exists: true, authorized: Ok(()) },
        WriteCandidate {
            path: "/home/alice/none".to_owned(),
            exists: false,
            authorized: Err(FsErrorCode::Other),
        },
        WriteCandidate {
            path: "/etc".to_owned(),
            exists: true,
            authorized: Err(FsErrorCode::Other),
        },
    ];
    let mut r = request("ls");
    r.env = vec![var("HOME", "home://")];
    r.cwd = Some("home://work".to_owned());
    assert_eq!(home_to_resolve(&r).as_deref(), Some("home://"));
    let context = match prepare_spawn_context(&r, &i) {
        Ok(context) => context,
        Err(code) => panic!("{code:?}"),
    };
    assert_eq!(context.cwd, "/home/alice/work");
    assert!(context.env.contains(&pair("HOME", "/home/alice")));
    assert_eq!(context.read_paths, vec!["/home/alice", "/home/alice/work"]);
    assert_eq!(context.write_paths, vec!["/home/alice/a", "/home/alice/b"]);
    i.write_candidates[1].authorized = Err(FsErrorCode::Quota);
    assert_eq!(context_error(vec![var("HOME", "home://")], None, &i), ErrorCode::Quota);
    r.env = vec![var("BAD-KEY", ""), var("HOME", "home://")];
    assert_eq!(home_to_resolve(&r), None);
}

#[test]
fn path_refusals_map_to_codes() {
    assert_eq!(map_fs_path_error(FsErrorCode::BoundaryEscape), ErrorCode::BoundaryEscape);
    assert_eq!(map_fs_path_error(FsErrorCode::CapabilityDenied), ErrorCode::CapabilityDenied);
    assert_eq!(map_fs_path_error(FsErrorCode::Access), ErrorCode::CapabilityDenied);
    assert_eq!(map_fs_path_error(FsErrorCode::TooLarge), ErrorCode::TooLarge);
    assert_eq!(map_fs_path_error(FsErrorCode::Quota), ErrorCode::Quota);
    assert_eq!(map_fs_path_error(FsErrorCode::Other), ErrorCode::InvalidInput);
}

// ---- injected files ----

#[test]
fn validate_env_name_rejects_empty_and_specials() {
    assert!(matches!(validate_env_name(""), Err(ErrorCode::InvalidInput)));
    assert!(matches!(validate_env_name("FOO=BAR"), Err(ErrorCode::InvalidInput)));
    assert!(matches!(validate_env_name("FOO\0BAR"), Err(ErrorCode::InvalidInput)));
    assert!(matches!(validate_env_name("ASTRID_SESSION_TOKEN"), Err(ErrorCode::InvalidInput)));
    assert!(matches!(validate_env_name("LD_PRELOAD"), Err(ErrorCode::InvalidInput)));
}

#[test]
fn validate_env_name_accepts_normal() {
    assert!(validate_env_name("CLAUDE_CODE_MANAGED_SETTINGS_PATH").is_ok());
}

#[test]
fn validate_fixed_path_rejects_relative_and_specials() {
    assert!(matches!(validate_fixed_path("relative/path"), Err(ErrorCode::InvalidInput)));
    assert!(matches!(validate_fixed_path("/etc/ev\"il"), Err(ErrorCode::InvalidInput)));
    assert!(matches!(validate_fixed_path("/etc/ev\\il"), Err(ErrorCode::InvalidInput)));
    assert!(matches!(validate_fixed_path("/etc/ev\0il"), Err(ErrorCode::InvalidInput)));
}

#[test]
fn validate_fixed_path_rejects_parent_dir_escape() {
    assert!(matches!(
        validate_fixed_path("/etc/agent/../../escape"),
        Err(ErrorCode::InvalidInput)
    ));
}

#[test]
fn validate_fixed_path_accepts_absolute_clean() {
    assert!(validate_fixed_path("/etc/codex/requirements.toml").is_ok());
}

#[test]
fn write_and_verify_detects_mismatch() {
    let wrong_pin = pin(&b"some other bytes".to_vec());
    let err = verify_snapshot(&Some(b"actual bytes".to_vec()), &wrong_pin).unwrap_err();
    assert!(matches!(err, ErrorCode::Unknown(ref m) if m.contains("integrity check failed")));
}

#[test]
fn snapshots_are_held_against_their_digest() {
    let bytes = b"injected policy bytes".to_vec();
    let pinned = pin(&bytes);
    assert_eq!(verify_snapshot(&Some(bytes), &pinned), Ok(()));
    assert_eq!(
        verify_snapshot(&None, &pinned),
        Err(ErrorCode::Unknown("injection snapshot reread failed".to_owned()))
    );
    // The BLAKE3 digest of nothing.
    assert_eq!(
        pin(&vec![]),
        "af1349b9f5f9a1a6a0404dea36dcc9499bcb25c9adc112b7cc9a93cae41f3262"
    );
}

#[test]
fn empty_injections_is_noop() {
    match prepare_injections(&vec![], &vec![], true) {
        SnapshotStep::Finish(Ok(prepared)) => {
            assert!(prepared.sandbox.is_empty());
            assert!(prepared.env.is_empty());
            assert!(prepared.audit.is_empty());
        }
        _ => panic!("empty is ok"),
    }
}

fn env_file(content: &[u8], name: &str) -> FileInjection {
    FileInjection {
        content: content.to_vec(),
        placement: InjectionPlacement::EnvPointer(name.to_owned()),
    }
}

fn fixed_file(content: &[u8], path: &str) -> FileInjection {
    FileInjection {
        content: content.to_vec(),
        placement: InjectionPlacement::FixedPath(path.to_owned()),
    }
}

#[test]
fn files_are_written_one_by_one() {
    let files = vec![env_file(b"a", "POLICY"), fixed_file(b"b", "/etc/policy")];
    assert!(matches!(prepare_injections(&files, &vec![], true), SnapshotStep::Write(0)));
    let one = vec![Ok("/tmp/s/0".to_owned())];
    assert!(matches!(prepare_injections(&files, &one, true), SnapshotStep::Write(1)));
    let two = vec![Ok("/tmp/s/0".to_owned()), Ok("/tmp/s/1".to_owned())];
    match prepare_injections(&files, &two, true) {
        SnapshotStep::Finish(Ok(prepared)) => {
            assert_eq!(prepared.env, vec![pair("POLICY", "/tmp/s/0")]);
            assert_eq!(prepared.sandbox[0].target, "/tmp/s/0");
            assert_eq!(prepared.sandbox[1].source, "/tmp/s/1");
            assert_eq!(prepared.sandbox[1].target, "/etc/policy");
            assert_eq!(prepared.audit[0], ("env:POLICY".to_owned(), pin(&b"a".to_vec())));
            assert_eq!(prepared.audit[1], ("path:/etc/policy".to_owned(), pin(&b"b".to_vec())));
        }
        _ => panic!("all written"),
    }
    assert!(matches!(
        prepare_injections(&files, &one, false),
        SnapshotStep::Finish(Err(ErrorCode::InvalidInput))
    ));
    let failed = vec![Err(ErrorCode::Unknown("disk".to_owned()))];
    assert!(matches!(
        prepare_injections(&files, &failed, true),
        SnapshotStep::Finish(Err(ErrorCode::Unknown(text))) if text == "disk"
    ));
}

#[test]
fn files_are_checked_before_they_are_written() {
    assert_eq!(check_injection(&env_file(&[0; 1048576], "OK"), true), None);
    assert_eq!(
        check_injection(&env_file(&[0; 1048577], "OK"), true),
        Some(ErrorCode::TooLarge)
    );
    assert_eq!(check_injection(&env_file(b"", "PATH"), true), Some(ErrorCode::InvalidInput));
    assert_eq!(check_injection(&fixed_file(b"", "/etc/x"), true), None);
    assert_eq!(
        check_injection(&fixed_file(b"", "/etc/x"), false),
        Some(ErrorCode::InvalidInput)
    );
}

// ---- what is told ----

#[test]
fn only_starts_are_told() {
    assert!(is_spawn_op("astrid:process/host.spawn"));
    assert!(is_spawn_op("astrid:process/host.spawn-background"));
    assert!(is_spawn_op("astrid:process/host.spawn-persistent"));
    assert!(!is_spawn_op("astrid:process/host.wait"));
    assert!(!is_spawn_op("astrid:process/host.spawner"));
    let alice = principal("alice");
    assert!(audit_process(&alice, true, "a.wait", "ls", &None).is_none());
    assert!(audit_process(&alice, false, "a.spawn", "ls", &None).is_none());
    let record = audit_process(&alice, true, "a.spawn", "ls", &Some(ErrorCode::Quota))
        .expect("told");
    assert_eq!(record.principal.name, "alice");
    assert!(matches!(record.event, AuditEvent::ProcessSpawn(cmd) if cmd == "ls"));
    assert!(matches!(record.outcome, AuditOutcome::Failed(why) if why == "ErrorCode::Quota"));
    let denied = record_process_denied(&alice, true, "ls", "no").expect("told");
    assert!(matches!(denied.outcome, AuditOutcome::Denied(why) if why == "no"));
    assert!(record_process_denied(&alice, false, "ls", "no").is_none());
}

#[test]
fn files_are_told_by_place_and_digest() {
    let files = vec![pair("env:A", "11"), pair("path:/b", "22")];
    assert_eq!(injection_line(&files), "env:A=11,path:/b=22");
    let alice = principal("alice");
    let trace = audit_process_injections(&alice, true, "a.spawn", "ls", &files, &None);
    assert!(matches!(trace.record.expect("told").outcome, AuditOutcome::Allowed));
    assert_eq!(trace.injections.as_deref(), Some("env:A=11,path:/b=22"));
    let plain = audit_spawn_result(&alice, true, "a.spawn", "ls", &vec![], &None);
    assert!(plain.injections.is_none());
    assert!(plain.record.is_some());
}

#[test]
fn values_are_never_told() {
    assert_eq!(env_summary(&vec![var("A", "secret"), var("B", "x")]), "A,B");
    assert_eq!(env_summary(&vec![]), "");
}

#[test]
fn ids_are_never_told() {
    let short = audit_process_id("secret-id");
    assert_eq!(short.len(), 16);
    assert!(!short.contains("secret"));
    assert_eq!(audit_process_id(""), "af1349b9f5f9a1a6");
    assert_eq!(signal_descriptor(""), "persistent:af1349b9f5f9a1a6");
}

// ---- labels and ids ----

#[test]
fn clamp_label_caps_bytes_not_chars() {
    let long = "é".repeat(MAX_LABEL_BYTES);
    let clamped = clamp_label(Some(long), "cmd");
    assert!(clamped.len() <= MAX_LABEL_BYTES);
    assert!(clamped.is_char_boundary(clamped.len()));
}

#[test]
fn clamp_label_strips_control_and_derives_from_cmd() {
    assert_eq!(clamp_label(Some("a\nb\tc".into()), "cmd"), "abc");
    assert_eq!(clamp_label(None, "my-cmd"), "my-cmd");
}

#[test]
fn limits_are_brought_down() {
    assert_eq!(clamp_log_ring(None), 1048576);
    assert_eq!(clamp_log_ring(Some(1)), 4096);
    assert_eq!(clamp_log_ring(Some(u32::MAX)), 8388608);
    assert_eq!(resolve_ttls(None, None, None), (21600000, 1800000, 300000));
    assert_eq!(stop_grace(None), 5000);
    assert_eq!(stop_grace(Some(999999)), 30000);
}

#[test]
fn base32_is_lowercase_topic_safe() {
    let s = base32_lower(&[0u8; 32]);
    assert_eq!(s.len(), 52);
    assert!(s.chars().all(|c| b"abcdefghijklmnopqrstuvwxyz234567".contains(&(c as u8))));
    assert!(s.chars().all(|c| c.is_ascii_lowercase() || ('2'..='7').contains(&c)));
}

#[test]
fn base32_distinct_for_distinct_input() {
    assert_ne!(base32_lower(&[1u8; 32]), base32_lower(&[2u8; 32]));
}

#[test]
fn base32_known_vector() {
    assert_eq!(base32_lower(&[0u8; 5]), "aaaaaaaa");
}

#[test]
fn base32_spells_other_bytes() {
    assert_eq!(base32_lower(b"foobar"), "mzxw6ytboi");
}

#[test]
fn mint_id_unique_and_sized() {
    let a = mint_id().expect("random bytes");
    let b = mint_id().expect("random bytes");
    assert_ne!(a, b);
    assert_eq!(a.len(), 52);
}

// ---- counts ----

#[test]
fn counts_come_back() {
    let mut counts = ProcessCounts::new();
    assert_eq!(process_cap(3), 3);
    assert_eq!(process_cap(100), 8);
    assert!(counts.exhausted("alice", 0, 0));
    assert!(!counts.exhausted("alice", 1, 0));
    counts.add_one("alice");
    assert!(counts.exhausted("alice", 1, 0));
    assert!(!counts.exhausted("bob", 1, 0));
    assert!(counts.exhausted("alice", 3, 2));
    assert!(!counts.exhausted("alice", 3, 1));
    counts.release("alice");
    assert_eq!(counts.of("alice"), 0);
    assert_eq!(counts.total, 0);
    assert!(!counts.by_principal.contains("alice"));
    counts.release("alice");
    assert_eq!(counts.total, 0);
    for i in 0..8 {
        counts.add_one(&format!("p{i}"));
    }
    assert!(counts.exhausted("new", 8, 0));
}

// ---- children ----

#[test]
fn buffers_hold_the_last_bytes() {
    let mut buffer = OutputBuffer::new();
    buffer.push(b"abc");
    buffer.push(&[0xff]);
    assert_eq!(buffer.drain(), "abc\u{fffd}");
    assert_eq!(buffer.drain(), "");
    buffer.push(&vec![b'x'; MAX_BUFFER_BYTES]);
    buffer.push(b"yz");
    let text = buffer.drain();
    assert_eq!(text.len(), MAX_BUFFER_BYTES);
    assert!(text.ends_with("xyz"));
}

fn child() -> ManagedProcess {
    let mut stdout = OutputBuffer::new();
    stdout.push(b"out");
    let mut stderr = OutputBuffer::new();
    stderr.push(b"err");
    ManagedProcess {
        child: true,
        pid: 77,
        stdout,
        stderr,
        audit_descriptor: "ls".to_owned(),
        creator: "alice".to_owned(),
    }
}

#[test]
fn reading_logs_lets_go_of_what_has_exited() {
    let mut c = child();
    let logs = c.read_logs(ChildPoll::Running);
    assert!(logs.running && logs.exit.is_none());
    assert_eq!((logs.stdout.as_str(), logs.stderr.as_str()), ("out", "err"));
    let logs = c.read_logs(ChildPoll::Exited(Some(3)));
    assert!(!logs.running);
    assert_eq!(logs.exit, Some(ExitInfo { exit_code: Some(3), signal: None }));
    assert!(!c.child);
    let logs = c.read_logs(ChildPoll::Running);
    assert_eq!(logs.exit, Some(ExitInfo { exit_code: None, signal: None }));
    let mut c = child();
    let logs = c.read_logs(ChildPoll::Failed);
    assert_eq!(logs.exit, Some(ExitInfo { exit_code: Some(-1), signal: None }));
}

#[test]
fn only_an_exit_ends_a_wait() {
    let mut c = child();
    assert_eq!(c.wait(&WaitAnswer::TimedOut), Err(ErrorCode::WaitTimeout));
    assert_eq!(c.wait(&WaitAnswer::Cancelled), Err(ErrorCode::Cancelled));
    assert_eq!(
        c.wait(&WaitAnswer::Failed("odd".to_owned())),
        Err(ErrorCode::Unknown("wait: odd".to_owned()))
    );
    assert_eq!(c.os_pid(Some(77)), Ok(77));
    assert_eq!(c.os_pid(None), Err(ErrorCode::Closed));
    assert_eq!(
        c.wait(&WaitAnswer::Exited(Some(0))),
        Ok(ExitInfo { exit_code: Some(0), signal: None })
    );
    assert_eq!(c.wait(&WaitAnswer::TimedOut), Err(ErrorCode::Closed));
    assert_eq!(c.os_pid(Some(77)), Err(ErrorCode::Closed));
}

fn kill_answer(exited: Option<Option<i32>>, terminated: Result<(), ErrorCode>) -> KillAnswer {
    KillAnswer { exited_before: exited, terminated, code_after: Some(9) }
}

#[test]
fn kills_are_reported_per_platform() {
    let failed = || Err(ErrorCode::Unknown("stuck".to_owned()));
    assert_eq!(
        kill_and_reap(Platform::Unix, &kill_answer(Some(Some(1)), failed())),
        Ok((true, Some(9)))
    );
    assert_eq!(
        kill_and_reap(Platform::Windows, &kill_answer(Some(Some(1)), Ok(()))),
        Ok((false, Some(1)))
    );
    assert_eq!(
        kill_and_reap(Platform::Windows, &kill_answer(None, Ok(()))),
        Ok((true, Some(9)))
    );
    assert_eq!(
        kill_and_reap(Platform::Windows, &kill_answer(None, failed())),
        Err(ErrorCode::Unknown("stuck".to_owned()))
    );
    assert_eq!(
        kill_and_reap(Platform::Other, &kill_answer(None, failed())),
        Err(ErrorCode::Unknown("stuck".to_owned()))
    );
    let mut c = child();
    let result = c.kill(Platform::Unix, &kill_answer(None, Ok(()))).expect("killed");
    assert!(result.killed);
    assert_eq!(result.exit, Some(ExitInfo { exit_code: Some(9), signal: None }));
    assert_eq!(result.stdout, "out");
    let again = c.kill(Platform::Unix, &kill_answer(None, Ok(()))).expect("nothing to kill");
    assert!(!again.killed);
    assert_eq!(again.exit, Some(ExitInfo { exit_code: None, signal: None }));
}

#[test]
fn giving_up_a_child_uncounts_and_untracks_it() {
    let mut counts = ProcessCounts::new();
    let mut tracker = ProcessTracker::new();
    counts.add_one("alice");
    tracker.register_tree(77, 1, None);
    child().give_up(Some(77), &mut counts, &mut tracker);
    assert_eq!(counts.total, 0);
    assert!(tracker.active_pids_snapshot().is_empty());
}

#[test]
fn injected_variables_do_not_replace_others() {
    let env = vec![pair("A", "1"), pair("C", "3")];
    let merged = match merge_env(&env, &vec![pair("B", "2")]) {
        Ok(merged) => merged,
        Err(_) => panic!("no collision"),
    };
    assert_eq!(merged, vec![pair("A", "1"), pair("B", "2"), pair("C", "3")]);
    let unsorted = vec![pair("C", "1"), pair("A", "1"), pair("C", "3")];
    let merged = match merge_env(&unsorted, &vec![pair("B", "2")]) {
        Ok(merged) => merged,
        Err(_) => panic!("no collision"),
    };
    assert_eq!(merged, vec![pair("A", "1"), pair("B", "2"), pair("C", "3")]);
    assert!(matches!(
        merge_env(&env, &vec![pair("A", "2")]),
        Err(PrepareCommandError::Invalid)
    ));
    assert!(matches!(
        merge_env(&env, &vec![pair("B", "2"), pair("B", "3")]),
        Err(PrepareCommandError::Invalid)
    ));
    let plan = match prepare_sandboxed_command(
        resolve_program("ls"),
        &env,
        &vec![pair("B", "2")],
    ) {
        Ok(plan) => plan,
        Err(_) => panic!("no collision"),
    };
    assert_eq!(plan.program, "ls");
    assert_eq!(plan.env.len(), 3);
    assert!(matches!(
        prepare_sandboxed_command(resolve_program("l\0s"), &env, &vec![]),
        Err(PrepareCommandError::Invalid)
    ));
    assert!(matches!(
        prepare_sandboxed_command(resolve_program("ls"), &env, &vec![pair("A", "2")]),
        Err(PrepareCommandError::Invalid)
    ));
    assert!(matches!(
        sandbox_error("no", true),
        PrepareCommandError::SandboxDenied(text)
            if text == "failed to wrap command in sandbox: no"
    ));
    assert!(matches!(sandbox_error("no", false), PrepareCommandError::Invalid));
    assert_eq!(resolve_program("ls"), Ok("ls".to_owned()));
    assert_eq!(
        resolve_program("l\0s"),
        Err("process command contains a null byte".to_owned())
    );
}

// ---- platforms ----

#[test]
fn signals_reach_what_they_can() {
    assert!(signal_supported(Platform::Unix, ProcessSignal::Stop));
    assert!(signal_supported(Platform::Windows, ProcessSignal::Term));
    assert!(!signal_supported(Platform::Windows, ProcessSignal::Hup));
    assert_eq!(raw_pid(7), Ok(7));
    assert_eq!(raw_pid(u32::MAX), Err(ErrorCode::InvalidInput));
    assert!(matches!(
        signal_process_tree(Platform::Unix, 7, ProcessSignal::Hup),
        SignalPlan::Group(7)
    ));
    assert!(matches!(
        signal_root_process(Platform::Unix, 7, ProcessSignal::Hup),
        SignalPlan::Root(7)
    ));
    assert!(matches!(
        signal_root_process(Platform::Windows, 7, ProcessSignal::Term),
        SignalPlan::Terminate(Termination::Graceful)
    ));
    assert!(matches!(
        signal_process_tree(Platform::Windows, 7, ProcessSignal::Int),
        SignalPlan::Refused(ErrorCode::CapabilityDenied)
    ));
    assert!(matches!(
        signal_process_tree(Platform::Other, 7, ProcessSignal::Term),
        SignalPlan::Refused(ErrorCode::CapabilityDenied)
    ));
    assert_eq!(name_of_signal(ProcessSignal::Usr2), "SIGUSR2");
    assert_eq!(usable_pid(Some(5)), Ok(5));
    assert_eq!(usable_pid(Some(0)), Err("spawned child has no usable pid".to_owned()));
}

#[test]
fn signal_failures_are_told() {
    let gone = || Err(SignalError { text: "ESRCH".to_owned(), gone: true });
    let denied = || Err(SignalError { text: "EPERM".to_owned(), gone: false });
    assert_eq!(group_signal_result(true, &denied(), ProcessSignal::Term), Ok(()));
    assert_eq!(
        group_signal_result(false, &gone(), ProcessSignal::Term),
        Err(ErrorCode::Unknown("signal SIGTERM: ESRCH".to_owned()))
    );
    assert_eq!(
        root_signal_result(&denied(), ProcessSignal::Int),
        Err(ErrorCode::Unknown("kill(SIGINT): EPERM".to_owned()))
    );
    assert_eq!(terminate_result(false, &gone(), Termination::Force), Ok(()));
    assert_eq!(
        terminate_result(false, &denied(), Termination::Force),
        Err(ErrorCode::Unknown("signal SIGKILL: EPERM".to_owned()))
    );
}

#[test]
fn windows_programs_are_found_by_extension() {
    let env = vec![pair("path", "C:\\bin"), pair("PathExt", ".exe;;CMD")];
    assert_eq!(env_value(&env, "PATH").as_deref(), Some("C:\\bin"));
    assert_eq!(windows_executable_extensions(&env), vec![".exe", ".CMD"]);
    assert_eq!(windows_executable_extensions(&vec![]), vec![".COM", ".EXE"]);
    let exts = vec![".COM".to_owned(), ".EXE".to_owned()];
    assert_eq!(windows_candidates("git", &exts), vec!["git.COM", "git.EXE"]);
    assert_eq!(windows_candidates("git.exe", &exts), vec!["git.exe"]);
    assert_eq!(extension(".profile"), None);
    assert_eq!(extension("a.tar.gz").as_deref(), Some("gz"));
    assert_eq!(extension(".."), None);
}

#[test]
fn windows_paths_and_bare_names_are_told_apart() {
    for bare in ["git", "git.exe", "git/", "git\\.", ".git", "...", "x y"] {
        assert!(bare_name(bare), "{bare}");
    }
    for path in ["", "a:", ".", "..", "./git", ".\\git", "bin\\git", "\\git", "/git", "C:git", "C:\\git"] {
        assert!(!bare_name(path), "{path}");
    }
    for absolute in ["C:\\", "c:/bin", "\\\\host\\share", "//host/share/bin", "\\\\?\\C:\\bin"] {
        assert!(absolute_path(absolute), "{absolute}");
    }
    for relative in ["", "bin", "C:", "C:bin", "\\bin", "/bin", "\\\\host", "1:\\bin"] {
        assert!(!absolute_path(relative), "{relative}");
    }
}

#[test]
fn windows_programs_are_looked_for_in_absolute_directories() {
    let env = vec![pair("Path", "C:\\a;b;D:/c"), pair("PATHEXT", ".EXE;.CMD")];
    let entries: Vec<String> = ["C:\\a", "b", "D:/c"].iter().map(|s| s.to_string()).collect();
    let places = |command: &str| match program_plan(command, &env, &entries) {
        ProgramPlan::Search(places) => {
            places.into_iter().map(|place| (place.directory, place.name)).collect::<Vec<_>>()
        }
        _ => panic!("a bare name"),
    };
    assert_eq!(
        places("git"),
        vec![
            pair("C:\\a", "git.EXE"),
            pair("C:\\a", "git.CMD"),
            pair("D:/c", "git.EXE"),
            pair("D:/c", "git.CMD")
        ]
    );
    assert_eq!(places("git.exe"), vec![pair("C:\\a", "git.exe"), pair("D:/c", "git.exe")]);
    assert!(matches!(program_plan("C:\\git", &env, &entries), ProgramPlan::Absolute));
    assert!(matches!(program_plan("bin\\git", &env, &entries), ProgramPlan::UnderCwd));
    assert!(matches!(
        program_plan("git", &vec![], &entries),
        ProgramPlan::Refused(text) if text == "PATH is not set while resolving process command"
    ));
    assert!(matches!(
        program_plan("g\0t", &env, &entries),
        ProgramPlan::Refused(text) if text == "process command is empty or contains a null byte"
    ));
    assert_eq!(chosen_place(&vec![false, true, true]), Some(1));
    assert_eq!(chosen_place(&vec![false, false]), None);
    assert_eq!(
        resolve_windows_candidate("git", &Err("gone".to_owned()), false),
        Err("cannot resolve process executable git: gone".to_owned())
    );
    let actual = Ok("C:\\a\\git.EXE".to_owned());
    assert_eq!(
        resolve_windows_candidate("git", &actual, false),
        Err("process executable is not a file: C:\\a\\git.EXE".to_owned())
    );
    assert_eq!(resolve_windows_candidate("git", &actual, true), actual);
    assert_eq!(
        resolve_planned_program("git", &env, &entries, &Some(actual.clone())),
        actual
    );
    assert_eq!(
        resolve_planned_program("git", &env, &entries, &None),
        Err("process command not found in absolute PATH entries: git".to_owned())
    );
    assert_eq!(
        resolve_planned_program("C:\\run.bat", &env, &entries, &Some(Ok("C:\\run.bat".to_owned()))),
        Err("batch files require an explicit cmd.exe invocation".to_owned())
    );
}

#[test]
fn batch_files_are_refused() {
    assert!(leads_to_batch("C:\\x\\run.CMD"));
    assert!(leads_to_batch("C:/x/run.bat"));
    assert!(!leads_to_batch("C:\\x.bat\\run.exe"));
    let at = |path: &str| ProgramSearch::Explicit(Ok(path.to_owned()));
    assert_eq!(resolve_windows_program("run", &at("C:\\run.exe")), Ok("C:\\run.exe".to_owned()));
    assert_eq!(
        resolve_windows_program("run", &at("C:\\run.bat")),
        Err("batch files require an explicit cmd.exe invocation".to_owned())
    );
    assert_eq!(
        resolve_windows_program("", &at("C:\\run.exe")),
        Err("process command is empty or contains a null byte".to_owned())
    );
    assert_eq!(
        resolve_windows_program("run", &ProgramSearch::NoPath),
        Err("PATH is not set while resolving process command".to_owned())
    );
    assert_eq!(
        resolve_windows_program("run", &ProgramSearch::Listed(None)),
        Err("process command not found in absolute PATH entries: run".to_owned())
    );
}

#[test]
fn handles_on_ids_are_not_made() {
    assert_eq!(ops::attach(false), ErrorCode::CapabilityDenied);
    assert!(matches!(ops::attach(true), ErrorCode::Unknown(text) if text.starts_with("attach:")));
    assert!(matches!(ops::watch(), ErrorCode::Unknown(text) if text.starts_with("watch:")));
    assert_eq!(ops::or_cancelled::<u8>(None), Err(ErrorCode::Cancelled));
    assert_eq!(ops::or_cancelled(Some(Ok(3u8))), Ok(3));
}

#[test]
fn lost_children_exit_with_minus_one() {
    assert_eq!(
        exit_record(None),
        ExitRecord { exit_code: Some(-1), signal: None }
    );
    assert_eq!(
        exit_record(Some((None, Some(15)))),
        ExitRecord { exit_code: None, signal: Some(15) }
    );
}
