use astrid_capsule::process::persistent::entry::ExitRecord;
use astrid_capsule::process::persistent::registry::{
    PersistentProcessRegistry, SpawnParams, StopAction, WaitOutcome, WaitStep,
};
use astrid_capsule::process::types::{
    ErrorCode, ExitInfo, LogCursor, LogStream, OverflowPolicy, ProcessPhase,
};

const OUT: LogStream = LogStream::Stdout;

fn registry() -> PersistentProcessRegistry {
    match PersistentProcessRegistry::new() {
        Ok(registry) => registry,
        Err(why) => panic!("{why}"),
    }
}

fn params(creator: &str, command: &str, cap: usize) -> SpawnParams {
    SpawnParams {
        creator: creator.to_owned(),
        capsule_id: "capsule-a".to_owned(),
        command: command.to_owned(),
        os_pid: 42,
        stdin: false,
        concurrent_cap: cap,
        label: None,
        overflow: None,
        log_ring_bytes: None,
        max_lifetime_ms: None,
        idle_timeout_ms: None,
        exit_retention_ms: None,
    }
}

fn start(registry: &mut PersistentProcessRegistry, p: SpawnParams) -> String {
    match registry.spawn(p, 0) {
        Ok(id) => id,
        Err(code) => panic!("{code:?}"),
    }
}

#[test]
fn ids_are_settled_by_what_was_minted() {
    let mut registry = registry();
    assert!(registry.insert_as(params("alice", "a", 4), "taken", 0));
    assert!(registry.insert_as(params("alice", "b", 4), "also-taken", 0));
    assert!(!registry.insert_as(params("bob", "c", 4), "taken", 0));
    let taken = || Ok("taken".to_owned());
    let free = || Ok("free".to_owned());
    assert_eq!(registry.settle_id(&vec![]), None);
    assert_eq!(registry.settle_id(&vec![taken(), Ok("also-taken".to_owned())]), None);
    assert_eq!(
        registry.settle_id(&vec![taken(), free(), Ok("later".to_owned())]),
        Some(Ok("free".to_owned()))
    );
    let unavailable = "OS CSPRNG unavailable while minting process id".to_owned();
    assert_eq!(
        registry.settle_id(&vec![taken(), Err("no bytes".to_owned()), free()]),
        Some(Err(ErrorCode::Unknown(unavailable)))
    );
    let eight: Vec<Result<String, String>> = (0..8).map(|_| taken()).collect();
    assert_eq!(registry.settle_id(&eight), None);
    let nine: Vec<Result<String, String>> = (0..9).map(|_| taken()).collect();
    let exhausted = "process-id collision space exhausted".to_owned();
    assert_eq!(registry.settle_id(&nine), Some(Err(ErrorCode::Unknown(exhausted))));
}

#[test]
fn ids_have_their_form_and_differ() {
    let mut registry = registry();
    let first = start(&mut registry, params("alice", "a", 4));
    let second = start(&mut registry, params("alice", "b", 4));
    for id in [&first, &second] {
        assert_eq!(id.len(), 52);
        assert!(id.chars().all(|c| c.is_ascii_lowercase() || ('2'..='7').contains(&c)));
    }
    assert_ne!(first, second);
}

fn exited(code: i32) -> ExitRecord {
    ExitRecord { exit_code: Some(code), signal: None }
}

fn feed(registry: &mut PersistentProcessRegistry, id: &str, bytes: &[u8]) -> Option<bool> {
    let slot = registry.slot_of(id);
    registry.feed(&slot, OUT, bytes)
}

fn exit(registry: &mut PersistentProcessRegistry, id: &str, code: i32, now: u64) {
    let slot = registry.slot_of(id);
    registry.record_exit(&slot, exited(code), now);
}

fn beginning() -> LogCursor {
    LogCursor { token: None }
}

#[test]
fn spawn_wait_read_and_owner_isolation() {
    let mut r = registry();
    let id = start(&mut r, params("alice", "echo", 8));
    assert!(r.status(&id, "alice", "capsule-a", 0).is_ok());
    assert_eq!(r.status(&id, "bob", "capsule-a", 0), Err(ErrorCode::NoSuchProcess));
    assert_eq!(r.status(&id, "alice", "capsule-b", 0), Err(ErrorCode::NoSuchProcess));
    assert!(r.status("not-a-real-id", "alice", "capsule-a", 0).is_err());
    assert_eq!(r.status(&id, "alice", "capsule-a", 0).unwrap().id, id);
    let listed = r.list("alice", "capsule-a", None, 0);
    assert_eq!(listed.len(), 1);
    assert_eq!(listed[0].id, id);

    assert_eq!(r.wait(&id, "alice", "capsule-a", 1), Ok(WaitStep::Await));
    assert_eq!(feed(&mut r, &id, b"hello\n"), Some(true));
    let slot = r.slot_of(&id);
    assert_eq!(r.feed(&slot, LogStream::Stderr, b"oops\n"), Some(true));
    exit(&mut r, &id, 0, 2);
    assert_eq!(
        r.wait(&id, "alice", "capsule-a", 3),
        Ok(WaitStep::Ready(ExitInfo { exit_code: Some(0), signal: None }))
    );
    let logs = r.read_logs(&id, "alice", "capsule-a", 4).expect("own logs");
    assert_eq!((logs.stdout.as_str(), logs.stderr.as_str()), ("hello\n", "oops\n"));
    assert!(!logs.running);
    assert!(r.read_logs(&id, "bob", "capsule-a", 4).is_err());
    let again = r.read_logs(&id, "alice", "capsule-a", 5).expect("own logs");
    assert_eq!(again.stdout, "");

    assert!(r.status(&id, "alice", "capsule-a", 6).is_ok());
    assert!(r.release(&id, "alice", "capsule-a").is_ok());
    assert!(r.status(&id, "alice", "capsule-a", 7).is_err());
}

#[test]
fn concurrent_cap_enforced_and_stop_reaps() {
    let mut r = registry();
    let id = start(&mut r, params("alice", "sleep", 1));
    assert_eq!(r.live_count("alice"), 1);
    assert_eq!(r.spawn(params("alice", "sleep", 1), 0), Err(ErrorCode::Quota));
    assert!(r.spawn(params("bob", "sleep", 1), 0).is_ok());
    let plan = r.stop(&id, "alice", "capsule-a", Some(200), 1).expect("own process");
    assert_eq!(
        PersistentProcessRegistry::stop_next(&plan, None, None),
        StopAction::Terminate(42, 200)
    );
    assert_eq!(
        PersistentProcessRegistry::stop_next(&plan, Some(WaitOutcome::TimedOut), None),
        StopAction::Kill(42, 30000)
    );
    assert_eq!(
        PersistentProcessRegistry::stop_next(
            &plan,
            Some(WaitOutcome::TimedOut),
            Some(WaitOutcome::ChannelClosed)
        ),
        StopAction::Finish(ExitInfo { exit_code: None, signal: Some(9) })
    );
    assert_eq!(
        PersistentProcessRegistry::stop_next(&plan, Some(WaitOutcome::Exited(exited(3))), None),
        StopAction::Finish(ExitInfo { exit_code: Some(3), signal: None })
    );
    let gone = r.finish_stop(&plan.key).expect("still kept");
    assert_eq!(gone.os_pid, 42);
    assert!(r.finish_stop(&plan.key).is_none());
    assert_eq!(r.live_count("alice"), 0);
    assert_eq!(r.status(&id, "alice", "capsule-a", 2), Err(ErrorCode::NoSuchProcess));
    assert!(r.spawn(params("alice", "sleep", 1), 3).is_ok());
}

#[test]
fn read_since_is_non_draining_with_cursor() {
    let mut r = registry();
    let id = start(&mut r, params("alice", "echo", 8));
    feed(&mut r, &id, b"abcXYZ");
    exit(&mut r, &id, 0, 1);
    let chunk = r
        .read_since(&id, "alice", "capsule-a", OUT, &beginning(), 3, 2)
        .expect("own logs");
    assert_eq!(chunk.data, b"abc");
    assert_eq!(chunk.bytes_dropped, 0);
    assert!(!chunk.drained_eof);
    let rest = r
        .read_since(&id, "alice", "capsule-a", OUT, &chunk.next, 100, 2)
        .expect("own logs");
    assert_eq!(rest.data, b"XYZ");
    assert!(rest.drained_eof);
    let from_start = r
        .read_since(&id, "alice", "capsule-a", OUT, &beginning(), 100, 2)
        .expect("own logs");
    assert_eq!(from_start.data, b"abcXYZ");
    let garbage = LogCursor { token: Some("zz".to_owned()) };
    assert_eq!(
        r.read_since(&id, "alice", "capsule-a", OUT, &garbage, 4, 4).err(),
        Some(ErrorCode::NoSuchProcess)
    );
    assert_eq!(
        r.read_since(&id, "bob", "capsule-a", OUT, &beginning(), 4, 4).err(),
        Some(ErrorCode::NoSuchProcess)
    );
}

#[test]
fn full_rings_drop_or_refuse() {
    let mut r = registry();
    let mut p = params("alice", "yes", 8);
    p.log_ring_bytes = Some(1);
    let dropping = start(&mut r, p);
    let mut p = params("alice", "yes", 8);
    p.log_ring_bytes = Some(1);
    p.overflow = Some(OverflowPolicy::Backpressure);
    let refusing = start(&mut r, p);
    assert_eq!(feed(&mut r, &dropping, &[b'x'; 5000]), Some(true));
    assert_eq!(feed(&mut r, &refusing, &[b'x'; 4096]), Some(true));
    assert_eq!(feed(&mut r, &refusing, b"y"), Some(false));
    let info = r.status(&dropping, "alice", "capsule-a", 0).expect("own process");
    assert_eq!((info.buffered_bytes, info.bytes_dropped), (4096, 904));
    let chunk = r
        .read_since(&dropping, "alice", "capsule-a", OUT, &beginning(), 10, 0)
        .expect("own logs");
    assert_eq!(chunk.bytes_dropped, 0);
    let old = LogCursor { token: Some("0000000000000004".to_owned()) };
    let chunk = r
        .read_since(&dropping, "alice", "capsule-a", OUT, &old, 10, 0)
        .expect("own logs");
    assert_eq!(chunk.bytes_dropped, 900);
    assert_eq!(chunk.data.len(), 10);
    assert_eq!(r.feed("nowhere", OUT, b"x"), None);
}

#[test]
fn input_is_taken_out_for_one_write() {
    let mut r = registry();
    let mut p = params("alice", "cat", 8);
    p.stdin = true;
    let id = start(&mut r, p);
    assert_eq!(
        r.begin_write(&id, "alice", "capsule-a", 1048577, 1),
        Err(ErrorCode::TooLarge)
    );
    assert_eq!(r.begin_write(&id, "bob", "capsule-a", 1, 1), Err(ErrorCode::NoSuchProcess));
    let key = r.begin_write(&id, "alice", "capsule-a", 5, 1).expect("a pipe");
    assert_eq!(r.begin_write(&id, "alice", "capsule-a", 5, 1), Err(ErrorCode::Closed));
    assert_eq!(r.finish_write(&key, 5, true), Ok(5));
    let key = r.begin_write(&id, "alice", "capsule-a", 5, 1).expect("the pipe is back");
    assert_eq!(r.finish_write(&key, 5, false), Err(ErrorCode::Closed));
    assert!(!r.status(&id, "alice", "capsule-a", 1).expect("own process").stdin_open);
    assert_eq!(r.begin_write(&id, "alice", "capsule-a", 5, 1), Err(ErrorCode::Closed));
    let mut p = params("alice", "cat", 8);
    p.stdin = true;
    let id = start(&mut r, p);
    assert_eq!(r.close_stdin(&id, "bob", "capsule-a", 1), Err(ErrorCode::NoSuchProcess));
    assert_eq!(r.close_stdin(&id, "alice", "capsule-a", 1), Ok(()));
    assert_eq!(r.begin_write(&id, "alice", "capsule-a", 5, 1), Err(ErrorCode::Closed));
}

#[test]
fn only_exited_processes_are_released() {
    let mut r = registry();
    let id = start(&mut r, params("alice", "sleep", 8));
    assert!(matches!(r.release("unknown", "alice", "capsule-a"), Ok(None)));
    assert_eq!(
        r.release(&id, "bob", "capsule-a").err(),
        Some(ErrorCode::NoSuchProcess)
    );
    assert_eq!(
        r.release(&id, "alice", "capsule-a").err(),
        Some(ErrorCode::InvalidInput)
    );
    exit(&mut r, &id, 1, 5);
    assert!(matches!(r.release(&id, "alice", "capsule-a"), Ok(Some(gone)) if gone.os_pid == 42));
    assert!(matches!(r.release(&id, "alice", "capsule-a"), Ok(None)));
}

#[test]
fn processes_are_swept_when_their_time_is_up() {
    let mut r = registry();
    let mut p = params("alice", "old", 8);
    p.max_lifetime_ms = Some(100);
    let old = start(&mut r, p);
    let mut p = params("alice", "idle", 8);
    p.idle_timeout_ms = Some(50);
    let idle = start(&mut r, p);
    let mut p = params("alice", "done", 8);
    p.exit_retention_ms = Some(10);
    let done = start(&mut r, p);
    exit(&mut r, &done, 0, 20);
    assert!(r.reap_sweep(29).is_empty());
    assert_eq!(r.signal(&idle, "alice", "capsule-a", 29), Ok(Some(42)));
    assert_eq!(r.reap_sweep(40).len(), 1);
    assert!(r.status(&done, "alice", "capsule-a", 40).is_err());
    assert!(r.status(&idle, "alice", "capsule-a", 40).is_ok());
    assert_eq!(r.reap_sweep(90).len(), 1);
    assert!(r.status(&idle, "alice", "capsule-a", 90).is_err());
    assert_eq!(r.reap_sweep(200).len(), 1);
    assert!(r.status(&old, "alice", "capsule-a", 200).is_err());
}

#[test]
fn principals_keep_a_bounded_number_of_ids() {
    let mut r = registry();
    for _ in 0..32 {
        let id = start(&mut r, params("alice", "true", 8));
        exit(&mut r, &id, 0, 1);
    }
    assert_eq!(r.spawn(params("alice", "true", 8), 2), Err(ErrorCode::RegistryFull));
    assert!(r.spawn(params("bob", "true", 8), 2).is_ok());
    assert_eq!(r.shutdown().len(), 33);
    assert!(r.list("alice", "capsule-a", None, 3).is_empty());
}

#[test]
fn listings_show_the_callers_own() {
    let mut r = registry();
    let mut p = params("alice", "serve --port 1", 8);
    p.label = Some("web".to_owned());
    let web = start(&mut r, p);
    let other = start(&mut r, params("alice", "cron", 8));
    start(&mut r, params("bob", "serve", 8));
    assert_eq!(r.list("alice", "capsule-a", None, 7).len(), 2);
    assert!(r.list("alice", "capsule-b", None, 7).is_empty());
    let labelled = r.list("alice", "capsule-a", Some("web"), 7);
    assert_eq!(labelled.len(), 1);
    assert_eq!(labelled[0].id, web);
    assert_eq!(labelled[0].age_ms, 7);
    assert_eq!(labelled[0].phase, ProcessPhase::Running);
    let ids = vec![other.clone(), "unknown".to_owned(), web.clone()];
    let infos = r.status_many(&ids, "alice", "capsule-a", 7);
    assert_eq!(
        infos.iter().map(|info| info.id.as_str()).collect::<Vec<&str>>(),
        vec![other.as_str(), web.as_str()]
    );
    assert!(r.status_many(&ids, "bob", "capsule-a", 7).is_empty());
    assert_eq!(
        PersistentProcessRegistry::wait_result(WaitOutcome::TimedOut),
        Err(ErrorCode::WaitTimeout)
    );
    assert_eq!(
        PersistentProcessRegistry::wait_result(WaitOutcome::ChannelClosed),
        Err(ErrorCode::Unknown("exit channel closed".to_owned()))
    );
    assert_eq!(
        PersistentProcessRegistry::wait_result(WaitOutcome::Exited(exited(4))),
        Ok(ExitInfo { exit_code: Some(4), signal: None })
    );
}
