use astrid_capsule::audit::AuditOutcome;
use astrid_capsule::host_state::types::PrincipalId;
use astrid_capsule::process::background::{
    background_input, spawn_background, BackgroundAnswers, InputAnswer, InputEnd, KeepAnswer,
};
use astrid_capsule::process::counts::ProcessCounts;
use astrid_capsule::process::foreground::{process_result, spawn, Output, OutputAnswer};
use astrid_capsule::process::lasting::{
    lasting_step, spawn_persistent, want_stdin, LastingAnswers, PipesAnswer, PreludeAnswer, Starter,
};
use astrid_capsule::process::ops;
use astrid_capsule::process::persistent::registry::PersistentProcessRegistry;
use astrid_capsule::process::start::{
    answer, trace_step, CommandAnswer, GateAnswer, OwnedChild, Preparation, SpawnStep, Stage, Telling,
};
use astrid_capsule::process::tracker::{Platform, ProcessTracker, TrackedOwner};
use astrid_capsule::process::types::{ErrorCode, ExitInfo, ProcessSignal, SpawnRequest};

fn request() -> SpawnRequest {
    SpawnRequest {
        cmd: "make".to_owned(),
        args: vec!["all".to_owned(), "-k".to_owned()],
        stdin: None,
        env: vec![],
        cwd: None,
        limits: None,
        label: None,
        keep_stdin_open: None,
        overflow: None,
        log_ring_bytes: None,
        max_lifetime_ms: None,
        idle_timeout_ms: None,
        exit_retention_ms: None,
        file_injections: vec![],
    }
}

fn nothing() -> Preparation {
    Preparation {
        gate: None,
        context: None,
        injections: None,
        command: None,
        child: None,
        owned: None,
    }
}

fn owned() -> Preparation {
    Preparation {
        gate: Some(GateAnswer::Granted),
        context: Some(Ok(())),
        injections: Some(Ok(())),
        command: Some(CommandAnswer::Ready),
        child: Some(Ok(())),
        owned: Some(Ok(OwnedChild { pid: 42, identity: 7 })),
    }
}

fn foreground(p: &Preparation) -> SpawnStep {
    spawn(&request(), p, &None, &mut ProcessTracker::new(), &None)
}

fn is_ask(step: SpawnStep, stage: Stage) -> bool {
    matches!(step, SpawnStep::Ask(asked) if asked == stage)
}

fn fails(step: SpawnStep, code: ErrorCode, telling: Telling) -> bool {
    matches!(step, SpawnStep::Fail(c, t) if c == code && t == telling)
}

fn unknown(text: &str) -> ErrorCode {
    ErrorCode::Unknown(text.to_owned())
}

#[test]
fn starts_ask_one_thing_after_the_other() {
    let mut p = nothing();
    assert!(is_ask(foreground(&p), Stage::Gate));
    p.gate = Some(GateAnswer::Granted);
    assert!(is_ask(foreground(&p), Stage::Context));
    p.context = Some(Ok(()));
    assert!(is_ask(foreground(&p), Stage::Injections));
    p.injections = Some(Ok(()));
    assert!(is_ask(foreground(&p), Stage::Command));
    p.command = Some(CommandAnswer::Ready);
    assert!(is_ask(foreground(&p), Stage::Start));
    p.child = Some(Ok(()));
    assert!(is_ask(foreground(&p), Stage::Own));
    p.owned = Some(Ok(OwnedChild { pid: 42, identity: 7 }));
    assert!(is_ask(foreground(&p), Stage::Output));
}

#[test]
fn starts_fail_where_an_answer_says_so() {
    let mut p = owned();
    p.owned = Some(Err("no pid".to_owned()));
    assert!(fails(foreground(&p), unknown("spawn failed: no pid"), Telling::WithFiles));
    p.child = Some(Err("ENOENT".to_owned()));
    assert!(fails(foreground(&p), unknown("spawn failed: ENOENT"), Telling::WithFiles));
    p.command = Some(CommandAnswer::Invalid);
    assert!(fails(foreground(&p), ErrorCode::InvalidInput, Telling::WithFiles));
    p.command = Some(CommandAnswer::Refused("no sandbox".to_owned()));
    assert!(matches!(foreground(&p), SpawnStep::Refuse(why) if why == "no sandbox"));
    p.injections = Some(Err(ErrorCode::TooLarge));
    assert!(fails(foreground(&p), ErrorCode::TooLarge, Telling::Plain));
    p.context = Some(Err(ErrorCode::BoundaryEscape));
    assert!(fails(foreground(&p), ErrorCode::BoundaryEscape, Telling::Plain));
    p.gate = Some(GateAnswer::Refused("not allowed".to_owned()));
    assert!(matches!(foreground(&p), SpawnStep::Refuse(why) if why == "not allowed"));
    p.gate = Some(GateAnswer::Missing);
    assert!(matches!(
        foreground(&p),
        SpawnStep::Refuse(why) if why == "no security gate configured"
    ));
}

#[test]
fn input_is_measured_before_anything_is_prepared() {
    let mut r = request();
    r.stdin = Some(vec![0; 4194305]);
    let mut p = nothing();
    p.gate = Some(GateAnswer::Granted);
    let mut tracker = ProcessTracker::new();
    assert!(fails(
        spawn(&r, &p, &None, &mut tracker, &None),
        ErrorCode::TooLarge,
        Telling::Plain
    ));
    r.stdin = Some(vec![0; 4194304]);
    assert!(is_ask(spawn(&r, &p, &None, &mut tracker, &None), Stage::Context));
}

#[test]
fn foreground_children_are_tracked_while_they_run() {
    let mut tracker = ProcessTracker::new();
    let call = Some("call-a".to_owned());
    assert!(is_ask(spawn(&request(), &owned(), &None, &mut tracker, &call), Stage::Output));
    assert_eq!(tracker.owner_of(42), Some(TrackedOwner::Tree(7)));
    assert_eq!(tracker.cancel_by_call_ids(&vec!["call-a".to_owned()], &vec![7]).len(), 1);
    let done = Some(OutputAnswer::Cancelled);
    assert!(fails(
        spawn(&request(), &owned(), &done, &mut tracker, &call),
        ErrorCode::Cancelled,
        Telling::WithFiles
    ));
    assert!(tracker.active_pids_snapshot().is_empty());
    let failed = Some(OutputAnswer::Failed("EIO".to_owned()));
    assert!(fails(
        spawn(&request(), &owned(), &failed, &mut tracker, &call),
        unknown("exec failed: EIO"),
        Telling::WithFiles
    ));
    let output = Output { stdout: b"hi".to_vec(), stderr: vec![0xff], exit_code: Some(37) };
    let result = process_result(&output);
    assert_eq!((result.stdout.as_str(), result.stderr.as_str()), ("hi", "\u{fffd}"));
    assert_eq!(result.exit, ExitInfo { exit_code: Some(37), signal: None });
    let finished = Some(OutputAnswer::Finished(output));
    assert!(matches!(
        spawn(&request(), &owned(), &finished, &mut tracker, &call),
        SpawnStep::Succeed
    ));
}

#[test]
fn every_end_leaves_one_entry() {
    let alice = PrincipalId { name: "alice".to_owned() };
    let op = "astrid:process/host.spawn";
    let files = vec![("env:A".to_owned(), "11".to_owned())];
    let denied = trace_step(&alice, true, op, "make", &SpawnStep::Refuse("no".to_owned()), &files);
    assert!(matches!(denied.record.expect("told").outcome, AuditOutcome::Denied(why) if why == "no"));
    assert!(denied.injections.is_none());
    let plain = SpawnStep::Fail(ErrorCode::TooLarge, Telling::Plain);
    let trace = trace_step(&alice, true, op, "make", &plain, &files);
    assert!(matches!(
        trace.record.expect("told").outcome,
        AuditOutcome::Failed(why) if why == "ErrorCode::TooLarge"
    ));
    assert!(trace.injections.is_none());
    let told = trace_step(&alice, true, op, "make", &SpawnStep::Succeed, &files);
    assert!(matches!(told.record.expect("told").outcome, AuditOutcome::Allowed));
    assert_eq!(told.injections.as_deref(), Some("env:A=11"));
    let silent = SpawnStep::Fail(ErrorCode::Quota, Telling::Nothing);
    assert!(trace_step(&alice, true, op, "make", &silent, &files).record.is_none());
    assert!(trace_step(&alice, false, op, "make", &SpawnStep::Succeed, &files).record.is_none());
    let asking = SpawnStep::Ask(Stage::Start);
    assert!(trace_step(&alice, true, op, "make", &asking, &files).record.is_none());
}

#[test]
fn denied_starts_are_told_no_reason() {
    assert_eq!(answer(&SpawnStep::Ask(Stage::Gate)), None);
    assert_eq!(
        answer(&SpawnStep::Refuse("policy".to_owned())),
        Some(Err(ErrorCode::CapabilityDenied))
    );
    assert_eq!(
        answer(&SpawnStep::Fail(ErrorCode::Quota, Telling::Nothing)),
        Some(Err(ErrorCode::Quota))
    );
    assert_eq!(answer(&SpawnStep::Succeed), Some(Ok(())));
}

fn background(p: Preparation) -> BackgroundAnswers {
    BackgroundAnswers { preparation: p, cancelled: false, input: None, keep: None }
}

fn run_background(answers: &BackgroundAnswers) -> SpawnStep {
    spawn_background(
        &request(),
        answers,
        "alice",
        8,
        0,
        &mut ProcessCounts::new(),
        &mut ProcessTracker::new(),
    )
}

#[test]
fn background_starts_count_once_they_succeed() {
    let mut counts = ProcessCounts::new();
    let mut tracker = ProcessTracker::new();
    let mut answers = background(owned());
    let mut step = |answers: &BackgroundAnswers, counts: &mut ProcessCounts| {
        spawn_background(&request(), answers, "alice", 1, 0, counts, &mut tracker)
    };
    assert!(is_ask(step(&answers, &mut counts), Stage::Input));
    answers.input = Some(InputAnswer::Written);
    assert!(is_ask(step(&answers, &mut counts), Stage::Keep));
    assert_eq!(counts.total, 0);
    answers.keep = Some(KeepAnswer::Kept(3));
    assert!(matches!(step(&answers, &mut counts), SpawnStep::Succeed));
    assert_eq!(counts.of("alice"), 1);
    assert!(fails(step(&answers, &mut counts), ErrorCode::Quota, Telling::Nothing));
    assert_eq!(tracker.owner_of(42), Some(TrackedOwner::Tree(7)));
}

#[test]
fn background_starts_tell_what_cleanup_did() {
    let mut answers = background(owned());
    answers.cancelled = true;
    assert!(fails(run_background(&answers), ErrorCode::Cancelled, Telling::Nothing));
    answers.cancelled = false;
    answers.input = Some(InputAnswer::Failed(ErrorCode::Cancelled, Ok(())));
    assert!(fails(run_background(&answers), ErrorCode::Cancelled, Telling::WithFiles));
    answers.input = Some(InputAnswer::Failed(ErrorCode::Closed, Err(ErrorCode::Quota)));
    assert!(fails(
        run_background(&answers),
        unknown(
            "spawn-background input failed (ErrorCode::Closed); tree cleanup failed: \
             ErrorCode::Quota"
        ),
        Telling::WithFiles
    ));
    answers.input = Some(InputAnswer::Written);
    answers.keep = Some(KeepAnswer::Failed("full".to_owned(), Ok(())));
    assert!(fails(run_background(&answers), unknown("resource table: full"), Telling::WithFiles));
    answers.keep = Some(KeepAnswer::Failed("full".to_owned(), Err(ErrorCode::Closed)));
    assert!(fails(
        run_background(&answers),
        unknown("resource table: full; tree cleanup failed: ErrorCode::Closed"),
        Telling::WithFiles
    ));
    let mut p = owned();
    p.child = Some(Err("ENOENT".to_owned()));
    assert!(fails(
        run_background(&background(p)),
        unknown("spawn-background failed: ENOENT"),
        Telling::WithFiles
    ));
    let mut p = owned();
    p.owned = Some(Err("job".to_owned()));
    assert!(fails(
        run_background(&background(p)),
        unknown("spawn-background ownership failed: job"),
        Telling::WithFiles
    ));
}

#[test]
fn input_is_handed_over_only_where_there_is_some() {
    let mut r = request();
    assert_eq!(background_input(&r, &InputEnd::NoPipe), Ok(()));
    r.stdin = Some(b"in".to_vec());
    assert_eq!(
        background_input(&r, &InputEnd::NoPipe),
        Err(unknown("spawn-background: child stdin was not piped"))
    );
    assert_eq!(background_input(&r, &InputEnd::Cancelled), Err(ErrorCode::Cancelled));
    assert_eq!(
        background_input(&r, &InputEnd::Failed("EPIPE".to_owned())),
        Err(unknown("spawn-background: stdin prelude write failed: EPIPE"))
    );
    assert_eq!(background_input(&r, &InputEnd::Written), Ok(()));
}

fn starter() -> Starter {
    Starter {
        principal: Some("alice".to_owned()),
        capsule_id: "caps".to_owned(),
        capabilities: vec!["allow_persistent".to_owned()],
        profile_cap: 2,
        ephemeral: 0,
    }
}

fn ready() -> LastingAnswers {
    LastingAnswers {
        preparation: owned(),
        cancelled: false,
        pipes: Some(PipesAnswer::Present { stdin: true }),
        prelude: None,
    }
}

fn lasting(answers: &LastingAnswers) -> SpawnStep {
    lasting_step(&request(), answers, &starter())
}

#[test]
fn persistent_starts_are_checked_in_order() {
    let mut who = starter();
    who.capabilities = vec![];
    let mut answers = ready();
    answers.cancelled = true;
    let mut r = request();
    r.idle_timeout_ms = Some(0);
    assert!(matches!(
        lasting_step(&r, &answers, &who),
        SpawnStep::Refuse(why)
            if why == "persistent exec requires the allow_persistent capability"
    ));
    who.capabilities = vec!["allow_persistent".to_owned()];
    who.principal = None;
    assert!(fails(
        lasting_step(&r, &answers, &who),
        ErrorCode::PersistUnsupported,
        Telling::Nothing
    ));
    assert!(fails(
        lasting_step(&r, &answers, &starter()),
        ErrorCode::InvalidInput,
        Telling::Nothing
    ));
    assert!(fails(lasting(&answers), ErrorCode::Cancelled, Telling::Nothing));
    answers.cancelled = false;
    r = request();
    r.stdin = Some(vec![0; 4194305]);
    assert!(fails(
        lasting_step(&r, &answers, &starter()),
        ErrorCode::TooLarge,
        Telling::Plain
    ));
    assert!(matches!(lasting(&answers), SpawnStep::Succeed));
}

#[test]
fn persistent_starts_fail_where_an_answer_says_so() {
    let mut answers = ready();
    answers.preparation.command = Some(CommandAnswer::Refused("x".to_owned()));
    assert!(matches!(
        lasting(&answers),
        SpawnStep::Refuse(why)
            if why == "native process sandbox is unavailable under required policy"
    ));
    answers.preparation.command = Some(CommandAnswer::Ready);
    answers.preparation.child = Some(Err("ENOENT".to_owned()));
    assert!(fails(lasting(&answers), unknown("spawn-persistent failed: ENOENT"), Telling::Plain));
    answers = ready();
    answers.pipes = Some(PipesAnswer::Missing(Ok(())));
    assert!(fails(
        lasting(&answers),
        unknown("spawn-persistent: missing stdio pipes"),
        Telling::Nothing
    ));
    answers.pipes = Some(PipesAnswer::Missing(Err(ErrorCode::Closed)));
    assert!(fails(lasting(&answers), ErrorCode::Closed, Telling::Nothing));
    let mut r = request();
    r.stdin = Some(b"in".to_vec());
    assert!(want_stdin(&r));
    assert!(!want_stdin(&request()));
    let mut answers = ready();
    assert!(is_ask(lasting_step(&r, &answers, &starter()), Stage::Input));
    answers.prelude = Some(PreludeAnswer::Failed(Err(ErrorCode::Closed)));
    assert!(fails(
        lasting_step(&r, &answers, &starter()),
        unknown(
            "spawn-persistent: stdin prelude write failed; tree cleanup failed: ErrorCode::Closed"
        ),
        Telling::Plain
    ));
    answers.prelude = Some(PreludeAnswer::Failed(Ok(())));
    assert!(fails(
        lasting_step(&r, &answers, &starter()),
        unknown("spawn-persistent: stdin prelude write failed"),
        Telling::Plain
    ));
}

fn registry() -> PersistentProcessRegistry {
    match PersistentProcessRegistry::new() {
        Ok(registry) => registry,
        Err(why) => panic!("{why}"),
    }
}

#[test]
fn persistent_processes_end_up_in_the_registry() {
    let mut registry = registry();
    let (step, id) = spawn_persistent(&request(), &ready(), &starter(), &mut registry, 1000);
    assert!(matches!(step, SpawnStep::Succeed));
    let id = id.expect("an id");
    let info = registry.status(&id, "alice", "caps", 1500).expect("its own process");
    assert_eq!(info.command, "make all -k");
    assert_eq!(info.os_pid, Some(42));
    assert_eq!(info.age_ms, 500);
    assert!(!info.stdin_open);
    assert_eq!(registry.status(&id, "bob", "caps", 0), Err(ErrorCode::NoSuchProcess));
    let mut who = starter();
    who.ephemeral = 1;
    let (step, id) = spawn_persistent(&request(), &ready(), &who, &mut registry, 1000);
    assert!(fails(step, ErrorCode::Quota, Telling::WithFiles));
    assert!(id.is_none());
}

#[test]
fn signals_are_refused_before_the_process_is_looked_up() {
    let mut registry = registry();
    assert_eq!(
        ops::signal(&mut registry, Platform::Windows, ProcessSignal::Hup, "x", "a", "c", 0),
        Err(ErrorCode::CapabilityDenied)
    );
    assert_eq!(
        ops::signal(&mut registry, Platform::Unix, ProcessSignal::Hup, "x", "a", "c", 0),
        Err(ErrorCode::NoSuchProcess)
    );
    let (_, id) = spawn_persistent(&request(), &ready(), &starter(), &mut registry, 0);
    let id = id.expect("an id");
    assert_eq!(
        ops::signal(&mut registry, Platform::Unix, ProcessSignal::Hup, &id, "alice", "caps", 0),
        Ok(Some(42))
    );
}
