use astrid_capsule::cancel::{cancel_principal_token, resume_principal_token};
use astrid_capsule::connections::{ClientConnections, ConnectionIdentity};
use astrid_capsule::host_state::admissions::{HostOperation, PrincipalInvocationTracker};
use astrid_capsule::host_state::authority::{
    HostStateSemanticAuthorities, ReleaseReading, ResourceHandle, TableCounts,
};
use astrid_capsule::host_state::invocation::{
    PrincipalOverlays, PrincipalVfsBundle, ProfileLookup, RecvInputs, RecvStep,
};
use astrid_capsule::host_state::state::{HostState, Runtime};
use astrid_capsule::host_state::types::{
    CapsuleLog, EnvOverlay, IpcMessage, MessageOrigin, PrincipalId, PrincipalMount,
    PrincipalMountLocation, PrincipalProfile, Quotas, RuntimeId, RuntimeScope, ScopedKvStore,
    SecretStore, StampedInvocation,
};
use astrid_capsule::names::NameMap;
use astrid_capsule::net::types::ErrorCode;
use astrid_capsule::request_context;
use tokio_util::sync::CancellationToken;

const DEFAULT_MEMORY: u64 = 64 * 1024 * 1024;

fn id(name: &str) -> PrincipalId {
    PrincipalId { name: name.to_owned() }
}

fn profile(max_background_processes: u32) -> PrincipalProfile {
    PrincipalProfile {
        groups: vec![],
        egress: vec![],
        process_allow: vec![],
        quotas: Quotas {
            max_memory_bytes: DEFAULT_MEMORY,
            max_timeout_secs: 30,
            max_background_processes,
        },
    }
}

fn owned_by(owner: &str, system_runtime: bool) -> HostState {
    HostState::new(Runtime {
        principal: id(owner),
        capsule_id: "test".to_owned(),
        system_runtime,
        kv: ScopedKvStore { namespace: "capsule:test".to_owned() },
        home: None,
        tmp: None,
        workspace: None,
        secret_store: SecretStore { handle: 1 },
        capsule_log: None,
        cancel_token: CancellationToken::new(),
        default_profile: profile(8),
    })
}

fn minimal() -> HostState {
    owned_by("default", true)
}

fn overlays() -> PrincipalOverlays {
    PrincipalOverlays { kv: None, secret_store: None, capsule_log: None }
}

fn message(principal: Option<&str>) -> IpcMessage {
    IpcMessage {
        topic: "some.v1.event".to_owned(),
        principal: principal.map(str::to_owned),
        well_formed: principal.is_some_and(|name| !name.is_empty()),
        origin: MessageOrigin::System,
        source_id: "source".to_owned(),
        timestamp: "now".to_owned(),
        call_id: None,
    }
}

fn inputs(profile: ProfileLookup) -> RecvInputs {
    RecvInputs {
        readings: vec![],
        env_overlay: None,
        profile,
        overlays: overlays(),
        mounts: PrincipalVfsBundle { home: None, tmp: None },
    }
}

fn receive(state: &mut HostState, principal: Option<&str>) {
    state.install_recv_invocation_context(message(principal), inputs(ProfileLookup::NoCache));
}

fn install(state: &mut HostState, principal: Option<&str>) -> bool {
    state.install_principal_overlays(&principal.map(id), overlays())
}

fn cancel(state: &mut HostState, principal: &str) {
    cancel_principal_token(
        &mut state.principal_cancel_tokens,
        &state.runtime.cancel_token,
        principal,
    );
}

// ---- cancellation ----

#[test]
fn retired_overlay_stays_cancelled_until_explicit_resume() {
    let mut state = minimal();
    assert!(install(&mut state, Some("agent-alice")));
    let first = state.effective_cancel_token();
    cancel(&mut state, "agent-alice");
    assert!(first.is_cancelled(), "release must cancel the live token");

    assert!(install(&mut state, Some("agent-alice")));
    assert!(state.effective_cancel_token().is_cancelled());

    resume_principal_token(&mut state.principal_cancel_tokens, "agent-alice");
    assert!(install(&mut state, Some("agent-alice")));
    assert!(
        !state.effective_cancel_token().is_cancelled(),
        "a re-registered principal must get a fresh, uncancelled token"
    );
}

#[test]
fn principal_less_context_uses_instance_token() {
    let mut state = minimal();
    install(&mut state, None);
    assert!(state.invocation.cancel_token.is_none());

    let effective = state.effective_cancel_token();
    assert!(!effective.is_cancelled());
    state.runtime.cancel_token.cancel();
    assert!(
        effective.is_cancelled(),
        "the principal-less fallback must be the instance token itself"
    );
}

#[test]
fn full_instance_cancel_cascades_to_principal_tokens() {
    let mut state = minimal();
    assert!(install(&mut state, Some("agent-alice")));

    let per_principal = state.effective_cancel_token();
    state.runtime.cancel_token.cancel();
    assert!(
        per_principal.is_cancelled(),
        "instance cancel must cascade to per-principal child tokens"
    );
}

#[test]
fn clear_stale_invocation_cancel_token_rearms_only_while_instance_alive() {
    let mut state = minimal();
    assert!(install(&mut state, Some("agent-alice")));
    cancel(&mut state, "agent-alice");
    state.clear_stale_invocation_cancel_token();
    assert!(
        state.invocation.cancel_token.is_none(),
        "the local overlay must clear so the shared pump can receive another caller"
    );
    assert!(!state.effective_cancel_token().is_cancelled());
    receive(&mut state, Some("agent-alice"));
    assert!(
        state.effective_cancel_token().is_cancelled(),
        "a queued retired-principal message must restore the tombstone"
    );

    resume_principal_token(&mut state.principal_cancel_tokens, "agent-alice");
    assert!(install(&mut state, Some("agent-alice")));
    state.clear_stale_invocation_cancel_token();
    assert!(
        state.invocation.cancel_token.is_some(),
        "a live per-principal token must survive the re-arm check"
    );

    let mut torn_down = minimal();
    assert!(install(&mut torn_down, Some("agent-alice")));
    torn_down.runtime.cancel_token.cancel();
    torn_down.clear_stale_invocation_cancel_token();
    assert!(
        torn_down.invocation.cancel_token.is_some(),
        "full-unload cancellation must keep short-circuiting every wait"
    );
    assert!(torn_down.effective_cancel_token().is_cancelled());
}

#[test]
fn recv_fast_path_refreshes_token_after_view_release_cancel() {
    let mut state = minimal();
    receive(&mut state, Some("agent-alice"));
    let first = state.effective_cancel_token();
    cancel(&mut state, "agent-alice");
    assert!(first.is_cancelled());

    receive(&mut state, Some("agent-alice"));
    assert!(
        state.invocation.cancel_token.as_ref().is_some_and(CancellationToken::is_cancelled),
        "the fast path must preserve the retirement tombstone"
    );

    resume_principal_token(&mut state.principal_cancel_tokens, "agent-alice");
    receive(&mut state, Some("agent-alice"));
    assert!(!state.effective_cancel_token().is_cancelled());
}

#[test]
fn retirement_fence_rejects_late_admission_and_drains_existing_call() {
    let mut tracker = PrincipalInvocationTracker::new();
    assert!(tracker.begin("agent-alice"), "initial admission");
    tracker.retire("agent-alice");
    assert!(!tracker.begin("agent-alice"), "late work must be fenced");
    assert!(
        !tracker.is_quiescent("agent-alice"),
        "retirement must wait for admitted work"
    );
    tracker.finish("agent-alice");
    assert!(tracker.is_quiescent("agent-alice"));

    tracker.resume("agent-alice");
    assert!(tracker.begin("agent-alice"));
}

#[test]
fn retired_principal_loses_kv_fs_and_secret_host_authority_without_harming_peer() {
    let mut state = minimal();
    let mut tracker = Some(PrincipalInvocationTracker::new());
    assert!(install(&mut state, Some("agent-alice")));
    assert!(state.invocation_authority_active());
    assert_eq!(state.begin_host_operation(&mut None), HostOperation::Uncounted, "a key is set");
    cancel(&mut state, "agent-alice");

    // Keys, files and secrets are all behind the same question.
    assert_eq!(state.begin_host_operation(&mut None), HostOperation::Refused);
    assert_eq!(state.begin_host_operation(&mut tracker), HostOperation::Refused);
    assert!(!state.invocation_authority_active());
    assert!(!state.principal_egress_allows("example.com", Some(443)));
    assert!(!state.principal_process_allows("ls"));

    // The same instance may then serve a peer, whose token is its own.
    assert!(install(&mut state, Some("agent-bob")));
    assert!(state.invocation_authority_active());
    assert_eq!(state.begin_host_operation(&mut None), HostOperation::Uncounted, "a key is set");
    assert_eq!(state.begin_host_operation(&mut tracker), HostOperation::Counted);
    assert!(!state.runtime.cancel_token.is_cancelled());
    assert!(install(&mut state, Some("agent-alice")));
    assert!(!state.invocation_authority_active(), "the peer did not open the retired one again");
}

#[test]
fn operations_are_counted_for_their_caller() {
    let mut state = minimal();
    receive(&mut state, Some("alice"));
    let mut tracker = Some(PrincipalInvocationTracker::new());
    assert_eq!(state.begin_host_operation(&mut tracker), HostOperation::Counted);
    let counts = tracker.as_mut().expect("kept");
    assert_eq!(counts.count("alice"), 1);
    assert_eq!(counts.count("default"), 0);
    counts.finish("alice");
    assert!(counts.is_quiescent("alice"));
    counts.retire("alice");
    assert_eq!(state.begin_host_operation(&mut tracker), HostOperation::Refused);
    assert_eq!(
        state.begin_host_operation_given(&mut None, true),
        HostOperation::Refused
    );
}

// ---- stamps ----

fn stamped(owner: &str) -> HostState {
    let mut state = owned_by(owner, true);
    state.principal_directory.insert("alice".to_owned(), vec![1; 32]);
    state.principal_directory.insert("bob".to_owned(), vec![2; 32]);
    state.stamp_from_directory(&Some(id(owner)));
    assert_eq!(state.stamp.uid(), Some(vec![1; 32]));
    state
}

#[test]
fn host_state_stamp_field_is_crate_private() {
    // From outside, a stamp comes only from the directory: no name, no stamp.
    let mut state = owned_by("alice", true);
    assert_eq!(state.stamp.uid(), None);
    state.stamp_from_directory(&Some(id("alice")));
    assert_eq!(state.stamp.uid(), None);
    state.principal_directory.insert("alice".to_owned(), vec![1; 32]);
    assert_eq!(state.stamp.uid(), None);
    state.stamp_from_directory(&Some(id("alice")));
    assert_eq!(state.stamp.uid(), Some(vec![1; 32]));
    state.stamp_from_directory(&None);
    assert_eq!(state.stamp.uid(), None);
}

#[test]
fn recv_unspecified_does_not_inherit_owner_stamp() {
    let mut state = stamped("alice");
    receive(&mut state, None);
    assert!(
        state.stamp.uid().is_none(),
        "principalless recv must be Unspecified, not inherited owner attribution"
    );
}

#[test]
fn recv_same_owner_keeps_stamp_when_binding_is_current() {
    let mut state = stamped("alice");
    receive(&mut state, Some("alice"));
    assert_eq!(state.stamp.uid(), Some(vec![1; 32]));
}

#[test]
fn recv_drops_cached_stamp_after_directory_rename() {
    let mut state = stamped("alice");
    let uid = state.principal_directory.remove("alice").expect("bound");
    state.principal_directory.insert("alice-renamed".to_owned(), uid);

    receive(&mut state, None);
    assert!(
        state.stamp.uid().is_none(),
        "unspecified recv must not retain a UID after the owner alias was rebound"
    );

    state.stamp_from_directory(&Some(id("alice-renamed")));
    assert_eq!(state.stamp.uid(), Some(vec![1; 32]));
    receive(&mut state, Some("alice"));
    assert!(
        state.stamp.uid().is_none(),
        "same-owner recv must not retain a UID after the owner alias was rebound"
    );
}

#[test]
fn recv_drops_cached_stamp_after_directory_unregister() {
    let mut state = stamped("alice");
    state.principal_directory = NameMap::new();
    receive(&mut state, None);
    assert!(
        state.stamp.uid().is_none(),
        "unspecified recv must not retain a UID after the owner binding was removed"
    );

    let mut state = stamped("alice");
    state.principal_directory = NameMap::new();
    receive(&mut state, Some("alice"));
    assert!(
        state.stamp.uid().is_none(),
        "same-owner recv must not retain a UID after the owner binding was removed"
    );
}

#[test]
fn recv_cross_publisher_does_not_reuse_owner_stamp() {
    let mut state = stamped("alice");
    receive(&mut state, Some("bob"));
    assert_eq!(state.stamp.uid(), Some(vec![2; 32]));
    assert_ne!(state.stamp.uid(), Some(vec![1; 32]), "peer recv must not keep the owner UID");

    state.stamp_from_directory(&Some(id("alice")));
    receive(&mut state, Some("carol"));
    assert!(
        state.stamp.uid().is_none(),
        "unbound peer recv must drop the owner stamp rather than reuse it"
    );
}

// ---- what is in effect ----

#[test]
fn effective_secret_store_prefers_invocation_over_load_time() {
    let mut state = minimal();
    let owner = state.runtime.secret_store;
    assert_eq!(
        *state.effective_secret_store(),
        owner,
        "with no invocation store installed, effective_* returns the load-time store"
    );

    let alice = SecretStore { handle: 2 };
    state.invocation.secret_store = Some(alice);
    assert_eq!(
        *state.effective_secret_store(),
        alice,
        "with invocation store installed, accessor returns the invocation store"
    );
    assert_ne!(
        *state.effective_secret_store(),
        owner,
        "owner's store must not be returned while invocation is installed"
    );

    state.invocation.secret_store = None;
    assert_eq!(
        *state.effective_secret_store(),
        owner,
        "after clear, accessor falls back to the load-time store"
    );
}

#[test]
fn effective_capsule_log_prefers_invocation_over_load_time() {
    let owner_log = CapsuleLog { handle: 1 };
    let alice_log = CapsuleLog { handle: 2 };
    let mut state = minimal();

    assert!(state.effective_capsule_log().is_none());

    state.runtime.capsule_log = Some(owner_log);
    assert_eq!(
        state.effective_capsule_log(),
        Some(&owner_log),
        "only load-time log installed"
    );

    state.invocation.capsule_log = Some(alice_log);
    assert_eq!(
        state.effective_capsule_log(),
        Some(&alice_log),
        "invocation wins when both are installed"
    );

    state.invocation.capsule_log = None;
    assert_eq!(
        state.effective_capsule_log(),
        Some(&owner_log),
        "falls back to load-time after invocation clear"
    );
}

#[test]
fn effective_profile_falls_back_to_default_when_unset() {
    let state = minimal();
    let p = state.effective_profile();
    assert_eq!(p.quotas, state.runtime.default_profile.quotas);
    assert_eq!(p.quotas.max_memory_bytes, DEFAULT_MEMORY);
}

#[test]
fn effective_profile_prefers_invocation_over_default() {
    let mut state = minimal();
    let mut custom = profile(8);
    custom.quotas.max_memory_bytes = 16 * 1024 * 1024;
    custom.quotas.max_timeout_secs = 7;
    state.invocation.profile = Some(custom);

    let p = state.effective_profile();
    assert_eq!(p.quotas.max_memory_bytes, 16 * 1024 * 1024);
    assert_eq!(p.quotas.max_timeout_secs, 7);
    assert_ne!(p.quotas, state.runtime.default_profile.quotas);
}

#[test]
fn effective_principal_prefers_caller_over_owner() {
    let mut state = owned_by("owner", true);
    assert_eq!(state.effective_principal(), id("owner"));

    state.caller_context = Some(message(Some("alice")));
    assert_eq!(state.effective_principal(), id("alice"));

    state.caller_context = Some(message(Some("")));
    assert_eq!(state.effective_principal(), id("owner"));
    assert_eq!(state.authenticated_principal(), None);
}

#[test]
fn install_recv_invocation_context_preserves_outer_caller_inside_interceptor() {
    let mut state = minimal();
    let mut outer = message(Some("alice"));
    outer.topic = "user.v1.prompt".to_owned();
    state.caller_context = Some(outer);
    state.interceptor_active = true;

    receive(&mut state, Some("bob"));

    assert_eq!(
        state.caller_context.as_ref().and_then(|c| c.principal.clone()).as_deref(),
        Some("alice"),
        "Nested recv inside interceptor must not rewrite the outer caller"
    );
}

#[test]
fn install_recv_invocation_context_resolves_invoking_principal_profile() {
    let mut state = minimal();
    assert!(state.invocation.profile.is_none());
    assert_eq!(state.effective_profile().quotas.max_background_processes, 8);

    let alice = message(Some("alice"));
    assert_eq!(state.recv_profile_principal(&alice), id("alice"));
    state.install_recv_invocation_context(alice, inputs(ProfileLookup::Found(profile(3))));
    assert_eq!(
        state.effective_profile().quotas.max_background_processes,
        3,
        "recv path must apply the invoking principal's quota, not the default"
    );

    let owner = message(Some("default"));
    assert_eq!(state.recv_profile_principal(&owner), id("default"));
    state.install_recv_invocation_context(owner, inputs(ProfileLookup::Found(profile(7))));
    assert_eq!(
        state.effective_profile().quotas.max_background_processes,
        7,
        "owner-principal recv must apply the owner's configured profile, not the default or alice's"
    );
}

#[test]
fn run_loop_owner_context_rejects_system_or_wrong_capsule_runtime() {
    let mut state = minimal();
    let system =
        RuntimeId { capsule_id: "test".to_owned(), scope: RuntimeScope::SystemResident };
    let wrong_capsule = RuntimeId {
        capsule_id: "other".to_owned(),
        scope: RuntimeScope::Principal(vec![2; 32]),
    };
    assert!(state.install_run_loop_owner_context(&system, profile(8), None).is_err());
    assert!(state.install_run_loop_owner_context(&wrong_capsule, profile(8), None).is_err());
    assert!(state.invocation.kv.is_none());
    assert!(state.invocation.profile.is_none());
}

#[test]
fn run_loops_belong_to_the_owner_of_the_runtime() {
    let mut state = owned_by("alice", false);
    state.runtime.home = Some(PrincipalMount {
        location: PrincipalMountLocation::Native("/home/alice".to_owned()),
        handle: 4,
    });
    let own = RuntimeId {
        capsule_id: "test".to_owned(),
        scope: RuntimeScope::Principal(vec![1; 32]),
    };
    let mut values = NameMap::new();
    values.insert("KEY".to_owned(), "value".to_owned());
    assert_eq!(
        state.install_run_loop_owner_context(&own, profile(3), Some(EnvOverlay { values })),
        Ok(())
    );
    assert_eq!(state.effective_kv().namespace, "capsule:test");
    assert_eq!(state.effective_home_root_buf().as_deref(), Some("/home/alice"));
    assert_eq!(state.effective_profile().quotas.max_background_processes, 3);
    assert!(state.invocation.env_overlay.is_some());
    assert!(state.invocation.cancel_token.is_some());
    let other = RuntimeId {
        capsule_id: "other".to_owned(),
        scope: RuntimeScope::Principal(vec![1; 32]),
    };
    assert_eq!(
        state.install_run_loop_owner_context(&other, profile(3), None),
        Err("runtime 'other' is not the principal owner of capsule 'test'".to_owned())
    );
}

#[test]
fn peers_get_the_restricted_floor() {
    let mut state = owned_by("alice", false);
    assert_eq!(state.recv_step(&message(Some("bob"))), RecvStep::PeerFloor);
    assert_eq!(state.recv_step(&message(Some("alice"))), RecvStep::Switch);
    assert_eq!(state.recv_step(&message(None)), RecvStep::Refresh);
    receive(&mut state, Some("bob"));
    assert!(!state.invocation.profile_authorized);
    assert_eq!(state.effective_profile().groups, vec!["restricted"]);
    assert!(!state.invocation_authority_active());
    assert_eq!(state.effective_principal(), id("bob"));
    assert_eq!(state.principal_kv_namespace(), "bob:capsule:test");
}

#[test]
fn failed_profiles_are_looked_up_again() {
    let mut state = minimal();
    state.install_recv_invocation_context(message(Some("bob")), inputs(ProfileLookup::Failed));
    assert!(state.effective_profile().is_restricted());
    assert!(!state.invocation_authority_active());
    assert_eq!(state.recv_step(&message(Some("bob"))), RecvStep::Switch);
    receive(&mut state, Some("bob"));
    assert!(state.invocation_authority_active());
    assert_eq!(state.recv_step(&message(Some("bob"))), RecvStep::Refresh);
}

#[test]
fn switches_show_nothing_of_the_last_caller() {
    let mut state = minimal();
    let mut opened = inputs(ProfileLookup::NoCache);
    opened.overlays.kv = Some(ScopedKvStore { namespace: "alice:capsule:test".to_owned() });
    opened.overlays.secret_store = Some(SecretStore { handle: 9 });
    opened.mounts.home =
        Some(PrincipalMount { location: PrincipalMountLocation::AstridFilesystem, handle: 3 });
    opened.mounts.tmp =
        Some(PrincipalMount { location: PrincipalMountLocation::AstridFilesystem, handle: 5 });
    state.install_recv_invocation_context(message(Some("alice")), opened);
    assert_eq!(state.effective_kv().namespace, "alice:capsule:test");
    assert_eq!(state.effective_home().map(|m| m.handle), Some(3));
    assert_eq!(state.effective_tmp().map(|m| m.handle), Some(5));
    assert_eq!(state.effective_home_root_buf(), None);
    receive(&mut state, None);
    assert_eq!(state.effective_kv().namespace, "capsule:test");
    assert_eq!(*state.effective_secret_store(), SecretStore { handle: 1 });
    assert!(state.effective_home().is_none() && state.effective_tmp().is_none());
    assert!(state.effective_workspace().is_none());
}

#[test]
fn requests_say_where_they_come_from() {
    let mut state = minimal();
    assert_eq!(state.effective_origin(), MessageOrigin::System);
    assert_eq!(state.extract_call_id(), None);
    let mut msg = message(Some("alice"));
    msg.origin = MessageOrigin::LocalSocket;
    msg.call_id = Some("call-a".to_owned());
    state.caller_context = Some(msg);
    assert_eq!(state.effective_origin(), MessageOrigin::LocalSocket);
    assert_eq!(state.extract_call_id().as_deref(), Some("call-a"));
}

#[test]
fn restricted_principals_reach_and_start_what_they_are_allowed() {
    let mut restricted = profile(1);
    restricted.groups = vec!["restricted".to_owned()];
    restricted.egress = vec!["API.example.com:443".to_owned(), "any.example.com:*".to_owned()];
    restricted.process_allow = vec!["git".to_owned(), "/opt/tool".to_owned()];
    assert!(restricted.egress_allows("api.example.com", Some(443)));
    assert!(!restricted.egress_allows("api.example.com", Some(80)));
    assert!(restricted.egress_allows("api.example.com", None));
    assert!(restricted.egress_allows("any.example.com", Some(1)));
    assert!(!restricted.egress_allows("other.example.com", None));
    assert!(restricted.process_allows("git"));
    assert!(restricted.process_allows("/usr/bin/git"));
    assert!(restricted.process_allows("/opt/tool"));
    assert!(!restricted.process_allows("tool"));
    assert!(profile(1).egress_allows("anywhere", None));
    assert!(profile(1).process_allows("anything"));
    let mut state = minimal();
    state.invocation.profile = Some(restricted);
    assert!(state.principal_process_allows("git"));
    assert!(!state.principal_process_allows("sh"));
    assert!(!state.process_allows_given("git", true));
    assert!(state.egress_allows_given("any.example.com", Some(7), false));
}

// ---- authorities ----

fn handle(slot: u32) -> ResourceHandle {
    ResourceHandle { slot, generation: 1 }
}

fn reading(before: u128, after: u128) -> ReleaseReading {
    ReleaseReading { before, after }
}

#[test]
fn recv_drains_before_same_principal_stamp_retention() {
    let mut state = stamped("alice");
    let stamp = StampedInvocation { uid: vec![1; 32] };
    state.semantic_authorities.track(&stamp, handle(9));
    state.semantic_authorities.note_table(TableCounts {
        active_units: 8,
        slots: 1,
        revoked_selectors: 0,
    });
    assert_eq!(state.semantic_authorities.tracked_count(), 1);
    assert_eq!(state.semantic_authorities.active_reserved_units(), 8);

    let mut given = inputs(ProfileLookup::NoCache);
    given.readings = vec![reading(0, 8)];
    state.install_recv_invocation_context(message(Some("alice")), given);

    assert!(!state.semantic_authorities.tracks_handle(handle(9)));
    assert_eq!(state.semantic_authorities.tracked_count(), 0);
    assert_eq!(state.semantic_authorities.active_reserved_units(), 0);
    assert_eq!(state.semantic_authorities.released_reserved_units(), 8);
    assert_eq!(state.semantic_authorities.allocated_slot_count(), 0);
    assert_eq!(state.stamp.uid(), Some(vec![1; 32]));
}

#[test]
fn children_are_taken_back_before_their_parents() {
    let mut authorities = HostStateSemanticAuthorities::new();
    let stamp = StampedInvocation { uid: vec![1; 32] };
    authorities.track(&stamp, handle(1));
    authorities.track(&stamp, handle(2));
    assert_eq!(authorities.drain_order(), vec![handle(2), handle(1)]);
    assert!(authorities.next_to_release(0).is_some_and(|next| next.handle == handle(2)));
    assert!(authorities.next_to_release(1).is_some_and(|next| next.handle == handle(1)));
    assert!(authorities.next_to_release(2).is_none());
    authorities.prepare_for_replacement(&vec![reading(0, 0), reading(0, 10)]);
    assert_eq!(authorities.tracked_count(), 0);
    assert_eq!(authorities.released_reserved_units(), 10);
}

#[test]
fn replacements_release_each_unit_once() {
    let mut authorities = HostStateSemanticAuthorities::new();
    let stamp = StampedInvocation { uid: vec![1; 32] };
    for slot in 1..4 {
        authorities.track(&stamp, handle(slot));
    }
    // Ten units, four of which went to a child, and three more beside them.
    authorities.note_table(TableCounts { active_units: 13, slots: 3, revoked_selectors: 1 });
    assert_eq!(authorities.active_reserved_units(), 13);
    assert_eq!(authorities.allocated_slot_count(), 3);
    assert_eq!(authorities.revoked_selector_count(), 1);
    authorities.prepare_for_replacement(&vec![reading(5, 8), reading(8, 8), reading(8, 18)]);
    assert_eq!(authorities.tracked_count(), 0);
    assert_eq!(authorities.active_reserved_units(), 0);
    assert_eq!(authorities.allocated_slot_count(), 0);
    assert_eq!(authorities.revoked_selector_count(), 0);
    assert_eq!(authorities.released_reserved_units(), 13);
    authorities.track(&stamp, handle(1));
    authorities.prepare_for_replacement(&vec![reading(0, 4)]);
    assert_eq!(authorities.tracked_count(), 0);
    assert_eq!(authorities.released_reserved_units(), 17);
}

#[test]
fn authorities_are_taken_back_once() {
    let mut authorities = HostStateSemanticAuthorities::new();
    let stamp = StampedInvocation { uid: vec![3; 32] };
    authorities.track(&stamp, handle(1));
    authorities.track(&stamp, handle(2));
    assert_eq!(authorities.reclaim(handle(1), Err("stale")), Err("stale"));
    assert!(authorities.tracks_handle(handle(1)));
    assert_eq!(authorities.reclaim::<&str>(handle(1), Ok(reading(0, 6))), Ok(()));
    assert!(!authorities.tracks_handle(handle(1)));
    assert!(authorities.tracks_handle(handle(2)));
    assert_eq!(authorities.released_reserved_units(), 6);
    authorities.record_release(reading(7, 6));
    assert_eq!(authorities.released_reserved_units(), u128::MAX);
}

// ---- connections ----

#[test]
fn connections_know_who_was_verified() {
    let mut state = minimal();
    state.bind_connection_principal(
        7,
        ConnectionIdentity {
            principal: "alice".to_owned(),
            device_key_id: Some("key".to_owned()),
            request_owner: "owner-7".to_owned(),
        },
    );
    assert_eq!(state.connection_principal(7).as_deref(), Some("alice"));
    assert_eq!(state.connection_principal(8), None);
    let bound = &state.connection_principals;
    assert_eq!(
        request_context::connection_owner(bound, 7, true),
        Ok(Some("owner-7".to_owned()))
    );
    assert_eq!(
        request_context::connection_principal(bound, 7, true),
        Ok(Some("alice".to_owned()))
    );
    assert_eq!(request_context::connection_owner(bound, 8, true), Ok(None));
    assert_eq!(request_context::connection_principal(bound, 8, true), Ok(None));
    assert_eq!(
        request_context::connection_owner(bound, 7, false),
        Err(ErrorCode::InvalidHandle)
    );
    assert_eq!(
        request_context::connection_principal(bound, 7, false),
        Err(ErrorCode::InvalidHandle)
    );
    state.unbind_connection_principal(7);
    assert_eq!(state.connection_principal(7), None);
    let mut clients = ClientConnections::new();
    clients.bind(3, "carol".to_owned());
    assert_eq!(clients.unbind(3).as_deref(), Some("carol"));
    assert_eq!(clients.unbind(3), None);
}
