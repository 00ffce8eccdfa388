//! What the state of an instance promises from one call to the next.

use vstd::prelude::*;

use tokio_util::sync::CancellationToken;

use crate::cancel::{
    cancel_principal_token, may_answer, resume_principal_token, token_for, was_cancelled,
    PrincipalCancelTokens,
};
use crate::connections::ConnectionIdentity;
use crate::host_state::admissions::{HostOperation, PrincipalInvocationTracker};
use crate::host_state::authority::{
    handles_of, law_reclaim_is_exact, released_over, HostStateSemanticAuthorities, ReleaseReading,
    ResourceHandle, TableCounts, TrackedAuthority,
};
use crate::host_state::invocation::{
    PrincipalOverlays, PrincipalVfsBundle, RecvInputs, RecvStep,
};
use crate::host_state::state::{HostState, StampSlot};
use crate::host_state::types::{
    CapsuleLog, EnvOverlay, IpcMessage, MessageOrigin, PrincipalId, PrincipalMount,
    PrincipalMountLocation, PrincipalProfile, RuntimeId, ScopedKvStore, SecretStore,
    StampedInvocation,
};
use crate::names::NameMap;
use crate::sys::{get_config, ConfigValue, SecretAnswers};
use crate::text::{owned_view, views};

verus! {

/// The configuration that is read after a message is what was loaded for that message and nothing
/// of the caller before: of two states that serve the same runtime, whatever their overlays were,
/// the same message makes the same overlay, and a value that was loaded is the value that is read.
pub proof fn law_configuration_is_loaded_anew(
    a: &mut HostState,
    b: &mut HostState,
    msg: IpcMessage,
    inputs: RecvInputs,
    secret_env: &Vec<String>,
    config: &NameMap<ConfigValue>,
    key: &str,
    secret: &SecretAnswers,
    value: Option<String>,
)
    requires
        call_ensures(HostState::install_recv_invocation_context, (a, msg, inputs), ()),
        call_ensures(HostState::install_recv_invocation_context, (b, msg, inputs), ()),
        !old(a).interceptor_active && !old(b).interceptor_active,
        old(a).runtime == old(b).runtime,
        call_ensures(
            get_config,
            (secret_env, &final(a).invocation.env_overlay, config, key, secret),
            value,
        ),
    ensures
        final(a).invocation.env_overlay == final(b).invocation.env_overlay,
        ({
            let foreign = !old(a).runtime.system_runtime && msg.well_formed && msg.principal is Some
                && msg.principal->Some_0@ != old(a).runtime.principal@;
            &&& foreign ==> final(a).invocation.env_overlay is None
            &&& !foreign && inputs.env_overlay is Some
                && inputs.env_overlay->Some_0.values@.contains_key(key@) && !views(
                secret_env@,
            ).contains(key@) ==> value is Some && value->Some_0@
                == inputs.env_overlay->Some_0.values@[key@]@
        }),
{
}

/// A message of another principal than the one before sets everything up anew: what is in effect
/// is what was opened for the message, else what the runtime has, and nothing of the caller before.
pub proof fn law_new_caller_gets_own_views(
    state: &mut HostState,
    msg: IpcMessage,
    inputs: RecvInputs,
    kv: &ScopedKvStore,
    store: &SecretStore,
    home: Option<&PrincipalMount>,
    tmp: Option<&PrincipalMount>,
    log: Option<&CapsuleLog>,
    profile: &PrincipalProfile,
    active: bool,
)
    requires
        call_ensures(HostState::install_recv_invocation_context, (state, msg, inputs), ()),
        !old(state).interceptor_active,
        old(state).runtime.system_runtime || (msg.principal is Some && msg.principal->Some_0@
            == old(state).runtime.principal@),
        msg.well_formed && msg.principal is Some,
        old(state).caller_context is None || owned_view(
            old(state).caller_context->Some_0.principal,
        ) != owned_view(msg.principal),
        call_ensures(HostState::effective_kv, (&*final(state),), kv),
        call_ensures(HostState::effective_secret_store, (&*final(state),), store),
        call_ensures(HostState::effective_home, (&*final(state),), home),
        call_ensures(HostState::effective_tmp, (&*final(state),), tmp),
        call_ensures(HostState::effective_capsule_log, (&*final(state),), log),
        call_ensures(HostState::effective_profile, (&*final(state),), profile),
        call_ensures(HostState::authority_given, (&*final(state), false), active),
    ensures
        ({
            let runtime = old(state).runtime;
            &&& inputs.overlays.kv is Some ==> *kv == inputs.overlays.kv->Some_0
            &&& inputs.overlays.kv is None ==> *kv == runtime.kv
            &&& inputs.overlays.secret_store is Some ==> *store
                == inputs.overlays.secret_store->Some_0
            &&& inputs.overlays.secret_store is None ==> *store == runtime.secret_store
            &&& inputs.mounts.home is Some ==> home is Some && *home->Some_0
                == inputs.mounts.home->Some_0
            &&& inputs.mounts.home is None && runtime.home is None ==> home is None
            &&& inputs.mounts.tmp is Some ==> tmp is Some && *tmp->Some_0
                == inputs.mounts.tmp->Some_0
            &&& inputs.mounts.tmp is None && runtime.tmp is None ==> tmp is None
            &&& inputs.overlays.capsule_log is Some ==> log is Some && *log->Some_0
                == inputs.overlays.capsule_log->Some_0
            &&& inputs.overlays.capsule_log is None && runtime.capsule_log is None ==> log is None
            &&& inputs.profile is Found ==> *profile == inputs.profile->Found_0 && active
            &&& inputs.profile is NoCache ==> *profile == runtime.default_profile && active
            &&& inputs.profile is Failed ==> {
                &&& !active
                &&& profile.groups@.len() == 1 && profile.groups@[0]@ == "restricted"@
                &&& profile.egress@ == runtime.default_profile.egress@
                &&& profile.process_allow@ == runtime.default_profile.process_allow@
                &&& profile.quotas == runtime.default_profile.quotas
            }
        }),
{
    if inputs.profile is Failed {
        assert(profile.is_floor_of(old(state).runtime.default_profile));
        assert(views(profile.groups@).len() == 1);
        assert(views(profile.groups@)[0] == profile.groups@[0]@);
    }
}

/// The next message of the same principal, while its profile is authorised, keeps what was opened
/// for it; a home that is missing is opened with its temporary directory.
pub proof fn law_same_caller_keeps_views(
    state: &mut HostState,
    msg: IpcMessage,
    inputs: RecvInputs,
)
    requires
        call_ensures(HostState::install_recv_invocation_context, (state, msg, inputs), ()),
        !old(state).interceptor_active,
        old(state).runtime.system_runtime || msg.principal is None || msg.principal->Some_0@
            == old(state).runtime.principal@,
        old(state).invocation.profile_authorized,
        old(state).caller_context is Some && owned_view(old(state).caller_context->Some_0.principal)
            == owned_view(msg.principal),
    ensures
        final(state).invocation.profile_authorized,
        final(state).invocation.profile == old(state).invocation.profile,
        final(state).invocation.kv == old(state).invocation.kv,
        final(state).invocation.secret_store == old(state).invocation.secret_store,
        final(state).invocation.capsule_log == old(state).invocation.capsule_log,
        final(state).invocation.workspace == old(state).invocation.workspace,
        old(state).invocation.home is Some ==> final(state).invocation.home == old(state).invocation.home && final(state).invocation.tmp == old(state).invocation.tmp,
        old(state).invocation.home is None && msg.well_formed && msg.principal is Some
            ==> final(state).invocation.home == inputs.mounts.home && final(state).invocation.tmp
            == inputs.mounts.tmp,
{
}

/// To an instance that serves its owner alone, a message of anybody else gives no authority:
/// nothing may be reached or started in its name, whatever was in effect before.
pub proof fn law_peer_may_do_nothing(
    state: &mut HostState,
    msg: IpcMessage,
    inputs: RecvInputs,
    host: &str,
    port: Option<u16>,
    command: &str,
    cancelled: bool,
    reaches: bool,
    starts: bool,
    profile: &PrincipalProfile,
)
    requires
        call_ensures(HostState::install_recv_invocation_context, (state, msg, inputs), ()),
        !old(state).interceptor_active,
        !old(state).runtime.system_runtime,
        msg.well_formed && msg.principal is Some && msg.principal->Some_0@ != old(state).runtime.principal@,
        call_ensures(
            HostState::egress_allows_given,
            (&*final(state), host, port, cancelled),
            reaches,
        ),
        call_ensures(
            HostState::process_allows_given,
            (&*final(state), command, cancelled),
            starts,
        ),
        call_ensures(HostState::effective_profile, (&*final(state),), profile),
    ensures
        !reaches,
        !starts,
        profile.groups@.len() == 1 && profile.groups@[0]@ == "restricted"@,
        profile.quotas == old(state).runtime.default_profile.quotas,
        final(state).invocation.kv is None,
        final(state).invocation.secret_store is None,
        final(state).invocation.capsule_log is None,
        final(state).invocation.home is None,
        final(state).invocation.tmp is None,
        final(state).invocation.env_overlay is None,
{
    assert(profile.is_floor_of(old(state).runtime.default_profile));
    assert(views(profile.groups@).len() == 1);
    assert(views(profile.groups@)[0] == profile.groups@[0]@);
}

/// After a message has set up the context, every question about the caller is answered from that
/// message; one that names no principal properly is answered with the principal of the runtime, and
/// counts as unauthenticated.
pub proof fn law_caller_is_read_from_the_message(
    state: &mut HostState,
    msg: IpcMessage,
    inputs: RecvInputs,
    principal: PrincipalId,
    authenticated: Option<PrincipalId>,
    origin: MessageOrigin,
    call_id: Option<String>,
    namespace: String,
)
    requires
        call_ensures(HostState::install_recv_invocation_context, (state, msg, inputs), ()),
        !old(state).interceptor_active,
        call_ensures(HostState::effective_principal, (&*final(state),), principal),
        call_ensures(HostState::authenticated_principal, (&*final(state),), authenticated),
        call_ensures(HostState::effective_origin, (&*final(state),), origin),
        call_ensures(HostState::extract_call_id, (&*final(state),), call_id),
        call_ensures(HostState::principal_kv_namespace, (&*final(state),), namespace),
    ensures
        msg.well_formed && msg.principal is Some ==> principal@ == msg.principal->Some_0@
            && authenticated is Some && authenticated->Some_0@ == msg.principal->Some_0@,
        !msg.well_formed || msg.principal is None ==> principal == old(state).runtime.principal
            && authenticated is None,
        origin == msg.origin,
        call_id == msg.call_id,
        namespace@ == principal@ + ":capsule:"@ + old(state).runtime.capsule_id@,
{
}

/// Without a message the runtime itself is the caller: its principal, unauthenticated, from inside
/// the system, with its own views, its default profile and its own token.
pub proof fn law_fresh_state_is_the_runtimes(
    runtime: crate::host_state::state::Runtime,
    state: HostState,
    principal: PrincipalId,
    authenticated: Option<PrincipalId>,
    origin: MessageOrigin,
    call_id: Option<String>,
    kv: &ScopedKvStore,
    store: &SecretStore,
    home: Option<&PrincipalMount>,
    workspace: Option<&PrincipalMount>,
    profile: &PrincipalProfile,
    active: bool,
)
    requires
        call_ensures(HostState::new, (runtime,), state),
        call_ensures(HostState::effective_principal, (&state,), principal),
        call_ensures(HostState::authenticated_principal, (&state,), authenticated),
        call_ensures(HostState::effective_origin, (&state,), origin),
        call_ensures(HostState::extract_call_id, (&state,), call_id),
        call_ensures(HostState::effective_kv, (&state,), kv),
        call_ensures(HostState::effective_secret_store, (&state,), store),
        call_ensures(HostState::effective_home, (&state,), home),
        call_ensures(HostState::effective_workspace, (&state,), workspace),
        call_ensures(HostState::effective_profile, (&state,), profile),
        call_ensures(HostState::authority_given, (&state, false), active),
    ensures
        principal == runtime.principal,
        authenticated is None,
        origin is System,
        call_id is None,
        *kv == runtime.kv,
        *store == runtime.secret_store,
        runtime.home is Some ==> home is Some && *home->Some_0 == runtime.home->Some_0,
        runtime.home is None ==> home is None,
        runtime.workspace is Some ==> workspace is Some && *workspace->Some_0
            == runtime.workspace->Some_0,
        runtime.workspace is None ==> workspace is None,
        *profile == runtime.default_profile,
        active,
        state.token() == runtime.cancel_token,
{
}

/// A run loop that its owner starts runs on what the runtime has, under the profile and the
/// configuration of the owner, with authority; one that is not its owner's is refused, and nothing
/// changes.
pub proof fn law_run_loop_is_its_owners(
    state: &mut HostState,
    runtime_id: &RuntimeId,
    profile: PrincipalProfile,
    env: Option<EnvOverlay>,
    r: Result<(), String>,
)
    requires
        call_ensures(
            HostState::install_run_loop_owner_context,
            (state, runtime_id, profile, env),
            r,
        ),
    ensures
        r is Ok <==> !old(state).runtime.system_runtime && runtime_id.scope is Principal
            && runtime_id.capsule_id@ == old(state).runtime.capsule_id@,
        r is Err ==> *final(state) == *old(state),
        r is Ok ==> {
            &&& final(state).profile() == profile
            &&& final(state).invocation.profile_authorized
            &&& final(state).invocation.env_overlay == env
            &&& final(state).invocation.kv == Some(old(state).runtime.kv)
            &&& final(state).invocation.secret_store == Some(old(state).runtime.secret_store)
            &&& final(state).invocation.home == old(state).runtime.home
            &&& final(state).invocation.tmp == old(state).runtime.tmp
            &&& final(state).invocation.capsule_log == old(state).runtime.capsule_log
            &&& final(state).caller_context == old(state).caller_context
            &&& final(state).runtime == old(state).runtime
            &&& final(state).invocation.cancel_token is Some
            &&& final(state).principal_cancel_tokens@.contains_key(old(state).runtime.principal@)
        },
{
}

/// What a connection is bound to is what it is known by until it is unbound, and other connections
/// are not concerned.
pub proof fn law_binding_lasts(
    bound: &mut HostState,
    unbound: &mut HostState,
    rep: u32,
    other: u32,
    identity: ConnectionIdentity,
    known: Option<String>,
    beside: Option<String>,
    before: Option<String>,
    gone: Option<String>,
)
    requires
        other != rep,
        call_ensures(HostState::connection_principal, (&*old(bound), other), before),
        call_ensures(HostState::bind_connection_principal, (bound, rep, identity), ()),
        call_ensures(HostState::connection_principal, (&*final(bound), rep), known),
        call_ensures(HostState::connection_principal, (&*final(bound), other), beside),
        *old(unbound) == *final(bound),
        call_ensures(HostState::unbind_connection_principal, (unbound, rep), ()),
        call_ensures(HostState::connection_principal, (&*final(unbound), rep), gone),
    ensures
        known is Some && known->Some_0 == identity.principal,
        beside == before,
        gone is None,
        final(unbound).caller_context == old(bound).caller_context,
{
}

/// A token of a caller is dropped only when it is cancelled while the instance goes on; then the
/// token of the instance is in effect again.
pub proof fn law_only_stale_tokens_are_dropped(
    state: &mut HostState,
    instance_cancelled: bool,
    own_cancelled: bool,
)
    requires
        call_ensures(
            HostState::clear_stale_token_given,
            (state, instance_cancelled, own_cancelled),
            (),
        ),
    ensures
        own_cancelled && !instance_cancelled ==> final(state).token() == old(state).runtime.cancel_token,
        !own_cancelled || instance_cancelled ==> *final(state) == *old(state),
{
}

/// Authority takes an authorised profile and a token that is not cancelled.
pub proof fn law_authority_takes_both(state: &HostState, cancelled: bool, active: bool)
    requires
        call_ensures(HostState::authority_given, (state, cancelled), active),
    ensures
        active ==> state.invocation.profile_authorized,
        active ==> !cancelled,
        !active ==> cancelled || !state.invocation.profile_authorized,
{
}

/// A mount that is in effect is the one of the caller, else the one of the runtime; only a mount
/// with a directory of its own has a root.
pub proof fn law_home_root_is_the_directory(
    state: &HostState,
    home: Option<&PrincipalMount>,
    root: Option<String>,
)
    requires
        call_ensures(HostState::effective_home, (state,), home),
        call_ensures(HostState::effective_home_root_buf, (state,), root),
    ensures
        home is None ==> root is None,
        home is Some && home->Some_0.location is AstridFilesystem ==> root is None,
        home is Some && home->Some_0.location is Native ==> root == Some(
            home->Some_0.location->Native_0,
        ),
        state.invocation.home is Some ==> home is Some && *home->Some_0
            == state.invocation.home->Some_0,
        state.invocation.home is None && state.runtime.home is Some ==> home is Some
            && *home->Some_0 == state.runtime.home->Some_0,
{
}

/// Every admission counts one more, every finish one fewer, of that principal alone; a principal
/// that was retired is not admitted until it is resumed.
pub proof fn law_admissions_are_counted(
    begun: &mut PrincipalInvocationTracker,
    retired: &mut PrincipalInvocationTracker,
    refused: &mut PrincipalInvocationTracker,
    resumed: &mut PrincipalInvocationTracker,
    again: &mut PrincipalInvocationTracker,
    finished: &mut PrincipalInvocationTracker,
    who: &str,
    other: &str,
    first: bool,
    second: bool,
    third: bool,
)
    requires
        who@ != other@,
        old(begun)@.count(who@) < u64::MAX - 1,
        call_ensures(PrincipalInvocationTracker::begin, (begun, who), first),
        first,
        *old(retired) == *final(begun),
        call_ensures(PrincipalInvocationTracker::retire, (retired, who), ()),
        *old(refused) == *final(retired),
        call_ensures(PrincipalInvocationTracker::begin, (refused, who), second),
        *old(resumed) == *final(refused),
        call_ensures(PrincipalInvocationTracker::resume, (resumed, who), ()),
        *old(again) == *final(resumed),
        call_ensures(PrincipalInvocationTracker::begin, (again, who), third),
        *old(finished) == *final(again),
        call_ensures(PrincipalInvocationTracker::finish, (finished, who), ()),
    ensures
        final(begun)@.count(who@) == old(begun)@.count(who@) + 1,
        final(begun)@.count(other@) == old(begun)@.count(other@),
        final(retired)@.count(who@) == final(begun)@.count(who@),
        !second,
        final(refused)@.count(who@) == final(begun)@.count(who@),
        third,
        final(again)@.count(who@) == final(begun)@.count(who@) + 1,
        final(finished)@.count(who@) == final(begun)@.count(who@),
        final(finished)@.count(other@) == old(begun)@.count(other@),
        final(finished)@.retired.contains(other@) == old(begun)@.retired.contains(other@),
{
}

/// A principal is quiet exactly when nothing of it runs.
pub proof fn law_quiet_means_nothing_runs(
    tracker: &PrincipalInvocationTracker,
    who: &str,
    n: u64,
    quiet: bool,
)
    requires
        call_ensures(PrincipalInvocationTracker::count, (tracker, who), n),
        call_ensures(PrincipalInvocationTracker::is_quiescent, (tracker, who), quiet),
    ensures
        quiet <==> n == 0,
        tracker@.running.contains_key(who@) ==> n == tracker@.running[who@],
        !tracker@.running.contains_key(who@) ==> n == 0,
{
}

/// An operation of the host is let through only with authority. Where admissions are counted, it
/// is counted for the caller and for nobody else.
pub proof fn law_operations_take_authority(
    state: &HostState,
    tracker: &mut Option<PrincipalInvocationTracker>,
    cancelled: bool,
    other: Seq<char>,
    r: HostOperation,
)
    requires
        call_ensures(HostState::begin_host_operation_given, (state, tracker, cancelled), r),
        *old(tracker) is Some ==> old(tracker)->Some_0@.count(state.caller()@) < u64::MAX,
        other != state.caller()@,
    ensures
        cancelled || !state.invocation.profile_authorized ==> r == HostOperation::Refused,
        r == HostOperation::Refused && *old(tracker) is Some ==> *final(tracker) is Some
            && final(tracker)->Some_0@ == old(tracker)->Some_0@,
        *old(tracker) is None && state.invocation.profile_authorized && !cancelled ==> r
            == HostOperation::Uncounted,
        *old(tracker) is Some && state.invocation.profile_authorized && !cancelled && !old(tracker)->Some_0@.retired.contains(state.caller()@) ==> {
            &&& r == HostOperation::Counted
            &&& *final(tracker) is Some
            &&& final(tracker)->Some_0@.count(state.caller()@) == old(tracker)->Some_0@.count(
                state.caller()@,
            ) + 1
            &&& final(tracker)->Some_0@.count(other) == old(tracker)->Some_0@.count(other)
        },
        *old(tracker) is Some && old(tracker)->Some_0@.retired.contains(state.caller()@) ==> r
            == HostOperation::Refused,
{
}

/// What is granted last is released first, and what is tracked is known to be.
pub proof fn law_last_granted_is_released_first(
    authorities: &mut HostStateSemanticAuthorities,
    stamp: &StampedInvocation,
    handle: ResourceHandle,
    order: Vec<ResourceHandle>,
    tracks: bool,
    n: usize,
)
    requires
        call_ensures(HostStateSemanticAuthorities::track, (authorities, stamp, handle), ()),
        call_ensures(HostStateSemanticAuthorities::drain_order, (&*final(authorities),), order),
        call_ensures(
            HostStateSemanticAuthorities::tracks_handle,
            (&*final(authorities), handle),
            tracks,
        ),
        call_ensures(HostStateSemanticAuthorities::tracked_count, (&*final(authorities),), n),
    ensures
        order@.len() == old(authorities).granted@.len() + 1,
        order@[0] == handle,
        forall|i: int|
            0 <= i < old(authorities).granted@.len() ==> #[trigger] order@[order@.len() - 1 - i]
                == old(authorities).granted@[i].handle,
        tracks,
        n == old(authorities).granted@.len() + 1,
        final(authorities).released_units == old(authorities).released_units,
{
    let granted = final(authorities).granted@;
    assert(handles_of(granted)[granted.len() - 1] == handle);
    assert forall|i: int| 0 <= i < old(authorities).granted@.len() implies #[trigger] order@[
    order@.len() - 1 - i] == old(authorities).granted@[i].handle by {
        assert(granted.drop_last()[i] == granted[i]);
    }
}

/// A release adds what it freed to what was released, unless that would overflow; an authority
/// that is given back is tracked no more, while one whose release failed stays.
pub proof fn law_releases_are_added(
    recorded: &mut HostStateSemanticAuthorities,
    reclaimed: &mut HostStateSemanticAuthorities,
    failed: &mut HostStateSemanticAuthorities,
    reading: ReleaseReading,
    handle: ResourceHandle,
    code: u8,
    ok: Result<(), u8>,
    err: Result<(), u8>,
)
    requires
        call_ensures(HostStateSemanticAuthorities::record_release, (recorded, reading), ()),
        call_ensures(
            HostStateSemanticAuthorities::reclaim::<u8>,
            (reclaimed, handle, Ok::<ReleaseReading, u8>(reading)),
            ok,
        ),
        call_ensures(
            HostStateSemanticAuthorities::reclaim::<u8>,
            (failed, handle, Err::<ReleaseReading, u8>(code)),
            err,
        ),
        *old(reclaimed) == *old(recorded),
        reading.before <= reading.after,
        old(recorded).released_units + reading.after - reading.before <= u128::MAX,
    ensures
        final(recorded).released_units == old(recorded).released_units + reading.after
            - reading.before,
        final(recorded).granted == old(recorded).granted,
        ok is Ok,
        final(reclaimed).released_units == final(recorded).released_units,
        err == Err::<(), u8>(code),
        *final(failed) == *old(failed),
{
}

/// The stamp of a principal is what the directory has for it, and there is none for anybody else.
pub proof fn law_stamp_is_the_directorys(
    directory: &crate::host_state::state::PrincipalDirectory,
    principal: PrincipalId,
    slot: StampSlot,
    nobody: StampSlot,
    uid: Option<Vec<u8>>,
    none: Option<Vec<u8>>,
)
    requires
        call_ensures(StampSlot::from_directory, (directory, &Some(principal)), slot),
        call_ensures(StampSlot::from_directory, (directory, &None::<PrincipalId>), nobody),
        call_ensures(StampSlot::uid, (&slot,), uid),
        call_ensures(StampSlot::uid, (&nobody,), none),
    ensures
        directory@.contains_key(principal@) ==> uid is Some && uid->Some_0@
            == directory@[principal@]@,
        !directory@.contains_key(principal@) ==> uid is None,
        none is None,
{
}

/// Inside a dispatch a message is passed over; to an instance that serves its owner alone, one of
/// anybody else is a peer's; one of the same principal as before, while that is authorised, only
/// refreshes the context; any other sets it up anew. The profile is looked up of the publisher, else
/// of the principal of the runtime.
pub proof fn law_what_a_message_makes_of_the_context(
    state: &HostState,
    msg: &IpcMessage,
    step: RecvStep,
    looked_up: PrincipalId,
    publisher: Option<PrincipalId>,
)
    requires
        call_ensures(HostState::recv_step, (state, msg), step),
        call_ensures(HostState::recv_profile_principal, (state, msg), looked_up),
        call_ensures(IpcMessage::published_by, (msg,), publisher),
    ensures
        ({
            let named = msg.well_formed && msg.principal is Some;
            let foreign = !state.runtime.system_runtime && named && msg.principal->Some_0@
                != state.runtime.principal@;
            let same = match state.caller_context {
                Some(before) => owned_view(before.principal) == owned_view(msg.principal),
                None => msg.principal is None,
            };
            &&& state.interceptor_active <==> step is Ignore
            &&& !state.interceptor_active && foreign <==> step is PeerFloor
            &&& !state.interceptor_active && !foreign && same
                && state.invocation.profile_authorized <==> step is Refresh
            &&& named ==> looked_up@ == msg.principal->Some_0@ && publisher is Some
                && publisher->Some_0@ == msg.principal->Some_0@
            &&& !named ==> looked_up == state.runtime.principal && publisher is None
        }),
{
}

/// What is opened for a principal is installed for it, with a token; for nobody nothing is.
pub proof fn law_overlays_are_somebodys(
    known: &mut HostState,
    unknown: &mut HostState,
    mounted: &mut HostState,
    unmounted: &mut HostState,
    who: PrincipalId,
    overlays: PrincipalOverlays,
    mounts: PrincipalVfsBundle,
    a: bool,
    b: bool,
)
    requires
        call_ensures(HostState::install_principal_overlays, (known, &Some(who), overlays), a),
        call_ensures(
            HostState::install_principal_overlays,
            (unknown, &None::<PrincipalId>, overlays),
            b,
        ),
        call_ensures(HostState::install_recv_invocation_vfs, (mounted, &Some(who), mounts), ()),
        call_ensures(
            HostState::install_recv_invocation_vfs,
            (unmounted, &None::<PrincipalId>, mounts),
            (),
        ),
    ensures
        a && !b,
        final(known).invocation.kv == overlays.kv,
        final(known).invocation.secret_store == overlays.secret_store,
        final(known).invocation.capsule_log == overlays.capsule_log,
        final(known).invocation.cancel_token is Some,
        final(known).invocation.home == old(known).invocation.home,
        final(unknown).invocation.kv is None,
        final(unknown).invocation.secret_store is None,
        final(unknown).invocation.capsule_log is None,
        final(unknown).invocation.cancel_token is None,
        final(mounted).invocation.home == mounts.home && final(mounted).invocation.tmp
            == mounts.tmp,
        final(unmounted).invocation.home is None && final(unmounted).invocation.tmp is None,
{
}

/// A principal has one token for as long as it is not resumed, whether it is asked for or cancelled;
/// the tokens of others are not concerned.
pub proof fn law_one_token_for_a_principal(
    first: &mut PrincipalCancelTokens,
    second: &mut PrincipalCancelTokens,
    cancelled: &mut PrincipalCancelTokens,
    resumed: &mut PrincipalCancelTokens,
    instance: &CancellationToken,
    who: &str,
    other: Seq<char>,
    a: CancellationToken,
    b: CancellationToken,
)
    requires
        other != who@,
        call_ensures(token_for, (first, instance, who), a),
        *old(second) == *final(first),
        call_ensures(token_for, (second, instance, who), b),
        *old(cancelled) == *final(second),
        call_ensures(cancel_principal_token, (cancelled, instance, who), ()),
        *old(resumed) == *final(cancelled),
        call_ensures(resume_principal_token, (resumed, who), ()),
    ensures
        a == b,
        old(first)@.contains_key(who@) ==> a == old(first)@[who@],
        final(cancelled)@.contains_key(who@) && final(cancelled)@[who@] == a,
        was_cancelled(a),
        !final(resumed)@.contains_key(who@),
        old(first)@.contains_key(other) <==> final(resumed)@.contains_key(other),
        old(first)@.contains_key(other) ==> final(resumed)@[other] == old(first)@[other],
{
}

/// The token in effect is that of the principal that was installed, and that of the instance where
/// nobody was.
pub proof fn law_token_in_effect(
    known: &mut HostState,
    unknown: &mut HostState,
    who: PrincipalId,
    token: CancellationToken,
    own: CancellationToken,
)
    requires
        call_ensures(HostState::install_invocation_cancel_token, (known, &Some(who)), ()),
        call_ensures(HostState::effective_cancel_token, (&*final(known),), token),
        call_ensures(
            HostState::install_invocation_cancel_token,
            (unknown, &None::<PrincipalId>),
            (),
        ),
        call_ensures(HostState::effective_cancel_token, (&*final(unknown),), own),
    ensures
        final(known).principal_cancel_tokens@.contains_key(who@),
        token == final(known).principal_cancel_tokens@[who@],
        old(known).principal_cancel_tokens@.contains_key(who@) ==> token == old(known).principal_cancel_tokens@[who@],
        own == old(unknown).runtime.cancel_token,
{
}

/// The stamp is set from the directory and from nothing else.
pub proof fn law_stamping_reads_the_directory(
    state: &mut HostState,
    who: PrincipalId,
    blank: StampSlot,
    uid: Option<Vec<u8>>,
    none: Option<Vec<u8>>,
)
    requires
        call_ensures(HostState::stamp_from_directory, (state, &Some(who)), ()),
        call_ensures(StampSlot::uid, (&final(state).stamp,), uid),
        call_ensures(StampSlot::unspecified, (), blank),
        call_ensures(StampSlot::uid, (&blank,), none),
    ensures
        old(state).principal_directory@.contains_key(who@) ==> uid is Some && uid->Some_0@ == old(state).principal_directory@[who@]@,
        !old(state).principal_directory@.contains_key(who@) ==> uid is None,
        none is None,
        final(state).invocation == old(state).invocation,
        final(state).caller_context == old(state).caller_context,
{
}

/// Principals are the same if their names are; a floor is restricted and has the rest of what it is
/// the floor of.
pub proof fn law_floors_are_restricted(
    profile: &PrincipalProfile,
    floor: PrincipalProfile,
    restricted: bool,
    a: &PrincipalId,
    b: &PrincipalId,
    same: bool,
)
    requires
        call_ensures(PrincipalProfile::floor, (profile,), floor),
        call_ensures(PrincipalProfile::is_restricted, (&floor,), restricted),
        call_ensures(PrincipalId::same, (a, b), same),
    ensures
        restricted,
        floor.groups@.len() == 1 && floor.groups@[0]@ == "restricted"@,
        floor.egress@ == profile.egress@ && floor.process_allow@ == profile.process_allow@,
        floor.quotas == profile.quotas,
        same <==> a.name@ == b.name@,
{
    assert(views(floor.groups@).len() == 1);
    assert(views(floor.groups@)[0] == floor.groups@[0]@);
}

/// A replacement leaves nothing granted, nothing in the table, and what was freed added to what was
/// released; what is released first is what was granted last.
pub proof fn law_replacement_starts_afresh(
    authorities: &mut HostStateSemanticAuthorities,
    readings: &Vec<ReleaseReading>,
    next: Option<&TrackedAuthority>,
    units: u128,
    slots: usize,
    selectors: usize,
    n: usize,
    released: u128,
)
    requires
        old(authorities).granted@.len() == 1,
        readings@.len() == 1,
        readings@[0].before <= readings@[0].after,
        old(authorities).released_units + readings@[0].after - readings@[0].before <= u128::MAX,
        call_ensures(
            HostStateSemanticAuthorities::next_to_release,
            (&*old(authorities), 0usize),
            next,
        ),
        call_ensures(
            HostStateSemanticAuthorities::prepare_for_replacement,
            (authorities, readings),
            (),
        ),
        call_ensures(
            HostStateSemanticAuthorities::active_reserved_units,
            (&*final(authorities),),
            units,
        ),
        call_ensures(
            HostStateSemanticAuthorities::allocated_slot_count,
            (&*final(authorities),),
            slots,
        ),
        call_ensures(
            HostStateSemanticAuthorities::revoked_selector_count,
            (&*final(authorities),),
            selectors,
        ),
        call_ensures(HostStateSemanticAuthorities::tracked_count, (&*final(authorities),), n),
        call_ensures(
            HostStateSemanticAuthorities::released_reserved_units,
            (&*final(authorities),),
            released,
        ),
    ensures
        next is Some && *next->Some_0 == old(authorities).granted@[0],
        units == 0 && slots == 0 && selectors == 0 && n == 0,
        released == old(authorities).released_units + readings@[0].after - readings@[0].before,
{
    reveal_with_fuel(released_over, 2);
    assert(readings@.drop_last() =~= Seq::empty());
}

/// What is noted of the table is what is told of it.
pub proof fn law_table_is_told_as_noted(
    authorities: &mut HostStateSemanticAuthorities,
    table: TableCounts,
    units: u128,
    slots: usize,
    selectors: usize,
)
    requires
        call_ensures(HostStateSemanticAuthorities::note_table, (authorities, table), ()),
        call_ensures(
            HostStateSemanticAuthorities::active_reserved_units,
            (&*final(authorities),),
            units,
        ),
        call_ensures(
            HostStateSemanticAuthorities::allocated_slot_count,
            (&*final(authorities),),
            slots,
        ),
        call_ensures(
            HostStateSemanticAuthorities::revoked_selector_count,
            (&*final(authorities),),
            selectors,
        ),
    ensures
        units == table.active_units,
        slots == table.slots,
        selectors == table.revoked_selectors,
        final(authorities).granted == old(authorities).granted,
{
}

/// Whoever reaches an endpoint, starts a program or begins an operation has an authorised profile;
/// the profile allows it; and it is refused to one whom the profile allows it only where the token
/// may be cancelled.
pub proof fn law_authority_at_the_moment(
    state: &HostState,
    host: &str,
    port: Option<u16>,
    command: &str,
    profile: &PrincipalProfile,
    endpoint: bool,
    program: bool,
    reaches: bool,
    starts: bool,
    active: bool,
)
    requires
        call_ensures(HostState::effective_profile, (state,), profile),
        call_ensures(PrincipalProfile::egress_allows, (profile, host, port), endpoint),
        call_ensures(PrincipalProfile::process_allows, (profile, command), program),
        call_ensures(HostState::principal_egress_allows, (state, host, port), reaches),
        call_ensures(HostState::principal_process_allows, (state, command), starts),
        call_ensures(HostState::invocation_authority_active, (state,), active),
    ensures
        reaches ==> endpoint && state.invocation.profile_authorized,
        starts ==> program && state.invocation.profile_authorized,
        active ==> state.invocation.profile_authorized,
        endpoint && state.invocation.profile_authorized && !reaches ==> may_answer(
            state.token(),
            true,
        ),
        program && state.invocation.profile_authorized && !starts ==> may_answer(
            state.token(),
            true,
        ),
        state.invocation.profile_authorized && !active ==> may_answer(state.token(), true),
{
}

/// Without an authorised profile no operation begins, and none is counted.
pub proof fn law_no_operation_without_a_profile(
    state: &HostState,
    tracker: &mut Option<PrincipalInvocationTracker>,
    r: HostOperation,
)
    requires
        call_ensures(HostState::begin_host_operation, (state, tracker), r),
        !state.invocation.profile_authorized,
        *old(tracker) is Some,
    ensures
        r is Refused,
        *final(tracker) is Some && final(tracker)->Some_0@ == old(tracker)->Some_0@,
{
}

/// Clearing a stale token changes nothing else, and without a token of its own nothing at all.
pub proof fn law_clearing_a_stale_token(state: &mut HostState)
    requires
        call_ensures(HostState::clear_stale_invocation_cancel_token, (state,), ()),
    ensures
        final(state).invocation.cancel_token is None || final(state).invocation.cancel_token == old(state).invocation.cancel_token,
        final(state).invocation.profile == old(state).invocation.profile,
        final(state).invocation.kv == old(state).invocation.kv,
        final(state).runtime == old(state).runtime,
        old(state).invocation.cancel_token is Some && final(state).invocation.cancel_token is None
            ==> may_answer(old(state).invocation.cancel_token->Some_0, true) && may_answer(
            old(state).runtime.cancel_token,
            false,
        ),
{
}

/// A message that is received takes with it whatever was granted under the one before: nothing stays
/// granted, and what was freed is counted as released. What belongs to the runtime, to the
/// connections and to the directory is not concerned.
pub proof fn law_receiving_releases_what_was_granted(
    state: &mut HostState,
    msg: IpcMessage,
    inputs: RecvInputs,
)
    requires
        call_ensures(HostState::install_recv_invocation_context, (state, msg, inputs), ()),
        !old(state).interceptor_active,
        inputs.readings@.len() == 1,
        inputs.readings@[0].before <= inputs.readings@[0].after,
        old(state).semantic_authorities.released_units + inputs.readings@[0].after
            - inputs.readings@[0].before <= u128::MAX,
    ensures
        final(state).semantic_authorities.granted@.len() == 0,
        final(state).semantic_authorities.table.active_units == 0,
        final(state).semantic_authorities.table.slots == 0,
        final(state).semantic_authorities.released_units == old(state).semantic_authorities.released_units + inputs.readings@[0].after
            - inputs.readings@[0].before,
        final(state).runtime == old(state).runtime,
        final(state).connection_principals == old(state).connection_principals,
        final(state).principal_directory == old(state).principal_directory,
        final(state).invocation.workspace == old(state).invocation.workspace,
        !final(state).interceptor_active,
        final(state).caller_context == Some(msg),
{
    reveal_with_fuel(released_over, 2);
    assert(inputs.readings@.drop_last() =~= Seq::empty());
}

/// Whoever publishes gets the token of their own, the one that they have or a new one of the
/// instance; nobody's message leaves no token.
pub proof fn law_receiving_installs_the_token(
    state: &mut HostState,
    msg: IpcMessage,
    inputs: RecvInputs,
    other: Seq<char>,
)
    requires
        call_ensures(HostState::install_recv_invocation_context, (state, msg, inputs), ()),
        !old(state).interceptor_active,
        msg.principal is Some ==> other != msg.principal->Some_0@,
    ensures
        msg.well_formed && msg.principal is Some ==> {
            let who = msg.principal->Some_0@;
            &&& final(state).principal_cancel_tokens@.contains_key(who)
            &&& final(state).invocation.cancel_token == Some(
                final(state).principal_cancel_tokens@[who],
            )
            &&& old(state).principal_cancel_tokens@.contains_key(who)
                ==> final(state).principal_cancel_tokens@[who] == old(state).principal_cancel_tokens@[who]
        },
        !msg.well_formed || msg.principal is None ==> final(state).invocation.cancel_token is None,
        old(state).principal_cancel_tokens@.contains_key(other) <==> final(state).principal_cancel_tokens@.contains_key(other),
        old(state).principal_cancel_tokens@.contains_key(other)
            ==> final(state).principal_cancel_tokens@[other] == old(state).principal_cancel_tokens@[other],
{
}

/// The stamp of a message is the one that the directory has for its publisher.
pub proof fn law_receiving_stamps_the_publisher(
    state: &mut HostState,
    msg: IpcMessage,
    inputs: RecvInputs,
    uid: Option<Vec<u8>>,
)
    requires
        call_ensures(HostState::install_recv_invocation_context, (state, msg, inputs), ()),
        !old(state).interceptor_active,
        call_ensures(StampSlot::uid, (&final(state).stamp,), uid),
    ensures
        msg.well_formed && msg.principal is Some && old(state).principal_directory@.contains_key(
            msg.principal->Some_0@,
        ) ==> uid is Some && uid->Some_0@ == old(state).principal_directory@[msg.principal->Some_0@]@,
        !(msg.well_formed && msg.principal is Some && old(state).principal_directory@.contains_key(
            msg.principal->Some_0@,
        )) ==> uid is None,
{
}

/// A fresh state has heard nobody, granted nothing and bound nobody.
pub proof fn law_fresh_state_is_blank(
    runtime: crate::host_state::state::Runtime,
    state: HostState,
    rep: u32,
    bound: Option<String>,
    uid: Option<Vec<u8>>,
    who: Seq<char>,
)
    requires
        call_ensures(HostState::new, (runtime,), state),
        call_ensures(HostState::connection_principal, (&state, rep), bound),
        call_ensures(StampSlot::uid, (&state.stamp,), uid),
    ensures
        state.runtime == runtime,
        state.caller_context is None,
        !state.interceptor_active,
        bound is None && uid is None,
        state.semantic_authorities.granted@.len() == 0,
        state.semantic_authorities.released_units == 0,
        !state.principal_cancel_tokens@.contains_key(who),
        !state.principal_directory@.contains_key(who),
        state.invocation.env_overlay is None && state.invocation.kv is None,
{
}

/// What is taken back is tracked no longer, and all else as before; counting a release touches
/// neither what is granted nor the table.
pub proof fn law_taking_back_takes_one(
    reclaimed: &mut HostStateSemanticAuthorities,
    kept: &mut HostStateSemanticAuthorities,
    recorded: &mut HostStateSemanticAuthorities,
    handle: ResourceHandle,
    other: ResourceHandle,
    reading: ReleaseReading,
    code: u8,
    done: Result<(), u8>,
    refused: Result<(), u8>,
    before: bool,
    gone: bool,
    after: bool,
)
    requires
        call_ensures(
            HostStateSemanticAuthorities::reclaim::<u8>,
            (reclaimed, handle, Ok::<ReleaseReading, u8>(reading)),
            done,
        ),
        call_ensures(
            HostStateSemanticAuthorities::reclaim::<u8>,
            (kept, handle, Err::<ReleaseReading, u8>(code)),
            refused,
        ),
        call_ensures(HostStateSemanticAuthorities::record_release, (recorded, reading), ()),
        call_ensures(
            HostStateSemanticAuthorities::tracks_handle,
            (&*old(reclaimed), other),
            before,
        ),
        call_ensures(
            HostStateSemanticAuthorities::tracks_handle,
            (&*final(reclaimed), handle),
            gone,
        ),
        call_ensures(
            HostStateSemanticAuthorities::tracks_handle,
            (&*final(reclaimed), other),
            after,
        ),
    ensures
        done is Ok && !gone,
        other != handle ==> after == before,
        refused == Err::<(), u8>(code) && *final(kept) == *old(kept),
        final(recorded).table == old(recorded).table && final(recorded).granted == old(recorded).granted,
        final(reclaimed).table == old(reclaimed).table,
{
    law_reclaim_is_exact(old(reclaimed).granted@, handle, other);
    law_reclaim_is_exact(old(reclaimed).granted@, handle, handle);
}

/// A principal's first token is derived from that of the instance, and a fresh tracker has admitted
/// and retired nobody.
pub proof fn law_first_tokens_are_derived(
    tokens: &mut PrincipalCancelTokens,
    instance: &CancellationToken,
    who: &str,
    token: CancellationToken,
    none: PrincipalCancelTokens,
    tracker: PrincipalInvocationTracker,
    admitting: &mut PrincipalInvocationTracker,
    admitted: bool,
    n: u64,
)
    requires
        !old(tokens)@.contains_key(who@),
        call_ensures(token_for, (tokens, instance, who), token),
        call_ensures(HostState::new_principal_cancel_tokens, (), none),
        call_ensures(PrincipalInvocationTracker::new, (), tracker),
        call_ensures(PrincipalInvocationTracker::count, (&tracker, who), n),
        *old(admitting) == tracker,
        call_ensures(PrincipalInvocationTracker::begin, (admitting, who), admitted),
    ensures
        call_ensures(CancellationToken::child_token, (instance,), token),
        !none@.contains_key(who@),
        n == 0,
        admitted,
{
}

} // verus!
