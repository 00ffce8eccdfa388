//! What a capsule can rely on of the services of the host, and what its profile allows.

use vstd::prelude::*;

use crate::connections::{ConnectionIdentity, Connections};
use crate::entropy::may_draw;
use crate::host_state::policy::{covers, names_program};
use crate::host_state::types::{EnvOverlay, IpcMessage, PrincipalProfile};
use crate::names::NameMap;
use crate::net::types::ErrorCode as NetError;
use crate::numbers::{parsed, show, unsigned};
use crate::paths::base_name;
use crate::request_context::{connection_owner, connection_principal};
use crate::sys::{
    capability_held, capsule_set_epoch, check_capsule_capability, enumerate_capabilities, get_caller, get_config, level_name,
    log_line, random_bytes, resolve_secret, should_emit_to_daemon_log, sleep_check, sleep_result,
    CallerContext, ConfigValue, ErrorCode as SysError, KnownCapsule, LogLevel, SecretAnswers,
};
use crate::text::{ascii_lowered, eq_ignore_ascii_case, views};
use crate::text_laws::{
    lemma_decimal, lemma_name_in_directory, lemma_split_between,
};
use crate::uuids::uuid_value;
use crate::uplink::{
    first_with_id, is_white, known, send_result, trimmed, white,
    ErrorCode as UplinkError, InboundMessage, UplinkDescriptor, UplinkProfile, Uplinks,
};

verus! {

/// A secret of the caller comes before one of the host; a key that is secret is answered from the
/// secrets alone, and an empty secret is no answer.
pub proof fn law_secrets_come_from_the_store(
    secret_env: &Vec<String>,
    overlay: &Option<EnvOverlay>,
    config: &NameMap<ConfigValue>,
    key: &str,
    secret: &SecretAnswers,
    value: Option<String>,
    i: int,
)
    requires
        call_ensures(get_config, (secret_env, overlay, config, key, secret), value),
        0 <= i < secret_env@.len(),
        secret_env@[i]@ == key@,
    ensures
        secret.own is Some && secret.own->Some_0@.len() > 0 ==> value is Some && value->Some_0@
            == secret.own->Some_0@,
        secret.own is Some && secret.own->Some_0@.len() == 0 ==> value is None,
        secret.own is None && secret.host_wide is Some && secret.host_wide->Some_0@.len() > 0
            ==> value is Some && value->Some_0@ == secret.host_wide->Some_0@,
        secret.own is None && secret.host_wide is None ==> value is None,
{
    assert(views(secret_env@)[i] == key@);
}

/// A key that is not secret is answered from the overlay of the caller, else from the configuration
/// of the capsule, else not at all.
pub proof fn law_overlay_comes_before_configuration(
    overlay: &Option<EnvOverlay>,
    config: &NameMap<ConfigValue>,
    key: &str,
    none: &Vec<String>,
    secret: &SecretAnswers,
    value: Option<String>,
)
    requires
        call_ensures(get_config, (none, overlay, config, key, secret), value),
        none@.len() == 0,
    ensures
        ({
            let overlaid = *overlay is Some && overlay->Some_0.values@.contains_key(key@);
            &&& overlaid ==> value is Some && value->Some_0@ == overlay->Some_0.values@[key@]@
            &&& !overlaid && config@.contains_key(key@) && config@[key@] is Text ==> value is Some
                && value->Some_0@ == config@[key@]->Text_0@
            &&& !overlaid && config@.contains_key(key@) && config@[key@] is Json ==> value is Some
                && value->Some_0@ == config@[key@]->Json_0@
            &&& !overlaid && !config@.contains_key(key@) ==> value is None
        }),
{
    assert(!views(none@).contains(key@));
}

/// The secret that is resolved is the caller's own, else the one of the host, else empty.
pub proof fn law_resolving_a_secret(answers: &SecretAnswers, value: String)
    requires
        call_ensures(resolve_secret, (answers,), value),
    ensures
        answers.own is Some ==> value@ == answers.own->Some_0@,
        answers.own is None && answers.host_wide is Some ==> value@ == answers.host_wide->Some_0@,
        answers.own is None && answers.host_wide is None ==> value@.len() == 0,
{
}

/// The caller is told as the message names it; without a message there is nobody.
pub proof fn law_caller_is_told(message: IpcMessage, some: CallerContext, none: CallerContext)
    requires
        call_ensures(get_caller, (&Some(message),), some),
        call_ensures(get_caller, (&None::<IpcMessage>,), none),
    ensures
        some.principal == message.principal,
        some.source_id@ == message.source_id@,
        some.timestamp@ == message.timestamp@,
        none.principal is None && none.source_id@.len() == 0 && none.timestamp@.len() == 0,
{
}

/// No two levels bear the same name, and a line of the log holds the time, the level, the capsule
/// and the message, in this order.
pub proof fn law_log_lines(
    timestamp: &str,
    a: LogLevel,
    b: LogLevel,
    capsule: &str,
    message: &str,
    x: &'static str,
    y: &'static str,
    line: String,
)
    requires
        call_ensures(level_name, (a,), x),
        call_ensures(level_name, (b,), y),
        call_ensures(log_line, (timestamp, a, capsule, message), line),
    ensures
        line@ == timestamp@ + " "@ + x@ + " ["@ + capsule@ + "] "@ + message@,
        x@ == y@ ==> a == b,
        a is Error ==> x@ == "ERROR"@,
        a is Warn ==> x@ == "WARN"@,
        a is Info ==> x@ == "INFO"@,
        a is Debug ==> x@ == "DEBUG"@,
        a is Trace ==> x@ == "TRACE"@,
{
    reveal_strlit("TRACE");
    reveal_strlit("DEBUG");
    reveal_strlit("INFO");
    reveal_strlit("WARN");
    reveal_strlit("ERROR");
    assert("TRACE"@[0] == 'T');
    assert("DEBUG"@[0] == 'D');
    assert("INFO"@[0] == 'I');
    assert("WARN"@[0] == 'W');
    assert("ERROR"@[0] == 'E');
}

/// What did not reach the log of the capsule reaches that of the host; errors reach both.
pub proof fn law_nothing_logged_is_lost(level: LogLevel, unwritten: bool, written: bool)
    requires
        call_ensures(should_emit_to_daemon_log, (false, level), unwritten),
        call_ensures(should_emit_to_daemon_log, (true, level), written),
    ensures
        unwritten,
        written <==> level is Error,
{
}

/// A capsule sleeps for a minute at most, draws four kibibytes of chance at most, and is told when
/// its sleep was cut short.
pub proof fn law_limits_of_time_and_chance(
    ns: u64,
    sleep: Result<(), SysError>,
    cut: Result<(), SysError>,
    slept: Result<(), SysError>,
    length: u64,
    bytes: Result<Vec<u8>, SysError>,
)
    requires
        call_ensures(sleep_check, (ns,), sleep),
        call_ensures(sleep_result, (true,), cut),
        call_ensures(sleep_result, (false,), slept),
        call_ensures(random_bytes, (length,), bytes),
    ensures
        ns <= 60 * 1000 * 1000 * 1000 <==> sleep is Ok,
        sleep is Err ==> sleep == Err::<(), SysError>(SysError::TooLarge),
        cut == Err::<(), SysError>(SysError::Cancelled),
        slept is Ok,
        length > 4096 ==> bytes == Err::<Vec<u8>, SysError>(SysError::TooLarge),
        length <= 4096 && bytes is Ok ==> bytes->Ok_0@.len() == length,
        length <= 4096 && bytes is Err ==> bytes->Err_0 is Unknown,
{
}

/// A capsule holds a capability if the first entry of the registry under its number lists it.
pub proof fn law_capabilities_are_listed(
    capsules: &Vec<KnownCapsule>,
    uuid: u128,
    capability: &str,
    held: bool,
    nobody: bool,
    i: int,
    k: int,
)
    requires
        call_ensures(capability_held, (capsules, Some(uuid), capability), held),
        call_ensures(capability_held, (capsules, None::<u128>, capability), nobody),
        0 <= i < capsules@.len(),
        capsules@[i].uuid == uuid,
        forall|j: int| 0 <= j < i ==> (#[trigger] capsules@[j]).uuid != uuid,
    ensures
        !nobody,
        0 <= k < capsules@[i].capabilities@.len() && capsules@[i].capabilities@[k]@ == capability@
            ==> held,
        held ==> exists|m: int|
            0 <= m < capsules@[i].capabilities@.len() && (#[trigger] capsules@[i].capabilities@[m])@
                == capability@,
{
    let list = capsules@[i].capabilities@;
    if 0 <= k < list.len() && list[k]@ == capability@ {
        assert(views(list)[k] == capability@);
        assert(views(list).contains(capability@));
    }
    if held {
        let other = choose|other: int|
            0 <= other < capsules@.len() && (#[trigger] capsules@[other]).uuid == uuid && (
            forall|j: int| 0 <= j < other ==> (#[trigger] capsules@[j]).uuid != uuid) && views(
                capsules@[other].capabilities@,
            ).contains(capability@);
        assert(other == i);
        let m = choose|m: int| 0 <= m < views(list).len() && views(list)[m] == capability@;
        assert(list[m]@ == capability@);
    }
}

/// A capsule sees the capabilities it holds, and the epoch of the registry, or zero without one.
pub proof fn law_what_a_capsule_sees(
    held: &Vec<String>,
    names: Vec<String>,
    n: u64,
    epoch: u64,
    none: u64,
)
    requires
        call_ensures(enumerate_capabilities, (held,), names),
        call_ensures(capsule_set_epoch, (Some(n),), epoch),
        call_ensures(capsule_set_epoch, (None::<u64>,), none),
    ensures
        names@ == held@,
        epoch == n,
        none == 0,
{
}

/// An open connection is answered for by the one that was bound to it: its principal and the owner
/// of its requests; one that is not bound has neither, and one that is not open is an invalid
/// handle.
pub proof fn law_connections_answer_for_themselves(
    bound: &mut Connections,
    unbound: &mut Connections,
    rep: u32,
    identity: ConnectionIdentity,
    owner: Result<Option<String>, NetError>,
    principal: Result<Option<String>, NetError>,
    closed: Result<Option<String>, NetError>,
    gone: Result<Option<String>, NetError>,
)
    requires
        call_ensures(Connections::bind, (bound, rep, identity), ()),
        call_ensures(connection_owner, (&*final(bound), rep, true), owner),
        call_ensures(connection_principal, (&*final(bound), rep, true), principal),
        call_ensures(connection_owner, (&*final(bound), rep, false), closed),
        *old(unbound) == *final(bound),
        call_ensures(Connections::unbind, (unbound, rep), ()),
        call_ensures(connection_principal, (&*final(unbound), rep, true), gone),
    ensures
        owner == Ok::<Option<String>, NetError>(Some(identity.request_owner)),
        principal == Ok::<Option<String>, NetError>(Some(identity.principal)),
        closed == Err::<Option<String>, NetError>(NetError::InvalidHandle),
        gone == Ok::<Option<String>, NetError>(None),
{
}

/// An uplink that is registered is known by its number, its name and its platform in lower case; a
/// message that it hands in names that platform, the user and the content.
pub proof fn law_uplinks_hand_messages_in(
    uplinks: &mut Uplinks,
    name: &str,
    platform: &str,
    profile: UplinkProfile,
    id: u128,
    r: Result<u128, UplinkError>,
    user: &str,
    content: &str,
    message: Result<InboundMessage, UplinkError>,
    full: Result<InboundMessage, UplinkError>,
    white_first: bool,
    white_last: bool,
)
    requires
        call_ensures(
            Uplinks::uplink_register,
            (uplinks, true, name, platform, profile, false, &Ok::<(), String>(()), id),
            r,
        ),
        name@.len() > 0,
        platform@.len() > 0,
        call_ensures(is_white, (name@[0],), white_first),
        !white_first && !white(name@.last()),
        call_ensures(is_white, (platform@[0],), white_last),
        !white_last && !white(platform@.last()),
        old(uplinks).registered@.len() < old(uplinks).limit,
        forall|k: int|
            0 <= k < old(uplinks).registered@.len() ==> (#[trigger] old(uplinks).registered@[k]).id != id && old(uplinks).registered@[k].name@ != name@,
        call_ensures(Uplinks::inbound_for, (&*final(uplinks), id, true, user, content), message),
        call_ensures(Uplinks::inbound_for, (&*final(uplinks), id, false, user, content), full),
    ensures
        r == Ok::<u128, UplinkError>(id),
        message is Ok,
        message->Ok_0.uplink == id,
        message->Ok_0.platform_user_id@ == user@,
        message->Ok_0.content@ == content@,
        message->Ok_0.platform@.len() == platform@.len(),
        forall|k: int|
            0 <= k < platform@.len() && !(65 <= (#[trigger] platform@[k]) as int <= 90)
                ==> message->Ok_0.platform@[k] == platform@[k],
        forall|k: int|
            0 <= k < platform@.len() && 65 <= (#[trigger] platform@[k]) as int <= 90
                ==> message->Ok_0.platform@[k] as int == platform@[k] as int + 32,
        full == Err::<InboundMessage, UplinkError>(UplinkError::Quota),
        final(uplinks).registered@.last().profile == profile,
        final(uplinks).registered@.last().name@ == name@,
{
    assert(trimmed(name@) == name@);
    assert(trimmed(platform@) == platform@);
    let before = old(uplinks).registered@;
    let place = ascii_lowered(platform@);
    assert(!known(before, name@, place)) by {
        if known(before, name@, place) {
            let k = choose|k: int|
                0 <= k < before.len() && (#[trigger] before[k]).name@ == name@
                    && before[k].platform@ == place;
            assert(before[k].name@ != name@);
        }
    }
    let after = final(uplinks).registered@;
    let n = before.len() as int;
    assert(after[n] == after.last());
    assert forall|k: int| 0 <= k < n implies (#[trigger] after[k]).id != id by {
        assert(after.drop_last()[k] == after[k]);
        assert(before[k].id != id);
    }
    assert(first_with_id(after, id, n));
    lemma_found(*final(uplinks), id, true, user, content, message, n);
    lemma_found(*final(uplinks), id, false, user, content, full, n);
    assert forall|k: int| 0 <= k < platform@.len() && !(65 <= (#[trigger] platform@[k]) as int
        <= 90) implies message->Ok_0.platform@[k] == platform@[k] by {
        crate::text_laws::lemma_lower(platform@[k]);
        assert(place[k] == crate::text::ascii_lower(platform@[k]));
    }
    assert forall|k: int| 0 <= k < platform@.len() && 65 <= (#[trigger] platform@[k]) as int
        <= 90 implies message->Ok_0.platform@[k] as int == platform@[k] as int + 32 by {
        crate::text_laws::lemma_lower(platform@[k]);
        assert(place[k] == crate::text::ascii_lower(platform@[k]));
    }
}

/// What is handed in for an uplink that is registered names its platform.
proof fn lemma_found(
    uplinks: Uplinks,
    id: u128,
    inbox: bool,
    user: &str,
    content: &str,
    r: Result<InboundMessage, UplinkError>,
    n: int,
)
    requires
        call_ensures(Uplinks::inbound_for, (&uplinks, id, inbox, user, content), r),
        first_with_id(uplinks.registered@, id, n),
    ensures
        inbox ==> r is Ok && r->Ok_0.platform@ == uplinks.registered@[n].platform@,
        !inbox ==> r == Err::<InboundMessage, UplinkError>(UplinkError::Quota),
{
    let list = uplinks.registered@;
    if r is Ok {
        let j = choose|j: int| #[trigger]
            first_with_id(list, id, j) && r->Ok_0.platform@ == list[j].platform@;
        if j < n {
            assert(list[j].id != id);
        } else if j > n {
            assert(list[n].id != id);
        }
    }
}

/// Registering an uplink takes the capability, a name, a platform, leave, a source
/// and room; what is refused leaves the registry as it was.
pub proof fn law_registering_is_refused(
    uplinks: &mut Uplinks,
    capable: bool,
    name: &str,
    platform: &str,
    profile: UplinkProfile,
    refused: bool,
    source: &Result<(), String>,
    id: u128,
    r: Result<u128, UplinkError>,
)
    requires
        call_ensures(
            Uplinks::uplink_register,
            (uplinks, capable, name, platform, profile, refused, source, id),
            r,
        ),
    ensures
        !capable ==> r == Err::<u128, UplinkError>(UplinkError::CapabilityDenied),
        capable && (name@.len() == 0 || platform@.len() == 0) ==> r == Err::<u128, UplinkError>(
            UplinkError::InvalidInput,
        ),
        capable && refused ==> r is Err,
        *source is Err ==> r is Err,
        old(uplinks).registered@.len() >= old(uplinks).limit ==> r is Err,
        r is Err ==> *final(uplinks) == *old(uplinks),
        r is Ok ==> r->Ok_0 == id,
{
}

/// An uplink whose number nobody registered is unknown; what was sent is told as taken or not.
pub proof fn law_unknown_uplinks(
    uplinks: &Uplinks,
    id: u128,
    inbox: bool,
    user: &str,
    content: &str,
    r: Result<InboundMessage, UplinkError>,
    taken: bool,
    told: Result<bool, UplinkError>,
)
    requires
        call_ensures(Uplinks::inbound_for, (uplinks, id, inbox, user, content), r),
        forall|k: int|
            0 <= k < uplinks.registered@.len() ==> (#[trigger] uplinks.registered@[k]).id != id,
        call_ensures(send_result, (taken,), told),
    ensures
        r == Err::<InboundMessage, UplinkError>(UplinkError::UnknownUplink),
        told == Ok::<bool, UplinkError>(taken),
{
}

/// The space characters are the blanks of ASCII and the ones that Unicode counts as such.
pub proof fn law_white_space(c: char, r: bool)
    requires
        call_ensures(is_white, (c,), r),
    ensures
        c == ' ' || c == '\t' || c == '\n' || c == '\r' ==> r,
        0x21 <= c as int <= 0x7e ==> !r,
        c as int == 0xa0 || c as int == 0x3000 ==> r,
{
}

/// A principal that is not restricted may reach everything and start everything.
pub proof fn law_unrestricted_profiles(
    profile: &PrincipalProfile,
    host: &str,
    port: Option<u16>,
    command: &str,
    restricted: bool,
    reaches: bool,
    starts: bool,
    k: int,
)
    requires
        call_ensures(PrincipalProfile::is_restricted, (profile,), restricted),
        call_ensures(PrincipalProfile::egress_allows, (profile, host, port), reaches),
        call_ensures(PrincipalProfile::process_allows, (profile, command), starts),
    ensures
        0 <= k < profile.groups@.len() && profile.groups@[k]@ == "restricted"@ ==> restricted,
        (forall|i: int| 0 <= i < profile.groups@.len() ==> (#[trigger] profile.groups@[i])@
            != "restricted"@) ==> !restricted,
        !restricted ==> reaches && starts,
        restricted && profile.egress@.len() == 0 ==> !reaches,
        restricted && profile.process_allow@.len() == 0 ==> !starts,
{
    let groups = views(profile.groups@);
    if 0 <= k < profile.groups@.len() && profile.groups@[k]@ == "restricted"@ {
        assert(groups[k] == "restricted"@);
    }
    if restricted {
        let i = choose|i: int| 0 <= i < groups.len() && groups[i] == "restricted"@;
        assert(profile.groups@[i]@ == "restricted"@);
    }
}

/// An endpoint that a profile names by host and port may be reached at that port, in whatever case
/// the host is written; one that it names by host and star, at every port. Of a restricted profile
/// that names one endpoint, no other port and no other host may be reached.
pub proof fn law_named_endpoints_are_reached(
    profile: &PrincipalProfile,
    i: int,
    named: &str,
    host: &str,
    same: bool,
    p: u16,
    q: u16,
    written: String,
    reaches: bool,
    restricted: bool,
)
    requires
        call_ensures(PrincipalProfile::is_restricted, (profile,), restricted),
        call_ensures(PrincipalProfile::egress_allows, (profile, host, Some(q)), reaches),
        call_ensures(eq_ignore_ascii_case, (named, host), same),
        call_ensures(show, (p as u64,), written),
        0 <= i < profile.egress@.len(),
    ensures
        profile.egress@[i]@ == named@ + seq![':'] + written@ && same && p == q ==> reaches,
        profile.egress@[i]@ == named@ + seq![':'] + "*"@ && same ==> reaches,
        restricted && profile.egress@.len() == 1 && profile.egress@[i]@ == named@ + seq![':']
            + written@ && (p != q || !same) ==> !reaches,
        restricted && profile.egress@.len() == 1 && profile.egress@[i]@ == named@ + seq![':']
            + "*"@ && !same ==> !reaches,
        restricted && profile.egress@.len() == 1 && !profile.egress@[i]@.contains(':')
            ==> !reaches,
{
    reveal_strlit("*");
    let pattern = profile.egress@[i]@;
    lemma_decimal(p as nat);
    lemma_split_between(named@, ':', written@);
    assert(!"*"@.contains(':'));
    lemma_split_between(named@, ':', "*"@);
    assert(unsigned(written@) == written@);
    assert(parsed(written@, 10, u16::MAX as int) == Some(p as int));
    assert(written@ != "*"@) by {
        assert(48 <= written@[0] as int <= 57);
        assert("*"@[0] as int == 42);
    }
    crate::text_laws::lemma_split_last(pattern, ':');
    if covers(pattern, host@, Some(q)) {
        assert(profile.may_reach(host@, Some(q)));
    } else if restricted && profile.egress@.len() == 1 {
        assert forall|j: int| 0 <= j < profile.egress@.len() implies !covers(
            (#[trigger] profile.egress@[j])@,
            host@,
            Some(q),
        ) by {
            assert(j == i);
        }
    }
}

/// A program that a profile names by its path may be started by that path; one that it names
/// without a directory, from every directory. Of a restricted profile that names one program, no
/// other may be started.
pub proof fn law_named_programs_are_started(
    profile: &PrincipalProfile,
    i: int,
    command: &str,
    dir: Seq<char>,
    name: Seq<char>,
    starts: bool,
    restricted: bool,
)
    requires
        call_ensures(PrincipalProfile::is_restricted, (profile,), restricted),
        call_ensures(PrincipalProfile::process_allows, (profile, command), starts),
        0 <= i < profile.process_allow@.len(),
        name.len() > 0 && name != "."@ && name != ".."@ && !name.contains('/'),
    ensures
        profile.process_allow@[i]@ == command@ ==> starts,
        profile.process_allow@[i]@ == name && command@ == dir + seq!['/'] + name ==> starts,
        restricted && profile.process_allow@.len() == 1 && profile.process_allow@[i]@.contains('/')
            && profile.process_allow@[i]@ != command@ ==> !starts,
        restricted && profile.process_allow@.len() == 1 && profile.process_allow@[i]@ != command@
            && command@ == dir + seq!['/'] + name && profile.process_allow@[i]@ != name ==> !starts,
{
    let entry = profile.process_allow@[i]@;
    if command@ == dir + seq!['/'] + name {
        lemma_name_in_directory(dir, name);
        assert(base_name(command@) == Some(name));
    }
    if names_program(entry, command@) {
        assert(profile.may_start(command@));
    } else if restricted && profile.process_allow@.len() == 1 {
        assert forall|j: int| 0 <= j < profile.process_allow@.len() implies !names_program(
            (#[trigger] profile.process_allow@[j])@,
            command@,
        ) by {
            assert(j == i);
        }
    }
}

/// An uplink is registered once under a name on a platform, while there is room.
pub proof fn law_uplinks_are_registered_once(
    first: &mut Uplinks,
    second: &mut Uplinks,
    a: UplinkDescriptor,
    b: UplinkDescriptor,
    r: Result<(), String>,
    again: Result<(), String>,
)
    requires
        call_ensures(Uplinks::register_uplink, (first, a), r),
        r is Ok,
        *old(second) == *final(first),
        call_ensures(Uplinks::register_uplink, (second, b), again),
        b.name@ == a.name@ && b.platform@ == a.platform@,
    ensures
        old(first).registered@.len() < old(first).limit,
        final(first).registered@ == old(first).registered@.push(a),
        again is Err && *final(second) == *old(second),
{
    let list = final(first).registered@;
    assert(list[list.len() - 1] == a);
    assert(known(list, b.name@, b.platform@));
}

/// Sending takes the capability and a number that is one; what is sent is what is handed in.
pub proof fn law_sending_over_an_uplink(
    uplinks: &Uplinks,
    id: &str,
    inbox: bool,
    user: &str,
    content: &str,
    r: Result<InboundMessage, UplinkError>,
    incapable: Result<InboundMessage, UplinkError>,
)
    requires
        call_ensures(Uplinks::uplink_send, (uplinks, true, id, inbox, user, content), r),
        call_ensures(Uplinks::uplink_send, (uplinks, false, id, inbox, user, content), incapable),
    ensures
        incapable == Err::<InboundMessage, UplinkError>(UplinkError::CapabilityDenied),
        vstd::utf8::encode_utf8(id@).len() > 64 || uuid_value(id@) is None ==> r == Err::<
            InboundMessage,
            UplinkError,
        >(UplinkError::InvalidInput),
        r is Ok ==> r->Ok_0.platform_user_id@ == user@ && r->Ok_0.content@ == content@
            && Some(r->Ok_0.uplink) == uuid_value(id@) && inbox,
{
    crate::text::lemma_utf8_len(id@);
}

/// Asking for the capability of a capsule takes a registry and a number that is one.
pub proof fn law_asking_for_capabilities(
    capsules: Vec<KnownCapsule>,
    source: &str,
    capability: &str,
    some: Result<bool, SysError>,
    none: Result<bool, SysError>,
    held: bool,
)
    requires
        call_ensures(check_capsule_capability, (&Some(capsules), source, capability), some),
        call_ensures(
            check_capsule_capability,
            (&None::<Vec<KnownCapsule>>, source, capability),
            none,
        ),
        call_ensures(capability_held, (&capsules, uuid_value(source@), capability), held),
    ensures
        some == Ok::<bool, SysError>(held),
        none == Err::<bool, SysError>(SysError::RegistryUnavailable),
{
}

/// What is put under a name is found under it and nowhere else until it is taken away.
pub proof fn law_names_hold_values(
    put: &mut NameMap<u64>,
    taken: &mut NameMap<u64>,
    name: String,
    key: &str,
    other: &str,
    value: u64,
    got: Option<&u64>,
    beside: Option<&u64>,
    before: Option<&u64>,
    out: Option<u64>,
    there: bool,
)
    requires
        key@ == name@ && other@ != name@,
        call_ensures(NameMap::<u64>::get, (&*old(put), other), before),
        call_ensures(NameMap::<u64>::insert, (put, name, value), ()),
        call_ensures(NameMap::<u64>::get, (&*final(put), key), got),
        call_ensures(NameMap::<u64>::get, (&*final(put), other), beside),
        *old(taken) == *final(put),
        call_ensures(NameMap::<u64>::remove, (taken, key), out),
        call_ensures(NameMap::<u64>::contains, (&*final(taken), key), there),
    ensures
        got is Some && *got->Some_0 == value,
        before is None <==> beside is None,
        before is Some ==> *beside->Some_0 == *before->Some_0,
        out == Some(value),
        !there,
{
}

/// The identity that is bound to a connection is the one that is looked up.
pub proof fn law_identities_are_looked_up(
    bound: &mut Connections,
    rep: u32,
    identity: ConnectionIdentity,
    found: Option<ConnectionIdentity>,
    copy: ConnectionIdentity,
)
    requires
        call_ensures(Connections::bind, (bound, rep, identity), ()),
        call_ensures(Connections::lookup, (&*final(bound), rep), found),
        call_ensures(ConnectionIdentity::copy, (&identity,), copy),
    ensures
        found == Some(identity),
        copy == identity,
{
}

/// The room for uplinks is what it was made with, whatever is registered.
pub proof fn law_room_for_uplinks(
    limit: usize,
    new: Uplinks,
    registered: &mut Uplinks,
    descriptor: UplinkDescriptor,
    r: Result<(), String>,
    sent: &mut Uplinks,
    name: &str,
    platform: &str,
    profile: UplinkProfile,
    source: &Result<(), String>,
    id: u128,
    s: Result<u128, UplinkError>,
)
    requires
        call_ensures(Uplinks::new, (limit,), new),
        *old(registered) == new,
        call_ensures(Uplinks::register_uplink, (registered, descriptor), r),
        *old(sent) == *final(registered),
        call_ensures(
            Uplinks::uplink_register,
            (sent, true, name, platform, profile, false, source, id),
            s,
        ),
    ensures
        new.registered@.len() == 0,
        limit > 0 <==> r is Ok,
        final(registered).limit == limit && final(sent).limit == limit,
        limit == 1 ==> s is Err,
{
}

/// Without a message nobody called: there is no principal, no sender and no time.
pub proof fn law_no_message_no_caller(caller: CallerContext)
    requires
        call_ensures(get_caller, (&None::<IpcMessage>,), caller),
    ensures
        caller.principal is None && caller.source_id@.len() == 0 && caller.timestamp@.len() == 0,
{
}

/// Why an uplink was not registered is told in words, and nothing is registered then; why there are
/// no random bytes is told with the reason of the operating system.
pub proof fn law_reasons_are_told(
    full: &mut Uplinks,
    twice: &mut Uplinks,
    lost: &mut Uplinks,
    descriptor: UplinkDescriptor,
    i: int,
    a: Result<(), String>,
    b: Result<(), String>,
    name: &str,
    platform: &str,
    profile: UplinkProfile,
    text: String,
    id: u128,
    c: Result<u128, UplinkError>,
    length: u64,
    bytes: Result<Vec<u8>, SysError>,
)
    requires
        old(full).registered@.len() >= old(full).limit,
        call_ensures(Uplinks::register_uplink, (full, descriptor), a),
        old(twice).registered@.len() < old(twice).limit,
        0 <= i < old(twice).registered@.len(),
        old(twice).registered@[i].name@ == descriptor.name@,
        old(twice).registered@[i].platform@ == descriptor.platform@,
        call_ensures(Uplinks::register_uplink, (twice, descriptor), b),
        call_ensures(
            Uplinks::uplink_register,
            (lost, true, name, platform, profile, false, &Err::<(), String>(text), id),
            c,
        ),
        length <= 4096,
        call_ensures(random_bytes, (length,), bytes),
    ensures
        a is Err && a->Err_0@ == "uplink registration limit reached"@,
        b is Err && b->Err_0@ == "duplicate uplink name and platform"@,
        *final(full) == *old(full) && *final(twice) == *old(twice) && *final(lost) == *old(lost),
        c is Err,
        c->Err_0 is Unknown ==> c->Err_0->Unknown_0@ == "uplink source: "@ + text@,
        c->Err_0 is Unknown || c->Err_0 is InvalidInput,
        bytes is Err ==> exists|why: String|
            {
                &&& #[trigger] may_draw(length as usize, Err::<Vec<u8>, String>(why))
                &&& bytes->Err_0 == SysError::Unknown(bytes->Err_0->Unknown_0)
                &&& bytes->Err_0->Unknown_0@ == "entropy source unavailable: "@ + why@
            },
        bytes is Ok ==> may_draw(length as usize, Ok::<Vec<u8>, String>(bytes->Ok_0)),
{
}

} // verus!
