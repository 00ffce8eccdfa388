//! What holds of the parts of a kept process: its limits, its output, its id.

use vstd::prelude::*;

use crate::process::persistent::config::{
    clamp_label, clamp_log_ring, is_control, lemma_printable_fixed, lemma_utf8_monotone,
    longest_fit, overflow_from_wit, printable, resolve_ttls, stop_grace,
};
use crate::process::persistent::entry::{
    elapsed_ms, exit_info, exit_record, ExitRecord, PersistentEntry, Phase,
};
use crate::process::persistent::ids::{
    base32_lower, has_id_form, law_id_alphabet, law_id_length, law_ids_distinct, mint_from, mint_id,
};
use crate::process::persistent::registry::{PersistentProcessRegistry, SpawnParams};
use crate::process::persistent::ring::{
    decode_cursor, encode_cursor, law_cursor_round_trip, LogRing, Overflow,
};
use crate::process::types::{
    ErrorCode, ExitInfo, LogCursor, OverflowPolicy, ProcessInfo, ProcessPhase,
};
use crate::entropy::{may_draw, RandomSource};
use crate::text::lemma_utf8_len;
use vstd::utf8::encode_utf8;

verus! {

/// A ring is as large as was asked for, between four kibibytes and eight mebibytes, and one mebibyte
/// if nothing was; it drops the oldest bytes unless back pressure was asked for.
pub proof fn law_rings_as_asked(
    bytes: u32,
    cap: usize,
    default: usize,
    dropping: Overflow,
    pressing: Overflow,
    unasked: Overflow,
)
    requires
        call_ensures(clamp_log_ring, (Some(bytes),), cap),
        call_ensures(clamp_log_ring, (None::<u32>,), default),
        call_ensures(overflow_from_wit, (Some(OverflowPolicy::DropOldest),), dropping),
        call_ensures(overflow_from_wit, (Some(OverflowPolicy::Backpressure),), pressing),
        call_ensures(overflow_from_wit, (None::<OverflowPolicy>,), unasked),
    ensures
        4096 <= bytes <= 8388608 ==> cap == bytes,
        bytes < 4096 ==> cap == 4096,
        bytes > 8388608 ==> cap == 8388608,
        default == 1048576,
        dropping is DropOldest && pressing is Backpressure && unasked is DropOldest,
{
}

/// Each of the three times of a process is what was asked for up to its ceiling, and its own default
/// if nothing was: asking for one changes no other.
pub proof fn law_times_as_asked(
    life: u64,
    idle: u64,
    kept: u64,
    asked: (u64, u64, u64),
    unasked: (u64, u64, u64),
    grace: u64,
    stop: u64,
    unasked_stop: u64,
)
    requires
        call_ensures(resolve_ttls, (Some(life), Some(idle), Some(kept)), asked),
        call_ensures(resolve_ttls, (None::<u64>, None::<u64>, None::<u64>), unasked),
        call_ensures(stop_grace, (Some(grace),), stop),
        call_ensures(stop_grace, (None::<u64>,), unasked_stop),
    ensures
        life <= 21600000 ==> asked.0 == life,
        life > 21600000 ==> asked.0 == 21600000,
        idle <= 21600000 ==> asked.1 == idle,
        idle > 21600000 ==> asked.1 == 21600000,
        kept <= 3600000 ==> asked.2 == kept,
        kept > 3600000 ==> asked.2 == 3600000,
        unasked == (21600000u64, 1800000u64, 300000u64),
        grace <= 30000 ==> stop == grace,
        grace > 30000 ==> stop == 30000,
        unasked_stop == 5000,
{
}

/// A label holds no control character and takes no more than a hundred and twenty-eight bytes; one
/// that was so already is kept as it was, and without one the command stands in its place.
pub proof fn law_labels_are_plain(
    text: String,
    command: &str,
    out: String,
    fallback: String,
    i: int,
)
    requires
        call_ensures(clamp_label, (Some(text), command), out),
        call_ensures(clamp_label, (None::<String>, command), fallback),
    ensures
        encode_utf8(out@).len() <= 128,
        0 <= i < out@.len() ==> !(out@[i] as int <= 0x1f || 0x7f <= out@[i] as int <= 0x9f),
        0 <= i < out@.len() ==> text@.contains(out@[i]),
        encode_utf8(text@).len() <= 128 && (forall|k: int|
            0 <= k < text@.len() ==> {
                let code = (#[trigger] text@[k]) as int;
                0x20 <= code < 0x7f || 0x9f < code
            }) ==> out@ == text@,
        encode_utf8(command@).len() <= 128 && (forall|k: int|
            0 <= k < command@.len() ==> {
                let code = (#[trigger] command@[k]) as int;
                0x20 <= code < 0x7f || 0x9f < code
            }) ==> fallback@ == command@,
{
    lemma_printable_of(text@);
    if 0 <= i < out@.len() {
        assert(out@[i] == printable(text@)[i]);
        assert(!is_control(printable(text@)[i]));
        lemma_code(out@[i]);
    }
    if forall|k: int|
        0 <= k < text@.len() ==> {
            let code = (#[trigger] text@[k]) as int;
            0x20 <= code < 0x7f || 0x9f < code
        } {
        assert forall|k: int| 0 <= k < text@.len() implies !is_control(#[trigger] text@[k]) by {
            let code = text@[k] as int;
            assert(0x20 <= code < 0x7f || 0x9f < code);
            lemma_code(text@[k]);
        }
        lemma_whole_fits(text@, out@);
    }
    if forall|k: int|
        0 <= k < command@.len() ==> {
            let code = (#[trigger] command@[k]) as int;
            0x20 <= code < 0x7f || 0x9f < code
        } {
        assert forall|k: int| 0 <= k < command@.len() implies !is_control(
            #[trigger] command@[k],
        ) by {
            let code = command@[k] as int;
            assert(0x20 <= code < 0x7f || 0x9f < code);
            lemma_code(command@[k]);
        }
        lemma_whole_fits(command@, fallback@);
    }
}

/// A character is the number that it stands for.
proof fn lemma_code(c: char)
    ensures
        c as u32 == c as int,
{
}

/// What is printable of a text are characters of it, none of them a control character.
proof fn lemma_printable_of(s: Seq<char>)
    ensures
        forall|i: int|
            0 <= i < printable(s).len() ==> !is_control(#[trigger] printable(s)[i]) && s.contains(
                printable(s)[i],
            ),
    decreases s.len(),
{
    if s.len() > 0 {
        let rest = s.drop_last();
        lemma_printable_of(rest);
        let kept = printable(rest);
        assert forall|i: int| 0 <= i < printable(s).len() implies !is_control(
            #[trigger] printable(s)[i],
        ) && s.contains(printable(s)[i]) by {
            if i < kept.len() {
                assert(printable(s)[i] == kept[i]);
                let k = choose|k: int| 0 <= k < rest.len() && rest[k] == kept[i];
                assert(s[k] == kept[i]);
            } else {
                assert(s[s.len() - 1] == s.last());
            }
        }
    }
}

/// A printable text that takes few enough bytes fits as a whole.
proof fn lemma_whole_fits(text: Seq<char>, label: Seq<char>)
    requires
        forall|i: int| 0 <= i < text.len() ==> !is_control(#[trigger] text[i]),
        longest_fit(printable(text), 128, label),
    ensures
        encode_utf8(text).len() <= 128 ==> label == text,
{
    lemma_printable_fixed(text);
    lemma_utf8_len(text);
    assert(text.take(text.len() as int) =~= text);
    if label.len() < text.len() {
        lemma_utf8_monotone(text, label.len() as int + 1, text.len() as int);
    }
}

/// The time that has passed is the difference, and none where the clock went back.
pub proof fn law_time_that_has_passed(now: u64, then: u64, ms: u64)
    requires
        call_ensures(elapsed_ms, (now, then), ms),
    ensures
        now >= then ==> ms == now - then,
        now < then ==> ms == 0,
{
}

/// The state of a process tells what the process is: who, since when, how much output waits and was
/// lost, and how it ended.
pub proof fn law_state_tells_the_process(
    entry: &PersistentEntry,
    now: u64,
    info: ProcessInfo,
    live: bool,
    due: bool,
)
    requires
        call_ensures(PersistentEntry::info, (entry, now), info),
        call_ensures(PersistentEntry::is_live, (entry,), live),
        call_ensures(PersistentEntry::is_due, (entry, now), due),
        entry.spawned_at <= now && entry.core.last_touch <= now,
    ensures
        info.id@ == entry.id@ && info.label@ == entry.label@ && info.command@ == entry.command@,
        live <==> entry.core.phase is Running,
        live ==> info.os_pid == Some(entry.os_pid) && info.phase == ProcessPhase::Running,
        !live ==> info.os_pid is None && info.phase == ProcessPhase::Exited,
        info.age_ms == now - entry.spawned_at,
        info.idle_ms == now - entry.core.last_touch,
        info.buffered_bytes == entry.core.stdout@.bytes.len() + entry.core.stderr@.bytes.len(),
        entry.core.stdout@.dropped + entry.core.stderr@.dropped <= u64::MAX ==> info.bytes_dropped
            == entry.core.stdout@.dropped + entry.core.stderr@.dropped,
        info.stdin_open == entry.core.stdin_open,
        entry.core.exit is None <==> info.exit is None,
        entry.core.exit is Some ==> info.exit->Some_0.exit_code == entry.core.exit->Some_0.exit_code
            && info.exit->Some_0.signal == entry.core.exit->Some_0.signal,
        live ==> (due <==> now - entry.spawned_at >= entry.max_lifetime || now
            - entry.core.last_touch >= entry.idle_timeout),
        !live && entry.core.exited_at is Some && entry.core.exited_at->Some_0 <= now ==> (due
            <==> now - entry.core.exited_at->Some_0 >= entry.exit_retention),
{
}

/// An exit is recorded as the system reported it, and as a failure where it could not be had; what
/// is recorded is what is told.
pub proof fn law_exits_are_recorded(
    code: Option<i32>,
    signal: Option<i32>,
    record: ExitRecord,
    lost: ExitRecord,
    info: Option<ExitInfo>,
    none: Option<ExitInfo>,
)
    requires
        call_ensures(exit_record, (Some((code, signal)),), record),
        call_ensures(exit_record, (None::<(Option<i32>, Option<i32>)>,), lost),
        call_ensures(exit_info, (Some(record),), info),
        call_ensures(exit_info, (None::<ExitRecord>,), none),
    ensures
        record.exit_code == code && record.signal == signal,
        lost.exit_code == Some(-1i32) && lost.signal is None,
        info is Some && info->Some_0.exit_code == code && info->Some_0.signal == signal,
        none is None,
{
}

/// A ring gives back what was pushed into it, in order and once: everything that fits, and the last
/// of it where it does not.
pub proof fn law_rings_give_back(
    first: &mut LogRing,
    second: &mut LogRing,
    drained: &mut LogRing,
    cap: usize,
    overflow: Overflow,
    a: &[u8],
    b: &[u8],
    taken: bool,
    also: bool,
    out: Vec<u8>,
    new: LogRing,
)
    requires
        call_ensures(LogRing::new, (cap, overflow), new),
        *old(first) == new,
        a@.len() <= cap,
        call_ensures(LogRing::push, (first, a), taken),
        *old(second) == *final(first),
        call_ensures(LogRing::push, (second, b), also),
        *old(drained) == *final(second),
        call_ensures(LogRing::drain, (drained,), out),
    ensures
        taken,
        a@.len() + b@.len() <= cap ==> also && out@ == a@ + b@,
        overflow is Backpressure && a@.len() + b@.len() > cap ==> !also && out@ == a@,
        overflow is DropOldest && a@.len() + b@.len() > cap ==> also && out@.len() == cap && out@
            == (a@ + b@).skip(a@.len() + b@.len() - cap) && final(second)@.dropped == a@.len()
            + b@.len() - cap,
        final(drained)@.bytes.len() == 0,
{
    assert(old(first)@.bytes + a@ =~= a@);
}

/// A cursor that is handed out leads back to where it was taken; no cursor is the beginning, and
/// what is no cursor leads nowhere.
pub proof fn law_cursors_lead_back(
    offset: u64,
    cursor: LogCursor,
    back: Result<Option<u64>, ErrorCode>,
    none: &LogCursor,
    beginning: Result<Option<u64>, ErrorCode>,
)
    requires
        call_ensures(encode_cursor, (offset,), cursor),
        call_ensures(decode_cursor, (&cursor,), back),
        none.token is None,
        call_ensures(decode_cursor, (none,), beginning),
    ensures
        back == Ok::<Option<u64>, ErrorCode>(Some(offset)),
        beginning == Ok::<Option<u64>, ErrorCode>(None),
        cursor.token is Some && cursor.token->Some_0@.len() == 16,
{
    law_cursor_round_trip(offset);
    crate::digits::lemma_digits_of(offset as int, 16, 16);
}

/// Ids of thirty-two bytes are fifty-two small letters and digits, and different bytes make
/// different ids.
pub proof fn law_ids_of_bytes(a: &[u8], b: &[u8], x: String, y: String, i: int)
    requires
        call_ensures(base32_lower, (a,), x),
        call_ensures(base32_lower, (b,), y),
        a@.len() == 32 && b@.len() == 32,
    ensures
        x@.len() == 52,
        0 <= i < x@.len() ==> 97 <= x@[i] as int <= 122 || 50 <= x@[i] as int <= 55,
        x@ == y@ ==> a@ == b@,
{
    law_id_length(a@);
    law_id_alphabet(a@);
    if x@ == y@ {
        law_ids_distinct(a@, b@);
    }
    if 0 <= i < x@.len() {
        let c = x@[i];
    }
}

/// A process that is put under an id is kept there, for its owner alone, and an id that is taken is
/// not taken twice.
pub proof fn law_ids_are_taken_once(
    registry: &mut PersistentProcessRegistry,
    again: &mut PersistentProcessRegistry,
    p: SpawnParams,
    q: SpawnParams,
    id: &str,
    now: u64,
    inserted: bool,
    twice: bool,
    key: String,
)
    requires
        old(registry)@.valid(),
        call_ensures(PersistentProcessRegistry::insert_as, (registry, p, id, now), inserted),
        inserted,
        *old(again) == *final(registry),
        call_ensures(PersistentProcessRegistry::insert_as, (again, q, id, now), twice),
        call_ensures(PersistentProcessRegistry::slot_of, (&*old(registry), id), key),
    ensures
        !old(registry)@.entries.contains_key(key@),
        final(registry)@.grants(id@, p.creator@, p.capsule_id@),
        final(registry)@.entries.contains_key(key@),
        !twice,
        final(again)@ == final(registry)@,
{
}

/// A process that is looked up is touched; one that is not the caller's is not found.
pub proof fn law_looking_up_touches(
    registry: &mut PersistentProcessRegistry,
    id: &str,
    principal: &str,
    capsule_id: &str,
    now: u64,
    r: Result<String, ErrorCode>,
    n: usize,
)
    requires
        call_ensures(
            PersistentProcessRegistry::resolve,
            (registry, id, principal, capsule_id, now),
            r,
        ),
        call_ensures(PersistentProcessRegistry::live_count, (&*old(registry), principal), n),
    ensures
        old(registry)@.grants(id@, principal@, capsule_id@) <==> r is Ok,
        r is Ok ==> final(registry)@.process(id@).last_touch == now
            && final(registry)@.process(id@).spawned_at == old(registry)@.process(id@).spawned_at
            && final(registry)@.process(id@).phase == old(registry)@.process(id@).phase,
        r is Err ==> r == Err::<String, ErrorCode>(ErrorCode::NoSuchProcess) && final(registry)@
            == old(registry)@,
        n == old(registry)@.live_slots(principal@).len(),
{
}

/// A ring tells what it holds: how much, where it begins and ends, and what it lost.
pub proof fn law_rings_tell_themselves(
    ring: &LogRing,
    n: usize,
    front: u64,
    end: u64,
    lost: u64,
    all: (Vec<u8>, u64, u64),
    max: usize,
)
    requires
        call_ensures(LogRing::len, (ring,), n),
        call_ensures(LogRing::front_offset, (ring,), front),
        call_ensures(LogRing::end_offset, (ring,), end),
        call_ensures(LogRing::overflow_dropped, (ring,), lost),
        n <= max,
        call_ensures(LogRing::read_since, (ring, None::<u64>, max), all),
    ensures
        n == ring@.bytes.len(),
        end == front + n,
        lost == ring@.dropped,
        front == ring@.front,
        all.0@ == ring@.bytes,
        all.1 == end,
        all.2 == 0,
{
    assert(ring@.between(ring@.front, ring@.end()) =~= ring@.bytes);
}

/// A new registry holds nothing and has a key of its own; a new id has the form of one, and each id
/// takes one draw.
pub proof fn law_new_registries_are_empty(
    r: Result<PersistentProcessRegistry, String>,
    id: Result<String, String>,
    source: &mut RandomSource,
    drawn: Result<String, String>,
    slot: Seq<char>,
    i: int,
)
    requires
        call_ensures(PersistentProcessRegistry::new, (), r),
        call_ensures(mint_id, (), id),
        call_ensures(mint_from, (source,), drawn),
    ensures
        r is Ok ==> !r->Ok_0@.entries.contains_key(slot) && r->Ok_0@.valid() && r->Ok_0@.key.len()
            == 32,
        id is Ok ==> id->Ok_0@.len() == 52,
        id is Ok && 0 <= i < id->Ok_0@.len() ==> (97 <= id->Ok_0@[i] as int <= 122 || 50
            <= id->Ok_0@[i] as int <= 55),
        final(source)@.len() == old(source)@.len() + 1,
        drawn is Ok ==> drawn->Ok_0@.len() == 52 && final(source)@.last() is Ok,
        drawn is Err ==> final(source)@.last() is Err,
{
    if id is Ok && 0 <= i < id->Ok_0@.len() {
        let c = id->Ok_0@[i];
        assert(has_id_form(id->Ok_0@));
        assert(('a' <= c && c <= 'z') || ('2' <= c && c <= '7'));
    }
}

/// A registry has the key that was drawn for it, and there is none only where none was to be drawn.
pub proof fn law_registries_draw_their_key(r: Result<PersistentProcessRegistry, String>)
    requires
        call_ensures(PersistentProcessRegistry::new, (), r),
    ensures
        r is Ok ==> exists|key: Vec<u8>|
            {
                &&& #[trigger] may_draw(32, Ok::<Vec<u8>, String>(key))
                &&& r->Ok_0@.key == key@
                &&& r->Ok_0@.drawn == seq![Ok::<Vec<u8>, String>(key)]
            },
        r is Err ==> may_draw(32, Err::<Vec<u8>, String>(r->Err_0)),
{
}

/// A ring that was emptied goes on where it ended: no offset comes twice, and what was lost stays
/// lost.
pub proof fn law_emptied_rings_go_on(
    ring: &mut LogRing,
    out: Vec<u8>,
    end: u64,
    lost: u64,
    begin: u64,
    after: u64,
    still: u64,
    n: usize,
)
    requires
        call_ensures(LogRing::end_offset, (&*old(ring),), end),
        call_ensures(LogRing::overflow_dropped, (&*old(ring),), lost),
        call_ensures(LogRing::drain, (ring,), out),
        call_ensures(LogRing::front_offset, (&*final(ring),), begin),
        call_ensures(LogRing::end_offset, (&*final(ring),), after),
        call_ensures(LogRing::overflow_dropped, (&*final(ring),), still),
        call_ensures(LogRing::len, (&*final(ring),), n),
    ensures
        begin == end && after == end && still == lost && n == 0,
        out@ == old(ring)@.bytes,
        final(ring)@.cap == old(ring)@.cap && final(ring)@.overflow == old(ring)@.overflow,
{
}

/// Minting an id draws once and keeps what was drawn before.
pub proof fn law_draws_are_kept(
    source: &mut RandomSource,
    drawn: Result<String, String>,
    i: int,
)
    requires
        call_ensures(mint_from, (source,), drawn),
        0 <= i < old(source)@.len(),
    ensures
        final(source)@[i] == old(source)@[i],
        may_draw(32, final(source)@.last()),
{
    assert(final(source)@.drop_last()[i] == final(source)@[i]);
}

} // verus!
