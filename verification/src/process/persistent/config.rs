//! Limits of the persistent tier, and how requests are brought down to them. A capsule can never
//! ask for an unbounded ring, lifetime or label.

use vstd::prelude::*;

use crate::process::persistent::ring::Overflow;
use crate::process::types::OverflowPolicy;
use crate::text::{char_width, chars_of, lemma_utf8_len, utf8_len};
use vstd::utf8::encode_utf8;

verus! {

/// The capacity of each output ring when the capsule asks for none.
pub const DEFAULT_LOG_RING_BYTES: usize = 1048576;

/// The largest capacity of an output ring.
pub const MAX_LOG_RING_BYTES: usize = 8388608;

/// The smallest capacity of an output ring.
pub const MIN_LOG_RING_BYTES: usize = 4096;

/// How many bytes one write to the input of a process may carry.
pub const MAX_STDIN_WRITE: usize = 1048576;

/// How many ids one principal may keep, of running and of exited processes.
pub const MAX_RETAINED_PER_PRINCIPAL: usize = 32;

/// How many ids the registry of one capsule may keep in all.
pub const MAX_REGISTRY_ENTRIES: usize = 256;

/// The longest life of a process, and its default, in milliseconds.
pub const MAX_LIFETIME_MS: u64 = 21600000;

/// How long a process may go untouched by default, in milliseconds.
pub const DEFAULT_IDLE_TIMEOUT_MS: u64 = 1800000;

/// How long the id of an exited process is kept by default, in milliseconds.
pub const DEFAULT_EXIT_RETENTION_MS: u64 = 300000;

/// The longest time that the id of an exited process is kept, in milliseconds.
pub const MAX_EXIT_RETENTION_MS: u64 = 3600000;

/// How long a process has to stop of its own accord by default, in milliseconds.
pub const DEFAULT_STOP_GRACE_MS: u64 = 5000;

/// The longest time that a process has to stop of its own accord, in milliseconds.
pub const MAX_STOP_GRACE_MS: u64 = 30000;

/// How many bytes one read from a cursor gives at most.
pub const MAX_READ_SINCE_BYTES: usize = 4194304;

/// How many bytes a label may have.
pub const MAX_LABEL_BYTES: usize = 128;

/// The smaller of two numbers.
pub open spec fn least(a: int, b: int) -> int {
    if a <= b {
        a
    } else {
        b
    }
}

/// What a full ring does: it drops the oldest bytes unless back pressure was asked for.
pub fn overflow_from_wit(policy: Option<OverflowPolicy>) -> (overflow: Overflow)
    ensures
        overflow == (if policy == Some(OverflowPolicy::Backpressure) {
            Overflow::Backpressure
        } else {
            Overflow::DropOldest
        }),
{
    match policy {
        Some(OverflowPolicy::Backpressure) => Overflow::Backpressure,
        _ => Overflow::DropOldest,
    }
}

/// The capacity of a ring for which `bytes` were asked.
pub open spec fn ring_capacity(bytes: Option<u32>) -> int {
    match bytes {
        None => DEFAULT_LOG_RING_BYTES as int,
        Some(b) => if b < MIN_LOG_RING_BYTES {
            MIN_LOG_RING_BYTES as int
        } else {
            least(b as int, MAX_LOG_RING_BYTES as int)
        },
    }
}

/// Brings the capacity of a ring between its bounds.
pub fn clamp_log_ring(bytes: Option<u32>) -> (cap: usize)
    ensures
        cap == ring_capacity(bytes),
        MIN_LOG_RING_BYTES <= cap <= MAX_LOG_RING_BYTES,
{
    match bytes {
        None => DEFAULT_LOG_RING_BYTES,
        Some(b) => {
            let wanted: usize = b as usize;
            if wanted < MIN_LOG_RING_BYTES {
                MIN_LOG_RING_BYTES
            } else if wanted > MAX_LOG_RING_BYTES {
                MAX_LOG_RING_BYTES
            } else {
                wanted
            }
        },
    }
}

/// A control character.
pub open spec fn is_control(c: char) -> bool {
    (c as u32) < 0x20 || (0x7f <= (c as u32) && (c as u32) <= 0x9f)
}

/// The text without its control characters.
pub open spec fn printable(s: Seq<char>) -> Seq<char>
    decreases s.len(),
{
    if s.len() == 0 {
        s
    } else if is_control(s.last()) {
        printable(s.drop_last())
    } else {
        printable(s.drop_last()).push(s.last())
    }
}

/// `label` is the longest beginning of `text` that takes at most `max` bytes.
pub open spec fn longest_fit(text: Seq<char>, max: int, label: Seq<char>) -> bool {
    &&& label.len() <= text.len()
    &&& label == text.take(label.len() as int)
    &&& utf8_len(label) <= max
    &&& label.len() < text.len() ==> utf8_len(text.take(label.len() as int + 1)) > max
}

/// The label of a process: the one asked for, or else the command, without control characters
/// and cut at a character boundary so that it takes no more than its share of bytes.
pub fn clamp_label(label: Option<String>, cmd: &str) -> (out: String)
    ensures
        longest_fit(
            printable(
                match label {
                    Some(text) => text@,
                    None => cmd@,
                },
            ),
            MAX_LABEL_BYTES as int,
            out@,
        ),
        encode_utf8(out@).len() <= MAX_LABEL_BYTES,
{
    let raw: String = match label {
        Some(text) => text,
        None => cmd.to_owned(),
    };
    let chars = chars_of(raw.as_str());
    let mut out: String = String::new();
    let mut used: usize = 0;
    let mut full: bool = false;
    let mut i: usize = 0;
    assert(chars@.take(0) =~= Seq::<char>::empty());
    while i < chars.len()
        invariant
            i <= chars@.len(),
            chars@ == raw@,
            used == utf8_len(out@),
            used <= MAX_LABEL_BYTES,
            !full ==> out@ == printable(chars@.take(i as int)),
            full ==> longest_fit(printable(chars@.take(i as int)), MAX_LABEL_BYTES as int, out@)
                && out@.len() < printable(chars@.take(i as int)).len(),
        decreases chars.len() - i,
    {
        let c = chars[i];
        let ghost seen = chars@.take(i as int);
        let ghost next = chars@.take(i + 1);
        let code: u32 = c as u32;
        proof {
            assert(next.drop_last() =~= seen);
            assert(next.last() == c);
        }
        if !(code < 0x20 || (0x7f <= code && code <= 0x9f)) {
            proof {
                let all = printable(next);
                assert(all == printable(seen).push(c));
                if full {
                    assert(all.take(out@.len() as int) =~= printable(seen).take(out@.len() as int));
                    assert(all.take(out@.len() as int + 1) =~= printable(seen).take(out@.len() as int + 1));
                } else {
                    assert(all.take(out@.len() as int) =~= out@);
                    assert(all.take(out@.len() as int + 1) =~= out@.push(c));
                    assert(out@.push(c).drop_last() =~= out@);
                }
            }
            if !full {
                let width: usize = if code < 0x80 {
                    1
                } else if code < 0x800 {
                    2
                } else if code < 0x10000 {
                    3
                } else {
                    4
                };
                if used + width > MAX_LABEL_BYTES {
                    full = true;
                } else {
                    out.push(c);
                    used = used + width;
                }
            }
        }
        i += 1;
    }
    proof {
        assert(chars@.take(chars@.len() as int) =~= chars@);
        assert(out@.take(out@.len() as int) =~= out@);
        lemma_utf8_len(out@);
    }
    out
}

/// The life, the idle time and the retention of a process, each brought down to its ceiling.
pub fn resolve_ttls(
    max_lifetime_ms: Option<u64>,
    idle_timeout_ms: Option<u64>,
    exit_retention_ms: Option<u64>,
) -> (r: (u64, u64, u64))
    ensures
        r.0 == least(
            match max_lifetime_ms {
                Some(ms) => ms as int,
                None => MAX_LIFETIME_MS as int,
            },
            MAX_LIFETIME_MS as int,
        ),
        r.1 == least(
            match idle_timeout_ms {
                Some(ms) => ms as int,
                None => DEFAULT_IDLE_TIMEOUT_MS as int,
            },
            MAX_LIFETIME_MS as int,
        ),
        r.2 == least(
            match exit_retention_ms {
                Some(ms) => ms as int,
                None => DEFAULT_EXIT_RETENTION_MS as int,
            },
            MAX_EXIT_RETENTION_MS as int,
        ),
{
    let lifetime: u64 = match max_lifetime_ms {
        Some(ms) => ms,
        None => MAX_LIFETIME_MS,
    };
    let idle: u64 = match idle_timeout_ms {
        Some(ms) => ms,
        None => DEFAULT_IDLE_TIMEOUT_MS,
    };
    let retention: u64 = match exit_retention_ms {
        Some(ms) => ms,
        None => DEFAULT_EXIT_RETENTION_MS,
    };
    (
        if lifetime <= MAX_LIFETIME_MS {
            lifetime
        } else {
            MAX_LIFETIME_MS
        },
        if idle <= MAX_LIFETIME_MS {
            idle
        } else {
            MAX_LIFETIME_MS
        },
        if retention <= MAX_EXIT_RETENTION_MS {
            retention
        } else {
            MAX_EXIT_RETENTION_MS
        },
    )
}

/// How long a process has to stop of its own accord.
pub fn stop_grace(grace_ms: Option<u64>) -> (ms: u64)
    ensures
        ms == least(
            match grace_ms {
                Some(asked) => asked as int,
                None => DEFAULT_STOP_GRACE_MS as int,
            },
            MAX_STOP_GRACE_MS as int,
        ),
{
    let wanted: u64 = match grace_ms {
        Some(asked) => asked,
        None => DEFAULT_STOP_GRACE_MS,
    };
    if wanted <= MAX_STOP_GRACE_MS {
        wanted
    } else {
        MAX_STOP_GRACE_MS
    }
}

/// The label of a text is one label: two that fit are the same, and a label is its own label.
pub proof fn law_label_is_fixed(text: Seq<char>, a: Seq<char>, b: Seq<char>)
    requires
        longest_fit(printable(text), MAX_LABEL_BYTES as int, a),
        longest_fit(printable(text), MAX_LABEL_BYTES as int, b),
    ensures
        a == b,
        longest_fit(printable(a), MAX_LABEL_BYTES as int, a),
{
    let all = printable(text);
    if a.len() < b.len() {
        lemma_utf8_monotone(all, a.len() as int + 1, b.len() as int);
    } else if b.len() < a.len() {
        lemma_utf8_monotone(all, b.len() as int + 1, a.len() as int);
    }
    lemma_printable(text);
    assert forall|i: int| 0 <= i < a.len() implies !is_control(#[trigger] a[i]) by {
        assert(a[i] == all[i]);
    }
    lemma_printable_fixed(a);
    assert(a.take(a.len() as int) =~= a);
}

/// A longer beginning takes no fewer bytes.
pub proof fn lemma_utf8_monotone(s: Seq<char>, m: int, n: int)
    requires
        0 <= m <= n <= s.len(),
    ensures
        utf8_len(s.take(m)) <= utf8_len(s.take(n)),
    decreases n - m,
{
    if m < n {
        lemma_utf8_monotone(s, m, n - 1);
        assert(s.take(n).drop_last() =~= s.take(n - 1));
    }
}

/// No control character is left.
proof fn lemma_printable(s: Seq<char>)
    ensures
        forall|i: int| 0 <= i < printable(s).len() ==> !is_control(#[trigger] printable(s)[i]),
    decreases s.len(),
{
    if s.len() > 0 {
        lemma_printable(s.drop_last());
        let rest = printable(s.drop_last());
        assert forall|i: int| 0 <= i < printable(s).len() implies !is_control(
            #[trigger] printable(s)[i],
        ) by {
            if i < rest.len() {
                assert(!is_control(rest[i]));
            }
        }
    }
}

/// A text without control characters stays as it is.
pub proof fn lemma_printable_fixed(s: Seq<char>)
    requires
        forall|i: int| 0 <= i < s.len() ==> !is_control(#[trigger] s[i]),
    ensures
        printable(s) == s,
    decreases s.len(),
{
    if s.len() > 0 {
        assert forall|i: int| 0 <= i < s.drop_last().len() implies !is_control(
            #[trigger] s.drop_last()[i],
        ) by {
            assert(s.drop_last()[i] == s[i]);
        }
        lemma_printable_fixed(s.drop_last());
        assert(!is_control(s[s.len() - 1]));
        assert(s.drop_last().push(s.last()) =~= s);
    }
}

} // verus!
