//! The ids of persistent processes.
//!
//! An id is 256 random bits in lower-case base 32 without padding. Its alphabet is a part of the
//! alphabet of topic suffixes, so an id can stand in a topic as it is.

use vstd::prelude::*;

use crate::digits::{
    are_digits, digits_of, lemma_digits_of, lemma_value_injective, lemma_value_nonnegative,
    lemma_value_of_digits, lemma_value_push, power, value_of,
};
use crate::entropy::{may_draw, RandomSource};

verus! {

/// How many random bytes make an id.
pub const ID_BYTES: usize = 32;

/// The letter of a value below thirty-two: `a` to `z`, then `2` to `7`.
pub open spec fn letter(d: int) -> char {
    if d < 26 {
        ('a' as int + d) as char
    } else {
        ('2' as int + d - 26) as char
    }
}

/// `digits` in the alphabet of base 32.
pub open spec fn letters(digits: Seq<int>) -> Seq<char> {
    Seq::new(digits.len(), |i: int| letter(digits[i]))
}

/// The bytes as digits of base 256.
pub open spec fn as_digits(bytes: Seq<u8>) -> Seq<int> {
    Seq::new(bytes.len(), |i: int| bytes[i] as int)
}

/// How many letters write `n` bytes.
pub open spec fn letter_count(n: nat) -> nat {
    ((8 * n + 4) / 5) as nat
}

/// How many zero bits follow the bits of `n` bytes, so that their number is a multiple of five.
pub open spec fn pad_bits(n: nat) -> nat {
    (5 * letter_count(n) - 8 * n) as nat
}

/// The bytes in base 32: their bits in order, zero bits up to a multiple of five, and one letter
/// for every five bits.
pub open spec fn base32(bytes: Seq<u8>) -> Seq<char> {
    letters(
        digits_of(
            value_of(as_digits(bytes), 256) * power(2, pad_bits(bytes.len())),
            32,
            letter_count(bytes.len()),
        ),
    )
}

/// The letter of a value below thirty-two.
fn letter_of(d: u64) -> (c: char)
    requires
        d < 32,
    ensures
        c == letter(d as int),
{
    let code: u8 = if d < 26 {
        97u8 + d as u8
    } else {
        24u8 + d as u8
    };
    code as char
}

/// Lower-case base 32 without padding.
pub fn base32_lower(bytes: &[u8]) -> (text: String)
    ensures
        text@ == base32(bytes@),
{
    let mut text: String = String::new();
    // The bits not yet written, how many they are, and two to that power.
    let mut acc: u64 = 0;
    let mut bits: u32 = 0;
    let mut unit: u64 = 1;
    let ghost mut out: Seq<int> = Seq::empty();
    let mut i: usize = 0;
    proof {
        reveal_with_fuel(power, 14);
        assert(as_digits(bytes@).take(0) =~= Seq::<int>::empty());
        assert(text@ =~= letters(out));
    }
    while i < bytes.len()
        invariant
            i <= bytes@.len(),
            bits < 5,
            unit == power(2, bits as nat),
            acc < unit,
            text@ == letters(out),
            are_digits(out, 32),
            8 * i == 5 * out.len() + bits,
            value_of(as_digits(bytes@).take(i as int), 256) == value_of(out, 32) * unit + acc,
        decreases bytes.len() - i,
    {
        proof {
            reveal_with_fuel(power, 14);
            let done = as_digits(bytes@).take(i as int);
            assert(as_digits(bytes@).take(i + 1) =~= done.push(bytes@[i as int] as int));
            lemma_value_push(done, bytes@[i as int] as int, 256);
            assert((value_of(out, 32) * unit + acc) * 256 + bytes@[i as int] == value_of(out, 32) * (
            unit * 256) + (acc * 256 + bytes@[i as int])) by (nonlinear_arith);
        }
        acc = acc * 256 + bytes[i] as u64;
        bits = bits + 8;
        unit = unit * 256;
        i += 1;
        while bits >= 5
            invariant
                i <= bytes@.len(),
                bits < 13,
                unit == power(2, bits as nat),
                acc < unit,
                text@ == letters(out),
                are_digits(out, 32),
                8 * i == 5 * out.len() + bits,
                value_of(as_digits(bytes@).take(i as int), 256) == value_of(out, 32) * unit + acc,
            decreases bits,
        {
            proof {
                reveal_with_fuel(power, 14);
            }
            bits = bits - 5;
            unit = unit / 32;
            let d: u64 = acc / unit;
            let rest: u64 = acc % unit;
            proof {
                assert(acc == unit * d + rest && rest < unit && d < 32) by (nonlinear_arith)
                    requires
                        unit > 0,
                        d == acc / unit,
                        rest == acc % unit,
                        acc < unit * 32,
                ;
                lemma_value_push(out, d as int, 32);
                assert(value_of(out, 32) * (unit * 32) + (unit * d + rest) == (value_of(out, 32) * 32
                    + d) * unit + rest) by (nonlinear_arith);
                out = out.push(d as int);
            }
            text.push(letter_of(d));
            assert(text@ =~= letters(out));
            acc = rest;
        }
    }
    proof {
        reveal_with_fuel(power, 14);
        assert(as_digits(bytes@).take(bytes@.len() as int) =~= as_digits(bytes@));
    }
    let ghost value = value_of(as_digits(bytes@), 256);
    if bits > 0 {
        let shift: u64 = if bits == 1 {
            16
        } else if bits == 2 {
            8
        } else if bits == 3 {
            4
        } else {
            2
        };
        assert(shift * unit == 32 && shift == power(2, (5 - bits) as nat)) by {
            assert(power(2, 1) == 2 && power(2, 2) == 4 && power(2, 3) == 8 && power(2, 4) == 16);
        }
        assert(acc * shift < 32) by (nonlinear_arith)
            requires
                acc < unit,
                shift * unit == 32,
        ;
        let d: u64 = acc * shift;
        proof {
            lemma_value_push(out, d as int, 32);
            assert(value_of(out, 32) * 32 + acc * shift == (value_of(out, 32) * unit + acc) * shift)
                by (nonlinear_arith)
                requires
                    shift * unit == 32,
            ;
            out = out.push(d as int);
        }
        text.push(letter_of(d));
        assert(text@ =~= letters(out));
    } else {
        assert(value * power(2, 0) == value);
    }
    proof {
        let n = bytes@.len();
        let whole = value * power(2, pad_bits(n));
        assert(out.len() == letter_count(n));
        assert(value_of(out, 32) == whole);
        lemma_digits_are_unique(out, whole, 32, letter_count(n));
    }
    text
}

/// Digits that write a number are the digits of that number.
proof fn lemma_digits_are_unique(out: Seq<int>, x: int, base: int, n: nat)
    requires
        base > 1,
        out.len() == n,
        are_digits(out, base),
        value_of(out, base) == x,
    ensures
        out == digits_of(x, base, n),
    decreases n,
{
    if n > 0 {
        let rest = out.drop_last();
        let d = out.last();
        let v = value_of(rest, base);
        assert forall|i: int| 0 <= i < rest.len() implies 0 <= #[trigger] rest[i] < base by {
            assert(rest[i] == out[i]);
        }
        assert(0 <= out[n - 1] < base);
        assert(x / base == v && x % base == d) by (nonlinear_arith)
            requires
                base > 1,
                x == v * base + d,
                0 <= d < base,
        ;
        lemma_digits_are_unique(rest, v, base, (n - 1) as nat);
        assert(out =~= rest.push(d));
    }
}

/// The form of an id: fifty-two lower-case letters and digits from two to seven.
pub open spec fn has_id_form(id: Seq<char>) -> bool {
    &&& id.len() == 52
    &&& forall|i: int|
        0 <= i < id.len() ==> {
            let c = #[trigger] id[i];
            ('a' <= c && c <= 'z') || ('2' <= c && c <= '7')
        }
}

/// The id is the one that the answer to a request for random bits makes: their base 32 form, or
/// none where none came, and then for the same reason.
pub open spec fn minted_from(drawn: Result<Vec<u8>, String>, id: Result<String, String>) -> bool {
    match drawn {
        Ok(bytes) => {
            &&& bytes@.len() == ID_BYTES
            &&& id is Ok
            &&& id->Ok_0@ == base32(bytes@)
            &&& has_id_form(id->Ok_0@)
        },
        Err(reason) => id == Err::<String, String>(reason),
    }
}

/// A fresh id: the base 32 form of 256 random bits. There is none only where no random bits were
/// to be had, and then for the same reason.
pub fn mint_id() -> (id: Result<String, String>)
    ensures
        exists|drawn: Result<Vec<u8>, String>| #[trigger]
            may_draw(ID_BYTES, drawn) && minted_from(drawn, id),
{
    let mut source = RandomSource::new();
    let id = mint_from(&mut source);
    assert(may_draw(ID_BYTES, source@.last()));
    id
}

/// A fresh id of random bits that are drawn from `source`.
pub fn mint_from(source: &mut RandomSource) -> (id: Result<String, String>)
    ensures
        final(source)@.len() == old(source)@.len() + 1,
        final(source)@.drop_last() == old(source)@,
        may_draw(ID_BYTES, final(source)@.last()),
        minted_from(final(source)@.last(), id),
{
    let drawn = source.draw(ID_BYTES);
    assert(source@.drop_last() =~= old(source)@);
    match drawn {
        Ok(bytes) => {
            let id = base32_lower(bytes.as_slice());
            proof {
                law_id_length(bytes@);
                law_id_alphabet(bytes@);
            }
            Ok(id)
        },
        Err(reason) => Err(reason),
    }
}

/// `n` bytes take as many letters as there are groups of five bits in them, the last one
/// perhaps short.
pub proof fn law_id_length(bytes: Seq<u8>)
    ensures
        base32(bytes).len() == letter_count(bytes.len()),
        bytes.len() == ID_BYTES ==> base32(bytes).len() == 52,
{
    lemma_digits_of(
        value_of(as_digits(bytes), 256) * power(2, pad_bits(bytes.len())),
        32,
        letter_count(bytes.len()),
    );
}

/// Every character of an id may stand in a topic suffix.
pub proof fn law_id_alphabet(bytes: Seq<u8>)
    ensures
        forall|i: int|
            0 <= i < base32(bytes).len() ==> {
                let c = #[trigger] base32(bytes)[i];
                ('a' <= c && c <= 'z') || ('2' <= c && c <= '7')
            },
{
    let digits = digits_of(
        value_of(as_digits(bytes), 256) * power(2, pad_bits(bytes.len())),
        32,
        letter_count(bytes.len()),
    );
    lemma_digits_of(
        value_of(as_digits(bytes), 256) * power(2, pad_bits(bytes.len())),
        32,
        letter_count(bytes.len()),
    );
    assert forall|i: int| 0 <= i < base32(bytes).len() implies {
        let c = #[trigger] base32(bytes)[i];
        ('a' <= c && c <= 'z') || ('2' <= c && c <= '7')
    } by {
        assert(0 <= digits[i] < 32);
    }
}

/// Different bytes of one length have different ids.
pub proof fn law_ids_distinct(a: Seq<u8>, b: Seq<u8>)
    requires
        a.len() == b.len(),
        base32(a) == base32(b),
    ensures
        a == b,
{
    let n = a.len();
    let scale = power(2, pad_bits(n));
    let va = value_of(as_digits(a), 256);
    let vb = value_of(as_digits(b), 256);
    let m = letter_count(n);
    let da = digits_of(va * scale, 32, m);
    let db = digits_of(vb * scale, 32, m);
    lemma_digits_of(va * scale, 32, m);
    lemma_digits_of(vb * scale, 32, m);
    assert forall|i: int| 0 <= i < m implies #[trigger] da[i] == db[i] by {
        assert(0 <= da[i] < 32 && 0 <= db[i] < 32);
        assert(letters(da)[i] == letters(db)[i]);
    }
    assert(da =~= db);
    lemma_padded_fits(a);
    lemma_padded_fits(b);
    lemma_value_of_digits(va * scale, 32, m);
    lemma_value_of_digits(vb * scale, 32, m);
    lemma_power_positive(2, pad_bits(n));
    assert(va == vb) by (nonlinear_arith)
        requires
            va * scale == vb * scale,
            scale > 0,
    ;
    lemma_value_injective(as_digits(a), as_digits(b), 256);
    assert forall|i: int| 0 <= i < n implies a[i] == b[i] by {
        assert(as_digits(a)[i] == as_digits(b)[i]);
    }
    assert(a =~= b);
}

/// A power of a positive base is positive.
proof fn lemma_power_positive(base: int, n: nat)
    requires
        base > 0,
    ensures
        power(base, n) > 0,
    decreases n,
{
    if n > 0 {
        lemma_power_positive(base, (n - 1) as nat);
        let p = power(base, (n - 1) as nat);
        assert(p * base > 0) by (nonlinear_arith)
            requires
                p > 0,
                base > 0,
        ;
    }
}

/// Powers of two add up in the exponent.
proof fn lemma_power_sum(m: nat, n: nat)
    ensures
        power(2, m + n) == power(2, m) * power(2, n),
    decreases n,
{
    if n > 0 {
        lemma_power_sum(m, (n - 1) as nat);
        let p = power(2, m);
        let q = power(2, (n - 1) as nat);
        assert((m + n - 1) as nat == m + (n - 1) as nat);
        assert(p * q * 2 == p * (q * 2)) by (nonlinear_arith);
    } else {
        assert(power(2, m) * 1 == power(2, m));
    }
}

/// A byte is eight bits.
proof fn lemma_bytes_fit(digits: Seq<int>)
    requires
        are_digits(digits, 256),
    ensures
        0 <= value_of(digits, 256) < power(2, 8 * digits.len()),
    decreases digits.len(),
{
    lemma_value_nonnegative(digits, 256);
    if digits.len() > 0 {
        let rest = digits.drop_last();
        let k = rest.len();
        assert forall|i: int| 0 <= i < rest.len() implies 0 <= #[trigger] rest[i] < 256 by {
            assert(rest[i] == digits[i]);
        }
        lemma_bytes_fit(rest);
        assert(8 * digits.len() == 8 * k + 8);
        lemma_power_sum(8 * k, 8);
        assert(power(2, 8) == 256) by {
            reveal_with_fuel(power, 9);
        }
        let v = value_of(rest, 256);
        let p = power(2, 8 * k);
        assert(0 <= digits[digits.len() - 1] < 256);
        let d = digits.last();
        assert(v * 256 + d < p * 256) by (nonlinear_arith)
            requires
                v + 1 <= p,
                0 <= d < 256,
        ;
    }
}

/// A letter is five bits.
proof fn lemma_letters_as_bits(m: nat)
    ensures
        power(32, m) == power(2, 5 * m),
    decreases m,
{
    if m > 0 {
        lemma_letters_as_bits((m - 1) as nat);
        assert(5 * m == 5 * ((m - 1) as nat) + 5);
        lemma_power_sum(5 * ((m - 1) as nat), 5);
        assert(power(2, 5) == 32) by {
            reveal_with_fuel(power, 6);
        }
    }
}

/// The padded bits of some bytes fit into their letters.
proof fn lemma_padded_fits(bytes: Seq<u8>)
    ensures
        0 <= value_of(as_digits(bytes), 256) * power(2, pad_bits(bytes.len())) < power(
            32,
            letter_count(bytes.len()),
        ),
{
    let n = bytes.len();
    let v = value_of(as_digits(bytes), 256);
    lemma_bytes_fit(as_digits(bytes));
    lemma_power_positive(2, pad_bits(n));
    lemma_power_sum(8 * n, pad_bits(n));
    lemma_letters_as_bits(letter_count(n));
    assert(8 * n + pad_bits(n) == 5 * letter_count(n));
    let p = power(2, 8 * n);
    let q = power(2, pad_bits(n));
    assert(0 <= v * q < p * q) by (nonlinear_arith)
        requires
            0 <= v < p,
            q > 0,
    ;
}

} // verus!
