//! Numbers written in a base, most significant digit first.

use vstd::prelude::*;

verus! {

/// The number that `digits` write in `base`.
pub open spec fn value_of(digits: Seq<int>, base: int) -> int
    decreases digits.len(),
{
    if digits.len() == 0 {
        0
    } else {
        value_of(digits.drop_last(), base) * base + digits.last()
    }
}

/// Each of `digits` is a digit of `base`.
pub open spec fn are_digits(digits: Seq<int>, base: int) -> bool {
    forall|i: int| 0 <= i < digits.len() ==> 0 <= #[trigger] digits[i] < base
}

/// The last `n` digits of `x` in `base`.
pub open spec fn digits_of(x: int, base: int, n: nat) -> Seq<int>
    decreases n,
{
    if n == 0 {
        Seq::empty()
    } else {
        digits_of(x / base, base, (n - 1) as nat).push(x % base)
    }
}

/// `base` to the power `n`.
pub open spec fn power(base: int, n: nat) -> int
    decreases n,
{
    if n == 0 {
        1
    } else {
        power(base, (n - 1) as nat) * base
    }
}

/// Appending a digit shifts the number by one place.
pub proof fn lemma_value_push(digits: Seq<int>, d: int, base: int)
    ensures
        value_of(digits.push(d), base) == value_of(digits, base) * base + d,
{
    assert(digits.push(d).drop_last() =~= digits);
}

/// There are `n` digits, each of them in the base.
pub proof fn lemma_digits_of(x: int, base: int, n: nat)
    requires
        base > 1,
    ensures
        digits_of(x, base, n).len() == n,
        are_digits(digits_of(x, base, n), base),
    decreases n,
{
    if n > 0 {
        lemma_digits_of(x / base, base, (n - 1) as nat);
    }
}

/// A number below `base` to the power `n` is what its last `n` digits write.
pub proof fn lemma_value_of_digits(x: int, base: int, n: nat)
    requires
        base > 1,
        0 <= x < power(base, n),
    ensures
        value_of(digits_of(x, base, n), base) == x,
    decreases n,
{
    if n > 0 {
        let q = x / base;
        let m = (n - 1) as nat;
        assert(0 <= q < power(base, m)) by {
            let p = power(base, m);
            assert(0 <= x < p * base);
            assert(0 <= x / base < p) by (nonlinear_arith)
                requires
                    base > 1,
                    0 <= x < p * base,
            ;
        }
        lemma_value_of_digits(q, base, m);
        lemma_value_push(digits_of(q, base, m), x % base, base);
        assert(x == (x / base) * base + x % base) by (nonlinear_arith)
            requires
                base > 1,
        ;
    }
}

/// Two sequences of digits of one length that write the same number are the same.
pub proof fn lemma_value_injective(a: Seq<int>, b: Seq<int>, base: int)
    requires
        base > 1,
        a.len() == b.len(),
        are_digits(a, base),
        are_digits(b, base),
        value_of(a, base) == value_of(b, base),
    ensures
        a == b,
    decreases a.len(),
{
    if a.len() > 0 {
        let va = value_of(a.drop_last(), base);
        let vb = value_of(b.drop_last(), base);
        let da = a.last();
        let db = b.last();
        assert(0 <= a[a.len() - 1] < base);
        assert(0 <= b[b.len() - 1] < base);
        assert(va == vb && da == db) by (nonlinear_arith)
            requires
                base > 1,
                0 <= da < base,
                0 <= db < base,
                va * base + da == vb * base + db,
        ;
        assert forall|i: int| 0 <= i < a.drop_last().len() implies 0 <= #[trigger] a.drop_last()[i]
            < base by {
            assert(a.drop_last()[i] == a[i]);
        }
        assert forall|i: int| 0 <= i < b.drop_last().len() implies 0 <= #[trigger] b.drop_last()[i]
            < base by {
            assert(b.drop_last()[i] == b[i]);
        }
        lemma_value_injective(a.drop_last(), b.drop_last(), base);
        assert(a =~= a.drop_last().push(da));
        assert(b =~= b.drop_last().push(db));
    }
}

/// Digits write a number that is not negative.
pub proof fn lemma_value_nonnegative(digits: Seq<int>, base: int)
    requires
        base > 1,
        are_digits(digits, base),
    ensures
        value_of(digits, base) >= 0,
    decreases digits.len(),
{
    if digits.len() > 0 {
        assert forall|i: int| 0 <= i < digits.drop_last().len() implies 0
            <= #[trigger] digits.drop_last()[i] < base by {
            assert(digits.drop_last()[i] == digits[i]);
        }
        lemma_value_nonnegative(digits.drop_last(), base);
        let v = value_of(digits.drop_last(), base);
        assert(0 <= digits[digits.len() - 1]);
        assert(v * base >= 0) by (nonlinear_arith)
            requires
                v >= 0,
                base > 1,
        ;
    }
}

} // verus!
