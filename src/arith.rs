//! Integer addition and list summation with wrap-around at the bounds of `i64`.
use vstd::prelude::*;
use vstd::arithmetic::div_mod::{lemma_add_mod_noop_right, lemma_small_mod};

verus! {

/// The number of values that an `i64` can hold.
pub open spec fn i64_span() -> int {
    0x1_0000_0000_0000_0000
}

/// The value of `i64` that is congruent to `x` modulo 2^64.
pub open spec fn wrap_i64(x: int) -> int {
    (x - i64::MIN) % i64_span() + i64::MIN
}

/// The exact sum of the elements of `s`, taken from left to right.
pub open spec fn sum_of(s: Seq<i64>) -> int
    decreases s.len(),
{
    if s.len() == 0 {
        0
    } else {
        sum_of(s.drop_last()) + s.last()
    }
}

/// A value already in the range of `i64` is left as it is.
pub proof fn lemma_wrap_in_range(x: int)
    requires
        i64::MIN <= x <= i64::MAX,
    ensures
        wrap_i64(x) == x,
{
    lemma_small_mod((x - i64::MIN) as nat, i64_span() as nat);
}

/// Wrapping a partial sum before adding to it does not change the wrapped total.
pub proof fn lemma_wrap_add(x: int, y: int)
    ensures
        wrap_i64(wrap_i64(x) + y) == wrap_i64(x + y),
{
    lemma_add_mod_noop_right(y, x - i64::MIN, i64_span());
    assert(wrap_i64(x) + y - i64::MIN == y + (x - i64::MIN) % i64_span());
    assert(x + y - i64::MIN == y + (x - i64::MIN));
}

/// Adds two integers; a sum out of the range of `i64` wraps around.
pub fn add(a: i64, b: i64) -> (r: i64)
    ensures
        r == wrap_i64(a + b),
{
    let r = a.wrapping_add(b);
    proof {
        let s = a + b;
        if s > i64::MAX {
            lemma_wrap_in_range(s - i64_span());
            lemma_mod_shift(s - i64_span());
        } else if s < i64::MIN {
            lemma_wrap_in_range(s + i64_span());
            lemma_mod_shift(s);
        } else {
            lemma_wrap_in_range(s);
        }
    }
    r
}

/// Adding 2^64 does not change the wrapped value.
proof fn lemma_mod_shift(x: int)
    ensures
        wrap_i64(x + i64_span()) == wrap_i64(x),
{
    lemma_wrap_add(x, i64_span());
    lemma_add_mod_noop_right(i64_span(), x - i64::MIN, i64_span());
    assert((i64_span() + (x - i64::MIN)) % i64_span() == (x - i64::MIN) % i64_span()) by {
        vstd::arithmetic::div_mod::lemma_mod_add_multiples_vanish(x - i64::MIN, i64_span());
    }
}

/// Sums a list of integers from left to right; the empty list sums to zero and
/// the total wraps around at the bounds of `i64`.
pub fn sum_list(numbers: Vec<i64>) -> (r: i64)
    ensures
        r == wrap_i64(sum_of(numbers@)),
        numbers@.len() == 0 ==> r == 0,
{
    let mut acc: i64 = 0;
    proof {
        lemma_wrap_in_range(0);
        assert(numbers@.subrange(0, 0) =~= Seq::<i64>::empty());
    }
    for i in 0..numbers.len()
        invariant
            acc == wrap_i64(sum_of(numbers@.subrange(0, i as int))),
    {
        proof {
            let prefix = numbers@.subrange(0, i + 1);
            assert(prefix.drop_last() =~= numbers@.subrange(0, i as int));
            lemma_wrap_add(sum_of(numbers@.subrange(0, i as int)), numbers@[i as int] as int);
        }
        acc = crate::add(acc, numbers[i]);
    }
    proof {
        assert(numbers@.subrange(0, numbers@.len() as int) =~= numbers@);
    }
    acc
}

/// Addition is commutative, and zero is its identity.
pub proof fn law_add_commutes_with_identity(a: i64, b: i64)
    ensures
        wrap_i64(a + b) == wrap_i64(b + a),
        wrap_i64(a + 0) == a,
{
    lemma_wrap_in_range(a as int);
}

/// The exact sum, taken from the front: the first element plus the sum of the rest.
proof fn lemma_sum_from_front(s: Seq<i64>)
    requires
        s.len() > 0,
    ensures
        sum_of(s) == s[0] + sum_of(s.drop_first()),
    decreases s.len(),
{
    if s.len() > 1 {
        lemma_sum_from_front(s.drop_last());
        assert(s.drop_last().drop_first() =~= s.drop_first().drop_last());
        assert(s.drop_first().last() == s.last());
        assert(s.drop_last()[0] == s[0]);
    } else {
        assert(sum_of(s.drop_first()) == 0);
        assert(sum_of(s.drop_last()) == 0);
    }
}

/// The empty list sums to zero, and the sum does not depend on the order of the
/// list: it is the same for the list reversed.
pub proof fn law_sum_ignores_order(xs: Seq<i64>)
    ensures
        sum_of(Seq::<i64>::empty()) == 0,
        sum_of(xs.reverse()) == sum_of(xs),
        wrap_i64(sum_of(xs.reverse())) == wrap_i64(sum_of(xs)),
    decreases xs.len(),
{
    if xs.len() > 0 {
        let r = xs.reverse();
        law_sum_ignores_order(xs.drop_first());
        assert(r.drop_last() =~= xs.drop_first().reverse());
        assert(r.last() == xs[0]);
        lemma_sum_from_front(xs);
    } else {
        assert(xs.reverse() =~= xs);
    }
}

} // verus!
