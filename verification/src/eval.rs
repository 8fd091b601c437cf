//! The two reduction operations over a sequence of `i32` operands.
//!
//! `add` sums every operand and `sub` subtracts each later operand from the
//! first, both as left folds in `i32` arithmetic that wraps on overflow.
//! `sum_wrap` and `sub_wrap` are the mathematical descriptions of those
//! folds; `exact_sum` and `exact_sub` are the same folds over unbounded
//! integers, and the lemmas below show that the wrapping folds agree with
//! them whenever no intermediate value leaves the `i32` range.
//!
//! The operand parser never lets an empty batch through, yet the two
//! operations keep their own answers for one: `add` of no operands is the
//! identity, zero, while `sub` of no operands is absent. Both behaviours
//! stand in the contracts as they are.

use vstd::prelude::*;

verus! {

/// The sum of the operands as a left fold with `i32` wrapping addition,
/// starting from zero.
pub open spec fn sum_wrap(s: Seq<i32>) -> i32
    decreases s.len(),
{
    if s.len() == 0 {
        0i32
    } else {
        vstd::wrapping::i32_specs::wrapping_add(sum_wrap(s.drop_last()), s.last())
    }
}

/// The first operand minus every later operand, left to right, with `i32`
/// wrapping subtraction. Meaningful only for non-empty sequences.
pub open spec fn sub_wrap(s: Seq<i32>) -> i32
    decreases s.len(),
{
    if s.len() <= 1 {
        s[0]
    } else {
        vstd::wrapping::i32_specs::wrapping_sub(sub_wrap(s.drop_last()), s.last())
    }
}

/// The sum of the operands over unbounded integers.
pub open spec fn exact_sum(s: Seq<i32>) -> int
    decreases s.len(),
{
    if s.len() == 0 {
        0
    } else {
        exact_sum(s.drop_last()) + s.last()
    }
}

/// The first operand minus every later operand over unbounded integers.
/// Meaningful only for non-empty sequences.
pub open spec fn exact_sub(s: Seq<i32>) -> int
    decreases s.len(),
{
    if s.len() == 0 {
        0
    } else if s.len() == 1 {
        s[0] as int
    } else {
        exact_sub(s.drop_last()) - s.last()
    }
}

/// Returns the sum of all operands. The result is always present; the sum
/// of no operands is the identity, zero. Overflow wraps around the `i32`
/// range.
pub fn add(operands: Vec<i32>) -> (r: Option<i32>)
    ensures
        r == Some(sum_wrap(operands@)),
{
    let n = operands.len();
    let mut acc: i32 = 0;
    let mut i: usize = 0;
    while i < n
        invariant
            n == operands@.len(),
            0 <= i <= n,
            acc == sum_wrap(operands@.take(i as int)),
        decreases n - i,
    {
        acc = acc.wrapping_add(operands[i]);
        proof {
            assert(operands@.take(i + 1 as int).drop_last() =~= operands@.take(i as int));
            assert(operands@.take(i + 1 as int).last() == operands@[i as int]);
        }
        i = i + 1;
    }
    proof {
        assert(operands@.take(n as int) =~= operands@);
    }
    Some(acc)
}

/// Returns the first operand minus every later operand, applied left to
/// right, or nothing when there are no operands at all. Overflow wraps
/// around the `i32` range.
pub fn sub(operands: Vec<i32>) -> (r: Option<i32>)
    ensures
        operands@.len() == 0 ==> r is None,
        operands@.len() > 0 ==> r == Some(sub_wrap(operands@)),
{
    let n = operands.len();
    if n == 0 {
        return None;
    }
    let mut acc: i32 = operands[0];
    let mut i: usize = 1;
    while i < n
        invariant
            n == operands@.len(),
            1 <= i <= n,
            acc == sub_wrap(operands@.take(i as int)),
        decreases n - i,
    {
        acc = acc.wrapping_sub(operands[i]);
        proof {
            assert(operands@.take(i + 1 as int).drop_last() =~= operands@.take(i as int));
            assert(operands@.take(i + 1 as int).last() == operands@[i as int]);
        }
        i = i + 1;
    }
    proof {
        assert(operands@.take(n as int) =~= operands@);
    }
    Some(acc)
}

/// The sum of all operands equals the exact, unbounded sum whenever every
/// partial sum of a prefix stays inside the `i32` range; together with the
/// contract of `add`, the result of `add` is then the exact sum, and it is
/// present for every sequence of operands.
pub proof fn lemma_add_agrees_with_exact_sum(s: Seq<i32>)
    requires
        forall|i: int| 1 <= i <= s.len() ==> i32::MIN <= exact_sum(#[trigger] s.take(i)) <= i32::MAX,
    ensures
        sum_wrap(s) as int == exact_sum(s),
    decreases s.len(),
{
    if s.len() > 0 {
        assert forall|i: int| 1 <= i <= s.drop_last().len() implies i32::MIN <= exact_sum(
            #[trigger] s.drop_last().take(i),
        ) <= i32::MAX by {
            assert(s.drop_last().take(i) =~= s.take(i));
        }
        lemma_add_agrees_with_exact_sum(s.drop_last());
        assert(s.take(s.len() as int) =~= s);
        assert(s.take(s.len() - 1) =~= s.drop_last());
    }
}

/// The left fold of subtraction equals the exact, unbounded fold whenever
/// every partial fold of a prefix stays inside the `i32` range; together
/// with the contract of `sub`, the result of `sub` on a non-empty sequence
/// is then the exact fold, and it is present.
pub proof fn lemma_sub_agrees_with_exact_sub(s: Seq<i32>)
    requires
        s.len() > 0,
        forall|i: int| 1 <= i <= s.len() ==> i32::MIN <= exact_sub(#[trigger] s.take(i)) <= i32::MAX,
    ensures
        sub_wrap(s) as int == exact_sub(s),
    decreases s.len(),
{
    if s.len() > 1 {
        assert forall|i: int| 1 <= i <= s.drop_last().len() implies i32::MIN <= exact_sub(
            #[trigger] s.drop_last().take(i),
        ) <= i32::MAX by {
            assert(s.drop_last().take(i) =~= s.take(i));
        }
        lemma_sub_agrees_with_exact_sub(s.drop_last());
        assert(s.take(s.len() as int) =~= s);
        assert(s.take(s.len() - 1) =~= s.drop_last());
    }
}

} // verus!
