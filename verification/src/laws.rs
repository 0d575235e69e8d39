//! Laws of the engine: properties relating several commands, proved once and
//! for all over the spec-level transitions that the commands' contracts pin
//! their behaviour to.

use vstd::prelude::*;
use crate::engine::{
    CalcView, CalcError, digit_t, point_t, negate_t, clear_entry_t, clear_all_t, commit_t,
    evaluate_t, do_op_t, fresh_entry, initial, MAX_INPUT_LEN,
};
use crate::op::Op;

verus! {

/// At most one decimal point: no two positions of the buffer both hold `'.'`.
pub open spec fn at_most_one_point(c: Seq<char>) -> bool {
    forall|i: int, j: int| 0 <= i < j < c.len() && c[i] == '.' ==> c[j] != '.'
}

/// The state invariant: an operator is only pending while a result exists to
/// be its left operand, and the buffer holds at most one decimal point.
pub open spec fn wf(s: CalcView) -> bool {
    &&& s.op is Some ==> s.result is Some
    &&& at_most_one_point(s.current)
}

/// The initial state satisfies the invariant.
pub proof fn lemma_initial_wf()
    ensures
        wf(initial()),
{
}

/// Every command preserves the invariant. Digit presses carry a digit
/// character, never a decimal point, which only [`point_t`] appends — and it
/// appends one only into a buffer that has none.
pub proof fn lemma_commands_preserve_wf(s: CalcView, d: char, op: Op, v: Option<u64>)
    requires
        wf(s),
        d != '.',
    ensures
        wf(digit_t(s, d)),
        wf(point_t(s)),
        wf(negate_t(s)),
        wf(clear_entry_t(s)),
        wf(clear_all_t(s)),
        commit_t(s, v) matches Ok(t) ==> wf(t),
        evaluate_t(s, v) matches Ok(t) ==> wf(t),
        do_op_t(s, op, v) matches Ok(t) ==> wf(t),
{
    let t = fresh_entry(s);
    assert(at_most_one_point(digit_t(s, d).current));
    if !t.current.contains('.') {
        assert(forall|k: int| 0 <= k < t.current.len() ==> t.current[k] != '.');
        assert(at_most_one_point(point_t(s).current));
    }
    if t.current.len() > 0 && t.current[0] == '-' {
        let u = t.current.subrange(1, t.current.len() as int);
        assert forall|i: int, j: int| 0 <= i < j < u.len() && u[i] == '.' implies u[j] != '.' by {
            assert(u[i] == t.current[i + 1] && u[j] == t.current[j + 1]);
        }
    } else {
        let u = seq!['-'] + t.current;
        assert forall|i: int, j: int| 0 <= i < j < u.len() && u[i] == '.' implies u[j] != '.' by {
            assert(u[i] == t.current[i - 1] && u[j] == t.current[j - 1]);
        }
    }
}

/// The state after pressing the digits of `ds`, one by one, left to right.
pub open spec fn press_digits(s: CalcView, ds: Seq<char>) -> CalcView
    decreases ds.len(),
{
    if ds.len() == 0 {
        s
    } else {
        press_digits(digit_t(s, ds[0]), ds.subrange(1, ds.len() as int))
    }
}

/// Digit presses never touch the pending operator, and while no operator is
/// pending and the length cap is respected every keystroke lands: the buffer
/// ends as the old buffer followed by the typed sequence.
pub proof fn lemma_digits_append(s: CalcView, ds: Seq<char>)
    requires
        s.op is None,
        s.current.len() + ds.len() <= MAX_INPUT_LEN as nat,
    ensures
        press_digits(s, ds).current == s.current + ds,
        press_digits(s, ds).op == s.op,
    decreases ds.len(),
{
    if ds.len() == 0 {
        assert(s.current + ds =~= s.current);
    } else {
        let s1 = digit_t(s, ds[0]);
        let rest = ds.subrange(1, ds.len() as int);
        assert(s1.current == s.current.push(ds[0]));
        lemma_digits_append(s1, rest);
        assert(s.current.push(ds[0]) + rest =~= s.current + ds);
    }
}

/// Starting with an empty buffer and no operator pending, any sequence of at
/// most [`MAX_INPUT_LEN`] digit presses leaves the buffer — and so the
/// displayed text — exactly the typed sequence.
pub proof fn lemma_digits_display(s: CalcView, ds: Seq<char>)
    requires
        s.op is None,
        s.current == Seq::<char>::empty(),
        ds.len() <= MAX_INPUT_LEN as nat,
    ensures
        press_digits(s, ds).current == ds,
{
    lemma_digits_append(s, ds);
    assert(s.current + ds =~= ds);
}

/// An operator press first folds the pending operation into the result and
/// only then records the new operator: with a result accumulated, an operator
/// pending and an operand typed, the press stores the folded value the host
/// computed, pends the new operator, and empties the buffer. Chains thus
/// resolve strictly left to right.
pub proof fn lemma_operator_folds_before_recording(s: CalcView, op2: Op, v: u64)
    requires
        s.result is Some,
        s.op is Some,
        s.current.len() > 0,
    ensures
        ({
            let t = do_op_t(s, op2, Some(v))->Ok_0;
            &&& do_op_t(s, op2, Some(v)) is Ok
            &&& t.result == Some(v)
            &&& t.op == Some(op2)
            &&& t.current == Seq::<char>::empty()
        }),
{
}

/// Pressing equals twice in a row, with no new input between the presses,
/// leaves the whole state — in particular the result — unchanged: the first
/// press empties the buffer, so the second commits nothing. The second
/// press's outcome does not depend on what the host computes for it.
pub proof fn lemma_equals_idempotent(s: CalcView, v1: Option<u64>, v2: Option<u64>)
    requires
        evaluate_t(s, v1) is Ok,
    ensures
        ({
            let s1 = evaluate_t(s, v1)->Ok_0;
            evaluate_t(s1, v2) == Ok::<CalcView, CalcError>(s1)
        }),
{
    let s1 = evaluate_t(s, v1)->Ok_0;
    assert(evaluate_t(s1, v2)->Ok_0 =~= s1);
}

/// Toggling the sign twice restores the buffer text, for every buffer that
/// does not begin with two minus signs (the input commands never produce
/// one). The result and operator fields follow the usual fresh-entry rule.
pub proof fn lemma_negate_involutive(s: CalcView)
    requires
        !(s.current.len() >= 2 && s.current[0] == '-' && s.current[1] == '-'),
    ensures
        negate_t(negate_t(s)).current == s.current,
{
    let t = fresh_entry(s);
    if t.current.len() > 0 && t.current[0] == '-' {
        let u = negate_t(s);
        assert(u.current == t.current.subrange(1, t.current.len() as int));
        if u.current.len() > 0 {
            assert(u.current[0] == s.current[1]);
        }
        assert(negate_t(u).current == seq!['-'] + u.current);
        assert(seq!['-'] + t.current.subrange(1, t.current.len() as int) =~= s.current);
    } else {
        let u = negate_t(s);
        assert(u.current == seq!['-'] + t.current);
        assert(u.current[0] == '-');
        assert(negate_t(u).current =~= s.current);
    }
}

/// Pressing the decimal point twice on an empty buffer yields exactly `"."`:
/// the first press appends the point, the second finds one already present
/// and does nothing.
pub proof fn lemma_point_twice_on_empty(s: CalcView)
    requires
        s.current.len() == 0,
    ensures
        point_t(point_t(s)).current == seq!['.'],
{
    let s1 = point_t(s);
    assert(s1.current =~= seq!['.']);
    assert(s1.current.contains('.')) by {
        assert(s1.current[0] == '.');
    }
    assert(point_t(s1).current == seq!['.']);
}

} // verus!
