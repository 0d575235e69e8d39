//! The calculator engine: a state machine over an accumulated result, a
//! pending operator, and the input buffer being typed.
//!
//! Numbers are opaque to the engine. Every numeric value is a 64-bit code
//! chosen by the host that drives the engine; the engine stores and moves
//! these codes but never looks inside them. When a commit needs arithmetic
//! (parsing the buffer, applying the pending operator) the host computes the
//! outcome and hands it in as the `value` argument, so every state-machine
//! decision is made — and verified — here, whatever the host computes.

use vstd::prelude::*;
use vstd::string::StringExecFns;
use crate::op::{Op, symbol_seq};

verus! {

/// The input buffer never grows past this many characters through digit
/// presses: a longer buffer silently ignores further digits.
pub const MAX_INPUT_LEN: usize = 11;

/// The faults of the commit step. Under correct operation of the input
/// commands none of these can occur; they are reported as values rather than
/// crashing so that a driver can observe that the invariants held.
#[derive(Clone, Copy, Debug, PartialEq, Eq, Structural)]
pub enum CalcError {
    /// The non-empty input buffer did not parse as a number.
    BufferNotNumeric,
    /// An operator was pending although no result exists to operate on.
    OperatorWithoutOperand,
    /// A result and a new operand exist but no operator is pending.
    MissingOperator,
}

/// The calculator's whole state: the running result of the chain so far, the
/// operator awaiting its right-hand operand, and the text being typed.
#[derive(Debug)]
pub struct CalcApp {
    /// The accumulated value of the chain, as the host's opaque numeric code;
    /// `None` means no prior value exists in this chain.
    pub result: Option<u64>,
    /// The operator recorded after its left operand, awaiting the right one.
    pub op: Option<Op>,
    /// The digits, decimal point and sign currently being typed.
    pub current: Vec<char>,
}

/// The mathematical shadow of [`CalcApp`]: the same three fields with the
/// buffer as a sequence of characters.
#[verifier::ext_equal]
pub struct CalcView {
    pub result: Option<u64>,
    pub op: Option<Op>,
    pub current: Seq<char>,
}

impl View for CalcApp {
    type V = CalcView;

    open spec fn view(&self) -> CalcView {
        CalcView { result: self.result, op: self.op, current: self.current@ }
    }
}

/// The state every chain starts from: nothing accumulated, nothing pending,
/// nothing typed.
pub open spec fn initial() -> CalcView {
    CalcView { result: None, op: None, current: Seq::<char>::empty() }
}

/// Every buffer-editing key first drops the accumulated result when no
/// operator is pending: fresh typing displaces a finished chain's value.
pub open spec fn fresh_entry(s: CalcView) -> CalcView {
    if s.op is None {
        CalcView { result: None, ..s }
    } else {
        s
    }
}

/// What a digit press does: clear a stale result, then append the digit
/// unless the buffer is already at the length cap.
pub open spec fn digit_t(s: CalcView, d: char) -> CalcView {
    let t = fresh_entry(s);
    if t.current.len() >= MAX_INPUT_LEN as nat {
        t
    } else {
        CalcView { current: t.current.push(d), ..t }
    }
}

/// What a decimal-point press does: clear a stale result, then append `'.'`
/// only if the buffer holds no point yet.
pub open spec fn point_t(s: CalcView) -> CalcView {
    let t = fresh_entry(s);
    if t.current.contains('.') {
        t
    } else {
        CalcView { current: t.current.push('.'), ..t }
    }
}

/// What a sign toggle does: clear a stale result, then strip a leading `'-'`
/// if one is there, else prepend one.
pub open spec fn negate_t(s: CalcView) -> CalcView {
    let t = fresh_entry(s);
    if t.current.len() > 0 && t.current[0] == '-' {
        CalcView { current: t.current.subrange(1, t.current.len() as int), ..t }
    } else {
        CalcView { current: seq!['-'] + t.current, ..t }
    }
}

/// Clear-entry empties the buffer and touches nothing else.
pub open spec fn clear_entry_t(s: CalcView) -> CalcView {
    CalcView { current: Seq::<char>::empty(), ..s }
}

/// Clear-all returns to the initial state.
pub open spec fn clear_all_t(s: CalcView) -> CalcView {
    initial()
}

/// The commit step, given `value`, the host's arithmetic outcome for this
/// state (see [`CalcApp::apply_op`]). An empty buffer commits nothing; a
/// non-empty one folds `value` into the result, or reports the fault that
/// makes folding impossible.
pub open spec fn commit_t(s: CalcView, value: Option<u64>) -> Result<CalcView, CalcError> {
    if s.current.len() == 0 {
        Ok(s)
    } else if value is None {
        Err(CalcError::BufferNotNumeric)
    } else if s.result is None {
        if s.op is Some {
            Err(CalcError::OperatorWithoutOperand)
        } else {
            Ok(CalcView { result: value, ..s })
        }
    } else if s.op is None {
        Err(CalcError::MissingOperator)
    } else {
        Ok(CalcView { result: value, ..s })
    }
}

/// Equals: commit, then clear the pending operator and the buffer, leaving
/// the chain's final value in `result`.
pub open spec fn evaluate_t(s: CalcView, value: Option<u64>) -> Result<CalcView, CalcError> {
    match commit_t(s, value) {
        Ok(t) => Ok(CalcView { op: None, current: Seq::<char>::empty(), ..t }),
        Err(e) => Err(e),
    }
}

/// An operator press: commit the chain so far exactly as equals does, then
/// record the new operator — but only when a result exists to be its left
/// operand; pressed before any number, the operator is dropped.
pub open spec fn do_op_t(s: CalcView, op: Op, value: Option<u64>) -> Result<CalcView, CalcError> {
    match evaluate_t(s, value) {
        Ok(t) => if t.result is Some {
            Ok(CalcView { op: Some(op), ..t })
        } else {
            Ok(t)
        },
        Err(e) => Err(e),
    }
}

/// The accumulator line as displayed: the host-rendered result text, a
/// space, and the pending operator's symbol (empty when none is pending).
pub open spec fn accumulator_seq(result_text: Seq<char>, op: Option<Op>) -> Seq<char> {
    result_text + seq![' '] + match op {
        Some(o) => symbol_seq(o),
        None => Seq::<char>::empty(),
    }
}

/// Relies on `String`'s `FromIterator<char>` implementation: collecting
/// characters yields the string holding exactly those characters in order.
#[verifier::external_body]
fn chars_to_string(v: &Vec<char>) -> (r: String)
    ensures
        r@ == v@,
{
    v.iter().copied().collect()
}

impl Default for CalcApp {
    /// The initial state: no result, no pending operator, empty buffer.
    fn default() -> (r: Self)
        ensures
            r@ == initial(),
    {
        let r = CalcApp { result: None, op: None, current: Vec::new() };
        proof {
            assert(r@ =~= initial());
        }
        r
    }
}

impl CalcApp {
    /// Presses a digit key: a stale result is displaced, and the digit is
    /// appended unless the buffer is already at the length cap, in which case
    /// the keystroke is silently ignored.
    pub fn add_digit(&mut self, digit: char)
        ensures
            final(self)@ == digit_t(old(self)@, digit),
    {
        if self.op.is_none() {
            self.result = None;
        }
        if self.current.len() >= MAX_INPUT_LEN {
            return;
        }
        self.current.push(digit);
    }

    /// Presses the decimal-point key: a stale result is displaced, and `'.'`
    /// is appended only if the buffer does not already contain one.
    pub fn add_point(&mut self)
        ensures
            final(self)@ == point_t(old(self)@),
    {
        if self.op.is_none() {
            self.result = None;
        }
        if !vec_contains_char(&self.current, '.') {
            self.current.push('.');
        }
    }

    /// Presses the sign-toggle key: a stale result is displaced, and a
    /// leading `'-'` is stripped if present, else prepended.
    pub fn negate(&mut self)
        ensures
            final(self)@ == negate_t(old(self)@),
    {
        if self.op.is_none() {
            self.result = None;
        }
        if self.current.len() > 0 && self.current[0] == '-' {
            self.current.remove(0);
        } else {
            self.current.insert(0, '-');
        }
        proof {
            assert(self@ =~= negate_t(old(self)@));
        }
    }

    /// Clear-entry: empties the buffer; the result and the pending operator
    /// are left untouched.
    pub fn clear_entry(&mut self)
        ensures
            final(self)@ == clear_entry_t(old(self)@),
            final(self)@.result == old(self)@.result,
            final(self)@.op == old(self)@.op,
            final(self)@.current == Seq::<char>::empty(),
    {
        self.current.clear();
    }

    /// Clear-all: resets all three fields to the initial state.
    pub fn clear_all(&mut self)
        ensures
            final(self)@ == clear_all_t(old(self)@),
            final(self)@ == initial(),
    {
        self.result = None;
        self.op = None;
        self.current.clear();
    }

    /// The commit step shared by operator presses and equals: folds the typed
    /// operand into the running result.
    ///
    /// `value` is the arithmetic outcome the host computed for the current
    /// state, on its own numeric type: when `result` and a pending operator
    /// are both set, the operator applied to `result` and the parsed buffer;
    /// otherwise the parsed buffer itself; `None` when the buffer does not
    /// parse as a number. With an empty buffer there is nothing to commit and
    /// `value` is ignored. On a fault, the state is left unchanged.
    pub fn apply_op(&mut self, value: Option<u64>) -> (r: Result<(), CalcError>)
        ensures
            commit_t(old(self)@, value) matches Ok(t) ==> r is Ok && final(self)@ == t,
            commit_t(old(self)@, value) matches Err(e) ==> r == Err::<(), CalcError>(e)
                && final(self)@ == old(self)@,
    {
        if self.current.len() == 0 {
            return Ok(());
        }
        let v = match value {
            Some(v) => v,
            None => {
                return Err(CalcError::BufferNotNumeric);
            },
        };
        if self.result.is_none() {
            if self.op.is_some() {
                return Err(CalcError::OperatorWithoutOperand);
            }
            self.result = Some(v);
            return Ok(());
        }
        if self.op.is_none() {
            return Err(CalcError::MissingOperator);
        }
        self.result = Some(v);
        Ok(())
    }

    /// Presses equals: commits the typed operand (see [`Self::apply_op`] for
    /// the `value` argument), then clears the pending operator and the
    /// buffer, leaving the chain's final value in `result`. On a fault, the
    /// state is left unchanged and the fault is returned.
    pub fn evaluate(&mut self, value: Option<u64>) -> (r: Result<(), CalcError>)
        ensures
            evaluate_t(old(self)@, value) matches Ok(t) ==> r is Ok && final(self)@ == t,
            evaluate_t(old(self)@, value) matches Err(e) ==> r == Err::<(), CalcError>(e)
                && final(self)@ == old(self)@,
    {
        if let Err(e) = self.apply_op(value) {
            return Err(e);
        }
        self.op = None;
        self.current.clear();
        Ok(())
    }

    /// Presses an operator key: commits the chain so far exactly as equals
    /// does (see [`Self::apply_op`] for the `value` argument), then records
    /// `op` as pending — but only when a result exists to be its left
    /// operand; pressed before any number, the operator is dropped. On a
    /// fault, the state is left unchanged and the fault is returned.
    pub fn do_op(&mut self, op: Op, value: Option<u64>) -> (r: Result<(), CalcError>)
        ensures
            do_op_t(old(self)@, op, value) matches Ok(t) ==> r is Ok && final(self)@ == t,
            do_op_t(old(self)@, op, value) matches Err(e) ==> r == Err::<(), CalcError>(e)
                && final(self)@ == old(self)@,
    {
        if let Err(e) = self.evaluate(value) {
            return Err(e);
        }
        if self.result.is_some() {
            self.op = Some(op);
        }
        Ok(())
    }

    /// The text being typed, exactly as entered.
    pub fn current_display_text(&self) -> (r: String)
        ensures
            r@ == self@.current,
    {
        chars_to_string(&self.current)
    }

    /// The accumulator line: `result_text` (the host's rendering of the
    /// accumulated result, empty when unset), a space, and the pending
    /// operator's symbol (empty when none is pending) — e.g. `"20 +"`.
    pub fn accumulator_display_text(&self, result_text: &str) -> (r: String)
        ensures
            r@ == accumulator_seq(result_text@, self@.op),
    {
        proof {
            reveal_strlit(" ");
        }
        let mut r = String::from_str(result_text);
        r.append(" ");
        match self.op {
            Some(o) => {
                let sym = o.to_string();
                r.append(sym.as_str());
            },
            None => {},
        }
        proof {
            assert(r@ =~= accumulator_seq(result_text@, self@.op));
        }
        r
    }
}

/// Whether the character vector contains `c`.
fn vec_contains_char(v: &Vec<char>, c: char) -> (r: bool)
    ensures
        r == v@.contains(c),
{
    let mut i: usize = 0;
    while i < v.len()
        invariant
            i <= v@.len(),
            forall|j: int| 0 <= j < i ==> v@[j] != c,
        decreases v@.len() - i,
    {
        if v[i] == c {
            return true;
        }
        i = i + 1;
    }
    false
}

} // verus!
