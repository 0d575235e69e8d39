//! The five binary operators of the calculator.

use vstd::prelude::*;
use vstd::string::StringExecFns;

verus! {

/// A binary operator awaiting (or applied to) two operands. The arithmetic
/// itself is performed by the host on its own numeric type; the engine only
/// records which operator is pending and renders its symbol.
#[derive(Clone, Copy, Debug, PartialEq, Eq, Structural)]
pub enum Op {
    Add,
    Sub,
    Mul,
    Div,
    Mod,
}

/// The single-character symbol that each operator displays as.
pub open spec fn symbol_seq(op: Op) -> Seq<char> {
    match op {
        Op::Add => seq!['+'],
        Op::Sub => seq!['-'],
        Op::Mul => seq!['*'],
        Op::Div => seq!['/'],
        Op::Mod => seq!['%'],
    }
}

impl Op {
    /// The operator's display symbol, e.g. `"+"` for `Op::Add`.
    pub fn to_string(&self) -> (r: String)
        ensures
            r@ == symbol_seq(*self),
    {
        proof {
            reveal_strlit("+");
            reveal_strlit("-");
            reveal_strlit("*");
            reveal_strlit("/");
            reveal_strlit("%");
        }
        let s: &str = match self {
            Op::Add => "+",
            Op::Sub => "-",
            Op::Mul => "*",
            Op::Div => "/",
            Op::Mod => "%",
        };
        let r = String::from_str(s);
        proof {
            assert(r@ =~= symbol_seq(*self));
        }
        r
    }
}

} // verus!
