//! Literal values: the only kind of datum an expression produces.
use vstd::prelude::*;

verus! {

/// The mathematical content of a value.
pub enum Literal {
    Number(i64),
    Text(Seq<char>),
}

/// A runtime or literal value: a whole number or a piece of text.
#[derive(Debug, PartialEq)]
pub enum StaticExpr {
    Number(i64),
    String(String),
}

impl View for StaticExpr {
    type V = Literal;

    open spec fn view(&self) -> Literal {
        match self {
            StaticExpr::Number(n) => Literal::Number(*n),
            StaticExpr::String(s) => Literal::Text(s@),
        }
    }
}

impl Clone for StaticExpr {
    fn clone(&self) -> (r: Self)
        ensures
            r@ == self@,
    {
        match self {
            StaticExpr::Number(n) => StaticExpr::Number(*n),
            StaticExpr::String(s) => StaticExpr::String(s.clone()),
        }
    }
}

} // verus!
