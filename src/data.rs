//! Expression documents: the JSON-shaped input, and its decoding into
//! uncompiled expression trees.
use vstd::prelude::*;
use crate::value::{Literal, StaticExpr};

verus! {

/// A JSON-shaped document, as the host hands it over. Numbers are whole.
#[derive(Debug, PartialEq)]
pub enum Document {
    Null,
    Bool(bool),
    Number(i64),
    Text(String),
    Array(Vec<Document>),
    Object(Vec<(String, Document)>),
}

/// The part of a document that decoding reads: an object counts only as an object.
pub enum Shape {
    Null,
    Bool(bool),
    Number(i64),
    Text(Seq<char>),
    Array(Seq<Shape>),
    Object,
}

pub open spec fn documents_view(s: Seq<Document>) -> Seq<Shape>
    decreases s,
{
    Seq::new(s.len(), |i: int| if 0 <= i < s.len() { document_shape(s[i]) } else { Shape::Null })
}

pub open spec fn document_shape(d: Document) -> Shape
    decreases d,
{
    match d {
        Document::Null => Shape::Null,
        Document::Bool(b) => Shape::Bool(b),
        Document::Number(n) => Shape::Number(n),
        Document::Text(s) => Shape::Text(s@),
        Document::Array(items) => Shape::Array(documents_view(items@)),
        Document::Object(_) => Shape::Object,
    }
}

impl View for Document {
    type V = Shape;

    open spec fn view(&self) -> Shape {
        document_shape(*self)
    }
}

/// The mathematical content of an uncompiled expression.
pub enum Term {
    Literal(Literal),
    /// A call of the function registered under the identifier.
    Call(Seq<char>, Seq<Term>),
}

/// An uncompiled expression: a literal, or a call of a named function.
#[derive(Debug, PartialEq)]
pub enum ExprData {
    Static(StaticExpr),
    Dynamic(FunctionExprData),
}

/// A call: the function's identifier and its argument expressions, in order.
#[derive(Debug, PartialEq)]
pub struct FunctionExprData {
    pub ident: String,
    pub args: Vec<ExprData>,
}

pub open spec fn data_args_view(s: Seq<ExprData>) -> Seq<Term>
    decreases s,
{
    Seq::new(
        s.len(),
        |i: int|
            if 0 <= i < s.len() {
                data_term(s[i])
            } else {
                Term::Literal(Literal::Number(0))
            },
    )
}

pub open spec fn data_term(d: ExprData) -> Term
    decreases d,
{
    match d {
        ExprData::Static(v) => Term::Literal(v@),
        ExprData::Dynamic(f) => Term::Call(f.ident@, data_args_view(f.args@)),
    }
}

impl View for ExprData {
    type V = Term;

    open spec fn view(&self) -> Term {
        data_term(*self)
    }
}

impl View for FunctionExprData {
    type V = Term;

    open spec fn view(&self) -> Term {
        Term::Call(self.ident@, data_args_view(self.args@))
    }
}

/// Why a document is not an expression.
#[derive(Clone, Copy, Debug, PartialEq, Eq, Structural)]
pub enum DecodeError {
    /// An array whose first element is not a string.
    MissingIdentifier,
    /// An argument of a call that does not decode.
    InvalidArgument,
    /// Neither a number, a string nor a non-empty array.
    UnsupportedShape,
}

/// Decoding: a number or string is a literal; a non-empty array whose first
/// element is a string is a call of that identifier on the rest, decoded in turn.
pub open spec fn decode(d: Shape) -> Result<Term, DecodeError>
    decreases d,
{
    match d {
        Shape::Number(n) => Ok(Term::Literal(Literal::Number(n))),
        Shape::Text(s) => Ok(Term::Literal(Literal::Text(s))),
        Shape::Array(items) => if items.len() == 0 {
            Err(DecodeError::UnsupportedShape)
        } else if !(items[0] is Text) {
            Err(DecodeError::MissingIdentifier)
        } else {
            match decode_all(items.subrange(1, items.len() as int)) {
                Some(args) => Ok(Term::Call(items[0]->Text_0, args)),
                None => Err(DecodeError::InvalidArgument),
            }
        },
        _ => Err(DecodeError::UnsupportedShape),
    }
}

/// Decodes each element, or fails if any of them fails.
pub open spec fn decode_all(s: Seq<Shape>) -> Option<Seq<Term>>
    decreases s,
{
    if s.len() == 0 {
        Some(Seq::empty())
    } else {
        match decode_all(s.subrange(0, s.len() - 1)) {
            None => None,
            Some(ts) => match decode(s[s.len() - 1]) {
                Ok(t) => Some(ts.push(t)),
                Err(_) => None,
            },
        }
    }
}

impl Clone for ExprData {
    fn clone(&self) -> (r: Self)
        ensures
            r@ == self@,
        decreases self,
    {
        match self {
            ExprData::Static(v) => ExprData::Static(v.clone()),
            ExprData::Dynamic(f) => ExprData::Dynamic(f.clone()),
        }
    }
}

impl Clone for FunctionExprData {
    fn clone(&self) -> (r: Self)
        ensures
            r@ == self@,
        decreases self,
    {
        let mut args: Vec<ExprData> = Vec::new();
        let mut i: usize = 0;
        while i < self.args.len()
            invariant
                i <= self.args.len(),
                args@.len() == i,
                forall|j: int| 0 <= j < i ==> args@[j]@ == self.args@[j]@,
            decreases self.args.len() - i,
        {
            let a = self.args[i].clone();
            args.push(a);
            i = i + 1;
        }
        assert(data_args_view(args@) =~= data_args_view(self.args@));
        FunctionExprData { ident: self.ident.clone(), args }
    }
}

/// A failure in a prefix is a failure of the whole sequence.
proof fn lemma_decode_all_failure_persists(s: Seq<Shape>, k: int)
    requires
        0 <= k <= s.len(),
        decode_all(s.subrange(0, k)) is None,
    ensures
        decode_all(s) is None,
    decreases s.len() - k,
{
    if k < s.len() {
        assert(s.subrange(0, k + 1).subrange(0, k) =~= s.subrange(0, k));
        lemma_decode_all_failure_persists(s, k + 1);
    } else {
        assert(s.subrange(0, k) =~= s);
    }
}

impl ExprData {
    /// Decodes a document into an expression.
    pub fn decode(doc: &Document) -> (r: Result<ExprData, DecodeError>)
        ensures
            match r {
                Ok(d) => decode(doc@) == Ok::<Term, DecodeError>(d@),
                Err(e) => decode(doc@) == Err::<Term, DecodeError>(e),
            },
        decreases doc,
    {
        match doc {
            Document::Number(n) => Ok(ExprData::Static(StaticExpr::Number(*n))),
            Document::Text(s) => Ok(ExprData::Static(StaticExpr::String(s.clone()))),
            Document::Array(items) => match FunctionExprData::decode(items) {
                Ok(f) => Ok(ExprData::Dynamic(f)),
                Err(e) => Err(e),
            },
            _ => Err(DecodeError::UnsupportedShape),
        }
    }
}

impl FunctionExprData {
    /// Decodes the elements of an array into a call: the first names the
    /// function, the others are its arguments.
    pub fn decode(items: &Vec<Document>) -> (r: Result<FunctionExprData, DecodeError>)
        ensures
            match r {
                Ok(f) => decode(Shape::Array(documents_view(items@))) == Ok::<Term, DecodeError>(f@),
                Err(e) => decode(Shape::Array(documents_view(items@))) == Err::<Term, DecodeError>(e),
            },
        decreases items,
    {
        let ghost shapes = documents_view(items@);
        if items.len() == 0 {
            return Err(DecodeError::UnsupportedShape);
        }
        assert(shapes[0] == items@[0]@);
        let ident = match &items[0] {
            Document::Text(s) => s.clone(),
            _ => {
                return Err(DecodeError::MissingIdentifier);
            },
        };
        let ghost rest = shapes.subrange(1, shapes.len() as int);
        let mut args: Vec<ExprData> = Vec::new();
        let mut i: usize = 1;
        assert(rest.subrange(0, 0) =~= Seq::<Shape>::empty());
        assert(data_args_view(args@) =~= Seq::<Term>::empty());
        while i < items.len()
            invariant
                1 <= i <= items.len(),
                shapes == documents_view(items@),
                rest == shapes.subrange(1, shapes.len() as int),
                shapes.len() > 0 && shapes[0] == Shape::Text(ident@),
                decode_all(rest.subrange(0, i - 1)) == Some(data_args_view(args@)),
            decreases items.len() - i,
        {
            let ghost pre = rest.subrange(0, i as int);
            proof {
                assert(pre.subrange(0, pre.len() - 1) =~= rest.subrange(0, i - 1));
                assert(pre[pre.len() - 1] == items@[i as int]@);
            }
            match ExprData::decode(&items[i]) {
                Ok(d) => {
                    let ghost before = args@;
                    args.push(d);
                    assert(data_args_view(args@) =~= data_args_view(before).push(d@));
                },
                Err(_) => {
                    proof {
                        assert(decode_all(pre) is None);
                        assert(rest.subrange(0, i as int) == pre);
                        lemma_decode_all_failure_persists(rest, i as int);
                    }
                    return Err(DecodeError::InvalidArgument);
                },
            }
            i = i + 1;
        }
        assert(rest.subrange(0, i - 1) =~= rest);
        Ok(FunctionExprData { ident, args })
    }
}

} // verus!
