//! Laws that relate decoding, compilation, dependency discovery and evaluation.
use vstd::prelude::*;
use crate::compile::{compile, compile_all, CompileFailure};
use crate::data::{decode, ExprData, Shape, Term};
use crate::expr::{all_deps, evaluate, node_deps, EvalError, Node};
use crate::function::FunctionBuilder;
use crate::value::Literal;

verus! {

/// The document that holds just the literal `v`.
pub open spec fn literal_document(v: Literal) -> Shape {
    match v {
        Literal::Number(n) => Shape::Number(n),
        Literal::Text(s) => Shape::Text(s),
    }
}

/// A literal number or string decodes to that literal, compiles to it
/// whatever the registry holds, and evaluates to it whatever the inputs are.
pub proof fn law_literal_round_trip(
    v: Literal,
    fns: Map<Seq<char>, FunctionBuilder>,
    slots: Map<Seq<char>, Option<i64>>,
)
    ensures
        decode(literal_document(v)) == Ok::<Term, crate::data::DecodeError>(Term::Literal(v)),
        compile(Term::Literal(v), fns) == Ok::<Node, CompileFailure>(Node::Literal(v)),
        evaluate(Node::Literal(v), slots) == Ok::<Literal, EvalError>(v),
{
}

/// The calls of `t` that `fns` makes queries have one argument each.
pub open spec fn single_argument_queries(t: Term, fns: Map<Seq<char>, FunctionBuilder>) -> bool
    decreases t,
{
    match t {
        Term::Literal(_) => true,
        Term::Call(id, args) => {
            &&& (fns.contains_key(id) && fns[id] == FunctionBuilder::Query ==> args.len() == 1)
            &&& all_single_argument_queries(args, fns)
        },
    }
}

pub open spec fn all_single_argument_queries(
    s: Seq<Term>,
    fns: Map<Seq<char>, FunctionBuilder>,
) -> bool
    decreases s,
{
    s.len() > 0 ==> {
        &&& all_single_argument_queries(s.subrange(0, s.len() - 1), fns)
        &&& single_argument_queries(s[s.len() - 1], fns)
    }
}

/// The string literals of `t` that stand as the selector of a query.
pub open spec fn query_selectors(t: Term, fns: Map<Seq<char>, FunctionBuilder>) -> Set<Seq<char>>
    decreases t,
{
    match t {
        Term::Literal(_) => Set::empty(),
        Term::Call(id, args) => {
            let own = if fns.contains_key(id) && fns[id] == FunctionBuilder::Query && args.len() > 0
                && args[0] is Literal && args[0]->Literal_0 is Text {
                set![args[0]->Literal_0->Text_0]
            } else {
                Set::empty()
            };
            all_query_selectors(args, fns).union(own)
        },
    }
}

pub open spec fn all_query_selectors(s: Seq<Term>, fns: Map<Seq<char>, FunctionBuilder>) -> Set<
    Seq<char>,
>
    decreases s,
{
    if s.len() == 0 {
        Set::empty()
    } else {
        all_query_selectors(s.subrange(0, s.len() - 1), fns).union(
            query_selectors(s[s.len() - 1], fns),
        )
    }
}

/// Only a literal term compiles to a literal node.
proof fn lemma_compiled_literal(t: Term, fns: Map<Seq<char>, FunctionBuilder>, n: Node)
    requires
        compile(t, fns) == Ok::<Node, CompileFailure>(n),
        n is Literal,
    ensures
        t == Term::Literal(n->Literal_0),
{
}

proof fn lemma_all_deps(s: Seq<Term>, fns: Map<Seq<char>, FunctionBuilder>, ns: Seq<Node>)
    requires
        compile_all(s, fns) == Ok::<Seq<Node>, CompileFailure>(ns),
        all_single_argument_queries(s, fns),
    ensures
        ns.len() == s.len(),
        all_deps(ns) == all_query_selectors(s, fns),
        forall|i: int| 0 <= i < s.len() ==> compile(s[i], fns) == Ok::<Node, CompileFailure>(#[trigger] ns[i]),
    decreases s,
{
    if s.len() > 0 {
        let prefix = s.subrange(0, s.len() - 1);
        let ps = compile_all(prefix, fns)->Ok_0;
        lemma_all_deps(prefix, fns, ps);
        let n = compile(s[s.len() - 1], fns)->Ok_0;
        lemma_deps(s[s.len() - 1], fns, n);
        assert(ns == ps.push(n));
        assert(ns.subrange(0, ns.len() - 1) =~= ps);
        assert forall|i: int| 0 <= i < s.len() implies compile(s[i], fns) == Ok::<Node, CompileFailure>(#[trigger] ns[i]) by {
            if i < s.len() - 1 {
                assert(prefix[i] == s[i]);
            }
        }
    } else {
        assert(ns =~= Seq::<Node>::empty());
    }
}

proof fn lemma_deps(t: Term, fns: Map<Seq<char>, FunctionBuilder>, n: Node)
    requires
        compile(t, fns) == Ok::<Node, CompileFailure>(n),
        single_argument_queries(t, fns),
    ensures
        node_deps(n) == query_selectors(t, fns),
    decreases t,
{
    match t {
        Term::Literal(_) => {
            assert(node_deps(n) =~= query_selectors(t, fns));
        },
        Term::Call(id, args) => {
            let ns = compile_all(args, fns)->Ok_0;
            lemma_all_deps(args, fns, ns);
            if fns[id] == FunctionBuilder::Query {
                assert(args.len() == 1);
                lemma_compiled_literal(args[0], fns, ns[0]);
                assert(query_selectors(args[0], fns) =~= Set::<Seq<char>>::empty());
                assert(args.subrange(0, 0) =~= Seq::<Term>::empty());
                assert(all_query_selectors(args.subrange(0, 0), fns) =~= Set::<Seq<char>>::empty());
                assert(all_query_selectors(args, fns) =~= Set::<Seq<char>>::empty());
                assert(node_deps(n) =~= query_selectors(t, fns));
            } else {
                assert(node_deps(n) =~= query_selectors(t, fns));
            }
        },
    }
}

/// The inputs a compiled expression needs are exactly the string literals
/// that stand as query selectors in its source, for sources whose queries
/// have one argument each.
pub proof fn law_dependency_completeness(t: Term, fns: Map<Seq<char>, FunctionBuilder>, n: Node)
    requires
        compile(t, fns) == Ok::<Node, CompileFailure>(n),
        single_argument_queries(t, fns),
    ensures
        node_deps(n) == query_selectors(t, fns),
{
    lemma_deps(t, fns, n);
}

/// Compiling equal expressions against the same functions gives the same
/// outcome; the compiled expressions need the same inputs and evaluate alike
/// on the same input values.
pub proof fn law_idempotent_compilation(
    a: ExprData,
    b: ExprData,
    fns: Map<Seq<char>, FunctionBuilder>,
    slots: Map<Seq<char>, Option<i64>>,
)
    requires
        a@ == b@,
    ensures
        compile(a@, fns) == compile(b@, fns),
        compile(a@, fns) is Ok ==> {
            &&& node_deps(compile(a@, fns)->Ok_0) == node_deps(compile(b@, fns)->Ok_0)
            &&& evaluate(compile(a@, fns)->Ok_0, slots) == evaluate(compile(b@, fns)->Ok_0, slots)
        },
{
}

} // verus!
