//! Compilation of expression trees against a registry.
use vstd::prelude::*;
use crate::data::{data_args_view, ExprData, FunctionExprData, Term};
use crate::expr::{args_view, node_deps, Expr, Node};
use crate::function::{build_node, FunctionBuilder};
use crate::registry::Registry;
use crate::scope::ScopeData;

verus! {

/// The mathematical content of a compile error.
pub enum CompileFailure {
    UnknownFunction(Seq<char>),
    InvalidQuery,
}

/// Why an expression does not compile.
#[derive(Clone, Debug, PartialEq)]
pub enum CompileError {
    /// No function is registered under the identifier.
    UnknownFunction(String),
    /// A query whose first argument is missing or is not a literal string.
    InvalidQuery,
}

impl View for CompileError {
    type V = CompileFailure;

    open spec fn view(&self) -> CompileFailure {
        match self {
            CompileError::UnknownFunction(id) => CompileFailure::UnknownFunction(id@),
            CompileError::InvalidQuery => CompileFailure::InvalidQuery,
        }
    }
}

/// Compilation: a literal stays a literal; a call first compiles its
/// arguments from left to right, then looks its identifier up and hands the
/// compiled arguments to the builder found.
pub open spec fn compile(t: Term, fns: Map<Seq<char>, FunctionBuilder>) -> Result<Node, CompileFailure>
    decreases t,
{
    match t {
        Term::Literal(v) => Ok(Node::Literal(v)),
        Term::Call(id, args) => match compile_all(args, fns) {
            Err(e) => Err(e),
            Ok(nodes) => if fns.contains_key(id) {
                build_node(fns[id], nodes)
            } else {
                Err(CompileFailure::UnknownFunction(id))
            },
        },
    }
}

/// Compiles each term from left to right; the first failure decides.
pub open spec fn compile_all(s: Seq<Term>, fns: Map<Seq<char>, FunctionBuilder>) -> Result<
    Seq<Node>,
    CompileFailure,
>
    decreases s,
{
    if s.len() == 0 {
        Ok(Seq::empty())
    } else {
        match compile_all(s.subrange(0, s.len() - 1), fns) {
            Err(e) => Err(e),
            Ok(ns) => match compile(s[s.len() - 1], fns) {
                Ok(n) => Ok(ns.push(n)),
                Err(e) => Err(e),
            },
        }
    }
}

/// A slot for each name, none of them set.
pub open spec fn unset_slots(names: Set<Seq<char>>) -> Map<Seq<char>, Option<i64>> {
    Map::new(|k: Seq<char>| names.contains(k), |k: Seq<char>| None)
}

proof fn lemma_compile_all_failure_persists(
    s: Seq<Term>,
    k: int,
    fns: Map<Seq<char>, FunctionBuilder>,
)
    requires
        0 <= k <= s.len(),
        compile_all(s.subrange(0, k), fns) is Err,
    ensures
        compile_all(s, fns) == compile_all(s.subrange(0, k), fns),
    decreases s.len() - k,
{
    if k < s.len() {
        assert(s.subrange(0, k + 1).subrange(0, k) =~= s.subrange(0, k));
        lemma_compile_all_failure_persists(s, k + 1, fns);
    } else {
        assert(s.subrange(0, k) =~= s);
    }
}

impl ExprData {
    /// Compiles the expression against the functions of `registry`.
    pub fn build_expr<D>(self, registry: &Registry<D>) -> (r: Result<Expr, CompileError>)
        ensures
            match r {
                Ok(e) => compile(self@, registry.functions()) == Ok::<Node, CompileFailure>(e@),
                Err(x) => compile(self@, registry.functions()) == Err::<Node, CompileFailure>(x@),
            },
    {
        self.compile(registry)
    }

    /// Compiles the expression and makes a scope for it, with a slot for each
    /// input it queries, none of them set.
    pub fn build<D>(self, registry: &Registry<D>) -> (r: Result<ScopeData, CompileError>)
        ensures
            match r {
                Ok(s) => {
                    &&& s.wf()
                    &&& compile(self@, registry.functions()) == Ok::<Node, CompileFailure>(s.expression())
                    &&& s.slots() == unset_slots(node_deps(s.expression()))
                },
                Err(x) => compile(self@, registry.functions()) == Err::<Node, CompileFailure>(x@),
            },
    {
        match self.build_expr(registry) {
            Ok(expr) => Ok(ScopeData::new(expr)),
            Err(x) => Err(x),
        }
    }

    fn compile<D>(&self, registry: &Registry<D>) -> (r: Result<Expr, CompileError>)
        ensures
            match r {
                Ok(e) => compile(self@, registry.functions()) == Ok::<Node, CompileFailure>(e@),
                Err(x) => compile(self@, registry.functions()) == Err::<Node, CompileFailure>(x@),
            },
        decreases self,
    {
        match self {
            ExprData::Static(v) => Ok(Expr::Static(v.clone())),
            ExprData::Dynamic(f) => f.compile(registry),
        }
    }
}

impl FunctionExprData {
    fn compile<D>(&self, registry: &Registry<D>) -> (r: Result<Expr, CompileError>)
        ensures
            match r {
                Ok(e) => compile(self@, registry.functions()) == Ok::<Node, CompileFailure>(e@),
                Err(x) => compile(self@, registry.functions()) == Err::<Node, CompileFailure>(x@),
            },
        decreases self,
    {
        let ghost terms = data_args_view(self.args@);
        let ghost fns = registry.functions();
        let mut compiled: Vec<Expr> = Vec::new();
        let mut i: usize = 0;
        assert(terms.subrange(0, 0) =~= Seq::<Term>::empty());
        assert(args_view(compiled@) =~= Seq::<Node>::empty());
        while i < self.args.len()
            invariant
                i <= self.args.len(),
                terms == data_args_view(self.args@),
                fns == registry.functions(),
                compile_all(terms.subrange(0, i as int), fns) == Ok::<Seq<Node>, CompileFailure>(
                    args_view(compiled@),
                ),
            decreases self.args.len() - i,
        {
            let ghost pre = terms.subrange(0, i + 1);
            proof {
                assert(pre.subrange(0, pre.len() - 1) =~= terms.subrange(0, i as int));
                assert(pre[pre.len() - 1] == self.args@[i as int]@);
            }
            match self.args[i].compile(registry) {
                Ok(e) => {
                    let ghost before = compiled@;
                    compiled.push(e);
                    assert(args_view(compiled@) =~= args_view(before).push(e@));
                },
                Err(x) => {
                    proof {
                        lemma_compile_all_failure_persists(terms, i + 1, fns);
                    }
                    return Err(x);
                },
            }
            i = i + 1;
        }
        assert(terms.subrange(0, i as int) =~= terms);
        match registry.lookup_function(self.ident.as_str()) {
            None => Err(CompileError::UnknownFunction(self.ident.clone())),
            Some(builder) => match builder.build(compiled) {
                Ok(f) => Ok(Expr::Dynamic(f)),
                Err(x) => Err(x),
            },
        }
    }
}

} // verus!
