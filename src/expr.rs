//! Compiled expressions, their meaning, and the external inputs they need.
use vstd::prelude::*;
use crate::entries::{merge_names, name_set, names_distinct};
use crate::function::Function;
use crate::scope::ScopeData;
use crate::value::{Literal, StaticExpr};

verus! {

/// The arithmetic operations of the built-in functions.
#[derive(Clone, Copy, Debug, PartialEq, Eq, Structural)]
pub enum Operator {
    Add,
    Sub,
    Mul,
    Div,
}

/// The mathematical content of a compiled expression.
pub enum Node {
    Literal(Literal),
    /// An arithmetic function applied to its compiled arguments.
    Apply(Operator, Seq<Node>),
    /// The current value of the named external input.
    Query(Seq<char>),
}

/// Why an evaluation produced no value.
#[derive(Clone, Copy, Debug, PartialEq, Eq, Structural)]
pub enum EvalError {
    /// An operand of an arithmetic function evaluated to text.
    NotANumber,
    /// A function that folds from its first operand was given none.
    MissingOperand,
    /// The result does not fit in a 64-bit signed integer.
    Overflow,
    /// A division by zero.
    DivisionByZero,
    /// A queried input is unknown to the scope or has no value yet.
    MissingDependency,
}

/// A compiled expression: a literal, or a function whose arguments are compiled.
pub enum Expr {
    Static(StaticExpr),
    Dynamic(Function),
}

/// The models of a sequence of compiled expressions.
pub open spec fn args_view(s: Seq<Expr>) -> Seq<Node>
    decreases s,
{
    Seq::new(
        s.len(),
        |i: int|
            if 0 <= i < s.len() {
                expr_node(s[i])
            } else {
                Node::Literal(Literal::Number(0))
            },
    )
}

pub open spec fn expr_node(e: Expr) -> Node
    decreases e,
{
    match e {
        Expr::Static(v) => Node::Literal(v@),
        Expr::Dynamic(f) => match f {
            Function::Add(a) => Node::Apply(Operator::Add, args_view(a.args@)),
            Function::Sub(a) => Node::Apply(Operator::Sub, args_view(a.args@)),
            Function::Mul(a) => Node::Apply(Operator::Mul, args_view(a.args@)),
            Function::Div(a) => Node::Apply(Operator::Div, args_view(a.args@)),
            Function::Query(q) => Node::Query(q.dependency@),
        },
    }
}

impl View for Expr {
    type V = Node;

    open spec fn view(&self) -> Node {
        expr_node(*self)
    }
}

/// One step of an arithmetic fold; integer division truncates toward zero.
pub open spec fn apply_op(op: Operator, a: i64, b: i64) -> Result<i64, EvalError> {
    let r = match op {
        Operator::Add => a.checked_add(b),
        Operator::Sub => a.checked_sub(b),
        Operator::Mul => a.checked_mul(b),
        Operator::Div => a.checked_div(b),
    };
    if op == Operator::Div && b == 0 {
        Err(EvalError::DivisionByZero)
    } else {
        match r {
            Some(x) => Ok(x),
            None => Err(EvalError::Overflow),
        }
    }
}

/// A function result seen as a value.
pub open spec fn number_outcome(r: Result<i64, EvalError>) -> Result<Literal, EvalError> {
    match r {
        Ok(x) => Ok(Literal::Number(x)),
        Err(e) => Err(e),
    }
}

/// Folds `op` over the operands `s` from left to right, starting from `acc`.
/// The first operand that fails to evaluate, or that is text, decides the error.
pub open spec fn fold(
    op: Operator,
    s: Seq<Node>,
    slots: Map<Seq<char>, Option<i64>>,
    acc: i64,
) -> Result<i64, EvalError>
    decreases s,
{
    if s.len() == 0 {
        Ok(acc)
    } else {
        match fold(op, s.subrange(0, s.len() - 1), slots, acc) {
            Err(e) => Err(e),
            Ok(x) => match evaluate(s[s.len() - 1], slots) {
                Ok(Literal::Number(y)) => apply_op(op, x, y),
                Ok(Literal::Text(_)) => Err(EvalError::NotANumber),
                Err(e) => Err(e),
            },
        }
    }
}

/// What an expression evaluates to, given the current value of each input.
/// Addition and multiplication start from zero; subtraction and division
/// start from their first operand.
pub open spec fn evaluate(n: Node, slots: Map<Seq<char>, Option<i64>>) -> Result<Literal, EvalError>
    decreases n,
{
    match n {
        Node::Literal(v) => Ok(v),
        Node::Query(name) => if slots.contains_key(name) && slots[name] is Some {
            Ok(Literal::Number(slots[name]->0))
        } else {
            Err(EvalError::MissingDependency)
        },
        Node::Apply(op, args) => if op == Operator::Add || op == Operator::Mul {
            number_outcome(fold(op, args, slots, 0))
        } else if args.len() == 0 {
            Err(EvalError::MissingOperand)
        } else {
            match evaluate(args[0], slots) {
                Ok(Literal::Number(x)) => number_outcome(
                    fold(op, args.subrange(1, args.len() as int), slots, x),
                ),
                Ok(Literal::Text(_)) => Err(EvalError::NotANumber),
                Err(e) => Err(e),
            }
        },
    }
}

/// The names of the external inputs an expression queries.
pub open spec fn node_deps(n: Node) -> Set<Seq<char>>
    decreases n,
{
    match n {
        Node::Literal(_) => Set::empty(),
        Node::Query(name) => set![name],
        Node::Apply(_, args) => all_deps(args),
    }
}

pub open spec fn all_deps(s: Seq<Node>) -> Set<Seq<char>>
    decreases s,
{
    if s.len() == 0 {
        Set::empty()
    } else {
        all_deps(s.subrange(0, s.len() - 1)).union(node_deps(s[s.len() - 1]))
    }
}

/// An error in a prefix of the operands is the error of the whole fold.
pub proof fn lemma_fold_error_persists(
    op: Operator,
    s: Seq<Node>,
    k: int,
    slots: Map<Seq<char>, Option<i64>>,
    acc: i64,
)
    requires
        0 <= k <= s.len(),
        fold(op, s.subrange(0, k), slots, acc) is Err,
    ensures
        fold(op, s, slots, acc) == fold(op, s.subrange(0, k), slots, acc),
    decreases s.len() - k,
{
    if k < s.len() {
        assert(s.subrange(0, k + 1).subrange(0, k) =~= s.subrange(0, k));
        lemma_fold_error_persists(op, s, k + 1, slots, acc);
    } else {
        assert(s.subrange(0, k) =~= s);
    }
}

/// One step of an arithmetic fold.
fn apply(op: Operator, a: i64, b: i64) -> (r: Result<i64, EvalError>)
    ensures
        r == apply_op(op, a, b),
{
    let checked = match op {
        Operator::Add => a.checked_add(b),
        Operator::Sub => a.checked_sub(b),
        Operator::Mul => a.checked_mul(b),
        Operator::Div => {
            if b == 0 {
                return Err(EvalError::DivisionByZero);
            }
            a.checked_div(b)
        },
    };
    match checked {
        Some(x) => Ok(x),
        None => Err(EvalError::Overflow),
    }
}

/// Folds `op` over the arguments from position `start` on, starting from `init`.
pub(crate) fn fold_args(
    op: Operator,
    args: &Vec<Expr>,
    start: usize,
    init: i64,
    scope: &ScopeData,
) -> (r: Result<i64, EvalError>)
    requires
        start <= args.len(),
    ensures
        r == fold(op, args_view(args@).subrange(start as int, args@.len() as int), scope.slots(), init),
    decreases args, 0nat,
{
    let ghost nodes = args_view(args@).subrange(start as int, args@.len() as int);
    let ghost slots = scope.slots();
    let mut acc = init;
    let mut i: usize = start;
    assert(nodes.subrange(0, 0) =~= Seq::<Node>::empty());
    while i < args.len()
        invariant
            start <= i <= args.len(),
            nodes == args_view(args@).subrange(start as int, args@.len() as int),
            slots == scope.slots(),
            fold(op, nodes.subrange(0, i - start), slots, init) == Ok::<i64, EvalError>(acc),
        decreases args.len() - i,
    {
        let ghost pre = nodes.subrange(0, i - start + 1);
        proof {
            assert(pre.subrange(0, pre.len() - 1) =~= nodes.subrange(0, i - start));
            assert(pre[pre.len() - 1] == args@[i as int]@);
        }
        let v = args[i].run(scope);
        match v {
            Ok(StaticExpr::Number(y)) => {
                match apply(op, acc, y) {
                    Ok(x) => {
                        acc = x;
                    },
                    Err(e) => {
                        proof {
                            lemma_fold_error_persists(op, nodes, i - start + 1, slots, init);
                        }
                        return Err(e);
                    },
                }
            },
            Ok(StaticExpr::String(_)) => {
                proof {
                    lemma_fold_error_persists(op, nodes, i - start + 1, slots, init);
                }
                return Err(EvalError::NotANumber);
            },
            Err(e) => {
                proof {
                    lemma_fold_error_persists(op, nodes, i - start + 1, slots, init);
                }
                return Err(e);
            },
        }
        i = i + 1;
    }
    assert(nodes.subrange(0, i - start) =~= nodes);
    Ok(acc)
}

/// The distinct names of the inputs that the arguments query.
pub(crate) fn deps_of_args(args: &Vec<Expr>) -> (r: Vec<String>)
    ensures
        names_distinct(r@),
        name_set(r@) == all_deps(args_view(args@)),
    decreases args, 0nat,
{
    let ghost nodes = args_view(args@);
    let mut out: Vec<String> = Vec::new();
    let mut i: usize = 0;
    assert(name_set(out@) =~= Set::<Seq<char>>::empty());
    assert(nodes.subrange(0, 0) =~= Seq::<Node>::empty());
    while i < args.len()
        invariant
            i <= args.len(),
            nodes == args_view(args@),
            names_distinct(out@),
            name_set(out@) == all_deps(nodes.subrange(0, i as int)),
        decreases args.len() - i,
    {
        let d = args[i].deps();
        merge_names(&mut out, &d);
        proof {
            let pre = nodes.subrange(0, i + 1);
            assert(pre.subrange(0, pre.len() - 1) =~= nodes.subrange(0, i as int));
            assert(pre[pre.len() - 1] == args@[i as int]@);
        }
        i = i + 1;
    }
    assert(nodes.subrange(0, i as int) =~= nodes);
    out
}

impl Expr {
    /// The distinct names of the inputs that the expression queries.
    pub fn deps(&self) -> (r: Vec<String>)
        ensures
            names_distinct(r@),
            name_set(r@) == node_deps(self@),
        decreases self, 0nat,
    {
        match self {
            Expr::Static(_) => {
                let r: Vec<String> = Vec::new();
                assert(name_set(r@) =~= Set::<Seq<char>>::empty());
                r
            },
            Expr::Dynamic(f) => f.dependencies(),
        }
    }

    /// Evaluates the expression against the current slot values of `scope`.
    pub fn run(&self, scope: &ScopeData) -> (r: Result<StaticExpr, EvalError>)
        ensures
            match r {
                Ok(v) => evaluate(self@, scope.slots()) == Ok::<Literal, EvalError>(v@),
                Err(e) => evaluate(self@, scope.slots()) == Err::<Literal, EvalError>(e),
            },
        decreases self, 0nat,
    {
        match self {
            Expr::Static(s) => Ok(s.clone()),
            Expr::Dynamic(f) => match f.run(scope) {
                Ok(x) => Ok(StaticExpr::Number(x)),
                Err(e) => Err(e),
            },
        }
    }
}

} // verus!
