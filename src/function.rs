//! The built-in functions and the builders that make them from compiled arguments.
use vstd::prelude::*;
use crate::compile::{CompileError, CompileFailure};
use crate::entries::{name_set, names_distinct};
use crate::expr::{
    all_deps, args_view, deps_of_args, node_deps, evaluate, expr_node, fold_args, number_outcome, EvalError, Expr, Node, Operator,
};
use crate::scope::ScopeData;
use crate::value::StaticExpr;

verus! {

/// Sums its operands.
pub struct AddFunction {
    pub args: Vec<Expr>,
}

/// Subtracts each later operand from the first.
pub struct SubFunction {
    pub args: Vec<Expr>,
}

/// Multiplies its operands into an accumulator that starts at zero, so that
/// its value is zero whenever it has one.
pub struct MulFunction {
    pub args: Vec<Expr>,
}

/// Divides the first operand by each later one.
pub struct DivFunction {
    pub args: Vec<Expr>,
}

/// Reads the current value of one named external input.
pub struct QueryFunction {
    pub dependency: String,
}

/// A built-in function together with its compiled arguments.
pub enum Function {
    Add(AddFunction),
    Sub(SubFunction),
    Mul(MulFunction),
    Div(DivFunction),
    Query(QueryFunction),
}

impl View for Function {
    type V = Node;

    open spec fn view(&self) -> Node {
        expr_node(Expr::Dynamic(*self))
    }
}

impl AddFunction {
    /// The distinct names of the inputs that the operands query.
    pub fn dependencies(&self) -> (r: Vec<String>)
        ensures
            names_distinct(r@),
            name_set(r@) == all_deps(args_view(self.args@)),
        decreases self, 0nat,
    {
        deps_of_args(&self.args)
    }

    /// The sum of the operands.
    pub fn run(&self, scope: &ScopeData) -> (r: Result<i64, EvalError>)
        ensures
            number_outcome(r) == evaluate(Node::Apply(Operator::Add, args_view(self.args@)), scope.slots()),
        decreases self, 0nat,
    {
        let r = fold_args(Operator::Add, &self.args, 0, 0, scope);
        assert(args_view(self.args@).subrange(0, self.args@.len() as int) =~= args_view(self.args@));
        r
    }
}

impl MulFunction {
    /// The distinct names of the inputs that the operands query.
    pub fn dependencies(&self) -> (r: Vec<String>)
        ensures
            names_distinct(r@),
            name_set(r@) == all_deps(args_view(self.args@)),
        decreases self, 0nat,
    {
        deps_of_args(&self.args)
    }

    /// The product of the operands with an accumulator that starts at zero.
    pub fn run(&self, scope: &ScopeData) -> (r: Result<i64, EvalError>)
        ensures
            number_outcome(r) == evaluate(Node::Apply(Operator::Mul, args_view(self.args@)), scope.slots()),
        decreases self, 0nat,
    {
        let r = fold_args(Operator::Mul, &self.args, 0, 0, scope);
        assert(args_view(self.args@).subrange(0, self.args@.len() as int) =~= args_view(self.args@));
        r
    }
}

/// Folds `op` over `args`, starting from the first of them.
fn fold_from_first(op: Operator, args: &Vec<Expr>, scope: &ScopeData) -> (r: Result<i64, EvalError>)
    requires
        op == Operator::Sub || op == Operator::Div,
    ensures
        number_outcome(r) == evaluate(Node::Apply(op, args_view(args@)), scope.slots()),
    decreases args, 1nat,
{
    if args.len() == 0 {
        return Err(EvalError::MissingOperand);
    }
    assert(args_view(args@)[0] == args@[0]@);
    match args[0].run(scope) {
        Ok(StaticExpr::Number(x)) => fold_args(op, args, 1, x, scope),
        Ok(StaticExpr::String(_)) => Err(EvalError::NotANumber),
        Err(e) => Err(e),
    }
}

impl SubFunction {
    /// The distinct names of the inputs that the operands query.
    pub fn dependencies(&self) -> (r: Vec<String>)
        ensures
            names_distinct(r@),
            name_set(r@) == all_deps(args_view(self.args@)),
        decreases self, 0nat,
    {
        deps_of_args(&self.args)
    }

    /// The first operand minus each later one, from left to right.
    pub fn run(&self, scope: &ScopeData) -> (r: Result<i64, EvalError>)
        ensures
            number_outcome(r) == evaluate(Node::Apply(Operator::Sub, args_view(self.args@)), scope.slots()),
        decreases self, 0nat,
    {
        fold_from_first(Operator::Sub, &self.args, scope)
    }
}

impl DivFunction {
    /// The distinct names of the inputs that the operands query.
    pub fn dependencies(&self) -> (r: Vec<String>)
        ensures
            names_distinct(r@),
            name_set(r@) == all_deps(args_view(self.args@)),
        decreases self, 0nat,
    {
        deps_of_args(&self.args)
    }

    /// The first operand divided by each later one, from left to right.
    pub fn run(&self, scope: &ScopeData) -> (r: Result<i64, EvalError>)
        ensures
            number_outcome(r) == evaluate(Node::Apply(Operator::Div, args_view(self.args@)), scope.slots()),
        decreases self, 0nat,
    {
        fold_from_first(Operator::Div, &self.args, scope)
    }
}

impl QueryFunction {
    /// The queried input's name.
    pub fn dependencies(&self) -> (r: Vec<String>)
        ensures
            names_distinct(r@),
            name_set(r@) == set![self.dependency@],
    {
        let r = vec![self.dependency.clone()];
        assert(name_set(r@) =~= set![self.dependency@]) by {
            assert(r@[0]@ == self.dependency@);
        }
        r
    }

    /// The current value of the queried input.
    pub fn run(&self, scope: &ScopeData) -> (r: Result<i64, EvalError>)
        ensures
            number_outcome(r) == evaluate(Node::Query(self.dependency@), scope.slots()),
    {
        match scope.value_of(self.dependency.as_str()) {
            Some(Some(v)) => Ok(v),
            _ => Err(EvalError::MissingDependency),
        }
    }
}

impl Function {
    /// The distinct names of the inputs that the function queries.
    pub fn dependencies(&self) -> (r: Vec<String>)
        ensures
            names_distinct(r@),
            name_set(r@) == node_deps(self@),
        decreases self, 0nat,
    {
        match self {
            Function::Add(a) => a.dependencies(),
            Function::Sub(a) => a.dependencies(),
            Function::Mul(a) => a.dependencies(),
            Function::Div(a) => a.dependencies(),
            Function::Query(q) => q.dependencies(),
        }
    }

    /// Runs the function on the current slot values of `scope`.
    pub fn run(&self, scope: &ScopeData) -> (r: Result<i64, EvalError>)
        ensures
            number_outcome(r) == evaluate(self@, scope.slots()),
        decreases self, 0nat,
    {
        match self {
            Function::Add(a) => a.run(scope),
            Function::Sub(a) => a.run(scope),
            Function::Mul(a) => a.run(scope),
            Function::Div(a) => a.run(scope),
            Function::Query(q) => q.run(scope),
        }
    }
}

/// The kinds of function that an identifier can be registered as.
#[derive(Clone, Copy, Debug, PartialEq, Eq, Structural)]
pub enum FunctionBuilder {
    Add,
    Sub,
    Mul,
    Div,
    Query,
}

/// The builder of the sum.
pub fn add() -> (r: FunctionBuilder)
    ensures
        r == FunctionBuilder::Add,
{
    FunctionBuilder::Add
}

/// The builder of the left-to-right difference.
pub fn sub() -> (r: FunctionBuilder)
    ensures
        r == FunctionBuilder::Sub,
{
    FunctionBuilder::Sub
}

/// The builder of the product, whose accumulator starts at zero.
pub fn mul() -> (r: FunctionBuilder)
    ensures
        r == FunctionBuilder::Mul,
{
    FunctionBuilder::Mul
}

/// The builder of the left-to-right quotient.
pub fn div() -> (r: FunctionBuilder)
    ensures
        r == FunctionBuilder::Div,
{
    FunctionBuilder::Div
}

/// The builder of the input query.
pub fn query() -> (r: FunctionBuilder)
    ensures
        r == FunctionBuilder::Query,
{
    FunctionBuilder::Query
}

/// What a builder makes of compiled arguments. A query takes the name of its
/// input from its first argument, which must be a literal string; it ignores
/// any further argument.
pub open spec fn build_node(b: FunctionBuilder, args: Seq<Node>) -> Result<Node, CompileFailure> {
    match b {
        FunctionBuilder::Add => Ok(Node::Apply(Operator::Add, args)),
        FunctionBuilder::Sub => Ok(Node::Apply(Operator::Sub, args)),
        FunctionBuilder::Mul => Ok(Node::Apply(Operator::Mul, args)),
        FunctionBuilder::Div => Ok(Node::Apply(Operator::Div, args)),
        FunctionBuilder::Query => if args.len() > 0 && args[0] is Literal && args[0]->Literal_0 is Text {
            Ok(Node::Query(args[0]->Literal_0->Text_0))
        } else {
            Err(CompileFailure::InvalidQuery)
        },
    }
}

/// Builds sums.
pub struct AddFunctionBuilder;

impl AddFunctionBuilder {
    pub fn build(&self, args: Vec<Expr>) -> (r: AddFunction)
        ensures
            r.args@ == args@,
    {
        AddFunction { args }
    }
}

/// Builds input queries.
pub struct QueryFunctionBuilder;

impl QueryFunctionBuilder {
    pub fn build(&self, args: Vec<Expr>) -> (r: Result<QueryFunction, CompileError>)
        ensures
            match r {
                Ok(q) => build_node(FunctionBuilder::Query, args_view(args@)) == Ok::<Node, CompileFailure>(Node::Query(q.dependency@)),
                Err(e) => build_node(FunctionBuilder::Query, args_view(args@)) == Err::<Node, CompileFailure>(e@),
            },
    {
        if args.len() > 0 {
            assert(args_view(args@)[0] == args@[0]@);
            if let Expr::Static(StaticExpr::String(s)) = &args[0] {
                return Ok(QueryFunction { dependency: s.clone() });
            }
        }
        Err(CompileError::InvalidQuery)
    }
}

impl FunctionBuilder {
    /// Makes the function from its compiled arguments.
    pub fn build(&self, args: Vec<Expr>) -> (r: Result<Function, CompileError>)
        ensures
            match r {
                Ok(f) => build_node(*self, args_view(args@)) == Ok::<Node, CompileFailure>(f@),
                Err(e) => build_node(*self, args_view(args@)) == Err::<Node, CompileFailure>(e@),
            },
    {
        match self {
            FunctionBuilder::Add => Ok(Function::Add(AddFunctionBuilder.build(args))),
            FunctionBuilder::Sub => Ok(Function::Sub(SubFunction { args })),
            FunctionBuilder::Mul => Ok(Function::Mul(MulFunction { args })),
            FunctionBuilder::Div => Ok(Function::Div(DivFunction { args })),
            FunctionBuilder::Query => match QueryFunctionBuilder.build(args) {
                Ok(q) => Ok(Function::Query(q)),
                Err(e) => Err(e),
            },
        }
    }
}

} // verus!
