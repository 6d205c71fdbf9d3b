use scripting::function::{add, div, mul, query, sub};
use scripting::{
    CompileError, DecodeError, Document, EvalError, Expr, ExprData, FunctionBuilder, Registry,
    ScopeData, StaticExpr,
};

fn text(s: &str) -> Document {
    Document::Text(s.to_string())
}

fn num(n: i64) -> Document {
    Document::Number(n)
}

fn call(id: &str, args: Vec<Document>) -> Document {
    let mut items = vec![text(id)];
    items.extend(args);
    Document::Array(items)
}

fn registry() -> Registry<()> {
    let mut r = Registry::new();
    r.add_function("+", add());
    r.add_function("-", sub());
    r.add_function("*", mul());
    r.add_function("/", div());
    r.add_function("@", query());
    r
}

fn scope_of(doc: &Document) -> ScopeData {
    ExprData::decode(doc).unwrap().build(&registry()).unwrap()
}

fn eval(doc: &Document) -> Option<Result<StaticExpr, EvalError>> {
    scope_of(doc).run()
}

fn deps_of(doc: &Document) -> Vec<String> {
    let expr: Expr = ExprData::decode(doc).unwrap().build_expr(&registry()).unwrap();
    let mut names = expr.deps();
    names.sort();
    names
}

#[test]
fn literal_number_round_trip() {
    let data = ExprData::decode(&num(42)).unwrap();
    assert_eq!(data, ExprData::Static(StaticExpr::Number(42)));
    let empty: Registry<()> = Registry::new();
    let scope = data.build(&empty).unwrap();
    assert_eq!(scope.run(), Some(Ok(StaticExpr::Number(42))));
}

#[test]
fn literal_string_round_trip() {
    let data = ExprData::decode(&text("hello")).unwrap();
    assert_eq!(data, ExprData::Static(StaticExpr::String("hello".to_string())));
    let scope = data.build(&registry()).unwrap();
    assert_eq!(scope.run(), Some(Ok(StaticExpr::String("hello".to_string()))));
}

#[test]
fn arithmetic_example() {
    let mut r: Registry<()> = Registry::new();
    r.add_function("+", add());
    r.add_function("@", query());
    let doc = call("+", vec![call("@", vec![text("health")]), num(2)]);
    let data = ExprData::decode(&doc).unwrap();
    let expr = data.clone().build_expr(&r).unwrap();
    assert_eq!(expr.deps(), vec!["health".to_string()]);
    let mut scope = data.build(&r).unwrap();
    assert!(scope.has_dependency("health"));
    assert_eq!(scope.run(), None);
    scope.set_dependency("health", 3);
    assert_eq!(scope.run(), Some(Ok(StaticExpr::Number(5))));
}

#[test]
fn left_fold_example() {
    let mut r: Registry<()> = Registry::new();
    r.add_function("-", sub());
    let doc = call("-", vec![num(10), num(3), num(2)]);
    let scope = ExprData::decode(&doc).unwrap().build(&r).unwrap();
    assert_eq!(scope.run(), Some(Ok(StaticExpr::Number(5))));
}

#[test]
fn multiply_accumulator_starts_at_zero() {
    let mut r: Registry<()> = Registry::new();
    r.add_function("*", mul());
    let doc = call("*", vec![num(4), num(5)]);
    let scope = ExprData::decode(&doc).unwrap().build(&r).unwrap();
    assert_eq!(scope.run(), Some(Ok(StaticExpr::Number(0))));
}

#[test]
fn unknown_identifier_fails_to_compile() {
    let doc = call("unknown_fn", vec![num(1)]);
    let data = ExprData::decode(&doc).unwrap();
    assert!(matches!(
        data.clone().build_expr(&registry()),
        Err(CompileError::UnknownFunction(ref id)) if id == "unknown_fn"
    ));
    assert!(matches!(
        data.build(&registry()),
        Err(CompileError::UnknownFunction(ref id)) if id == "unknown_fn"
    ));
}

#[test]
fn unknown_identifier_in_argument() {
    let doc = call("+", vec![call("nope", vec![]), num(1)]);
    let data = ExprData::decode(&doc).unwrap();
    assert!(matches!(
        data.build_expr(&registry()),
        Err(CompileError::UnknownFunction(ref id)) if id == "nope"
    ));
}

#[test]
fn idempotent_compilation() {
    let doc = call("-", vec![call("@", vec![text("a")]), call("@", vec![text("b")])]);
    let data = ExprData::decode(&doc).unwrap();
    let mut first = data.clone().build(&registry()).unwrap();
    let mut second = data.build(&registry()).unwrap();
    assert_eq!(first.run(), second.run());
    first.set_dependency("a", 9);
    second.set_dependency("a", 9);
    assert_eq!(first.run(), None);
    assert_eq!(second.run(), None);
    first.set_dependency("b", 4);
    second.set_dependency("b", 4);
    assert_eq!(first.run(), Some(Ok(StaticExpr::Number(5))));
    assert_eq!(first.run(), second.run());
}

#[test]
fn dependency_set_is_distinct_selectors() {
    let doc = call(
        "+",
        vec![
            call("@", vec![text("a")]),
            call("*", vec![call("@", vec![text("b")]), text("c")]),
            call("@", vec![text("a")]),
        ],
    );
    assert_eq!(deps_of(&doc), vec!["a".to_string(), "b".to_string()]);
    assert_eq!(deps_of(&num(1)), Vec::<String>::new());
}

#[test]
fn gated_evaluation() {
    let doc = call("+", vec![call("@", vec![text("x")]), call("@", vec![text("y")])]);
    let mut scope = scope_of(&doc);
    assert_eq!(scope.run(), None);
    scope.set_dependency("x", 1);
    assert_eq!(scope.run(), None);
    scope.set_dependency("y", 2);
    assert_eq!(scope.run(), Some(Ok(StaticExpr::Number(3))));
    assert_eq!(scope.run(), Some(Ok(StaticExpr::Number(3))));
    scope.set_dependency("x", 10);
    assert_eq!(scope.run(), Some(Ok(StaticExpr::Number(12))));
}

#[test]
fn scope_slots_and_values() {
    let doc = call("@", vec![text("speed")]);
    let mut scope = scope_of(&doc);
    assert!(scope.has_dependency("speed"));
    assert!(!scope.has_dependency("other"));
    assert_eq!(scope.value_of("speed"), Some(None));
    assert_eq!(scope.value_of("other"), None);
    scope.set_dependency("speed", 7);
    assert_eq!(scope.value_of("speed"), Some(Some(7)));
    assert_eq!(scope.run(), Some(Ok(StaticExpr::Number(7))));
}

#[test]
fn decode_call_structure() {
    let doc = call("+", vec![num(1), text("a")]);
    let data = ExprData::decode(&doc).unwrap();
    match data {
        ExprData::Dynamic(f) => {
            assert_eq!(f.ident, "+");
            assert_eq!(
                f.args,
                vec![
                    ExprData::Static(StaticExpr::Number(1)),
                    ExprData::Static(StaticExpr::String("a".to_string()))
                ]
            );
        }
        _ => panic!("expected a call"),
    }
}

#[test]
fn decode_errors() {
    assert_eq!(
        ExprData::decode(&Document::Array(vec![])),
        Err(DecodeError::UnsupportedShape)
    );
    assert_eq!(
        ExprData::decode(&Document::Array(vec![num(1), num(2)])),
        Err(DecodeError::MissingIdentifier)
    );
    assert_eq!(
        ExprData::decode(&call("+", vec![num(1), Document::Null])),
        Err(DecodeError::InvalidArgument)
    );
    assert_eq!(
        ExprData::decode(&call("+", vec![Document::Array(vec![])])),
        Err(DecodeError::InvalidArgument)
    );
    assert_eq!(ExprData::decode(&Document::Null), Err(DecodeError::UnsupportedShape));
    assert_eq!(ExprData::decode(&Document::Bool(true)), Err(DecodeError::UnsupportedShape));
    assert_eq!(
        ExprData::decode(&Document::Object(vec![("id".to_string(), num(1))])),
        Err(DecodeError::UnsupportedShape)
    );
}

#[test]
fn query_needs_literal_string() {
    let r = registry();
    for doc in [
        call("@", vec![]),
        call("@", vec![num(1)]),
        call("@", vec![call("+", vec![num(1)])]),
    ] {
        let data = ExprData::decode(&doc).unwrap();
        assert!(matches!(data.build(&r), Err(CompileError::InvalidQuery)));
    }
}

#[test]
fn query_ignores_extra_arguments() {
    let doc = call("@", vec![text("a"), call("@", vec![text("b")])]);
    assert_eq!(deps_of(&doc), vec!["a".to_string()]);
}

#[test]
fn evaluation_errors() {
    assert_eq!(eval(&call("+", vec![num(1), text("x")])), Some(Err(EvalError::NotANumber)));
    assert_eq!(eval(&call("-", vec![text("x"), num(1)])), Some(Err(EvalError::NotANumber)));
    assert_eq!(eval(&call("-", vec![])), Some(Err(EvalError::MissingOperand)));
    assert_eq!(eval(&call("/", vec![])), Some(Err(EvalError::MissingOperand)));
    assert_eq!(eval(&call("/", vec![num(1), num(0)])), Some(Err(EvalError::DivisionByZero)));
    assert_eq!(
        eval(&call("+", vec![num(i64::MAX), num(1)])),
        Some(Err(EvalError::Overflow))
    );
    assert_eq!(
        eval(&call("/", vec![num(i64::MIN), num(-1)])),
        Some(Err(EvalError::Overflow))
    );
}

#[test]
fn missing_dependency_when_run_directly() {
    let doc = call("@", vec![text("hp")]);
    let scope = scope_of(&doc);
    let expr = ExprData::decode(&doc).unwrap().build_expr(&registry()).unwrap();
    assert_eq!(expr.run(&scope), Err(EvalError::MissingDependency));
}

#[test]
fn arithmetic_results() {
    assert_eq!(eval(&call("+", vec![])), Some(Ok(StaticExpr::Number(0))));
    assert_eq!(eval(&call("*", vec![])), Some(Ok(StaticExpr::Number(0))));
    assert_eq!(eval(&call("-", vec![num(4)])), Some(Ok(StaticExpr::Number(4))));
    assert_eq!(eval(&call("/", vec![num(7), num(2)])), Some(Ok(StaticExpr::Number(3))));
    assert_eq!(eval(&call("/", vec![num(-7), num(2)])), Some(Ok(StaticExpr::Number(-3))));
    assert_eq!(eval(&call("/", vec![num(100), num(5), num(2)])), Some(Ok(StaticExpr::Number(10))));
    assert_eq!(
        eval(&call("+", vec![num(1), call("-", vec![num(10), num(4)]), num(-3)])),
        Some(Ok(StaticExpr::Number(4)))
    );
}

#[test]
fn registry_last_registration_wins() {
    let mut r: Registry<u32> = Registry::new();
    assert_eq!(r.lookup_function("f"), None);
    r.add_function("f", add());
    r.add_function("f", sub());
    assert_eq!(r.lookup_function("f"), Some(FunctionBuilder::Sub));
    assert_eq!(r.lookup_dependency("d"), None);
    r.add_dependency("d", 1);
    r.add_dependency("d", 2);
    r.add_dependency("e", 3);
    assert_eq!(r.lookup_dependency("d"), Some(&2));
    assert_eq!(r.lookup_dependency("e"), Some(&3));
    let doc = call("f", vec![num(5), num(2)]);
    let scope = ExprData::decode(&doc).unwrap().build(&r).unwrap();
    assert_eq!(scope.run(), Some(Ok(StaticExpr::Number(3))));
}

#[test]
fn dependency_descriptors() {
    let mut r: Registry<u32> = Registry::new();
    r.add_function("@", query());
    r.add_function("+", add());
    r.add_dependency("a", 10);
    let doc = call("+", vec![call("@", vec![text("a")]), call("@", vec![text("b")])]);
    let scope = ExprData::decode(&doc).unwrap().build(&r).unwrap();
    assert_eq!(scope.dependency_descriptors(&r), Err("b".to_string()));
    r.add_dependency("b", 20);
    let mut found = scope.dependency_descriptors(&r).unwrap();
    found.sort();
    assert_eq!(found, vec![("a".to_string(), &10), ("b".to_string(), &20)]);
}
