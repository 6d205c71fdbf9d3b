use scripting::function::{add, query};
use scripting::{Document, ExprData, LoadScript, Registry, ScriptBundle, ScriptState};

#[test]
fn script_bundle_keeps_identifier() {
    assert_eq!(ScriptBundle::new("sword").0, "sword");
}

#[test]
fn load_script_keeps_path() {
    assert_eq!(LoadScript::new("sword.json").path(), "sword.json");
}

#[test]
fn script_state_transitions() {
    assert_eq!(ScriptState::Loading.after_spawn(true), (ScriptState::Ready, true));
    assert_eq!(ScriptState::Loading.after_spawn(false), (ScriptState::Loading, false));
    assert_eq!(ScriptState::Ready.after_spawn(true), (ScriptState::Ready, false));
    assert_eq!(ScriptState::Ready.after_spawn(false), (ScriptState::Ready, false));
}

#[test]
fn derived_value_updates() {
    let mut r: Registry<()> = Registry::new();
    r.add_function("+", add());
    r.add_function("@", query());
    let doc = Document::Array(vec![
        Document::Text("+".to_string()),
        Document::Array(vec![Document::Text("@".to_string()), Document::Text("base".to_string())]),
        Document::Number(1),
    ]);
    let mut scope = ExprData::decode(&doc).unwrap().build(&r).unwrap();
    assert_eq!(scope.value_update(None), None);
    scope.set_dependency("base", 4);
    assert_eq!(scope.value_update(None), Some(5));
    assert_eq!(scope.value_update(Some(2)), Some(5));
    assert_eq!(scope.value_update(Some(5)), None);
}

#[test]
fn text_result_is_no_update() {
    let r: Registry<()> = Registry::new();
    let scope = ExprData::decode(&Document::Text("x".to_string())).unwrap().build(&r).unwrap();
    assert_eq!(scope.value_update(None), None);
}
