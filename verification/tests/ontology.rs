use agpu::ontology::{ActionParam, ActionParamType, AgentAction};
use agpu::ontology::json::JsonType;

fn json(text: &str) -> serde_json::Value {
    serde_json::from_str(text).unwrap()
}

#[test]
fn simple_action_defaults() {
    let a = AgentAction::simple("click", "Click the button", true);
    assert_eq!(a.name, "click");
    assert!(a.mutates);
    assert!(!a.idempotent);
    assert!(a.params.is_empty());
    assert!(a.shortcut.is_none());
}

#[test]
fn simple_action_readonly_is_idempotent() {
    let a = AgentAction::simple("read", "Read value", false);
    assert!(!a.mutates);
    assert!(a.idempotent);
}

#[test]
fn validate_params_missing_required() {
    let action = AgentAction::with_params(
        "set_text",
        "Set text content",
        vec![ActionParam::required("text", "The text", ActionParamType::String)],
        true,
    );
    let result = action.validate_params(&json("{}"));
    assert!(result.is_err());
    assert!(result.unwrap_err().contains("Missing required"));
}

#[test]
fn validate_params_wrong_type() {
    let action = AgentAction::with_params(
        "set_value",
        "Set value",
        vec![ActionParam::required("count", "Count", ActionParamType::Integer)],
        true,
    );
    let result = action.validate_params(&json("{\"count\": \"not_a_number\"}"));
    assert!(result.is_err());
}

#[test]
fn validate_params_correct() {
    let action = AgentAction::with_params(
        "set_value",
        "Set value",
        vec![ActionParam::required("count", "Count", ActionParamType::Integer)],
        true,
    );
    assert!(action.validate_params(&json("{\"count\": 42}")).is_ok());
}

#[test]
fn validate_params_optional_missing_ok() {
    let action = AgentAction::with_params(
        "set",
        "Set",
        vec![ActionParam::optional("label", "Label", ActionParamType::String, json("\"default\""))],
        true,
    );
    assert!(action.validate_params(&json("{}")).is_ok());
}

#[test]
fn validate_boolean_type() {
    let action = AgentAction::with_params(
        "toggle",
        "Toggle",
        vec![ActionParam::required("state", "State", ActionParamType::Boolean)],
        true,
    );
    assert!(action.validate_params(&json("{\"state\": true}")).is_ok());
    assert!(action.validate_params(&json("{\"state\": \"yes\"}")).is_err());
}

#[test]
fn validate_enum_type() {
    let action = AgentAction::with_params(
        "set_mode",
        "Set mode",
        vec![ActionParam::required(
            "mode",
            "Mode",
            ActionParamType::Enum(vec!["light".into(), "dark".into()]),
        )],
        true,
    );
    assert!(action.validate_params(&json("{\"mode\": \"dark\"}")).is_ok());
    assert!(action.validate_params(&json("{\"mode\": \"blue\"}")).is_err());
}

#[test]
fn validate_any_type_accepts_anything() {
    let action = AgentAction::with_params(
        "exec",
        "Execute",
        vec![ActionParam::required("data", "Data", ActionParamType::Any)],
        true,
    );
    assert!(action.validate_params(&json("{\"data\": [1,2,3]}")).is_ok());
    assert!(action.validate_params(&json("{\"data\": \"text\"}")).is_ok());
    assert!(action.validate_params(&json("{\"data\": 42}")).is_ok());
}

#[test]
fn action_param_required_constructor() {
    let p = ActionParam::required("name", "The name", ActionParamType::String);
    assert!(p.required);
    assert!(p.default_value.is_none());
}

#[test]
fn action_param_optional_constructor() {
    let p = ActionParam::optional("name", "The name", ActionParamType::String, json("\"\""));
    assert!(!p.required);
    assert!(p.default_value.is_some());
}

#[test]
fn validation_error_messages() {
    let action = AgentAction::with_params(
        "set_mode",
        "Set mode",
        vec![
            ActionParam::required("mode", "Mode", ActionParamType::Enum(vec!["light".into(), "dark".into()])),
            ActionParam::required("count", "Count", ActionParamType::Index),
        ],
        true,
    );
    assert_eq!(
        action.validate_params(&json("{\"mode\": \"blue\", \"count\": 1}")).unwrap_err(),
        "Parameter 'mode': expected one of [\"light\", \"dark\"], got \"blue\""
    );
    assert_eq!(
        action.validate_params(&json("{\"mode\": 3}")).unwrap_err(),
        "Parameter 'mode': expected string enum, got number"
    );
    assert_eq!(
        action.validate_params(&json("{\"mode\": \"dark\", \"count\": -1}")).unwrap_err(),
        "Parameter 'count': expected index (uint), got number"
    );
    assert_eq!(
        action.validate_params(&json("{\"mode\": null}")).unwrap_err(),
        "Missing required parameter 'mode'"
    );
    assert_eq!(
        action.validate_params(&json("[1]")).unwrap_err(),
        "Missing required parameter 'mode'"
    );
    assert!(action.validate_params(&json("{\"mode\": \"light\", \"count\": 0}")).is_ok());
}

#[test]
fn check_each_parameter_type() {
    let v = |t: &str| json(t);
    assert!(ActionParamType::String.check(&v("\"x\"")).is_ok());
    assert_eq!(ActionParamType::String.check(&v("1")).unwrap_err(), "expected string, got number");
    assert_eq!(ActionParamType::Integer.check(&v("1.5")).unwrap_err(), "expected integer, got number");
    assert!(ActionParamType::Integer.check(&v("-3")).is_ok());
    assert!(ActionParamType::Float.check(&v("1.5")).is_ok());
    assert_eq!(ActionParamType::Float.check(&v("true")).unwrap_err(), "expected number, got boolean");
    assert_eq!(ActionParamType::Boolean.check(&v("[]")).unwrap_err(), "expected boolean, got array");
    assert!(ActionParamType::Position { x: true, y: true }.check(&v("{}")).is_ok());
    assert_eq!(
        ActionParamType::Size { width: true, height: false }.check(&v("null")).unwrap_err(),
        "expected object, got null"
    );
    assert!(ActionParamType::Color.check(&v("\"#fff\"")).is_ok());
    assert_eq!(
        ActionParamType::Color.check(&v("7")).unwrap_err(),
        "expected color string or object, got number"
    );
    assert!(ActionParamType::Any.check(&v("null")).is_ok());
}

#[test]
fn check_with_given_observations() {
    let ty = ActionParamType::Enum(vec!["a\"b".into()]);
    assert!(ty.check_with(JsonType::Str, false, false, Some("a\"b")).is_ok());
    assert_eq!(
        ty.check_with(JsonType::Str, false, false, Some("c")).unwrap_err(),
        "expected one of [\"a\\\"b\"], got \"c\""
    );
    assert_eq!(
        ActionParamType::Integer.check_with(JsonType::Number, false, true, None),
        Ok(())
    );
    assert_eq!(
        ActionParamType::Index.check_with(JsonType::Number, true, false, None).unwrap_err(),
        "expected index (uint), got number"
    );
}
