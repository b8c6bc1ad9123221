//! Agent actions, their parameters, and validation of the JSON
//! parameters that an agent passes.

use vstd::prelude::*;
use crate::ontology::json::{
    debug_quoted, debug_text, json_as_str, json_get, json_get_field, json_is_i64, json_is_i64_value,
    json_is_u64, json_is_u64_value, json_str, json_type, json_type_of, JsonType,
};

verus! {

broadcast use vstd::string::group_string_axioms;

/// An action that an agent can invoke on a widget.
#[derive(Debug, Clone)]
pub struct AgentAction {
    /// Unique action name (e.g., "click", "set_text", "scroll_to").
    pub name: String,
    /// Human-readable description of what this action does.
    pub description: String,
    /// Parameters this action accepts.
    pub params: Vec<ActionParam>,
    /// Description of the return value.
    pub returns: Option<String>,
    /// Whether this action mutates the widget state.
    pub mutates: bool,
    /// Whether this action is idempotent (safe to retry).
    pub idempotent: bool,
    /// Keyboard shortcut, if any (e.g., "Ctrl+S").
    pub shortcut: Option<String>,
}

/// A parameter for an agent action.
#[derive(Debug, Clone)]
pub struct ActionParam {
    /// Parameter name.
    pub name: String,
    /// Human-readable description.
    pub description: String,
    /// The type of this parameter.
    pub param_type: ActionParamType,
    /// Whether this parameter is required.
    pub required: bool,
    /// Default value as JSON, if optional.
    pub default_value: Option<serde_json::Value>,
}

/// Type of an action parameter.
#[derive(Debug, Clone, PartialEq, Eq)]
pub enum ActionParamType {
    String,
    Integer,
    Float,
    Boolean,
    Index,
    Position { x: bool, y: bool },
    Size { width: bool, height: bool },
    Color,
    Enum(Vec<String>),
    Any,
}

// ── Specification of parameter checking ──────────────────────────────

/// The name of a JSON variant as it appears in error messages.
pub open spec fn json_kind_name(t: JsonType) -> Seq<char> {
    match t {
        JsonType::Null => "null"@,
        JsonType::Bool => "boolean"@,
        JsonType::Number => "number"@,
        JsonType::Str => "string"@,
        JsonType::Array => "array"@,
        JsonType::Object => "object"@,
    }
}

/// The items of a list of strings as `{:?}` shows them, separated by ", ".
pub open spec fn debug_items(vs: Seq<String>) -> Seq<char>
    decreases vs.len(),
{
    if vs.len() == 0 {
        Seq::empty()
    } else if vs.len() == 1 {
        debug_quoted(vs[0]@)
    } else {
        debug_items(vs.drop_last()) + ", "@ + debug_quoted(vs.last()@)
    }
}

/// A list of strings as `{:?}` shows it.
pub open spec fn debug_list(vs: Seq<String>) -> Seq<char> {
    "["@ + debug_items(vs) + "]"@
}

/// "expected <what>, got <variant name>".
pub open spec fn expected_got(what: Seq<char>, t: JsonType) -> Seq<char> {
    "expected "@ + what + ", got "@ + json_kind_name(t)
}

/// The outcome of checking a value against a parameter type, given the
/// value's variant, whether it is an `i64` / a `u64` integer, and its
/// text when it is a string.
pub open spec fn check_outcome(
    ty: ActionParamType,
    t: JsonType,
    is_i64: bool,
    is_u64: bool,
    text: Option<Seq<char>>,
) -> Result<(), Seq<char>> {
    match ty {
        ActionParamType::String => if t == JsonType::Str {
            Ok(())
        } else {
            Err(expected_got("string"@, t))
        },
        ActionParamType::Integer => if is_i64 || is_u64 {
            Ok(())
        } else {
            Err(expected_got("integer"@, t))
        },
        ActionParamType::Float => if t == JsonType::Number {
            Ok(())
        } else {
            Err(expected_got("number"@, t))
        },
        ActionParamType::Boolean => if t == JsonType::Bool {
            Ok(())
        } else {
            Err(expected_got("boolean"@, t))
        },
        ActionParamType::Index => if is_u64 {
            Ok(())
        } else {
            Err(expected_got("index (uint)"@, t))
        },
        ActionParamType::Position { .. } | ActionParamType::Size { .. } => if t
            == JsonType::Object {
            Ok(())
        } else {
            Err(expected_got("object"@, t))
        },
        ActionParamType::Color => if t == JsonType::Str || t == JsonType::Object {
            Ok(())
        } else {
            Err(expected_got("color string or object"@, t))
        },
        ActionParamType::Enum(variants) => match text {
            Some(s) => if exists|i: int| 0 <= i < variants@.len() && (#[trigger] variants@[i])@ == s {
                Ok(())
            } else {
                Err("expected one of "@ + debug_list(variants@) + ", got "@ + debug_quoted(s))
            },
            None => Err(expected_got("string enum"@, t)),
        },
        ActionParamType::Any => Ok(()),
    }
}

/// The outcome of checking the JSON value `v` against a parameter type.
pub open spec fn check_value(ty: ActionParamType, v: serde_json::Value) -> Result<(), Seq<char>> {
    check_outcome(
        ty,
        json_type_of(v),
        json_is_i64(v),
        json_is_u64(v),
        if json_type_of(v) == JsonType::Str {
            Some(json_str(v))
        } else {
            None
        },
    )
}

/// The outcome for one declared parameter when it is absent (or null).
pub open spec fn missing_outcome(p: ActionParam) -> Result<(), Seq<char>> {
    if p.required {
        Err("Missing required parameter '"@ + p.name@ + "'"@)
    } else {
        Ok(())
    }
}

/// The outcome for one declared parameter against the params object `v`.
pub open spec fn param_outcome(p: ActionParam, v: serde_json::Value) -> Result<(), Seq<char>> {
    match json_get(v, p.name@) {
        None => missing_outcome(p),
        Some(x) => if json_type_of(x) == JsonType::Null {
            missing_outcome(p)
        } else {
            match check_value(p.param_type, x) {
                Ok(()) => Ok(()),
                Err(e) => Err("Parameter '"@ + p.name@ + "': "@ + e),
            }
        },
    }
}

/// Validation of the first `n` declared parameters, in order: the first
/// failing parameter decides the error.
pub open spec fn validate_prefix(ps: Seq<ActionParam>, v: serde_json::Value, n: nat) -> Result<
    (),
    Seq<char>,
>
    decreases n,
{
    if n == 0 {
        Ok(())
    } else {
        match validate_prefix(ps, v, (n - 1) as nat) {
            Err(e) => Err(e),
            Ok(()) => param_outcome(ps[n - 1], v),
        }
    }
}

/// The view of a result whose error is a string.
pub open spec fn result_view(r: Result<(), String>) -> Result<(), Seq<char>> {
    match r {
        Ok(()) => Ok(()),
        Err(e) => Err(e@),
    }
}

// ── Implementation ───────────────────────────────────────────────────

/// The name of a JSON variant as it appears in error messages.
fn json_kind_name_str(t: JsonType) -> (r: &'static str)
    ensures
        r@ == json_kind_name(t),
{
    match t {
        JsonType::Null => "null",
        JsonType::Bool => "boolean",
        JsonType::Number => "number",
        JsonType::Str => "string",
        JsonType::Array => "array",
        JsonType::Object => "object",
    }
}

/// The name of the variant of `v`, as it appears in error messages.
fn json_type_name(v: &serde_json::Value) -> (r: &'static str)
    ensures
        r@ == json_kind_name(json_type_of(*v)),
{
    json_kind_name_str(json_type(v))
}

fn expected_error(what: &str, t: JsonType) -> (r: String)
    ensures
        r@ == expected_got(what@, t),
{
    let mut s = "expected ".to_owned();
    s.push_str(what);
    s.push_str(", got ");
    s.push_str(json_kind_name_str(t));
    assert(s@ =~= expected_got(what@, t));
    s
}

fn debug_list_text(vs: &Vec<String>) -> (r: String)
    ensures
        r@ == debug_list(vs@),
{
    let mut s = "[".to_owned();
    let mut i: usize = 0;
    while i < vs.len()
        invariant
            i <= vs@.len(),
            s@ == "["@ + debug_items(vs@.take(i as int)),
        decreases vs.len() - i,
    {
        let ghost before = s@;
        if i > 0 {
            s.push_str(", ");
        }
        let item = debug_text(vs[i].as_str());
        s.push_str(item.as_str());
        proof {
            let t = vs@.take(i + 1);
            assert(t.drop_last() =~= vs@.take(i as int));
            if i == 0 {
                assert(debug_items(vs@.take(0)) =~= Seq::<char>::empty());
                assert(s@ =~= "["@ + debug_items(t));
            } else {
                assert(s@ =~= "["@ + debug_items(t));
            }
        }
        i = i + 1;
    }
    s.push_str("]");
    proof {
        assert(vs@.take(vs@.len() as int) =~= vs@);
    }
    s
}

impl ActionParamType {
    /// Checks a value, given its variant, whether it is an `i64` / `u64`
    /// integer, and its text when it is a string.
    pub fn check_with(&self, t: JsonType, is_i64: bool, is_u64: bool, text: Option<&str>) -> (r:
        Result<(), String>)
        ensures
            result_view(r) == check_outcome(
                *self,
                t,
                is_i64,
                is_u64,
                match text {
                    Some(s) => Some(s@),
                    None => None,
                },
            ),
    {
        match self {
            ActionParamType::String => if t == JsonType::Str {
                Ok(())
            } else {
                Err(expected_error("string", t))
            },
            ActionParamType::Integer => if is_i64 || is_u64 {
                Ok(())
            } else {
                Err(expected_error("integer", t))
            },
            ActionParamType::Float => if t == JsonType::Number {
                Ok(())
            } else {
                Err(expected_error("number", t))
            },
            ActionParamType::Boolean => if t == JsonType::Bool {
                Ok(())
            } else {
                Err(expected_error("boolean", t))
            },
            ActionParamType::Index => if is_u64 {
                Ok(())
            } else {
                Err(expected_error("index (uint)", t))
            },
            ActionParamType::Position { .. } | ActionParamType::Size { .. } => if t
                == JsonType::Object {
                Ok(())
            } else {
                Err(expected_error("object", t))
            },
            ActionParamType::Color => if t == JsonType::Str || t == JsonType::Object {
                Ok(())
            } else {
                Err(expected_error("color string or object", t))
            },
            ActionParamType::Enum(variants) => match text {
                Some(s) => {
                    let given = s.to_owned();
                    let mut i: usize = 0;
                    while i < variants.len()
                        invariant
                            i <= variants@.len(),
                            given@ == s@,
                            *self == ActionParamType::Enum(*variants),
                            text == Some(s),
                            forall|j: int| 0 <= j < i ==> variants@[j]@ != s@,
                        decreases variants.len() - i,
                    {
                        if variants[i] == given {
                            assert(variants@[i as int]@ == s@);
                            return Ok(());
                        }
                        i = i + 1;
                    }
                    let mut e = "expected one of ".to_owned();
                    let list = debug_list_text(variants);
                    e.push_str(list.as_str());
                    e.push_str(", got ");
                    let shown = debug_text(s);
                    e.push_str(shown.as_str());
                    Err(e)
                },
                None => Err(expected_error("string enum", t)),
            },
            ActionParamType::Any => Ok(()),
        }
    }

    /// Checks a JSON value against this parameter type.
    pub fn check(&self, value: &serde_json::Value) -> (r: Result<(), String>)
        ensures
            result_view(r) == check_value(*self, *value),
    {
        let t = json_type(value);
        let is_i64 = json_is_i64_value(value);
        let is_u64 = json_is_u64_value(value);
        let text = json_as_str(value);
        self.check_with(t, is_i64, is_u64, text)
    }
}

impl AgentAction {
    /// An action with no parameters; it is idempotent exactly when it does not mutate.
    pub fn simple(name: &str, description: &str, mutates: bool) -> (r: Self)
        ensures
            r.name@ == name@,
            r.description@ == description@,
            r.params@.len() == 0,
            r.returns is None,
            r.mutates == mutates,
            r.idempotent == !mutates,
            r.shortcut is None,
    {
        AgentAction {
            name: name.to_owned(),
            description: description.to_owned(),
            params: Vec::new(),
            returns: None,
            mutates,
            idempotent: !mutates,
            shortcut: None,
        }
    }

    /// An action with the given parameters; it is idempotent exactly when
    /// it does not mutate.
    pub fn with_params(name: &str, description: &str, params: Vec<ActionParam>, mutates: bool) -> (r:
        Self)
        ensures
            r.name@ == name@,
            r.description@ == description@,
            r.params@ == params@,
            r.returns is None,
            r.mutates == mutates,
            r.idempotent == !mutates,
            r.shortcut is None,
    {
        AgentAction {
            name: name.to_owned(),
            description: description.to_owned(),
            params,
            returns: None,
            mutates,
            idempotent: !mutates,
            shortcut: None,
        }
    }

    /// Validate a JSON params object against this action's declared parameters.
    pub fn validate_params(&self, params: &serde_json::Value) -> (r: Result<(), String>)
        ensures
            result_view(r) == validate_prefix(self.params@, *params, self.params@.len()),
    {
        let n = self.params.len();
        let mut i: usize = 0;
        while i < n
            invariant
                n == self.params@.len(),
                i <= n,
                validate_prefix(self.params@, *params, i as nat) == Ok::<(), Seq<char>>(()),
            decreases n - i,
        {
            let param = &self.params[i];
            let missing = match json_get_field(params, param.name.as_str()) {
                None => true,
                Some(v) => {
                    if json_type(v) == JsonType::Null {
                        true
                    } else {
                        match param.param_type.check(v) {
                            Ok(()) => false,
                            Err(e) => {
                                let mut msg = "Parameter '".to_owned();
                                msg.push_str(param.name.as_str());
                                msg.push_str("': ");
                                msg.push_str(e.as_str());
                                proof {
                                    lemma_validate_error_persists(
                                        self.params@,
                                        *params,
                                        (i + 1) as nat,
                                        n as nat,
                                    );
                                }
                                return Err(msg);
                            },
                        }
                    }
                },
            };
            if missing && param.required {
                let mut msg = "Missing required parameter '".to_owned();
                msg.push_str(param.name.as_str());
                msg.push_str("'");
                proof {
                    lemma_validate_error_persists(self.params@, *params, (i + 1) as nat, n as nat);
                }
                return Err(msg);
            }
            i = i + 1;
        }
        Ok(())
    }
}

proof fn lemma_validate_error_persists(ps: Seq<ActionParam>, v: serde_json::Value, k: nat, m: nat)
    requires
        k <= m,
        validate_prefix(ps, v, k) is Err,
    ensures
        validate_prefix(ps, v, m) == validate_prefix(ps, v, k),
    decreases m - k,
{
    if k < m {
        lemma_validate_error_persists(ps, v, k, (m - 1) as nat);
    }
}

impl ActionParam {
    /// A required parameter.
    pub fn required(name: &str, description: &str, param_type: ActionParamType) -> (r: Self)
        ensures
            r.name@ == name@,
            r.description@ == description@,
            r.param_type == param_type,
            r.required,
            r.default_value is None,
    {
        ActionParam {
            name: name.to_owned(),
            description: description.to_owned(),
            param_type,
            required: true,
            default_value: None,
        }
    }

    /// An optional parameter with a default value.
    pub fn optional(
        name: &str,
        description: &str,
        param_type: ActionParamType,
        default: serde_json::Value,
    ) -> (r: Self)
        ensures
            r.name@ == name@,
            r.description@ == description@,
            r.param_type == param_type,
            !r.required,
            r.default_value == Some(default),
    {
        ActionParam {
            name: name.to_owned(),
            description: description.to_owned(),
            param_type,
            required: false,
            default_value: Some(default),
        }
    }
}

/// Which values each parameter type accepts, for every value: a string
/// parameter takes exactly the strings; an integer one the numbers that
/// are `i64` or `u64` integers; a float one every number; a boolean one
/// the booleans; an index the `u64` integers; a position or size every
/// object; a colour every string and every object; an enum the strings
/// that equal one of its variants; `Any` everything. Every other value is
/// refused with "expected ..., got <kind>" (for an enum given a string,
/// "expected one of [...], got \"...\"").
pub proof fn lemma_check_accepts(
    ty: ActionParamType,
    t: JsonType,
    is_i64: bool,
    is_u64: bool,
    text: Option<Seq<char>>,
)
    ensures
        ({
            let r = check_outcome(ty, t, is_i64, is_u64, text);
            &&& ty == ActionParamType::String ==> (r is Ok <==> t == JsonType::Str)
            &&& ty == ActionParamType::Integer ==> (r is Ok <==> (is_i64 || is_u64))
            &&& ty == ActionParamType::Float ==> (r is Ok <==> t == JsonType::Number)
            &&& ty == ActionParamType::Boolean ==> (r is Ok <==> t == JsonType::Bool)
            &&& ty == ActionParamType::Index ==> (r is Ok <==> is_u64)
            &&& (ty is Position || ty is Size) ==> (r is Ok <==> t == JsonType::Object)
            &&& ty == ActionParamType::Color ==> (r is Ok <==> (t == JsonType::Str || t
                == JsonType::Object))
            &&& ty == ActionParamType::Color ==> (r is Err ==> r == Err::<(), Seq<char>>(
                "expected color string or object, got "@ + json_kind_name(t),
            ))
            &&& ty == ActionParamType::Any ==> r is Ok
            &&& ty matches ActionParamType::Enum(vs) ==> (r is Ok <==> (text matches Some(s)
                && exists|i: int| 0 <= i < vs@.len() && (#[trigger] vs@[i])@ == s))
        }),
{
    reveal_strlit("expected ");
    reveal_strlit("color string or object");
    reveal_strlit(", got ");
    reveal_strlit("expected color string or object, got ");
    assert("expected "@ + "color string or object"@ + ", got "@ =~= "expected color string or object, got "@);
}

/// The same, for a JSON value as `check` reads it: a colour parameter
/// accepts exactly the strings and the objects, a string parameter
/// exactly the strings, an enum exactly the strings naming a variant.
pub proof fn lemma_check_value_accepts(ty: ActionParamType, v: serde_json::Value)
    ensures
        ty == ActionParamType::Color ==> (check_value(ty, v) is Ok <==> (json_type_of(v)
            == JsonType::Str || json_type_of(v) == JsonType::Object)),
        ty == ActionParamType::String ==> (check_value(ty, v) is Ok <==> json_type_of(v)
            == JsonType::Str),
        ty == ActionParamType::Float ==> (check_value(ty, v) is Ok <==> json_type_of(v)
            == JsonType::Number),
        ty == ActionParamType::Boolean ==> (check_value(ty, v) is Ok <==> json_type_of(v)
            == JsonType::Bool),
        ty == ActionParamType::Integer ==> (check_value(ty, v) is Ok <==> (json_is_i64(v)
            || json_is_u64(v))),
        ty == ActionParamType::Index ==> (check_value(ty, v) is Ok <==> json_is_u64(v)),
        (ty is Position || ty is Size) ==> (check_value(ty, v) is Ok <==> json_type_of(v)
            == JsonType::Object),
        ty == ActionParamType::Any ==> check_value(ty, v) is Ok,
        ty matches ActionParamType::Enum(vs) ==> (check_value(ty, v) is Ok <==> (json_type_of(v)
            == JsonType::Str && exists|i: int| 0 <= i < vs@.len() && (#[trigger] vs@[i])@
            == json_str(v))),
{
    lemma_check_accepts(
        ty,
        json_type_of(v),
        json_is_i64(v),
        json_is_u64(v),
        if json_type_of(v) == JsonType::Str {
            Some(json_str(v))
        } else {
            None
        },
    );
}

/// Validation goes through the declared parameters in order: it succeeds
/// exactly when every parameter passes, and otherwise fails with the
/// error of the first parameter that does not.
pub proof fn lemma_validate_first_failure(ps: Seq<ActionParam>, v: serde_json::Value, n: nat)
    requires
        n <= ps.len(),
    ensures
        validate_prefix(ps, v, n) is Ok <==> forall|i: int|
            0 <= i < n ==> (#[trigger] param_outcome(ps[i], v)) is Ok,
        validate_prefix(ps, v, n) is Err ==> exists|k: int|
            0 <= k < n && (forall|j: int| 0 <= j < k ==> (#[trigger] param_outcome(ps[j], v)) is Ok)
                && validate_prefix(ps, v, n) == #[trigger] param_outcome(ps[k], v),
    decreases n,
{
    if n > 0 {
        lemma_validate_first_failure(ps, v, (n - 1) as nat);
        if validate_prefix(ps, v, (n - 1) as nat) is Ok {
            if param_outcome(ps[n - 1], v) is Err {
                assert(forall|j: int| 0 <= j < n - 1 ==> (#[trigger] param_outcome(ps[j], v)) is Ok);
            }
        }
    }
}

/// One declared parameter: an absent or `null` value fails with "Missing
/// required parameter '<name>'" when the parameter is required and passes
/// when it is optional; a present value passes when its type accepts it and
/// otherwise fails with "Parameter '<name>': " and the type's complaint.
pub proof fn lemma_param_outcome(p: ActionParam, v: serde_json::Value)
    ensures
        (json_get(v, p.name@) is None || (json_get(v, p.name@) matches Some(x) && json_type_of(x)
            == JsonType::Null)) ==> param_outcome(p, v) == if p.required {
            Err::<(), Seq<char>>("Missing required parameter '"@ + p.name@ + "'"@)
        } else {
            Ok::<(), Seq<char>>(())
        },
        json_get(v, p.name@) matches Some(x) ==> (json_type_of(x) != JsonType::Null ==> (
        param_outcome(p, v) == match check_value(p.param_type, x) {
            Ok(()) => Ok::<(), Seq<char>>(()),
            Err(e) => Err::<(), Seq<char>>("Parameter '"@ + p.name@ + "': "@ + e),
        })),
{
}

/// Refusals name the kind of value that was given as JSON calls it
/// ("null", "boolean", "number", "string", "array", "object"), after
/// "expected <what>, got ".
pub proof fn lemma_refusal_names_kind(what: Seq<char>, t: JsonType)
    ensures
        json_kind_name(JsonType::Null) == "null"@,
        json_kind_name(JsonType::Bool) == "boolean"@,
        json_kind_name(JsonType::Number) == "number"@,
        json_kind_name(JsonType::Str) == "string"@,
        json_kind_name(JsonType::Array) == "array"@,
        json_kind_name(JsonType::Object) == "object"@,
        expected_got(what, t) == "expected "@ + what + ", got "@ + json_kind_name(t),
{
}

} // verus!
