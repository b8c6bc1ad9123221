//! Shader source kinds, and what an agent sees of and asks of the GPU
//! resources that describe themselves: textures and pipelines.

use vstd::prelude::*;
use crate::ontology::action::AgentAction;
use crate::ontology::agent::{is_simple_action, json_text, object3, reply_view, same_text, unknown_action, unknown_action_text};
use crate::ontology::json::{
    entries_view, json_from_entries, json_from_opt_string, json_from_u64, json_of_entries,
    json_of_opt_str, json_of_str, json_of_u64,
};

verus! {

/// How a shader was provided.
#[derive(Debug, Clone, Copy, PartialEq, Eq, Structural)]
pub enum ShaderSourceKind {
    Wgsl,
    SpirV,
    Naga,
}

/// An optional label as a JSON value: `null`, or the string.
pub open spec fn label_json(label: Option<Seq<char>>) -> serde_json::Value {
    json_of_opt_str(label)
}

/// The view of an optional label.
pub open spec fn label_view(label: Option<&str>) -> Option<Seq<char>> {
    match label {
        Some(s) => Some(s@),
        None => None,
    }
}

fn label_value(label: Option<&str>) -> (r: serde_json::Value)
    ensures
        r == label_json(label_view(label)),
{
    let owned = match label {
        Some(s) => Some(s.to_owned()),
        None => None,
    };
    json_from_opt_string(owned)
}

/// What a texture reports to an agent: its id and label, its extent, its
/// format, dimension and usage (by their debug names), and its mip level
/// and sample counts.
pub struct TextureInfo<'a> {
    pub id: u64,
    pub label: Option<&'a str>,
    pub width: u32,
    pub height: u32,
    pub depth_or_layers: u32,
    pub format: &'a str,
    pub dimension: &'a str,
    pub mip_levels: u32,
    pub sample_count: u32,
    pub usage: &'a str,
}

/// The state of a texture that an agent sees.
pub open spec fn texture_state_json(t: TextureInfo) -> serde_json::Value {
    json_of_entries(
        seq![
            ("id"@, json_of_u64(t.id)),
            ("label"@, label_json(label_view(t.label))),
            ("width"@, json_of_u64(t.width as u64)),
            ("height"@, json_of_u64(t.height as u64)),
            ("depth_or_layers"@, json_of_u64(t.depth_or_layers as u64)),
            ("format"@, json_of_str(t.format@)),
            ("dimension"@, json_of_str(t.dimension@)),
            ("mip_levels"@, json_of_u64(t.mip_levels as u64)),
            ("sample_count"@, json_of_u64(t.sample_count as u64)),
            ("usage"@, json_of_str(t.usage@)),
        ],
    )
}

/// The state of a pipeline that an agent sees: its id, its label and its
/// kind.
pub open spec fn pipeline_state_json(id: u64, label: Option<Seq<char>>, kind: Seq<char>) -> serde_json::Value {
    json_of_entries(seq![("id"@, json_of_u64(id)), ("label"@, label_json(label)), ("kind"@, json_of_str(kind))])
}

/// The reply of a resource to an agent action: "get_info" answers with the
/// resource's state; any other action is refused.
pub open spec fn resource_action_reply(action: Seq<char>, state: serde_json::Value) -> Result<
    serde_json::Value,
    Seq<char>,
> {
    if action == "get_info"@ {
        Ok(state)
    } else {
        Err(unknown_action_text(action))
    }
}

/// The state of a texture that an agent sees (see `texture_state_json`).
pub fn texture_state(t: &TextureInfo) -> (r: serde_json::Value)
    ensures
        r == texture_state_json(*t),
{
    let e = vec![
        ("id".to_owned(), json_from_u64(t.id)),
        ("label".to_owned(), label_value(t.label)),
        ("width".to_owned(), json_from_u64(t.width as u64)),
        ("height".to_owned(), json_from_u64(t.height as u64)),
        ("depth_or_layers".to_owned(), json_from_u64(t.depth_or_layers as u64)),
        ("format".to_owned(), json_text(t.format)),
        ("dimension".to_owned(), json_text(t.dimension)),
        ("mip_levels".to_owned(), json_from_u64(t.mip_levels as u64)),
        ("sample_count".to_owned(), json_from_u64(t.sample_count as u64)),
        ("usage".to_owned(), json_text(t.usage)),
    ];
    proof {
        assert(entries_view(e@) =~= seq![
            ("id"@, json_of_u64(t.id)),
            ("label"@, label_json(label_view(t.label))),
            ("width"@, json_of_u64(t.width as u64)),
            ("height"@, json_of_u64(t.height as u64)),
            ("depth_or_layers"@, json_of_u64(t.depth_or_layers as u64)),
            ("format"@, json_of_str(t.format@)),
            ("dimension"@, json_of_str(t.dimension@)),
            ("mip_levels"@, json_of_u64(t.mip_levels as u64)),
            ("sample_count"@, json_of_u64(t.sample_count as u64)),
            ("usage"@, json_of_str(t.usage@)),
        ]);
    }
    json_from_entries(e)
}

/// The state of a pipeline that an agent sees (see `pipeline_state_json`).
pub fn pipeline_state(id: u64, label: Option<&str>, kind: &str) -> (r: serde_json::Value)
    ensures
        r == pipeline_state_json(id, label_view(label), kind@),
{
    object3("id", json_from_u64(id), "label", label_value(label), "kind", json_text(kind))
}

/// Answers an agent action on a resource whose state is `state` (see
/// `resource_action_reply`).
pub fn resource_action(action: &str, state: serde_json::Value) -> (r: Result<serde_json::Value, String>)
    ensures
        reply_view(r) == resource_action_reply(action@, state),
{
    if same_text(action, "get_info") {
        Ok(state)
    } else {
        Err(unknown_action(action))
    }
}

/// The actions an agent can invoke on a texture: "get_info".
pub fn texture_actions() -> (r: Vec<AgentAction>)
    ensures
        r@.len() == 1,
        is_simple_action(r@[0], "get_info"@, "Query texture dimensions, format, and usage"@, false),
{
    vec![AgentAction::simple("get_info", "Query texture dimensions, format, and usage", false)]
}

/// The actions an agent can invoke on a render pipeline: "get_info".
pub fn render_pipeline_actions() -> (r: Vec<AgentAction>)
    ensures
        r@.len() == 1,
        is_simple_action(r@[0], "get_info"@, "Query pipeline metadata"@, false),
{
    vec![AgentAction::simple("get_info", "Query pipeline metadata", false)]
}

/// The actions an agent can invoke on a compute pipeline: "get_info".
pub fn compute_pipeline_actions() -> (r: Vec<AgentAction>)
    ensures
        r@.len() == 1,
        is_simple_action(r@[0], "get_info"@, "Query compute pipeline metadata"@, false),
{
    vec![AgentAction::simple("get_info", "Query compute pipeline metadata", false)]
}

/// "get_info" answers a resource's state as it is; every other action is
/// refused with "Unknown action: " and the action's name.
pub proof fn lemma_resource_get_info(action: Seq<char>, state: serde_json::Value)
    ensures
        resource_action_reply("get_info"@, state) == Ok::<serde_json::Value, Seq<char>>(state),
        action != "get_info"@ ==> resource_action_reply(action, state) == Err::<
            serde_json::Value,
            Seq<char>,
        >("Unknown action: "@ + action),
{
}

} // verus!
