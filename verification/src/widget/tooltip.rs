//! Tooltip widget: its text, and how it answers an agent. Colours, corner
//! radius and font size are the drawing layer's.

use vstd::prelude::*;
use crate::ontology::action::AgentAction;
use crate::ontology::agent::{
    is_simple_action, json_text, object1, read_str_param, reply_view, same_text, str_param,
    unknown_action, unknown_action_text,
};
use crate::ontology::json::{json_of_entries, json_of_str};

verus! {

/// A tooltip popup displaying helper text.
pub struct Tooltip {
    pub id: String,
    pub text: String,
}

/// What an agent action does to a tooltip: its text afterwards, and the
/// reply. "set_text" replaces the text with the "text" parameter when it is
/// a string; any other action is refused. A refused action changes nothing.
pub open spec fn tooltip_action(text: Seq<char>, action: Seq<char>, params: serde_json::Value) -> (
    Seq<char>,
    Result<serde_json::Value, Seq<char>>,
) {
    if action == "set_text"@ {
        match str_param(params, "text"@) {
            Some(t) => (t, Ok(json_of_entries(seq![("text"@, json_of_str(t))]))),
            None => (text, Err("Missing 'text' parameter"@)),
        }
    } else {
        (text, Err(unknown_action_text(action)))
    }
}

impl Tooltip {
    pub fn new(id: &str, text: &str) -> (r: Self)
        ensures
            r.id@ == id@,
            r.text@ == text@,
    {
        Tooltip { id: id.to_owned(), text: text.to_owned() }
    }

    /// The actions an agent can invoke: "set_text".
    pub fn actions(&self) -> (r: Vec<AgentAction>)
        ensures
            r@.len() == 1,
            is_simple_action(r@[0], "set_text"@, "Set tooltip text content"@, true),
    {
        vec![AgentAction::simple("set_text", "Set tooltip text content", true)]
    }

    /// The state an agent sees: `{"text": ..}`.
    pub fn agent_state(&self) -> (r: serde_json::Value)
        ensures
            r == json_of_entries(seq![("text"@, json_of_str(self.text@))]),
    {
        object1("text", json_text(self.text.as_str()))
    }

    /// Carries out an agent action (see `tooltip_action`).
    pub fn execute_action(&mut self, action: &str, params: &serde_json::Value) -> (r: Result<
        serde_json::Value,
        String,
    >)
        ensures
            (final(self).text@, reply_view(r)) == tooltip_action(old(self).text@, action@, *params),
            final(self).id == old(self).id,
    {
        if same_text(action, "set_text") {
            match read_str_param(params, "text") {
                Some(t) => {
                    self.text = t.to_owned();
                    Ok(object1("text", json_text(self.text.as_str())))
                },
                None => Err("Missing 'text' parameter".to_owned()),
            }
        } else {
            Err(unknown_action(action))
        }
    }

    /// The identifier an agent addresses the tooltip by.
    pub fn agent_id(&self) -> (r: Option<&str>)
        ensures
            r matches Some(s) && s@ == self.id@,
    {
        Some(self.id.as_str())
    }
}

} // verus!
