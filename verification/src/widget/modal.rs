//! Modal dialog widget.

use vstd::prelude::*;
use crate::ontology::action::AgentAction;
use crate::ontology::agent::{
    is_simple_action, json_text, object1, object2, reply_view, same_text, unknown_action,
    unknown_action_text,
};
use crate::ontology::json::{json_from_bool, json_of_bool, json_of_entries, json_of_str};

verus! {

/// A modal overlay dialog.
pub struct Modal {
    pub id: String,
    pub title: String,
    pub visible: bool,
}

/// The reply `{"visible": visible}`.
pub open spec fn visibility_reply(visible: bool) -> serde_json::Value {
    json_of_entries(seq![("visible"@, json_of_bool(visible))])
}

/// What an agent action does to a modal: its visibility afterwards and the
/// reply. "open" shows it, "close" hides it; any other action changes
/// nothing and is refused.
pub open spec fn modal_action(visible: bool, action: Seq<char>) -> (bool, Result<
    serde_json::Value,
    Seq<char>,
>) {
    if action == "open"@ {
        (true, Ok(visibility_reply(true)))
    } else if action == "close"@ {
        (false, Ok(visibility_reply(false)))
    } else {
        (visible, Err(unknown_action_text(action)))
    }
}

impl Modal {
    pub fn new(id: &str, title: &str, visible: bool) -> (r: Self)
        ensures
            r.id@ == id@,
            r.title@ == title@,
            r.visible == visible,
    {
        Modal { id: id.to_owned(), title: title.to_owned(), visible }
    }

    /// The actions an agent can invoke: "open" and "close".
    pub fn actions(&self) -> (r: Vec<AgentAction>)
        ensures
            r@.len() == 2,
            is_simple_action(r@[0], "open"@, "Show the modal"@, true),
            is_simple_action(r@[1], "close"@, "Hide the modal"@, true),
    {
        vec![
            AgentAction::simple("open", "Show the modal", true),
            AgentAction::simple("close", "Hide the modal", true),
        ]
    }

    /// The state an agent sees: `{"title": .., "visible": ..}`.
    pub fn agent_state(&self) -> (r: serde_json::Value)
        ensures
            r == json_of_entries(
                seq![("title"@, json_of_str(self.title@)), ("visible"@, json_of_bool(self.visible))],
            ),
    {
        object2("title", json_text(self.title.as_str()), "visible", json_from_bool(self.visible))
    }

    /// Carries out an agent action (see `modal_action`).
    pub fn execute_action(&mut self, action: &str, _params: &serde_json::Value) -> (r: Result<
        serde_json::Value,
        String,
    >)
        ensures
            (final(self).visible, reply_view(r)) == modal_action(old(self).visible, action@),
            final(self).id == old(self).id,
            final(self).title == old(self).title,
    {
        if same_text(action, "open") {
            self.visible = true;
            Ok(object1("visible", json_from_bool(true)))
        } else if same_text(action, "close") {
            self.visible = false;
            Ok(object1("visible", json_from_bool(false)))
        } else {
            Err(unknown_action(action))
        }
    }

    /// The identifier an agent addresses the modal by.
    pub fn agent_id(&self) -> (r: Option<&str>)
        ensures
            r matches Some(s) && s@ == self.id@,
    {
        Some(self.id.as_str())
    }
}

} // verus!
