//! Checkbox and Radio button widgets: their label and state, and how they
//! answer an agent. Colours, corner radius and font size are the drawing
//! layer's.

use vstd::prelude::*;
use crate::ontology::action::AgentAction;
use crate::ontology::agent::{
    is_simple_action, json_text, object1, object2, reply_view, same_text, unknown_action,
    unknown_action_text,
};
use crate::ontology::json::{json_from_bool, json_of_bool, json_of_entries, json_of_str};

verus! {

/// A toggle checkbox with a label.
pub struct Checkbox {
    pub id: String,
    pub label: String,
    pub checked: bool,
    /// Whether the label is drawn in bold.
    pub is_bold: bool,
}

/// What an agent action does to a checkbox: whether it is checked
/// afterwards, and the reply. "toggle" flips it; any other action changes
/// nothing and is refused.
pub open spec fn checkbox_action(checked: bool, action: Seq<char>) -> (bool, Result<
    serde_json::Value,
    Seq<char>,
>) {
    if action == "toggle"@ {
        (!checked, Ok(json_of_entries(seq![("checked"@, json_of_bool(!checked))])))
    } else {
        (checked, Err(unknown_action_text(action)))
    }
}

impl Checkbox {
    pub fn new(id: &str, label: &str, checked: bool) -> (r: Self)
        ensures
            r.id@ == id@,
            r.label@ == label@,
            r.checked == checked,
            !r.is_bold,
    {
        Checkbox { id: id.to_owned(), label: label.to_owned(), checked, is_bold: false }
    }

    /// Draws the label in bold.
    pub fn bold(self) -> (r: Self)
        ensures
            r.is_bold,
            r.id == self.id,
            r.label == self.label,
            r.checked == self.checked,
    {
        let mut s = self;
        s.is_bold = true;
        s
    }

    /// The actions an agent can invoke: "toggle".
    pub fn actions(&self) -> (r: Vec<AgentAction>)
        ensures
            r@.len() == 1,
            is_simple_action(r@[0], "toggle"@, "Toggle the checkbox"@, true),
    {
        vec![AgentAction::simple("toggle", "Toggle the checkbox", true)]
    }

    /// The state an agent sees: `{"checked": .., "label": ..}`.
    pub fn agent_state(&self) -> (r: serde_json::Value)
        ensures
            r == json_of_entries(
                seq![("checked"@, json_of_bool(self.checked)), ("label"@, json_of_str(self.label@))],
            ),
    {
        object2("checked", json_from_bool(self.checked), "label", json_text(self.label.as_str()))
    }

    /// Carries out an agent action (see `checkbox_action`).
    pub fn execute_action(&mut self, action: &str, _params: &serde_json::Value) -> (r: Result<
        serde_json::Value,
        String,
    >)
        ensures
            (final(self).checked, reply_view(r)) == checkbox_action(old(self).checked, action@),
            final(self).id == old(self).id,
            final(self).label == old(self).label,
            final(self).is_bold == old(self).is_bold,
    {
        if same_text(action, "toggle") {
            self.checked = !self.checked;
            Ok(object1("checked", json_from_bool(self.checked)))
        } else {
            Err(unknown_action(action))
        }
    }

    /// The identifier an agent addresses the checkbox by.
    pub fn agent_id(&self) -> (r: Option<&str>)
        ensures
            r matches Some(s) && s@ == self.id@,
    {
        Some(self.id.as_str())
    }
}

/// An exclusive-choice radio button.
pub struct Radio {
    pub id: String,
    pub label: String,
    pub selected: bool,
    /// Whether the label is drawn in bold.
    pub is_bold: bool,
}

/// What an agent action does to a radio button: whether it is selected
/// afterwards, and the reply. "select" selects it; any other action
/// changes nothing and is refused.
pub open spec fn radio_action(selected: bool, action: Seq<char>) -> (bool, Result<
    serde_json::Value,
    Seq<char>,
>) {
    if action == "select"@ {
        (true, Ok(json_of_entries(seq![("selected"@, json_of_bool(true))])))
    } else {
        (selected, Err(unknown_action_text(action)))
    }
}

impl Radio {
    pub fn new(id: &str, label: &str, selected: bool) -> (r: Self)
        ensures
            r.id@ == id@,
            r.label@ == label@,
            r.selected == selected,
            !r.is_bold,
    {
        Radio { id: id.to_owned(), label: label.to_owned(), selected, is_bold: false }
    }

    /// Draws the label in bold.
    pub fn bold(self) -> (r: Self)
        ensures
            r.is_bold,
            r.id == self.id,
            r.label == self.label,
            r.selected == self.selected,
    {
        let mut s = self;
        s.is_bold = true;
        s
    }

    /// The actions an agent can invoke: "select".
    pub fn actions(&self) -> (r: Vec<AgentAction>)
        ensures
            r@.len() == 1,
            is_simple_action(r@[0], "select"@, "Select this radio option"@, true),
    {
        vec![AgentAction::simple("select", "Select this radio option", true)]
    }

    /// The state an agent sees: `{"selected": .., "label": ..}`.
    pub fn agent_state(&self) -> (r: serde_json::Value)
        ensures
            r == json_of_entries(
                seq![("selected"@, json_of_bool(self.selected)), ("label"@, json_of_str(self.label@))],
            ),
    {
        object2("selected", json_from_bool(self.selected), "label", json_text(self.label.as_str()))
    }

    /// Carries out an agent action (see `radio_action`).
    pub fn execute_action(&mut self, action: &str, _params: &serde_json::Value) -> (r: Result<
        serde_json::Value,
        String,
    >)
        ensures
            (final(self).selected, reply_view(r)) == radio_action(old(self).selected, action@),
            final(self).id == old(self).id,
            final(self).label == old(self).label,
            final(self).is_bold == old(self).is_bold,
    {
        if same_text(action, "select") {
            self.selected = true;
            Ok(object1("selected", json_from_bool(true)))
        } else {
            Err(unknown_action(action))
        }
    }

    /// The identifier an agent addresses the radio button by.
    pub fn agent_id(&self) -> (r: Option<&str>)
        ensures
            r matches Some(s) && s@ == self.id@,
    {
        Some(self.id.as_str())
    }
}

/// Toggling a checkbox twice through agent actions brings back its state.
pub proof fn lemma_checkbox_toggle_twice(checked: bool)
    ensures
        checkbox_action(checkbox_action(checked, "toggle"@).0, "toggle"@).0 == checked,
{
}

} // verus!
