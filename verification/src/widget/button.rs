//! Button widget: its label, whether it is enabled, and how it answers an
//! agent. Colours, corner radius and font size are the drawing layer's.

use vstd::prelude::*;
use crate::ontology::action::AgentAction;
use crate::ontology::agent::{
    is_simple_action, json_text, object1, object2, reply_view, same_text, unknown_action,
    unknown_action_text,
};
use crate::ontology::json::{json_from_bool, json_of_bool, json_of_entries, json_of_str};

verus! {

/// A clickable button with a text label.
pub struct Button {
    pub id: String,
    pub label: String,
    pub disabled: bool,
    pub icon: Option<String>,
    /// Whether the label is drawn in bold.
    pub is_bold: bool,
}

/// The reply of a button to an agent action. "click" is answered with
/// `{"clicked": true}` while the button is enabled and refused while it is
/// disabled; any other action is refused. No action changes the button.
pub open spec fn button_action(disabled: bool, action: Seq<char>) -> Result<
    serde_json::Value,
    Seq<char>,
> {
    if action == "click"@ {
        if !disabled {
            Ok(json_of_entries(seq![("clicked"@, json_of_bool(true))]))
        } else {
            Err("Button is disabled"@)
        }
    } else {
        Err(unknown_action_text(action))
    }
}

impl Button {
    /// An enabled button without icon.
    pub fn new(id: &str, label: &str) -> (r: Self)
        ensures
            r.id@ == id@,
            r.label@ == label@,
            !r.disabled,
            r.icon is None,
            !r.is_bold,
    {
        Button { id: id.to_owned(), label: label.to_owned(), disabled: false, icon: None, is_bold: false }
    }

    pub fn disabled(self, disabled: bool) -> (r: Self)
        ensures
            r.disabled == disabled,
            r.id == self.id,
            r.label == self.label,
            r.icon == self.icon,
            r.is_bold == self.is_bold,
    {
        let mut s = self;
        s.disabled = disabled;
        s
    }

    pub fn icon(self, icon: &str) -> (r: Self)
        ensures
            r.icon matches Some(i) && i@ == icon@,
            r.id == self.id,
            r.label == self.label,
            r.disabled == self.disabled,
            r.is_bold == self.is_bold,
    {
        let mut s = self;
        s.icon = Some(icon.to_owned());
        s
    }

    /// Draws the label in bold.
    pub fn bold(self) -> (r: Self)
        ensures
            r.is_bold,
            r.id == self.id,
            r.label == self.label,
            r.disabled == self.disabled,
            r.icon == self.icon,
    {
        let mut s = self;
        s.is_bold = true;
        s
    }

    /// The actions an agent can invoke: "click", and none while disabled.
    pub fn actions(&self) -> (r: Vec<AgentAction>)
        ensures
            self.disabled ==> r@.len() == 0,
            !self.disabled ==> r@.len() == 1 && is_simple_action(
                r@[0],
                "click"@,
                "Click the button"@,
                false,
            ),
    {
        if self.disabled {
            Vec::new()
        } else {
            vec![AgentAction::simple("click", "Click the button", false)]
        }
    }

    /// The state an agent sees: `{"label": .., "disabled": ..}`.
    pub fn agent_state(&self) -> (r: serde_json::Value)
        ensures
            r == json_of_entries(
                seq![("label"@, json_of_str(self.label@)), ("disabled"@, json_of_bool(self.disabled))],
            ),
    {
        object2("label", json_text(self.label.as_str()), "disabled", json_from_bool(self.disabled))
    }

    /// Carries out an agent action (see `button_action`); the button is
    /// left as it was.
    pub fn execute_action(&mut self, action: &str, _params: &serde_json::Value) -> (r: Result<
        serde_json::Value,
        String,
    >)
        ensures
            reply_view(r) == button_action(old(self).disabled, action@),
            *final(self) == *old(self),
    {
        if same_text(action, "click") {
            if !self.disabled {
                Ok(object1("clicked", json_from_bool(true)))
            } else {
                Err("Button is disabled".to_owned())
            }
        } else {
            Err(unknown_action(action))
        }
    }

    /// The identifier an agent addresses the button by.
    pub fn agent_id(&self) -> (r: Option<&str>)
        ensures
            r matches Some(s) && s@ == self.id@,
    {
        Some(self.id.as_str())
    }
}

} // verus!
