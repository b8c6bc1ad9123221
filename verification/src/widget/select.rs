//! Select / dropdown widget.

use vstd::prelude::*;
use crate::ontology::action::AgentAction;
use crate::ontology::agent::{
    index_json, is_simple_action, json_index, json_text, object1, object2, object4, read_u64_param,
    reply_view, same_text, u64_param, unknown_action, unknown_action_text,
};
use crate::ontology::json::{json_from_bool, json_from_u64, json_of_bool, json_of_entries, json_of_str, json_of_u64};

verus! {

/// The label shown when no valid option is selected.
pub open spec fn placeholder_label() -> Seq<char> {
    "Select..."@
}

/// The label a select shows: the selected option when the selection
/// indexes an option, the placeholder otherwise.
pub open spec fn shown_label(options: Seq<String>, selected: Option<usize>) -> Seq<char> {
    match selected {
        Some(i) => if i < options.len() {
            options[i as int]@
        } else {
            placeholder_label()
        },
        None => placeholder_label(),
    }
}

/// A dropdown select widget for single-item selection.
pub struct Select {
    pub id: String,
    pub options: Vec<String>,
    pub selected: Option<usize>,
    pub open: bool,
    pub searchable: bool,
    pub search_query: String,
}

impl Select {
    /// A closed, non-searchable select with nothing selected.
    pub fn new(id: &str, options: Vec<String>) -> (r: Self)
        ensures
            r.id@ == id@,
            r.options@ == options@,
            r.selected is None,
            !r.open,
            !r.searchable,
            r.search_query@ == Seq::<char>::empty(),
    {
        Select {
            id: id.to_owned(),
            options,
            selected: None,
            open: false,
            searchable: false,
            search_query: String::new(),
        }
    }

    /// Selects the option at `index` (not checked against the options).
    pub fn selected(self, index: usize) -> (r: Self)
        ensures
            r.selected == Some(index),
            r.id == self.id,
            r.options@ == self.options@,
            r.open == self.open,
            r.searchable == self.searchable,
            r.search_query == self.search_query,
    {
        let mut s = self;
        s.selected = Some(index);
        s
    }

    pub fn searchable(self, searchable: bool) -> (r: Self)
        ensures
            r.searchable == searchable,
            r.selected == self.selected,
            r.id == self.id,
            r.options@ == self.options@,
            r.open == self.open,
            r.search_query == self.search_query,
    {
        let mut s = self;
        s.searchable = searchable;
        s
    }

    /// The label of the selected option, or "Select..." when nothing valid is selected.
    pub fn selected_label(&self) -> (r: &str)
        ensures
            r@ == shown_label(self.options@, self.selected),
    {
        match self.selected {
            Some(i) => {
                if i < self.options.len() {
                    self.options[i].as_str()
                } else {
                    "Select..."
                }
            },
            None => "Select...",
        }
    }
}

/// The reply `{"open": open}`.
pub open spec fn open_reply(open: bool) -> serde_json::Value {
    json_of_entries(seq![("open"@, json_of_bool(open))])
}

/// What an agent action does to a select with the given options: the
/// selection and openness afterwards, and the reply. "open" and "close"
/// set the dropdown's openness; "select" selects the option under the
/// "index" parameter (taken as a `usize`) when it exists and closes the
/// dropdown; any other action is refused. A refused action changes nothing.
pub open spec fn select_action(
    options: Seq<String>,
    selected: Option<usize>,
    open: bool,
    action: Seq<char>,
    params: serde_json::Value,
) -> (Option<usize>, bool, Result<serde_json::Value, Seq<char>>) {
    if action == "open"@ {
        (selected, true, Ok(open_reply(true)))
    } else if action == "close"@ {
        (selected, false, Ok(open_reply(false)))
    } else if action == "select"@ {
        match u64_param(params, "index"@) {
            Some(i) => if (i as usize) < options.len() {
                (
                    Some(i as usize),
                    false,
                    Ok(
                        json_of_entries(
                            seq![
                                ("selected"@, json_of_u64((i as usize) as u64)),
                                ("label"@, json_of_str(options[(i as usize) as int]@)),
                            ],
                        ),
                    ),
                )
            } else {
                (selected, open, Err("Index out of range"@))
            },
            None => (selected, open, Err("Missing 'index' parameter"@)),
        }
    } else {
        (selected, open, Err(unknown_action_text(action)))
    }
}

impl Select {
    /// The actions an agent can invoke: "open", "close" and "select".
    pub fn actions(&self) -> (r: Vec<AgentAction>)
        ensures
            r@.len() == 3,
            is_simple_action(r@[0], "open"@, "Open the dropdown"@, true),
            is_simple_action(r@[1], "close"@, "Close the dropdown"@, true),
            is_simple_action(r@[2], "select"@, "Select an option by index"@, true),
    {
        vec![
            AgentAction::simple("open", "Open the dropdown", true),
            AgentAction::simple("close", "Close the dropdown", true),
            AgentAction::simple("select", "Select an option by index", true),
        ]
    }

    /// The state an agent sees: `{"selected": .., "selected_label": ..,
    /// "option_count": .., "open": ..}`.
    pub fn agent_state(&self) -> (r: serde_json::Value)
        ensures
            r == json_of_entries(
                seq![
                    ("selected"@, index_json(self.selected)),
                    ("selected_label"@, json_of_str(shown_label(self.options@, self.selected))),
                    ("option_count"@, json_of_u64(self.options@.len() as u64)),
                    ("open"@, json_of_bool(self.open)),
                ],
            ),
    {
        object4(
            "selected",
            json_index(self.selected),
            "selected_label",
            json_text(self.selected_label()),
            "option_count",
            json_from_u64(self.options.len() as u64),
            "open",
            json_from_bool(self.open),
        )
    }

    /// Carries out an agent action (see `select_action`).
    pub fn execute_action(&mut self, action: &str, params: &serde_json::Value) -> (r: Result<
        serde_json::Value,
        String,
    >)
        ensures
            (final(self).selected, final(self).open, reply_view(r)) == select_action(
                old(self).options@,
                old(self).selected,
                old(self).open,
                action@,
                *params,
            ),
            final(self).id == old(self).id,
            final(self).options == old(self).options,
            final(self).searchable == old(self).searchable,
            final(self).search_query == old(self).search_query,
    {
        if same_text(action, "open") {
            self.open = true;
            Ok(object1("open", json_from_bool(true)))
        } else if same_text(action, "close") {
            self.open = false;
            Ok(object1("open", json_from_bool(false)))
        } else if same_text(action, "select") {
            match read_u64_param(params, "index") {
                Some(idx) => {
                    let idx = idx as usize;
                    if idx < self.options.len() {
                        self.selected = Some(idx);
                        self.open = false;
                        Ok(
                            object2(
                                "selected",
                                json_from_u64(idx as u64),
                                "label",
                                json_text(self.options[idx].as_str()),
                            ),
                        )
                    } else {
                        Err("Index out of range".to_owned())
                    }
                },
                None => Err("Missing 'index' parameter".to_owned()),
            }
        } else {
            Err(unknown_action(action))
        }
    }

    /// The identifier an agent addresses the select by.
    pub fn agent_id(&self) -> (r: Option<&str>)
        ensures
            r matches Some(s) && s@ == self.id@,
    {
        Some(self.id.as_str())
    }
}

/// Selecting an option through an agent action makes the select show
/// that option's label and closes the dropdown.
pub proof fn lemma_select_action_shows_option(
    options: Seq<String>,
    selected: Option<usize>,
    open: bool,
    params: serde_json::Value,
)
    requires
        u64_param(params, "index"@) matches Some(i) && (i as usize) < options.len(),
    ensures
        ({
            let (sel, op, reply) = select_action(options, selected, open, "select"@, params);
            &&& reply is Ok
            &&& !op
            &&& sel is Some
            &&& shown_label(options, sel) == options[sel.unwrap() as int]@
        }),
{
    reveal_strlit("open");
    reveal_strlit("close");
    reveal_strlit("select");
    assert("select"@.len() != "open"@.len());
    assert("select"@.len() != "close"@.len());
}

/// A select shows the selected option's text when the selection indexes
/// an option, and "Select..." when nothing is selected or the selection
/// is past the last option.
pub proof fn lemma_shown_label(options: Seq<String>, selected: Option<usize>)
    ensures
        selected matches Some(i) ==> (i < options.len() ==> shown_label(options, selected)
            == options[i as int]@),
        selected is None ==> shown_label(options, selected) == "Select..."@,
        selected matches Some(i) ==> (i >= options.len() ==> shown_label(options, selected)
            == "Select..."@),
{
}

/// Selecting an existing option makes the select show that option's label.
pub proof fn lemma_selected_label_shows_option(options: Seq<String>, index: usize)
    requires
        index < options.len(),
    ensures
        shown_label(options, Some(index)) == options[index as int]@,
{
}

/// "open" and "close" set whether the dropdown is open, whatever it was
/// before, keep the selection, and answer `{"open": true}` /
/// `{"open": false}`: after "open" then "close" the dropdown is closed,
/// after "close" then "open" it is open.
pub proof fn lemma_open_close_set_openness(
    options: Seq<String>,
    selected: Option<usize>,
    open: bool,
    params: serde_json::Value,
)
    ensures
        ({
            let (sel, op, reply) = select_action(options, selected, open, "open"@, params);
            &&& sel == selected
            &&& op
            &&& reply == Ok::<serde_json::Value, Seq<char>>(
                json_of_entries(seq![("open"@, json_of_bool(true))]),
            )
        }),
        ({
            let (sel, op, reply) = select_action(options, selected, open, "close"@, params);
            &&& sel == selected
            &&& !op
            &&& reply == Ok::<serde_json::Value, Seq<char>>(
                json_of_entries(seq![("open"@, json_of_bool(false))]),
            )
        }),
        ({
            let (sel1, op1, _r1) = select_action(options, selected, open, "open"@, params);
            let (sel2, op2, _r2) = select_action(options, sel1, op1, "close"@, params);
            sel2 == selected && !op2
        }),
        ({
            let (sel1, op1, _r1) = select_action(options, selected, open, "close"@, params);
            let (sel2, op2, _r2) = select_action(options, sel1, op1, "open"@, params);
            sel2 == selected && op2
        }),
{
    reveal_strlit("open");
    reveal_strlit("close");
    assert("open"@.len() != "close"@.len());
}

} // verus!
