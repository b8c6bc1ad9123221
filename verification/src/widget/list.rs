//! List and Table widgets: their items, the selection, and how they answer
//! an agent. Scroll offsets and row heights are the drawing layer's.

use vstd::prelude::*;
use crate::ontology::action::AgentAction;
use crate::ontology::agent::{
    index_json, is_simple_action, json_index, json_strings, object1, object2, object3,
    read_u64_param, reply_view, same_text, strings_json, u64_param, unknown_action,
    unknown_action_text,
};
use crate::ontology::json::{json_from_u64, json_of_entries, json_of_u64};

verus! {

/// A scrollable list of items.
pub struct List {
    pub id: String,
    pub items: Vec<String>,
    pub selected: Option<usize>,
}

/// What a "select by index" agent action does to a selection among
/// `count` entries: the selection afterwards and the reply, whose key is
/// `reply_key`. The index comes from the "index" parameter (taken as a
/// `usize`); a missing or out-of-range index changes nothing.
pub open spec fn index_select(
    count: nat,
    selected: Option<usize>,
    params: serde_json::Value,
    reply_key: Seq<char>,
) -> (Option<usize>, Result<serde_json::Value, Seq<char>>) {
    match u64_param(params, "index"@) {
        Some(i) => if (i as usize) < count {
            (Some(i as usize), Ok(json_of_entries(seq![(reply_key, json_of_u64((i as usize) as u64))])))
        } else {
            (selected, Err("Index out of range"@))
        },
        None => (selected, Err("Missing 'index' parameter"@)),
    }
}

/// What an agent action does to a list: the selection afterwards and the
/// reply. "select" selects an item by index (see `index_select`); any other
/// action changes nothing and is refused.
pub open spec fn list_action(
    count: nat,
    selected: Option<usize>,
    action: Seq<char>,
    params: serde_json::Value,
) -> (Option<usize>, Result<serde_json::Value, Seq<char>>) {
    if action == "select"@ {
        index_select(count, selected, params, "selected"@)
    } else {
        (selected, Err(unknown_action_text(action)))
    }
}

/// Selects the entry under the "index" parameter among `count` entries
/// (see `index_select`).
fn select_by_index(
    count: usize,
    selected: &mut Option<usize>,
    params: &serde_json::Value,
    reply_key: &str,
) -> (r: Result<serde_json::Value, String>)
    ensures
        (*final(selected), reply_view(r)) == index_select(
            count as nat,
            *old(selected),
            *params,
            reply_key@,
        ),
{
    match read_u64_param(params, "index") {
        Some(idx) => {
            let idx = idx as usize;
            if idx < count {
                *selected = Some(idx);
                Ok(object1(reply_key, json_from_u64(idx as u64)))
            } else {
                Err("Index out of range".to_owned())
            }
        },
        None => Err("Missing 'index' parameter".to_owned()),
    }
}

impl List {
    /// A list with nothing selected.
    pub fn new(id: &str, items: Vec<String>) -> (r: Self)
        ensures
            r.id@ == id@,
            r.items@ == items@,
            r.selected is None,
    {
        List { id: id.to_owned(), items, selected: None }
    }

    /// Selects the item at `index` (not checked against the items).
    pub fn selected(self, index: usize) -> (r: Self)
        ensures
            r.selected == Some(index),
            r.id == self.id,
            r.items == self.items,
    {
        let mut s = self;
        s.selected = Some(index);
        s
    }

    /// The actions an agent can invoke: "select" and "scroll".
    pub fn actions(&self) -> (r: Vec<AgentAction>)
        ensures
            r@.len() == 2,
            is_simple_action(r@[0], "select"@, "Select an item by index"@, true),
            is_simple_action(r@[1], "scroll"@, "Scroll the list"@, true),
    {
        vec![
            AgentAction::simple("select", "Select an item by index", true),
            AgentAction::simple("scroll", "Scroll the list", true),
        ]
    }

    /// The state an agent sees: `{"item_count": .., "selected": ..}`.
    pub fn agent_state(&self) -> (r: serde_json::Value)
        ensures
            r == json_of_entries(
                seq![
                    ("item_count"@, json_of_u64(self.items@.len() as u64)),
                    ("selected"@, index_json(self.selected)),
                ],
            ),
    {
        object2("item_count", json_from_u64(self.items.len() as u64), "selected", json_index(self.selected))
    }

    /// Carries out an agent action (see `list_action`).
    pub fn execute_action(&mut self, action: &str, params: &serde_json::Value) -> (r: Result<
        serde_json::Value,
        String,
    >)
        ensures
            (final(self).selected, reply_view(r)) == list_action(
                old(self).items@.len(),
                old(self).selected,
                action@,
                *params,
            ),
            final(self).id == old(self).id,
            final(self).items == old(self).items,
    {
        if same_text(action, "select") {
            let count = self.items.len();
            select_by_index(count, &mut self.selected, params, "selected")
        } else {
            Err(unknown_action(action))
        }
    }

    /// The identifier an agent addresses the list by.
    pub fn agent_id(&self) -> (r: Option<&str>)
        ensures
            r matches Some(s) && s@ == self.id@,
    {
        Some(self.id.as_str())
    }
}

/// A data table with column headers and rows.
pub struct Table {
    pub id: String,
    pub columns: Vec<String>,
    pub rows: Vec<Vec<String>>,
    pub selected_row: Option<usize>,
}

/// What an agent action does to a table: the selected row afterwards and
/// the reply. "select_row" selects a row by index (see `index_select`); any
/// other action changes nothing and is refused.
pub open spec fn table_action(
    row_count: nat,
    selected_row: Option<usize>,
    action: Seq<char>,
    params: serde_json::Value,
) -> (Option<usize>, Result<serde_json::Value, Seq<char>>) {
    if action == "select_row"@ {
        index_select(row_count, selected_row, params, "selected_row"@)
    } else {
        (selected_row, Err(unknown_action_text(action)))
    }
}

impl Table {
    /// A table with no row selected.
    pub fn new(id: &str, columns: Vec<String>, rows: Vec<Vec<String>>) -> (r: Self)
        ensures
            r.id@ == id@,
            r.columns@ == columns@,
            r.rows@ == rows@,
            r.selected_row is None,
    {
        Table { id: id.to_owned(), columns, rows, selected_row: None }
    }

    /// The actions an agent can invoke: "select_row", "scroll" and "sort".
    pub fn actions(&self) -> (r: Vec<AgentAction>)
        ensures
            r@.len() == 3,
            is_simple_action(r@[0], "select_row"@, "Select a table row"@, true),
            is_simple_action(r@[1], "scroll"@, "Scroll the table"@, true),
            is_simple_action(r@[2], "sort"@, "Sort by column"@, false),
    {
        vec![
            AgentAction::simple("select_row", "Select a table row", true),
            AgentAction::simple("scroll", "Scroll the table", true),
            AgentAction::simple("sort", "Sort by column", false),
        ]
    }

    /// The state an agent sees: `{"columns": [..], "row_count": ..,
    /// "selected_row": ..}`.
    pub fn agent_state(&self) -> (r: serde_json::Value)
        ensures
            r == json_of_entries(
                seq![
                    ("columns"@, strings_json(self.columns@)),
                    ("row_count"@, json_of_u64(self.rows@.len() as u64)),
                    ("selected_row"@, index_json(self.selected_row)),
                ],
            ),
    {
        object3(
            "columns",
            json_strings(&self.columns),
            "row_count",
            json_from_u64(self.rows.len() as u64),
            "selected_row",
            json_index(self.selected_row),
        )
    }

    /// Carries out an agent action (see `table_action`).
    pub fn execute_action(&mut self, action: &str, params: &serde_json::Value) -> (r: Result<
        serde_json::Value,
        String,
    >)
        ensures
            (final(self).selected_row, reply_view(r)) == table_action(
                old(self).rows@.len(),
                old(self).selected_row,
                action@,
                *params,
            ),
            final(self).id == old(self).id,
            final(self).columns == old(self).columns,
            final(self).rows == old(self).rows,
    {
        if same_text(action, "select_row") {
            let count = self.rows.len();
            select_by_index(count, &mut self.selected_row, params, "selected_row")
        } else {
            Err(unknown_action(action))
        }
    }

    /// The identifier an agent addresses the table by.
    pub fn agent_id(&self) -> (r: Option<&str>)
        ensures
            r matches Some(s) && s@ == self.id@,
    {
        Some(self.id.as_str())
    }
}

} // verus!
