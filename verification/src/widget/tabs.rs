//! Tabs and Panel widgets.

use vstd::prelude::*;
use crate::ontology::action::AgentAction;
use crate::ontology::agent::{
    is_simple_action, json_strings, json_text, object1, object2, object3, read_u64_param,
    reply_view, same_text, strings_json, u64_param, unknown_action, unknown_action_text,
};
use crate::ontology::json::{json_from_bool, json_from_u64, json_of_bool, json_of_entries, json_of_str, json_of_u64};

verus! {

/// A tabbed container — shows one tab's content at a time.
pub struct Tabs {
    pub id: String,
    pub labels: Vec<String>,
    pub active: usize,
}

/// What an agent action does to a set of `tab_count` tabs whose active tab
/// is `active`: the active tab afterwards and the reply. "select_tab"
/// activates the tab under the "index" parameter (taken as a `usize`) when
/// it exists; any other
/// action is refused. A refused action changes nothing.
pub open spec fn tabs_action(
    tab_count: nat,
    active: usize,
    action: Seq<char>,
    params: serde_json::Value,
) -> (usize, Result<serde_json::Value, Seq<char>>) {
    if action == "select_tab"@ {
        match u64_param(params, "index"@) {
            Some(i) => if (i as usize) < tab_count {
                (i as usize, Ok(json_of_entries(seq![("active"@, json_of_u64((i as usize) as u64))])))
            } else {
                (active, Err("Tab index out of range"@))
            },
            None => (active, Err("Missing 'index' parameter"@)),
        }
    } else {
        (active, Err(unknown_action_text(action)))
    }
}

impl Tabs {
    pub fn new(id: &str, labels: Vec<String>, active: usize) -> (r: Self)
        ensures
            r.id@ == id@,
            r.labels@ == labels@,
            r.active == active,
    {
        Tabs { id: id.to_owned(), labels, active }
    }

    /// The actions an agent can invoke: "select_tab".
    pub fn actions(&self) -> (r: Vec<AgentAction>)
        ensures
            r@.len() == 1,
            is_simple_action(r@[0], "select_tab"@, "Switch to a tab by index"@, true),
    {
        vec![AgentAction::simple("select_tab", "Switch to a tab by index", true)]
    }

    /// The state an agent sees: `{"active": .., "tab_count": .., "labels": [..]}`.
    pub fn agent_state(&self) -> (r: serde_json::Value)
        ensures
            r == json_of_entries(
                seq![
                    ("active"@, json_of_u64(self.active as u64)),
                    ("tab_count"@, json_of_u64(self.labels@.len() as u64)),
                    ("labels"@, strings_json(self.labels@)),
                ],
            ),
    {
        object3(
            "active",
            json_from_u64(self.active as u64),
            "tab_count",
            json_from_u64(self.labels.len() as u64),
            "labels",
            json_strings(&self.labels),
        )
    }

    /// Carries out an agent action (see `tabs_action`).
    pub fn execute_action(&mut self, action: &str, params: &serde_json::Value) -> (r: Result<
        serde_json::Value,
        String,
    >)
        ensures
            (final(self).active, reply_view(r)) == tabs_action(
                old(self).labels@.len(),
                old(self).active,
                action@,
                *params,
            ),
            final(self).id == old(self).id,
            final(self).labels == old(self).labels,
    {
        if same_text(action, "select_tab") {
            match read_u64_param(params, "index") {
                Some(idx) => {
                    let idx = idx as usize;
                    if idx < self.labels.len() {
                        self.active = idx;
                        Ok(object1("active", json_from_u64(idx as u64)))
                    } else {
                        Err("Tab index out of range".to_owned())
                    }
                },
                None => Err("Missing 'index' parameter".to_owned()),
            }
        } else {
            Err(unknown_action(action))
        }
    }

    /// The identifier an agent addresses the tabs by.
    pub fn agent_id(&self) -> (r: Option<&str>)
        ensures
            r matches Some(s) && s@ == self.id@,
    {
        Some(self.id.as_str())
    }
}

/// A collapsible panel container.
pub struct Panel {
    pub id: String,
    pub title: String,
    pub collapsed: bool,
}

/// The reply `{"collapsed": collapsed}`.
pub open spec fn collapse_reply(collapsed: bool) -> serde_json::Value {
    json_of_entries(seq![("collapsed"@, json_of_bool(collapsed))])
}

/// What an agent action does to a panel: whether it is collapsed
/// afterwards, and the reply. "toggle" flips the state, "expand" and
/// "collapse" set it; any other action changes nothing and is refused.
pub open spec fn panel_action(collapsed: bool, action: Seq<char>) -> (bool, Result<
    serde_json::Value,
    Seq<char>,
>) {
    if action == "toggle"@ {
        (!collapsed, Ok(collapse_reply(!collapsed)))
    } else if action == "expand"@ {
        (false, Ok(collapse_reply(false)))
    } else if action == "collapse"@ {
        (true, Ok(collapse_reply(true)))
    } else {
        (collapsed, Err(unknown_action_text(action)))
    }
}

impl Panel {
    /// An expanded panel.
    pub fn new(id: &str, title: &str) -> (r: Self)
        ensures
            r.id@ == id@,
            r.title@ == title@,
            !r.collapsed,
    {
        Panel { id: id.to_owned(), title: title.to_owned(), collapsed: false }
    }

    pub fn collapsed(self, collapsed: bool) -> (r: Self)
        ensures
            r.collapsed == collapsed,
            r.id == self.id,
            r.title == self.title,
    {
        let mut s = self;
        s.collapsed = collapsed;
        s
    }

    /// The actions an agent can invoke: "toggle", "expand" and "collapse".
    pub fn actions(&self) -> (r: Vec<AgentAction>)
        ensures
            r@.len() == 3,
            is_simple_action(r@[0], "toggle"@, "Toggle panel collapse"@, true),
            is_simple_action(r@[1], "expand"@, "Expand the panel"@, true),
            is_simple_action(r@[2], "collapse"@, "Collapse the panel"@, true),
    {
        vec![
            AgentAction::simple("toggle", "Toggle panel collapse", true),
            AgentAction::simple("expand", "Expand the panel", true),
            AgentAction::simple("collapse", "Collapse the panel", true),
        ]
    }

    /// The state an agent sees: `{"title": .., "collapsed": ..}`.
    pub fn agent_state(&self) -> (r: serde_json::Value)
        ensures
            r == json_of_entries(
                seq![("title"@, json_of_str(self.title@)), ("collapsed"@, json_of_bool(self.collapsed))],
            ),
    {
        object2("title", json_text(self.title.as_str()), "collapsed", json_from_bool(self.collapsed))
    }

    /// Carries out an agent action (see `panel_action`).
    pub fn execute_action(&mut self, action: &str, _params: &serde_json::Value) -> (r: Result<
        serde_json::Value,
        String,
    >)
        ensures
            (final(self).collapsed, reply_view(r)) == panel_action(old(self).collapsed, action@),
            final(self).id == old(self).id,
            final(self).title == old(self).title,
    {
        if same_text(action, "toggle") {
            self.collapsed = !self.collapsed;
            Ok(object1("collapsed", json_from_bool(self.collapsed)))
        } else if same_text(action, "expand") {
            self.collapsed = false;
            Ok(object1("collapsed", json_from_bool(false)))
        } else if same_text(action, "collapse") {
            self.collapsed = true;
            Ok(object1("collapsed", json_from_bool(true)))
        } else {
            Err(unknown_action(action))
        }
    }

    /// The identifier an agent addresses the panel by.
    pub fn agent_id(&self) -> (r: Option<&str>)
        ensures
            r matches Some(s) && s@ == self.id@,
    {
        Some(self.id.as_str())
    }
}

/// Toggling a panel twice through agent actions brings back its state,
/// and both toggles succeed.
pub proof fn lemma_panel_toggle_twice(collapsed: bool)
    ensures
        panel_action(panel_action(collapsed, "toggle"@).0, "toggle"@).0 == collapsed,
        panel_action(collapsed, "toggle"@).1 is Ok,
{
}

} // verus!
