//! Menu widget with menu items and separators.

use vstd::prelude::*;
use crate::ontology::action::AgentAction;
use crate::ontology::agent::{
    is_simple_action, json_text, object1, object2, read_str_param, reply_view, same_text,
    str_param, unknown_action, unknown_action_text,
};
use crate::ontology::json::{json_from_values, json_of_array, json_of_entries, json_of_str};

verus! {

/// A single item in a menu.
#[derive(Debug, Clone)]
pub enum MenuItem {
    /// A clickable item with an id and display label.
    Item { id: String, label: String },
    /// A visual separator line.
    Separator,
}

impl MenuItem {
    /// Create a clickable menu item.
    pub fn item(id: &str, label: &str) -> (r: Self)
        ensures
            r matches MenuItem::Item { id: i, label: l } && i@ == id@ && l@ == label@,
    {
        MenuItem::Item { id: id.to_owned(), label: label.to_owned() }
    }

    /// Create a separator.
    pub fn separator() -> (r: Self)
        ensures
            r is Separator,
    {
        MenuItem::Separator
    }
}

/// A vertical context/popup menu.
pub struct Menu {
    pub id: String,
    pub items: Vec<MenuItem>,
}

/// The JSON form `{"id": .., "label": ..}` of each clickable item, in
/// order; separators are left out.
pub open spec fn menu_items_json(items: Seq<MenuItem>) -> Seq<serde_json::Value>
    decreases items.len(),
{
    if items.len() == 0 {
        Seq::empty()
    } else {
        let rest = menu_items_json(items.drop_last());
        match items.last() {
            MenuItem::Item { id, label } => rest.push(
                json_of_entries(seq![("id"@, json_of_str(id@)), ("label"@, json_of_str(label@))]),
            ),
            MenuItem::Separator => rest,
        }
    }
}

/// The items an agent sees: a separator adds none, a clickable item adds
/// one `{"id", "label"}` entry, and the entries of two runs of items are
/// those of the first run followed by those of the second.
pub proof fn lemma_menu_items_json(a: Seq<MenuItem>, b: Seq<MenuItem>, id: String, label: String)
    ensures
        menu_items_json(Seq::<MenuItem>::empty()) == Seq::<serde_json::Value>::empty(),
        menu_items_json(a.push(MenuItem::Separator)) == menu_items_json(a),
        menu_items_json(a.push((MenuItem::Item { id, label }))) == menu_items_json(a).push(
            json_of_entries(seq![("id"@, json_of_str(id@)), ("label"@, json_of_str(label@))]),
        ),
        menu_items_json(a + b) == menu_items_json(a) + menu_items_json(b),
    decreases b.len(),
{
    assert(a.push(MenuItem::Separator).drop_last() =~= a);
    assert(a.push(MenuItem::Item { id, label }).drop_last() =~= a);
    if b.len() == 0 {
        assert(a + b =~= a);
        assert(menu_items_json(a) + menu_items_json(b) =~= menu_items_json(a));
    } else {
        lemma_menu_items_json(a, b.drop_last(), id, label);
        assert((a + b).drop_last() =~= a + b.drop_last());
        let x = menu_items_json(a);
        let y = menu_items_json(b.drop_last());
        match b.last() {
            MenuItem::Item { id: i2, label: l2 } => {
                let e = json_of_entries(seq![("id"@, json_of_str(i2@)), ("label"@, json_of_str(l2@))]);
                assert((x + y).push(e) =~= x + y.push(e));
            },
            MenuItem::Separator => {},
        }
    }
}

/// Whether `item` is a clickable item with this id.
pub open spec fn item_has_id(item: MenuItem, id: Seq<char>) -> bool {
    match item {
        MenuItem::Item { id: iid, .. } => iid@ == id,
        MenuItem::Separator => false,
    }
}

/// Whether some clickable item of the menu has this id.
pub open spec fn has_item(items: Seq<MenuItem>, id: Seq<char>) -> bool {
    exists|i: int| 0 <= i < items.len() && item_has_id(#[trigger] items[i], id)
}

/// The reply of a menu to an agent action. "select_item" answers with the
/// id under the "id" parameter when a clickable item has it; any other
/// action is refused. No action changes the menu.
pub open spec fn menu_action(items: Seq<MenuItem>, action: Seq<char>, params: serde_json::Value) -> Result<
    serde_json::Value,
    Seq<char>,
> {
    if action == "select_item"@ {
        match str_param(params, "id"@) {
            Some(id) => if has_item(items, id) {
                Ok(json_of_entries(seq![("selected"@, json_of_str(id))]))
            } else {
                Err("Unknown menu item: "@ + id)
            },
            None => Err("Missing 'id' parameter"@),
        }
    } else {
        Err(unknown_action_text(action))
    }
}

impl Menu {
    pub fn new(id: &str, items: Vec<MenuItem>) -> (r: Self)
        ensures
            r.id@ == id@,
            r.items@ == items@,
    {
        Menu { id: id.to_owned(), items }
    }

    /// The actions an agent can invoke: "select_item".
    pub fn actions(&self) -> (r: Vec<AgentAction>)
        ensures
            r@.len() == 1,
            is_simple_action(r@[0], "select_item"@, "Activate a menu item by id"@, false),
    {
        vec![AgentAction::simple("select_item", "Activate a menu item by id", false)]
    }

    /// The state an agent sees: `{"items": [..]}` with the clickable items.
    pub fn agent_state(&self) -> (r: serde_json::Value)
        ensures
            r == json_of_entries(seq![("items"@, json_of_array(menu_items_json(self.items@)))]),
    {
        let mut out: Vec<serde_json::Value> = Vec::new();
        let mut i: usize = 0;
        while i < self.items.len()
            invariant
                i <= self.items@.len(),
                out@ == menu_items_json(self.items@.subrange(0, i as int)),
            decreases self.items.len() - i,
        {
            proof {
                let next = self.items@.subrange(0, i + 1);
                assert(next.drop_last() =~= self.items@.subrange(0, i as int));
            }
            match &self.items[i] {
                MenuItem::Item { id, label } => {
                    out.push(object2("id", json_text(id.as_str()), "label", json_text(label.as_str())));
                },
                MenuItem::Separator => {},
            }
            i = i + 1;
        }
        proof {
            assert(self.items@.subrange(0, self.items@.len() as int) =~= self.items@);
        }
        object1("items", json_from_values(out))
    }

    /// Carries out an agent action (see `menu_action`); the menu is left
    /// as it was.
    pub fn execute_action(&mut self, action: &str, params: &serde_json::Value) -> (r: Result<
        serde_json::Value,
        String,
    >)
        ensures
            reply_view(r) == menu_action(old(self).items@, action@, *params),
            final(self).id == old(self).id,
            final(self).items == old(self).items,
    {
        if same_text(action, "select_item") {
            match read_str_param(params, "id") {
                Some(id) => {
                    let mut found = false;
                    let mut i: usize = 0;
                    while i < self.items.len()
                        invariant
                            i <= self.items@.len(),
                            found <==> exists|j: int|
                                0 <= j < i && item_has_id(#[trigger] self.items@[j], id@),
                        decreases self.items.len() - i,
                    {
                        match &self.items[i] {
                            MenuItem::Item { id: iid, .. } => {
                                if same_text(iid.as_str(), id) {
                                    found = true;
                                }
                            },
                            MenuItem::Separator => {},
                        }
                        i = i + 1;
                    }
                    if found {
                        Ok(object1("selected", json_text(id)))
                    } else {
                        let mut msg = "Unknown menu item: ".to_owned();
                        msg.push_str(id);
                        Err(msg)
                    }
                },
                None => Err("Missing 'id' parameter".to_owned()),
            }
        } else {
            Err(unknown_action(action))
        }
    }

    /// The identifier an agent addresses the menu by.
    pub fn agent_id(&self) -> (r: Option<&str>)
        ensures
            r matches Some(s) && s@ == self.id@,
    {
        Some(self.id.as_str())
    }
}

} // verus!
