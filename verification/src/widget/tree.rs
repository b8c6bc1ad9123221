//! TreeView widget with hierarchical expand/collapse nodes.

use vstd::prelude::*;
use crate::ontology::action::AgentAction;
use crate::ontology::agent::{
    is_simple_action, json_text, object1, object3, reply_view, same_text, unknown_action,
    unknown_action_text,
};
use crate::ontology::json::{json_from_bool, json_from_u64, json_of_bool, json_of_entries, json_of_str, json_of_u64};

verus! {

/// A node in a tree hierarchy.
#[derive(Debug)]
pub struct TreeNode {
    pub id: String,
    pub label: String,
    pub children: Vec<TreeNode>,
    pub expanded: bool,
}

/// The number of visible rows of a subtree: the node itself, plus the
/// visible rows of its children when it is expanded.
pub open spec fn tree_visible(n: TreeNode) -> nat
    decreases n, 1nat,
{
    1 + if n.expanded {
        forest_visible(n.children@)
    } else {
        0
    }
}

/// The total number of visible rows of a sequence of subtrees.
pub open spec fn forest_visible(s: Seq<TreeNode>) -> nat
    decreases s, 0nat,
{
    if s.len() == 0 {
        0
    } else {
        forest_visible(s.drop_last()) + tree_visible(s.last())
    }
}

proof fn lemma_forest_prefix_le(s: Seq<TreeNode>, i: int)
    requires
        0 <= i <= s.len(),
    ensures
        forest_visible(s.take(i)) <= forest_visible(s),
    decreases s.len(),
{
    if i < s.len() {
        lemma_forest_prefix_le(s.drop_last(), i);
        assert(s.drop_last().take(i) =~= s.take(i));
    } else {
        assert(s.take(i) =~= s);
    }
}

impl TreeNode {
    /// A collapsed leaf node.
    pub fn new(id: &str, label: &str) -> (r: Self)
        ensures
            r.id@ == id@,
            r.label@ == label@,
            r.children@.len() == 0,
            !r.expanded,
    {
        TreeNode { id: id.to_owned(), label: label.to_owned(), children: Vec::new(), expanded: false }
    }

    /// Appends a child.
    pub fn child(self, child: TreeNode) -> (r: Self)
        ensures
            r.children@ == self.children@.push(child),
            r.id == self.id,
            r.label == self.label,
            r.expanded == self.expanded,
    {
        let mut s = self;
        s.children.push(child);
        s
    }

    pub fn expanded(self, expanded: bool) -> (r: Self)
        ensures
            r.expanded == expanded,
            r.id == self.id,
            r.label == self.label,
            r.children@ == self.children@,
    {
        let mut s = self;
        s.expanded = expanded;
        s
    }

    /// Count the total visible (expanded) nodes starting from this node.
    /// The count must fit in `usize`.
    pub fn visible_count(&self) -> (r: usize)
        requires
            tree_visible(*self) <= usize::MAX,
        ensures
            r == tree_visible(*self),
        decreases *self,
    {
        let mut count: usize = 1;
        if self.expanded {
            let n = self.children.len();
            let mut i: usize = 0;
            while i < n
                invariant
                    n == self.children@.len(),
                    i <= n,
                    self.expanded,
                    tree_visible(*self) <= usize::MAX,
                    count == 1 + forest_visible(self.children@.take(i as int)),
                decreases n - i,
            {
                let ghost s = self.children@;
                proof {
                    assert(s.take(i + 1).drop_last() =~= s.take(i as int));
                    lemma_forest_prefix_le(s, i + 1);
                    assert(decreases_to!(*self => self.children@[i as int]));
                }
                let c = self.children[i].visible_count();
                count = count + c;
                i = i + 1;
            }
            proof {
                assert(self.children@.take(n as int) =~= self.children@);
            }
        }
        count
    }
}

/// Two subtrees with the same ids, labels, expansion and shape.
pub open spec fn same_tree(a: TreeNode, b: TreeNode) -> bool
    decreases a, 1nat,
{
    &&& a.id == b.id
    &&& a.label == b.label
    &&& a.expanded == b.expanded
    &&& same_forest(a.children@, b.children@)
}

/// Two sequences of subtrees that are pairwise the same.
pub open spec fn same_forest(s: Seq<TreeNode>, t: Seq<TreeNode>) -> bool
    decreases s, 0nat,
{
    &&& s.len() == t.len()
    &&& s.len() > 0 ==> same_forest(s.drop_last(), t.drop_last()) && same_tree(s.last(), t.last())
}

impl TreeNode {
    /// A copy of this subtree.
    pub fn deep_copy(&self) -> (r: Self)
        ensures
            same_tree(r, *self),
        decreases *self,
    {
        let n = self.children.len();
        let mut children: Vec<TreeNode> = Vec::new();
        let mut i: usize = 0;
        while i < n
            invariant
                n == self.children@.len(),
                i <= n,
                same_forest(children@, self.children@.take(i as int)),
            decreases n - i,
        {
            proof {
                assert(decreases_to!(*self => self.children@[i as int]));
            }
            let c = self.children[i].deep_copy();
            let ghost before = children@;
            children.push(c);
            proof {
                assert(children@.drop_last() =~= before);
                assert(self.children@.take(i + 1).drop_last() =~= self.children@.take(i as int));
            }
            i = i + 1;
        }
        let r = TreeNode {
            id: self.id.clone(),
            label: self.label.clone(),
            children,
            expanded: self.expanded,
        };
        assert(self.children@.take(n as int) =~= self.children@);
        r
    }
}

impl Clone for TreeNode {
    fn clone(&self) -> (r: Self)
        ensures
            same_tree(r, *self),
    {
        self.deep_copy()
    }
}

/// A node always shows at least its own row; a collapsed node shows only
/// its own row; appending a child adds that child's rows exactly when the
/// node is expanded.
pub proof fn lemma_visible_rows(n: TreeNode, c: TreeNode)
    ensures
        tree_visible(n) >= 1,
        !n.expanded ==> tree_visible(n) == 1,
        forest_visible(n.children@.push(c)) == forest_visible(n.children@) + tree_visible(c),
{
    assert(n.children@.push(c).drop_last() =~= n.children@);
}

/// The rows of several subtrees add up: those of two runs of subtrees
/// together are the sum of each run's rows; an expanded node shows its
/// own row and every visible row of its children; a node without children
/// shows one row whatever its expansion.
pub proof fn lemma_visible_rows_add(n: TreeNode, s: Seq<TreeNode>, t: Seq<TreeNode>)
    ensures
        forest_visible(Seq::<TreeNode>::empty()) == 0,
        forest_visible(s + t) == forest_visible(s) + forest_visible(t),
        n.expanded ==> tree_visible(n) == 1 + forest_visible(n.children@),
        n.children@.len() == 0 ==> tree_visible(n) == 1,
    decreases t.len(),
{
    if t.len() == 0 {
        assert(s + t =~= s);
    } else {
        assert((s + t).drop_last() =~= s + t.drop_last());
        lemma_visible_rows_add(n, s, t.drop_last());
    }
}

/// Subtrees with the same shape and expansion show the same number of
/// rows; in particular a clone shows as many rows as the tree it copies.
pub proof fn lemma_same_tree_visible(a: TreeNode, b: TreeNode)
    requires
        same_tree(a, b),
    ensures
        tree_visible(a) == tree_visible(b),
    decreases a, 1nat,
{
    lemma_same_forest_visible(a.children@, b.children@);
}

proof fn lemma_same_forest_visible(s: Seq<TreeNode>, t: Seq<TreeNode>)
    requires
        same_forest(s, t),
    ensures
        forest_visible(s) == forest_visible(t),
    decreases s, 0nat,
{
    if s.len() > 0 {
        lemma_same_forest_visible(s.drop_last(), t.drop_last());
        lemma_same_tree_visible(s.last(), t.last());
    }
}

/// A hierarchical tree view widget.
pub struct TreeView {
    pub id: String,
    pub root: TreeNode,
}

/// The reply `{"expanded": expanded}`.
pub open spec fn expand_reply(expanded: bool) -> serde_json::Value {
    json_of_entries(seq![("expanded"@, json_of_bool(expanded))])
}

/// What an agent action does to a tree view: whether its root is expanded
/// afterwards, and the reply. "expand" and "collapse" set the root's
/// state; any other action changes nothing and is refused.
pub open spec fn tree_action(expanded: bool, action: Seq<char>) -> (bool, Result<
    serde_json::Value,
    Seq<char>,
>) {
    if action == "expand"@ {
        (true, Ok(expand_reply(true)))
    } else if action == "collapse"@ {
        (false, Ok(expand_reply(false)))
    } else {
        (expanded, Err(unknown_action_text(action)))
    }
}

impl TreeView {
    pub fn new(id: &str, root: TreeNode) -> (r: Self)
        ensures
            r.id@ == id@,
            r.root == root,
    {
        TreeView { id: id.to_owned(), root }
    }

    /// The actions an agent can invoke: "expand" and "collapse".
    pub fn actions(&self) -> (r: Vec<AgentAction>)
        ensures
            r@.len() == 2,
            is_simple_action(r@[0], "expand"@, "Expand a node"@, true),
            is_simple_action(r@[1], "collapse"@, "Collapse a node"@, true),
    {
        vec![
            AgentAction::simple("expand", "Expand a node", true),
            AgentAction::simple("collapse", "Collapse a node", true),
        ]
    }

    /// The state an agent sees: `{"root_label": .., "root_expanded": ..,
    /// "visible_nodes": ..}`. The number of visible rows must fit in `usize`.
    pub fn agent_state(&self) -> (r: serde_json::Value)
        requires
            tree_visible(self.root) <= usize::MAX,
        ensures
            r == json_of_entries(
                seq![
                    ("root_label"@, json_of_str(self.root.label@)),
                    ("root_expanded"@, json_of_bool(self.root.expanded)),
                    ("visible_nodes"@, json_of_u64(tree_visible(self.root) as u64)),
                ],
            ),
    {
        let n = self.root.visible_count();
        object3(
            "root_label",
            json_text(self.root.label.as_str()),
            "root_expanded",
            json_from_bool(self.root.expanded),
            "visible_nodes",
            json_from_u64(n as u64),
        )
    }

    /// Carries out an agent action on the root (see `tree_action`).
    pub fn execute_action(&mut self, action: &str, _params: &serde_json::Value) -> (r: Result<
        serde_json::Value,
        String,
    >)
        ensures
            (final(self).root.expanded, reply_view(r)) == tree_action(
                old(self).root.expanded,
                action@,
            ),
            final(self).id == old(self).id,
            final(self).root.id == old(self).root.id,
            final(self).root.label == old(self).root.label,
            final(self).root.children == old(self).root.children,
    {
        if same_text(action, "expand") {
            self.root.expanded = true;
            Ok(object1("expanded", json_from_bool(true)))
        } else if same_text(action, "collapse") {
            self.root.expanded = false;
            Ok(object1("expanded", json_from_bool(false)))
        } else {
            Err(unknown_action(action))
        }
    }

    /// The identifier an agent addresses the tree view by.
    pub fn agent_id(&self) -> (r: Option<&str>)
        ensures
            r matches Some(s) && s@ == self.id@,
    {
        Some(self.id.as_str())
    }
}

/// Collapsing the root through an agent action leaves one visible row.
pub proof fn lemma_tree_collapse_hides_children(root: TreeNode)
    ensures
        ({
            let (expanded, _reply) = tree_action(root.expanded, "collapse"@);
            tree_visible(TreeNode { expanded, ..root }) == 1
        }),
{
    reveal_strlit("expand");
    reveal_strlit("collapse");
    assert("collapse"@.len() != "expand"@.len());
}

} // verus!
