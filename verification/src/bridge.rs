//! Forwards menu activations to the user interface.
//!
//! Only action items speak: activating one yields an event that carries its
//! identifier, unchanged. Separators, submenus and platform entries yield
//! nothing.

use vstd::prelude::*;
use crate::menu::{action_ids, node_action_ids, Menu, MenuNode, NodeView};

verus! {

/// The name of the channel on which menu events reach the user interface.
pub const MENU_EVENT_CHANNEL: &'static str = "menu-action";

/// The signal that an action item was activated. It carries the item's
/// identifier and nothing else.
#[derive(Clone, Debug, PartialEq, Eq)]
pub struct MenuActionEvent {
    pub id: String,
}

impl View for MenuActionEvent {
    type V = Seq<char>;

    open spec fn view(&self) -> Seq<char> {
        self.id@
    }
}

/// The identifier carried by an event, if there is an event.
pub open spec fn carried(event: Option<MenuActionEvent>) -> Option<Seq<char>> {
    match event {
        Some(e) => Some(e@),
        None => None,
    }
}

/// What activating `node` sends: the identifier of an action item, nothing
/// for any other node.
pub open spec fn activation(node: NodeView) -> Option<Seq<char>> {
    match node {
        NodeView::ActionItem { id, .. } => Some(id),
        _ => None,
    }
}

/// What the menu sends when the platform reports that the entry named `id`
/// was activated: `id` itself where it names one of the menu's action
/// items, nothing otherwise.
pub open spec fn forwarded(menu: Seq<NodeView>, id: Seq<char>) -> Option<Seq<char>> {
    if action_ids(menu).contains(id) {
        Some(id)
    } else {
        None
    }
}

impl MenuNode {
    /// The event that activating this node produces.
    pub fn activate(&self) -> (event: Option<MenuActionEvent>)
        ensures
            carried(event) == activation(self@),
    {
        match self {
            MenuNode::ActionItem { id, .. } => Some(MenuActionEvent { id: id.clone() }),
            _ => None,
        }
    }
}

impl Menu {
    /// The event to forward when the platform reports the activation of the
    /// entry named `id`.
    pub fn on_activated(&self, id: &str) -> (event: Option<MenuActionEvent>)
        ensures
            carried(event) == forwarded(self@, id@),
    {
        let ids = self.action_ids();
        let key = id.to_owned();
        for i in 0..ids.len()
            invariant
                key@ == id@,
                ids.deep_view() == action_ids(self@),
                forall|k: int| 0 <= k < i ==> ids.deep_view()[k] != id@,
        {
            assert(ids.deep_view()[i as int] == ids[i as int]@);
            if ids[i] == key {
                assert(action_ids(self@)[i as int] == id@);
                return Some(MenuActionEvent { id: key });
            }
        }
        None
    }
}

/// Whether `node` is `root` or lies somewhere under it.
pub open spec fn node_holds(root: NodeView, node: NodeView) -> bool
    decreases root,
{
    root == node || match root {
        NodeView::Submenu { children, .. } => forest_holds(children, node),
        _ => false,
    }
}

/// Whether `node` is one of `nodes` or lies somewhere under one.
pub open spec fn forest_holds(nodes: Seq<NodeView>, node: NodeView) -> bool
    decreases nodes,
{
    nodes.len() > 0 && (forest_holds(nodes.drop_last(), node) || node_holds(nodes.last(), node))
}

proof fn node_action_is_listed(root: NodeView, node: NodeView)
    requires
        node_holds(root, node),
        node is ActionItem,
    ensures
        node_action_ids(root).contains(node->id),
    decreases root,
{
    if root == node {
        assert(node_action_ids(root)[0] == node->id);
    } else {
        forest_action_is_listed(root->children, node);
    }
}

proof fn forest_action_is_listed(nodes: Seq<NodeView>, node: NodeView)
    requires
        forest_holds(nodes, node),
        node is ActionItem,
    ensures
        action_ids(nodes).contains(node->id),
    decreases nodes,
{
    let head = action_ids(nodes.drop_last());
    let tail = node_action_ids(nodes.last());
    assert(action_ids(nodes) == head + tail);
    if forest_holds(nodes.drop_last(), node) {
        forest_action_is_listed(nodes.drop_last(), node);
        let k = choose|k: int| 0 <= k < head.len() && head[k] == node->id;
        assert((head + tail)[k] == node->id);
    } else {
        node_action_is_listed(nodes.last(), node);
        let k = choose|k: int| 0 <= k < tail.len() && tail[k] == node->id;
        assert((head + tail)[head.len() + k] == node->id);
    }
}

proof fn listed_action_in_node(root: NodeView, id: Seq<char>) -> (node: NodeView)
    requires
        node_action_ids(root).contains(id),
    ensures
        node_holds(root, node),
        activation(node) == Some(id),
    decreases root,
{
    match root {
        NodeView::ActionItem { .. } => root,
        NodeView::Submenu { children, .. } => listed_action_in_forest(children, id),
        _ => root,
    }
}

proof fn listed_action_in_forest(nodes: Seq<NodeView>, id: Seq<char>) -> (node: NodeView)
    requires
        action_ids(nodes).contains(id),
    ensures
        forest_holds(nodes, node),
        activation(node) == Some(id),
    decreases nodes,
{
    let head = action_ids(nodes.drop_last());
    let tail = node_action_ids(nodes.last());
    assert(action_ids(nodes) == if nodes.len() == 0 {
        Seq::empty()
    } else {
        head + tail
    });
    let k = choose|k: int| 0 <= k < action_ids(nodes).len() && action_ids(nodes)[k] == id;
    if k < head.len() {
        assert(head[k] == id);
        listed_action_in_forest(nodes.drop_last(), id)
    } else {
        assert(tail[k - head.len()] == id);
        listed_action_in_node(nodes.last(), id)
    }
}

/// Only action items reach the user interface, and each of them does: an
/// identifier is forwarded exactly when some node of the menu sends it on
/// activation, and it is forwarded as it stands.
pub proof fn only_action_items_are_forwarded(menu: Seq<NodeView>, id: Seq<char>)
    ensures
        forwarded(menu, id) == Some(id) <==> exists|node: NodeView|
            forest_holds(menu, node) && activation(node) == Some(id),
        forwarded(menu, id) is None <==> forall|node: NodeView|
            forest_holds(menu, node) ==> activation(node) != Some(id),
{
    if action_ids(menu).contains(id) {
        let node = listed_action_in_forest(menu, id);
        assert(forest_holds(menu, node) && activation(node) == Some(id));
    } else {
        assert forall|node: NodeView| forest_holds(menu, node) implies activation(node) != Some(
            id,
        ) by {
            if activation(node) == Some(id) {
                forest_action_is_listed(menu, node);
            }
        }
    }
}

/// Separators, submenus and platform entries send nothing.
pub proof fn other_nodes_are_silent(node: NodeView)
    requires
        !(node is ActionItem),
    ensures
        activation(node) is None,
{
}

} // verus!
