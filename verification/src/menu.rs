//! The application menu: a tree of nodes with fixed labels, identifiers and
//! accelerators.

use vstd::prelude::*;

pub use crate::catalog::build_menu;

verus! {

/// A behaviour that the host platform supplies for a menu entry.
#[derive(Clone, Copy, Debug, PartialEq, Eq, Structural)]
pub enum PredefinedKind {
    Undo,
    Redo,
    Cut,
    Copy,
    Paste,
    SelectAll,
    Quit,
}

/// One node of the menu tree.
#[derive(Debug, PartialEq, Eq)]
pub enum MenuNode {
    /// A leaf that reports its identifier when the user activates it.
    ActionItem { id: String, label: String, enabled: bool, accelerator: Option<String> },
    /// A labelled group of nodes, in display order.
    Submenu { label: String, enabled: bool, children: Vec<MenuNode> },
    /// A dividing line.
    Separator,
    /// A leaf whose behaviour belongs to the platform; it has no identifier.
    PredefinedItem { kind: PredefinedKind, label: String },
}

/// The mathematical value of a [`MenuNode`].
pub enum NodeView {
    ActionItem { id: Seq<char>, label: Seq<char>, enabled: bool, accelerator: Option<Seq<char>> },
    Submenu { label: Seq<char>, enabled: bool, children: Seq<NodeView> },
    Separator,
    PredefinedItem { kind: PredefinedKind, label: Seq<char> },
}

impl View for MenuNode {
    type V = NodeView;

    open spec fn view(&self) -> NodeView
        decreases self,
    {
        match self {
            MenuNode::ActionItem { id, label, enabled, accelerator } => NodeView::ActionItem {
                id: id@,
                label: label@,
                enabled: *enabled,
                accelerator: accelerator.deep_view(),
            },
            MenuNode::Submenu { label, enabled, children } => NodeView::Submenu {
                label: label@,
                enabled: *enabled,
                children: forest_view(children@),
            },
            MenuNode::Separator => NodeView::Separator,
            MenuNode::PredefinedItem { kind, label } => NodeView::PredefinedItem {
                kind: *kind,
                label: label@,
            },
        }
    }
}

/// The values of a run of nodes, in order.
pub open spec fn forest_view(nodes: Seq<MenuNode>) -> Seq<NodeView>
    decreases nodes,
{
    if nodes.len() == 0 {
        Seq::empty()
    } else {
        forest_view(nodes.drop_last()).push(nodes.last().view())
    }
}

/// A run of nodes is viewed node by node.
pub proof fn forest_view_is_pointwise(nodes: Seq<MenuNode>)
    ensures
        forest_view(nodes).len() == nodes.len(),
        forall|i: int| 0 <= i < nodes.len() ==> (#[trigger] forest_view(nodes)[i]) == nodes[i]@,
    decreases nodes.len(),
{
    if nodes.len() > 0 {
        forest_view_is_pointwise(nodes.drop_last());
        assert(forest_view(nodes) == forest_view(nodes.drop_last()).push(nodes.last()@));
    } else {
        assert(forest_view(nodes) == Seq::<NodeView>::empty());
    }
}

/// The identifiers of the action items under `node`, in display order.
pub open spec fn node_action_ids(node: NodeView) -> Seq<Seq<char>>
    decreases node,
{
    match node {
        NodeView::ActionItem { id, .. } => seq![id],
        NodeView::Submenu { children, .. } => action_ids(children),
        _ => Seq::empty(),
    }
}

/// The identifiers of the action items under `nodes`, in display order.
pub open spec fn action_ids(nodes: Seq<NodeView>) -> Seq<Seq<char>>
    decreases nodes,
{
    if nodes.len() == 0 {
        Seq::empty()
    } else {
        action_ids(nodes.drop_last()) + node_action_ids(nodes.last())
    }
}

/// The accelerators of the action items under `node`, in display order.
pub open spec fn node_accelerators(node: NodeView) -> Seq<Seq<char>>
    decreases node,
{
    match node {
        NodeView::ActionItem { accelerator: Some(chord), .. } => seq![chord],
        NodeView::Submenu { children, .. } => accelerators(children),
        _ => Seq::empty(),
    }
}

/// The accelerators of the action items under `nodes`, in display order.
pub open spec fn accelerators(nodes: Seq<NodeView>) -> Seq<Seq<char>>
    decreases nodes,
{
    if nodes.len() == 0 {
        Seq::empty()
    } else {
        accelerators(nodes.drop_last()) + node_accelerators(nodes.last())
    }
}

/// A tree is well formed when no identifier and no accelerator occurs twice
/// in it.
pub open spec fn well_formed(nodes: Seq<NodeView>) -> bool {
    action_ids(nodes).no_duplicates() && accelerators(nodes).no_duplicates()
}

impl MenuNode {
    /// An action item.
    pub fn action_item(id: &str, label: &str, enabled: bool, accelerator: Option<&str>) -> (node:
        MenuNode)
        ensures
            node@ == (NodeView::ActionItem {
                id: id@,
                label: label@,
                enabled,
                accelerator: match accelerator {
                    Some(chord) => Some(chord@),
                    None => None,
                },
            }),
    {
        let accelerator = match accelerator {
            Some(chord) => Some(chord.to_owned()),
            None => None,
        };
        MenuNode::ActionItem { id: id.to_owned(), label: label.to_owned(), enabled, accelerator }
    }

    /// A submenu holding `children` in the given order.
    pub fn submenu(label: &str, enabled: bool, children: Vec<MenuNode>) -> (node: MenuNode)
        ensures
            node@ == (NodeView::Submenu {
                label: label@,
                enabled,
                children: forest_view(children@),
            }),
    {
        MenuNode::Submenu { label: label.to_owned(), enabled, children }
    }

    /// A separator.
    pub fn separator() -> (node: MenuNode)
        ensures
            node@ == NodeView::Separator,
    {
        MenuNode::Separator
    }

    /// A platform entry of the given kind, shown as `label`.
    pub fn predefined(kind: PredefinedKind, label: &str) -> (node: MenuNode)
        ensures
            node@ == (NodeView::PredefinedItem { kind, label: label@ }),
    {
        MenuNode::PredefinedItem { kind, label: label.to_owned() }
    }
}

/// The menu bar: its top-level nodes, in display order.
#[derive(Debug, PartialEq, Eq)]
pub struct Menu {
    pub items: Vec<MenuNode>,
}

impl View for Menu {
    type V = Seq<NodeView>;

    open spec fn view(&self) -> Seq<NodeView> {
        forest_view(self.items@)
    }
}

/// Appending a node appends its identifiers.
pub proof fn action_ids_push(nodes: Seq<NodeView>, node: NodeView)
    ensures
        action_ids(nodes.push(node)) == action_ids(nodes) + node_action_ids(node),
{
    assert(nodes.push(node).drop_last() =~= nodes);
}

/// Appending a node appends its value.
pub proof fn forest_view_push(nodes: Seq<MenuNode>, node: MenuNode)
    ensures
        forest_view(nodes.push(node)) == forest_view(nodes).push(node@),
{
    assert(nodes.push(node).drop_last() =~= nodes);
}

fn collect_action_ids(nodes: &Vec<MenuNode>, ids: &mut Vec<String>)
    ensures
        final(ids).deep_view() == old(ids).deep_view() + action_ids(forest_view(nodes@)),
    decreases nodes,
{
    let ghost before = ids.deep_view();
    assert(nodes@.take(0) =~= Seq::<MenuNode>::empty());
    assert(forest_view(nodes@.take(0)) == Seq::<NodeView>::empty());
    assert(action_ids(forest_view(nodes@.take(0))) == Seq::<Seq<char>>::empty());
    assert(ids.deep_view() =~= before + action_ids(forest_view(nodes@.take(0))));
    for i in 0..nodes.len()
        invariant
            ids.deep_view() == before + action_ids(forest_view(nodes@.take(i as int))),
    {
        let ghost seen = nodes@.take(i as int);
        let ghost so_far = ids.deep_view();
        proof {
            assert(nodes@.take(i + 1) =~= seen.push(nodes[i as int]));
            forest_view_push(seen, nodes[i as int]);
            action_ids_push(forest_view(seen), nodes[i as int]@);
        }
        match &nodes[i] {
            MenuNode::ActionItem { id, .. } => {
                ids.push(id.clone());
                assert(ids.deep_view() =~= so_far + seq![id@]);
            },
            MenuNode::Submenu { children, .. } => {
                collect_action_ids(children, ids);
            },
            _ => {
                assert(ids.deep_view() =~= so_far + Seq::<Seq<char>>::empty());
            },
        }
        assert(ids.deep_view() =~= before + action_ids(forest_view(nodes@.take(i + 1))));
    }
    assert(nodes@.take(nodes.len() as int) =~= nodes@);
}

impl Menu {
    /// The identifiers of the menu's action items, in display order.
    pub fn action_ids(&self) -> (ids: Vec<String>)
        ensures
            ids.deep_view() == action_ids(self@),
    {
        let mut ids: Vec<String> = Vec::new();
        assert(ids.deep_view() =~= Seq::<Seq<char>>::empty());
        collect_action_ids(&self.items, &mut ids);
        ids
    }
}

} // verus!
