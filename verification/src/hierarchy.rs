//! The entity hierarchy browser: which node is selected, which nodes are
//! highlighted, what a foldable node does when it is opened or closed, and
//! the labels of its nodes. Entities are identified by their 64-bit ids.
use vstd::prelude::*;

verus! {

/// A node of a hierarchy browser: the browser it belongs to and the entity it
/// shows.
#[derive(Clone, Copy, Debug, PartialEq, Eq, Structural)]
pub struct HierarchyNode {
    hierarchy: u64,
    entity: u64,
}

impl HierarchyNode {
    /// The browser that the node belongs to.
    pub closed spec fn spec_hierarchy(&self) -> u64 {
        self.hierarchy
    }

    /// The entity that the node shows.
    pub closed spec fn spec_target(&self) -> u64 {
        self.entity
    }

    /// A node of browser `hierarchy` showing `entity`.
    pub fn new(hierarchy: u64, entity: u64) -> (n: Self)
        ensures
            n.spec_hierarchy() == hierarchy,
            n.spec_target() == entity,
    {
        HierarchyNode { hierarchy, entity }
    }

    /// The entity that the node shows.
    pub fn target(&self) -> (e: u64)
        ensures
            e == self.spec_target(),
    {
        self.entity
    }

    /// The browser that the node belongs to.
    pub fn hierarchy(&self) -> (h: u64)
        ensures
            h == self.spec_hierarchy(),
    {
        self.hierarchy
    }

    /// Whether the node belongs to the browser `hierarchy`.
    pub fn belongs_to(&self, hierarchy: u64) -> (r: bool)
        ensures
            r == (self.spec_hierarchy() == hierarchy),
    {
        self.hierarchy == hierarchy
    }
}

/// A hierarchy browser: the entity at its root, the selected entity if any,
/// and the component list that shows the selected entity.
#[derive(Clone, Copy, Debug, PartialEq, Eq, Structural)]
pub struct HierarchyContainer {
    root: u64,
    selected: Option<u64>,
    component_list: u64,
}

impl HierarchyContainer {
    /// The entity at the root of the browser.
    pub closed spec fn spec_root(&self) -> u64 {
        self.root
    }

    /// The selected entity, if any.
    pub closed spec fn spec_selected(&self) -> Option<u64> {
        self.selected
    }

    /// The component list that shows the selected entity.
    pub closed spec fn spec_component_list(&self) -> u64 {
        self.component_list
    }

    /// A browser of the hierarchy under `root`, with nothing selected.
    pub fn new(root: u64, component_list: u64) -> (c: Self)
        ensures
            c.spec_root() == root,
            c.spec_selected() is None,
            c.spec_component_list() == component_list,
    {
        HierarchyContainer { root, selected: None, component_list }
    }

    /// The entity at the root of the browser.
    pub fn root(&self) -> (r: u64)
        ensures
            r == self.spec_root(),
    {
        self.root
    }

    /// The selected entity, if any.
    pub fn selected(&self) -> (s: Option<u64>)
        ensures
            s == self.spec_selected(),
    {
        self.selected
    }

    /// The component list that shows the selected entity.
    pub fn component_list(&self) -> (l: u64)
        ensures
            l == self.spec_component_list(),
    {
        self.component_list
    }

    /// Selects `entity` (a node of the browser was clicked). Returns whether
    /// the selection changed; the browser is only written to when it did.
    pub fn select(&mut self, entity: u64) -> (changed: bool)
        ensures
            final(self).spec_selected() == Some(entity),
            final(self).spec_root() == old(self).spec_root(),
            final(self).spec_component_list() == old(self).spec_component_list(),
            changed == (old(self).spec_selected() != Some(entity)),
            !changed ==> *final(self) == *old(self),
    {
        if self.selected == Some(entity) {
            false
        } else {
            self.selected = Some(entity);
            true
        }
    }

    /// Clears the selection (the browser is refreshed).
    pub fn clear_selection(&mut self)
        ensures
            final(self).spec_selected() is None,
            final(self).spec_root() == old(self).spec_root(),
            final(self).spec_component_list() == old(self).spec_component_list(),
    {
        self.selected = None;
    }

    /// Whether a node of the browser is highlighted: it shows the selected
    /// entity.
    pub fn highlights(&self, node: &HierarchyNode) -> (r: bool)
        ensures
            r == (self.spec_selected() == Some(node.spec_target())),
    {
        match self.selected {
            Some(selected) => node.entity == selected,
            None => false,
        }
    }

    /// What the component list must show next, given what it shows now:
    /// `Some` of the selection when the two differ, `None` when it already
    /// shows the selection.
    pub fn listing_update(&self, listed: Option<u64>) -> (r: Option<Option<u64>>)
        ensures
            r == if listed == self.spec_selected() {
                None
            } else {
                Some(self.spec_selected())
            },
    {
        let same = match (listed, self.selected) {
            (None, None) => true,
            (Some(a), Some(b)) => a == b,
            _ => false,
        };
        if same {
            None
        } else {
            Some(self.selected)
        }
    }
}

/// Selecting an entity highlights exactly the nodes that show it; clearing
/// the selection highlights none.
pub proof fn law_selection_highlights_its_nodes(
    c: HierarchyContainer,
    entity: u64,
    node: HierarchyNode,
)
    ensures
        c.spec_selected() == Some(entity) ==> ((c.spec_selected() == Some(node.spec_target()))
            <==> node.spec_target() == entity),
        c.spec_selected() is None ==> c.spec_selected() != Some(node.spec_target()),
{
}

/// What happens to a foldable node of the browser when it is opened or
/// closed: its shown children are cleared, the entity's children are shown
/// again, and the node is marked as having no children.
#[derive(Clone, Copy, Debug, PartialEq, Eq, Structural)]
pub struct FoldableRefresh {
    pub clear: bool,
    pub spawn_children: bool,
    pub mark_empty: bool,
}

/// A node already known to be empty is left alone; otherwise its shown
/// children are cleared, the entity's children are shown when the node is
/// open and the entity has children, and the node is marked empty when the
/// entity has no children.
pub fn foldable_refresh(empty: bool, open: bool, has_children: bool) -> (r: FoldableRefresh)
    ensures
        empty ==> r == (FoldableRefresh { clear: false, spawn_children: false, mark_empty: false }),
        !empty ==> r == (FoldableRefresh {
            clear: true,
            spawn_children: open && has_children,
            mark_empty: !has_children,
        }),
{
    if empty {
        FoldableRefresh { clear: false, spawn_children: false, mark_empty: false }
    } else {
        FoldableRefresh { clear: true, spawn_children: open && has_children, mark_empty: !has_children }
    }
}

/// Of the refresh buttons that changed, the one that refreshes its browser:
/// the first that was interacted with and whose browser exists.
pub fn refresh_target(interacted: &Vec<bool>, browser_found: &Vec<bool>) -> (r: Option<usize>)
    requires
        interacted.len() == browser_found.len(),
    ensures
        r matches Some(i) ==> i < interacted.len() && interacted@[i as int] && browser_found@[i as int]
            && forall|k: int| 0 <= k < i ==> !(interacted@[k] && browser_found@[k]),
        r is None ==> forall|k: int|
            0 <= k < interacted.len() ==> !(interacted@[k] && browser_found@[k]),
{
    let mut i: usize = 0;
    while i < interacted.len()
        invariant
            i <= interacted.len(),
            interacted.len() == browser_found.len(),
            forall|k: int| 0 <= k < i ==> !(interacted@[k] && browser_found@[k]),
        decreases interacted.len() - i,
    {
        if interacted[i] && browser_found[i] {
            return Some(i);
        }
        i += 1;
    }
    None
}

/// The label of a node: the entity's debug text in brackets, followed by its
/// name when it has one.
pub open spec fn spec_node_label(entity_text: Seq<char>, name: Option<Seq<char>>) -> Seq<char> {
    match name {
        Some(n) => "["@ + entity_text + "] "@ + n,
        None => "["@ + entity_text + "]"@,
    }
}

/// The label of a node showing the entity whose debug text is `entity_text`
/// and whose name, if it has one, is `name`.
pub fn node_label(entity_text: &str, name: Option<&str>) -> (label: String)
    ensures
        label@ == spec_node_label(
            entity_text@,
            match name {
                Some(n) => Some(n@),
                None => None,
            },
        ),
{
    let mut label = String::from_str("[");
    label.append(entity_text);
    match name {
        Some(n) => {
            label.append("] ");
            label.append(n);
        },
        None => {
            label.append("]");
        },
    }
    label
}

/// The name of a browser of the hierarchy under the entity whose debug text
/// is `root_text`.
pub fn hierarchy_title(root_text: &str) -> (title: String)
    ensures
        title@ == "Hierarchy of ["@ + root_text@ + "]"@,
{
    let mut title = String::from_str("Hierarchy of [");
    title.append(root_text);
    title.append("]");
    title
}

/// A node's label is the entity's text in square brackets, followed, for a
/// named entity, by a space and the whole name: a named label has
/// `e.len() + n.len() + 3` characters, starts with `[`, the entity text and
/// `] `, and ends with the name; an unnamed one has `e.len() + 2` characters
/// and ends with `]`; the named label is the unnamed one with `" "` and the
/// name appended.
pub proof fn law_node_label_shape(e: Seq<char>, n: Seq<char>)
    ensures
        spec_node_label(e, Some(n)).len() == e.len() + n.len() + 3int,
        spec_node_label(e, Some(n))[0] == '[',
        spec_node_label(e, Some(n)).subrange(1, e.len() + 1int) == e,
        spec_node_label(e, Some(n))[e.len() + 1int] == ']',
        spec_node_label(e, Some(n))[e.len() + 2int] == ' ',
        spec_node_label(e, Some(n)).subrange(e.len() + 3int, e.len() + n.len() + 3int) == n,
        spec_node_label(e, None).len() == e.len() + 2int,
        spec_node_label(e, None)[0] == '[',
        spec_node_label(e, None).subrange(1, e.len() + 1int) == e,
        spec_node_label(e, None)[e.len() + 1int] == ']',
        spec_node_label(e, Some(n)) == spec_node_label(e, None) + seq![' '] + n,
{
    reveal_strlit("[");
    reveal_strlit("] ");
    reveal_strlit("]");
    let named = spec_node_label(e, Some(n));
    let unnamed = spec_node_label(e, None);
    assert(named.subrange(1, e.len() + 1int) =~= e);
    assert(named.subrange(e.len() + 3int, e.len() + n.len() + 3int) =~= n);
    assert(unnamed.subrange(1, e.len() + 1int) =~= e);
    assert(named =~= unnamed + seq![' '] + n);
}

} // verus!
