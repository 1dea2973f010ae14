use sickle_ui::hierarchy::{
    foldable_refresh, hierarchy_title, node_label, refresh_target, FoldableRefresh,
    HierarchyContainer, HierarchyNode,
};

#[test]
fn new_browser_selects_nothing() {
    let c = HierarchyContainer::new(7, 9);
    assert_eq!(c.root(), 7);
    assert_eq!(c.component_list(), 9);
    assert_eq!(c.selected(), None);
}

#[test]
fn selecting_highlights_exactly_that_node() {
    let mut c = HierarchyContainer::new(1, 2);
    assert!(c.select(42));
    assert_eq!(c.selected(), Some(42));
    assert!(!c.select(42));
    assert!(c.highlights(&HierarchyNode::new(5, 42)));
    assert!(!c.highlights(&HierarchyNode::new(5, 43)));
    assert!(c.select(43));
    assert!(c.highlights(&HierarchyNode::new(5, 43)));
    assert_eq!(c.root(), 1);
    assert_eq!(c.component_list(), 2);
}

#[test]
fn clearing_highlights_nothing() {
    let mut c = HierarchyContainer::new(1, 2);
    c.select(3);
    c.clear_selection();
    assert_eq!(c.selected(), None);
    assert!(!c.highlights(&HierarchyNode::new(5, 3)));
}

#[test]
fn component_list_follows_the_selection() {
    let mut c = HierarchyContainer::new(1, 2);
    assert_eq!(c.listing_update(None), None);
    assert_eq!(c.listing_update(Some(4)), Some(None));
    c.select(4);
    assert_eq!(c.listing_update(Some(4)), None);
    assert_eq!(c.listing_update(None), Some(Some(4)));
    assert_eq!(c.listing_update(Some(5)), Some(Some(4)));
}

#[test]
fn node_knows_its_browser_and_target() {
    let n = HierarchyNode::new(10, 20);
    assert_eq!(n.target(), 20);
    assert_eq!(n.hierarchy(), 10);
    assert!(n.belongs_to(10));
    assert!(!n.belongs_to(20));
}

#[test]
fn foldable_refresh_cases() {
    assert_eq!(
        foldable_refresh(true, true, true),
        FoldableRefresh { clear: false, spawn_children: false, mark_empty: false }
    );
    assert_eq!(
        foldable_refresh(false, true, true),
        FoldableRefresh { clear: true, spawn_children: true, mark_empty: false }
    );
    assert_eq!(
        foldable_refresh(false, true, false),
        FoldableRefresh { clear: true, spawn_children: false, mark_empty: true }
    );
    assert_eq!(
        foldable_refresh(false, false, true),
        FoldableRefresh { clear: true, spawn_children: false, mark_empty: false }
    );
    assert_eq!(
        foldable_refresh(false, false, false),
        FoldableRefresh { clear: true, spawn_children: false, mark_empty: true }
    );
}

#[test]
fn first_usable_refresh_press_wins() {
    assert_eq!(refresh_target(&vec![], &vec![]), None);
    assert_eq!(refresh_target(&vec![true, true, true], &vec![false, true, true]), Some(1));
    assert_eq!(refresh_target(&vec![false, true], &vec![true, false]), None);
}

#[test]
fn node_labels() {
    assert_eq!(node_label("3v1", Some("Camera")), "[3v1] Camera");
    assert_eq!(node_label("3v1", None), "[3v1]");
    assert_eq!(node_label("", Some("")), "[] ");
}

#[test]
fn browser_title() {
    assert_eq!(hierarchy_title("0v1"), "Hierarchy of [0v1]");
}
