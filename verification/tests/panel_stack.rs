use sickle_ui::interaction::DragState;
use sickle_ui::panel_stack::{
    any_priority, panel_drags, index_new_panels, layout_z_index, max_z_index, normalize_z_indices,
    raise_dragged, stack_after_title_drag, MIN_FLOATING_PANEL_Z_INDEX,
    PRIORITY_FLOATING_PANEL_Z_INDEX,
};

#[test]
fn max_index_ignores_unindexed_panels() {
    assert_eq!(max_z_index(&vec![None, Some(7), Some(2)]), 7);
    assert_eq!(max_z_index(&vec![None, None]), 0);
    assert_eq!(max_z_index(&vec![]), 0);
}

#[test]
fn new_panels_are_indexed_above_existing_ones() {
    let z = vec![Some(1005), None, Some(3), None];
    assert_eq!(
        index_new_panels(&z),
        vec![Some(1005), Some(2006), Some(3), Some(2007)]
    );
}

#[test]
fn first_panels_start_above_the_base() {
    assert_eq!(index_new_panels(&vec![None, None]), vec![Some(1001), Some(1002)]);
    assert_eq!(index_new_panels(&vec![]), Vec::<Option<usize>>::new());
}

#[test]
fn indexed_panels_keep_their_index() {
    let z = vec![Some(4), Some(9)];
    assert_eq!(index_new_panels(&z), z);
}

#[test]
fn renumbering_is_a_stable_sort() {
    let z = vec![Some(5), None, Some(5), Some(2)];
    assert_eq!(
        normalize_z_indices(&z),
        vec![Some(1003), Some(1001), Some(1004), Some(1002)]
    );
}

#[test]
fn renumbering_twice_changes_nothing() {
    let z = vec![Some(40), None, Some(7), Some(7), None];
    let once = normalize_z_indices(&z);
    assert_eq!(normalize_z_indices(&once), once);
    let mut values: Vec<usize> = once.iter().map(|v| v.unwrap()).collect();
    values.sort();
    assert_eq!(values, vec![1001, 1002, 1003, 1004, 1005]);
}

#[test]
fn raising_puts_dragged_panels_above_the_rest_in_order() {
    assert_eq!(raise_dragged(&vec![Some(3), None], &vec![1]), vec![Some(3), Some(4)]);
    assert_eq!(
        raise_dragged(&vec![Some(3), None, Some(1)], &vec![2, 0]),
        vec![Some(5), None, Some(4)]
    );
    assert_eq!(raise_dragged(&vec![Some(3)], &vec![]), vec![Some(3)]);
}

#[test]
fn dragged_panel_comes_to_front() {
    let z = vec![Some(1001), Some(1002), Some(1003)];
    let after = stack_after_title_drag(&z, &vec![0]);
    assert_eq!(after, vec![Some(1003), Some(1001), Some(1002)]);
    assert_eq!(after[0], Some(MIN_FLOATING_PANEL_Z_INDEX + z.len()));
}

#[test]
fn last_dragged_panel_comes_to_front() {
    let z = vec![Some(1001), Some(1002), Some(1003)];
    assert_eq!(
        stack_after_title_drag(&z, &vec![0, 1]),
        vec![Some(1002), Some(1003), Some(1001)]
    );
    assert_eq!(
        stack_after_title_drag(&z, &vec![1, 1]),
        vec![Some(1001), Some(1003), Some(1002)]
    );
}

#[test]
fn title_drag_without_drag_only_renumbers() {
    let z = vec![Some(20), Some(10)];
    assert_eq!(stack_after_title_drag(&z, &vec![]), vec![Some(1002), Some(1001)]);
}

#[test]
fn priority_is_detected() {
    assert!(!any_priority(&vec![]));
    assert!(!any_priority(&vec![false, false]));
    assert!(any_priority(&vec![false, true]));
}

#[test]
fn layout_index_follows_priority_then_own_index() {
    assert_eq!(
        layout_z_index(true, Some(5)),
        Some(PRIORITY_FLOATING_PANEL_Z_INDEX as i32)
    );
    assert_eq!(layout_z_index(true, None), Some(10000));
    assert_eq!(layout_z_index(false, Some(1003)), Some(1003));
    assert_eq!(layout_z_index(false, None), None);
    assert_eq!(layout_z_index(false, Some(usize::MAX)), Some(-1));
}

#[test]
fn only_moving_drags_of_existing_panels_count() {
    let events = vec![
        (DragState::Dragging, Some(2), true),
        (DragState::Inactive, Some(0), true),
        (DragState::MaybeDragged, Some(0), true),
        (DragState::DragCanceled, Some(0), true),
        (DragState::DragStart, None, true),
        (DragState::DragEnd, Some(1), false),
        (DragState::DragStart, Some(0), true),
        (DragState::DragEnd, Some(2), true),
    ];
    assert_eq!(panel_drags(&events), vec![(0, 2), (6, 0), (7, 2)]);
    assert_eq!(panel_drags(&vec![]), Vec::<(usize, usize)>::new());
}
