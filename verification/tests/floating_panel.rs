use sickle_ui::floating_panel::{
    plan_children, resize_cursor, resize_handle_rows, ChildrenPlan, FloatingPanelConfig,
    HandleSpan, PanelChildren, PanelCursor, ResizeDirection, ScrollAxis,
};
use sickle_ui::interaction::{DragState, FluxInteraction};

const ALL: [ResizeDirection; 8] = [
    ResizeDirection::North,
    ResizeDirection::NorthEast,
    ResizeDirection::East,
    ResizeDirection::SouthEast,
    ResizeDirection::South,
    ResizeDirection::SouthWest,
    ResizeDirection::West,
    ResizeDirection::NorthWest,
];

#[test]
fn default_direction_is_north() {
    assert_eq!(ResizeDirection::default(), ResizeDirection::North);
}

#[test]
fn each_handle_has_its_cursor() {
    let cursors: Vec<PanelCursor> = ALL.iter().map(|d| d.cursor()).collect();
    assert_eq!(
        cursors,
        vec![
            PanelCursor::NResize,
            PanelCursor::NeResize,
            PanelCursor::EResize,
            PanelCursor::SeResize,
            PanelCursor::SResize,
            PanelCursor::SwResize,
            PanelCursor::WResize,
            PanelCursor::NwResize,
        ]
    );
}

#[test]
fn size_changes_follow_the_dragged_side() {
    let signs: Vec<(i8, i8)> = ALL.iter().map(|d| d.size_change_signs()).collect();
    assert_eq!(
        signs,
        vec![(0, -1), (1, -1), (1, 0), (1, 1), (0, 1), (-1, 1), (-1, 0), (-1, -1)]
    );
}

#[test]
fn position_moves_on_leading_edges() {
    for d in ALL {
        let (sx, sy) = d.size_change_signs();
        let (mx, my) = d.moves_origin();
        assert_eq!(mx, sx == -1);
        assert_eq!(my, sy == -1);
        assert!(sx != 0 || sy != 0);
    }
    assert_eq!(ResizeDirection::NorthWest.moves_origin(), (true, true));
    assert_eq!(ResizeDirection::SouthEast.moves_origin(), (false, false));
}

#[test]
fn handle_spans_cover_their_side() {
    assert_eq!(ResizeDirection::North.handle_spans(), (HandleSpan::Full, HandleSpan::Zone));
    assert_eq!(ResizeDirection::South.handle_spans(), (HandleSpan::Full, HandleSpan::Zone));
    assert_eq!(ResizeDirection::East.handle_spans(), (HandleSpan::Zone, HandleSpan::Full));
    assert_eq!(ResizeDirection::West.handle_spans(), (HandleSpan::Zone, HandleSpan::Full));
    assert_eq!(ResizeDirection::NorthEast.handle_spans(), (HandleSpan::Zone, HandleSpan::Zone));
    assert_eq!(ResizeDirection::SouthWest.handle_spans(), (HandleSpan::Zone, HandleSpan::Zone));
}

#[test]
fn handles_are_laid_out_in_three_rows() {
    let rows = resize_handle_rows();
    assert_eq!(
        rows,
        vec![
            vec![ResizeDirection::NorthWest, ResizeDirection::North, ResizeDirection::NorthEast],
            vec![ResizeDirection::West, ResizeDirection::East],
            vec![ResizeDirection::SouthWest, ResizeDirection::South, ResizeDirection::SouthEast],
        ]
    );
    for d in ALL {
        let count = rows.iter().flatten().filter(|x| **x == d).count();
        assert_eq!(count, 1);
    }
}

#[test]
fn entering_a_handle_shows_its_cursor() {
    let events = vec![(ResizeDirection::East, FluxInteraction::PointerEnter)];
    assert_eq!(resize_cursor(&events, false), (Some(PanelCursor::EResize), false));
}

#[test]
fn pressing_holds_the_cursor() {
    let events = vec![
        (ResizeDirection::East, FluxInteraction::Pressed),
        (ResizeDirection::North, FluxInteraction::PointerEnter),
    ];
    assert_eq!(resize_cursor(&events, false), (Some(PanelCursor::EResize), true));
}

#[test]
fn releasing_restores_the_default_cursor() {
    let events = vec![(ResizeDirection::East, FluxInteraction::Released)];
    assert_eq!(resize_cursor(&events, true), (Some(PanelCursor::Default), false));
    let events = vec![
        (ResizeDirection::South, FluxInteraction::Pressed),
        (ResizeDirection::South, FluxInteraction::PressCanceled),
    ];
    assert_eq!(resize_cursor(&events, false), (Some(PanelCursor::SResize), false));
}

#[test]
fn leaving_a_handle_restores_the_cursor_unless_held() {
    let events = vec![(ResizeDirection::West, FluxInteraction::PointerLeave)];
    assert_eq!(resize_cursor(&events, true), (None, true));
    assert_eq!(resize_cursor(&events, false), (Some(PanelCursor::Default), false));
    let events = vec![
        (ResizeDirection::North, FluxInteraction::PointerEnter),
        (ResizeDirection::North, FluxInteraction::PointerLeave),
    ];
    assert_eq!(resize_cursor(&events, false), (Some(PanelCursor::NResize), false));
}

#[test]
fn hovering_is_ignored_while_held() {
    let events = vec![
        (ResizeDirection::North, FluxInteraction::PointerEnter),
        (ResizeDirection::East, FluxInteraction::PointerLeave),
        (ResizeDirection::West, FluxInteraction::Idle),
        (ResizeDirection::West, FluxInteraction::Disabled),
    ];
    assert_eq!(resize_cursor(&events, true), (None, true));
    assert_eq!(resize_cursor(&vec![], true), (None, true));
    assert_eq!(resize_cursor(&vec![], false), (None, false));
}

#[test]
fn default_config_is_draggable_and_resizable() {
    let c = FloatingPanelConfig::default();
    assert_eq!(c.title, None);
    assert!(c.draggable);
    assert!(c.resizable);
    assert_eq!(c.restrict_scroll, None);
}

fn config(title: Option<&str>, draggable: bool, resizable: bool) -> FloatingPanelConfig {
    FloatingPanelConfig {
        title: title.map(|t| t.to_string()),
        draggable,
        resizable,
        restrict_scroll: Some(ScrollAxis::Vertical),
    }
}

fn children(title: bool, drag_handle: bool, resize_handles: bool) -> PanelChildren {
    PanelChildren { title, drag_handle, resize_handles }
}

#[test]
fn titled_panel_replaces_its_title_and_drops_the_drag_handle() {
    let plan = plan_children(&config(Some("Panel"), true, true), children(true, true, true));
    assert_eq!(
        plan,
        ChildrenPlan {
            despawn_title: true,
            despawn_drag_handle: true,
            spawn_title: true,
            title_draggable: true,
            spawn_drag_handle: false,
            spawn_resize_handles: false,
            despawn_resize_handles: false,
        }
    );
}

#[test]
fn untitled_draggable_panel_gets_a_drag_handle() {
    let plan = plan_children(&config(None, true, false), children(true, false, true));
    assert_eq!(
        plan,
        ChildrenPlan {
            despawn_title: true,
            despawn_drag_handle: false,
            spawn_title: false,
            title_draggable: false,
            spawn_drag_handle: true,
            spawn_resize_handles: false,
            despawn_resize_handles: true,
        }
    );
}

#[test]
fn fixed_panel_loses_its_drag_handle() {
    let plan = plan_children(&config(None, false, true), children(false, true, false));
    assert_eq!(
        plan,
        ChildrenPlan {
            despawn_title: false,
            despawn_drag_handle: true,
            spawn_title: false,
            title_draggable: false,
            spawn_drag_handle: false,
            spawn_resize_handles: true,
            despawn_resize_handles: false,
        }
    );
}

#[test]
fn every_plan_reaches_the_wanted_children() {
    for bits in 0..64u32 {
        let has_title = bits & 1 != 0;
        let draggable = bits & 2 != 0;
        let resizable = bits & 4 != 0;
        let present = children(bits & 8 != 0, bits & 16 != 0, bits & 32 != 0);
        let c = config(if has_title { Some("T") } else { None }, draggable, resizable);
        let p = plan_children(&c, present);
        let title = (present.title && !p.despawn_title) || p.spawn_title;
        let drag = (present.drag_handle && !p.despawn_drag_handle) || p.spawn_drag_handle;
        let resize =
            (present.resize_handles && !p.despawn_resize_handles) || p.spawn_resize_handles;
        assert_eq!(title, has_title);
        assert_eq!(drag, !has_title && draggable);
        assert_eq!(resize, resizable);
        assert_eq!(p.title_draggable, has_title && draggable);
    }
}

#[test]
fn drag_phases_that_move_the_panel() {
    assert!(!DragState::Inactive.moves_target());
    assert!(!DragState::MaybeDragged.moves_target());
    assert!(DragState::DragStart.moves_target());
    assert!(DragState::Dragging.moves_target());
    assert!(DragState::DragEnd.moves_target());
    assert!(!DragState::DragCanceled.moves_target());
}

#[test]
fn only_release_counts_as_released() {
    assert!(FluxInteraction::Released.is_released());
    assert!(!FluxInteraction::Pressed.is_released());
    assert!(!FluxInteraction::PressCanceled.is_released());
    assert!(!FluxInteraction::Idle.is_released());
}
