//! Floating panels: the edges and corners by which a panel is resized, the
//! cursor shown over them, and which child nodes a panel's configuration calls
//! for.
use vstd::prelude::*;
use crate::interaction::{DragState, FluxInteraction};

verus! {

/// An edge or corner of a floating panel, by which it can be resized.
#[derive(Clone, Copy, Debug, PartialEq, Eq, Structural)]
pub enum ResizeDirection {
    North,
    NorthEast,
    East,
    SouthEast,
    South,
    SouthWest,
    West,
    NorthWest,
}

impl Default for ResizeDirection {
    fn default() -> (r: Self)
        ensures
            r == ResizeDirection::North,
    {
        ResizeDirection::North
    }
}

/// The mouse cursors that a floating panel shows.
#[derive(Clone, Copy, Debug, PartialEq, Eq, Structural)]
pub enum PanelCursor {
    Default,
    NResize,
    NeResize,
    EResize,
    SeResize,
    SResize,
    SwResize,
    WResize,
    NwResize,
}

/// How far a resize handle extends along one axis: across the whole side of
/// the panel, or only the width of the resize zone.
#[derive(Clone, Copy, Debug, PartialEq, Eq, Structural)]
pub enum HandleSpan {
    Full,
    Zone,
}

/// The cursor shown over the handle of a direction.
pub open spec fn spec_cursor(d: ResizeDirection) -> PanelCursor {
    match d {
        ResizeDirection::North => PanelCursor::NResize,
        ResizeDirection::NorthEast => PanelCursor::NeResize,
        ResizeDirection::East => PanelCursor::EResize,
        ResizeDirection::SouthEast => PanelCursor::SeResize,
        ResizeDirection::South => PanelCursor::SResize,
        ResizeDirection::SouthWest => PanelCursor::SwResize,
        ResizeDirection::West => PanelCursor::WResize,
        ResizeDirection::NorthWest => PanelCursor::NwResize,
    }
}

/// The factors by which a drag's horizontal and vertical movement change the
/// panel's width and height.
pub open spec fn spec_size_change_signs(d: ResizeDirection) -> (int, int) {
    match d {
        ResizeDirection::North => (0, -1),
        ResizeDirection::NorthEast => (1, -1),
        ResizeDirection::East => (1, 0),
        ResizeDirection::SouthEast => (1, 1),
        ResizeDirection::South => (0, 1),
        ResizeDirection::SouthWest => (-1, 1),
        ResizeDirection::West => (-1, 0),
        ResizeDirection::NorthWest => (-1, -1),
    }
}

/// Whether resizing by this handle moves the panel's left and top edges, so
/// that its position follows the drag on that axis.
pub open spec fn spec_moves_origin(d: ResizeDirection) -> (bool, bool) {
    match d {
        ResizeDirection::North => (false, true),
        ResizeDirection::NorthEast => (false, true),
        ResizeDirection::East => (false, false),
        ResizeDirection::SouthEast => (false, false),
        ResizeDirection::South => (false, false),
        ResizeDirection::SouthWest => (true, false),
        ResizeDirection::West => (true, false),
        ResizeDirection::NorthWest => (true, true),
    }
}

/// The width and height spans of the handle of a direction.
pub open spec fn spec_handle_spans(d: ResizeDirection) -> (HandleSpan, HandleSpan) {
    match d {
        ResizeDirection::North | ResizeDirection::South => (HandleSpan::Full, HandleSpan::Zone),
        ResizeDirection::East | ResizeDirection::West => (HandleSpan::Zone, HandleSpan::Full),
        _ => (HandleSpan::Zone, HandleSpan::Zone),
    }
}

impl ResizeDirection {
    /// The cursor shown over this handle.
    pub fn cursor(&self) -> (c: PanelCursor)
        ensures
            c == spec_cursor(*self),
    {
        match self {
            ResizeDirection::North => PanelCursor::NResize,
            ResizeDirection::NorthEast => PanelCursor::NeResize,
            ResizeDirection::East => PanelCursor::EResize,
            ResizeDirection::SouthEast => PanelCursor::SeResize,
            ResizeDirection::South => PanelCursor::SResize,
            ResizeDirection::SouthWest => PanelCursor::SwResize,
            ResizeDirection::West => PanelCursor::WResize,
            ResizeDirection::NorthWest => PanelCursor::NwResize,
        }
    }

    /// The factors (each -1, 0 or 1) by which a drag's horizontal and vertical
    /// movement change the panel's width and height.
    pub fn size_change_signs(&self) -> (s: (i8, i8))
        ensures
            s.0 as int == spec_size_change_signs(*self).0,
            s.1 as int == spec_size_change_signs(*self).1,
    {
        match self {
            ResizeDirection::North => (0, -1),
            ResizeDirection::NorthEast => (1, -1),
            ResizeDirection::East => (1, 0),
            ResizeDirection::SouthEast => (1, 1),
            ResizeDirection::South => (0, 1),
            ResizeDirection::SouthWest => (-1, 1),
            ResizeDirection::West => (-1, 0),
            ResizeDirection::NorthWest => (-1, -1),
        }
    }

    /// Whether resizing by this handle moves the panel's position
    /// horizontally and vertically.
    pub fn moves_origin(&self) -> (m: (bool, bool))
        ensures
            m == spec_moves_origin(*self),
    {
        match self {
            ResizeDirection::North => (false, true),
            ResizeDirection::NorthEast => (false, true),
            ResizeDirection::East => (false, false),
            ResizeDirection::SouthEast => (false, false),
            ResizeDirection::South => (false, false),
            ResizeDirection::SouthWest => (true, false),
            ResizeDirection::West => (true, false),
            ResizeDirection::NorthWest => (true, true),
        }
    }

    /// How far this handle extends horizontally and vertically.
    pub fn handle_spans(&self) -> (s: (HandleSpan, HandleSpan))
        ensures
            s == spec_handle_spans(*self),
    {
        match self {
            ResizeDirection::North | ResizeDirection::South => (HandleSpan::Full, HandleSpan::Zone),
            ResizeDirection::East | ResizeDirection::West => (HandleSpan::Zone, HandleSpan::Full),
            _ => (HandleSpan::Zone, HandleSpan::Zone),
        }
    }
}

/// Resizing moves the panel's position exactly along the axes on which the
/// handle shrinks the panel as the drag goes right or down (its left or top
/// side), and every handle resizes on at least one axis.
pub proof fn law_origin_moves_with_leading_edge(d: ResizeDirection)
    ensures
        spec_moves_origin(d).0 <==> spec_size_change_signs(d).0 == -1,
        spec_moves_origin(d).1 <==> spec_size_change_signs(d).1 == -1,
        spec_size_change_signs(d).0 != 0 || spec_size_change_signs(d).1 != 0,
{
}

/// Distinct handles show distinct cursors, none of them the default one.
pub proof fn law_cursor_identifies_handle(a: ResizeDirection, b: ResizeDirection)
    ensures
        spec_cursor(a) != PanelCursor::Default,
        a != b ==> spec_cursor(a) != spec_cursor(b),
{
}

/// The handles of a panel, row by row: the top row holds the north-west,
/// north and north-east corners and edge, the middle row the west and east
/// edges, the bottom row the south-west, south and south-east ones.
pub open spec fn spec_handle_rows() -> Seq<Seq<ResizeDirection>> {
    seq![
        seq![ResizeDirection::NorthWest, ResizeDirection::North, ResizeDirection::NorthEast],
        seq![ResizeDirection::West, ResizeDirection::East],
        seq![ResizeDirection::SouthWest, ResizeDirection::South, ResizeDirection::SouthEast],
    ]
}

/// The handles of a panel, row by row, in the order in which they are laid out.
pub fn resize_handle_rows() -> (rows: Vec<Vec<ResizeDirection>>)
    ensures
        rows@.len() == 3,
        forall|r: int| 0 <= r < 3 ==> (#[trigger] rows@[r])@ == spec_handle_rows()[r],
{
    let top = vec![ResizeDirection::NorthWest, ResizeDirection::North, ResizeDirection::NorthEast];
    let middle = vec![ResizeDirection::West, ResizeDirection::East];
    let bottom = vec![ResizeDirection::SouthWest, ResizeDirection::South, ResizeDirection::SouthEast];
    let rows = vec![top, middle, bottom];
    assert(rows@[0]@ =~= spec_handle_rows()[0]);
    assert(rows@[1]@ =~= spec_handle_rows()[1]);
    assert(rows@[2]@ =~= spec_handle_rows()[2]);
    rows
}

/// Every direction has exactly one handle.
pub proof fn law_each_direction_has_one_handle(d: ResizeDirection)
    ensures
        exists|r: int, c: int|
            0 <= r < 3 && 0 <= c < spec_handle_rows()[r].len() && spec_handle_rows()[r][c] == d,
        forall|r1: int, c1: int, r2: int, c2: int|
            0 <= r1 < 3 && 0 <= r2 < 3 && 0 <= c1 < spec_handle_rows()[r1].len() && 0 <= c2
                < spec_handle_rows()[r2].len() && spec_handle_rows()[r1][c1] == d
                && spec_handle_rows()[r2][c2] == d ==> r1 == r2 && c1 == c2,
{
    let rows = spec_handle_rows();
    match d {
        ResizeDirection::NorthWest => assert(rows[0][0] == d),
        ResizeDirection::North => assert(rows[0][1] == d),
        ResizeDirection::NorthEast => assert(rows[0][2] == d),
        ResizeDirection::West => assert(rows[1][0] == d),
        ResizeDirection::East => assert(rows[1][1] == d),
        ResizeDirection::SouthWest => assert(rows[2][0] == d),
        ResizeDirection::South => assert(rows[2][1] == d),
        ResizeDirection::SouthEast => assert(rows[2][2] == d),
    }
}

/// The cursor shown and whether a resize handle holds the cursor, after one
/// interaction with a handle: entering a handle shows its cursor unless a
/// handle holds it; pressing shows the handle's cursor and holds it; a release
/// or a cancelled press lets go and, unless this pass already chose a cursor,
/// restores the default one; leaving a handle restores the default cursor
/// unless a handle holds it or this pass already chose a cursor. `None` for
/// the cursor means that this pass has not chosen one.
pub open spec fn cursor_step(
    state: (Option<PanelCursor>, bool),
    event: (ResizeDirection, FluxInteraction),
) -> (Option<PanelCursor>, bool) {
    let (chosen, locked) = state;
    match event.1 {
        FluxInteraction::PointerEnter => if !locked {
            (Some(spec_cursor(event.0)), locked)
        } else {
            state
        },
        FluxInteraction::Pressed => (Some(spec_cursor(event.0)), true),
        FluxInteraction::Released | FluxInteraction::PressCanceled => (
            if chosen is None {
                Some(PanelCursor::Default)
            } else {
                chosen
            },
            false,
        ),
        FluxInteraction::PointerLeave => (
            if !locked && chosen is None {
                Some(PanelCursor::Default)
            } else {
                chosen
            },
            locked,
        ),
        _ => state,
    }
}

/// The cursor chosen (if any) and whether a handle holds the cursor, after the
/// interactions with resize handles, in order, starting from `locked` with no
/// cursor chosen.
pub open spec fn cursor_after(
    events: Seq<(ResizeDirection, FluxInteraction)>,
    locked: bool,
) -> (Option<PanelCursor>, bool)
    decreases events.len(),
{
    if events.len() == 0 {
        (None, locked)
    } else {
        cursor_step(cursor_after(events.drop_last(), locked), events.last())
    }
}

/// Runs the interactions with resize handles in order: returns the cursor to
/// show, if one was chosen, and whether a handle holds the cursor afterwards.
pub fn resize_cursor(events: &Vec<(ResizeDirection, FluxInteraction)>, locked: bool) -> (r: (
    Option<PanelCursor>,
    bool,
))
    ensures
        r == cursor_after(events@, locked),
{
    let mut chosen: Option<PanelCursor> = None;
    let mut held = locked;
    let mut i: usize = 0;
    assert(events@.take(0) =~= Seq::<(ResizeDirection, FluxInteraction)>::empty());
    while i < events.len()
        invariant
            i <= events.len(),
            (chosen, held) == cursor_after(events@.take(i as int), locked),
        decreases events.len() - i,
    {
        let (direction, flux) = events[i];
        assert(events@.take(i + 1).drop_last() =~= events@.take(i as int));
        assert(events@.take(i + 1).last() == (direction, flux));
        match flux {
            FluxInteraction::PointerEnter => {
                if !held {
                    chosen = Some(direction.cursor());
                }
            },
            FluxInteraction::Pressed => {
                chosen = Some(direction.cursor());
                held = true;
            },
            FluxInteraction::Released | FluxInteraction::PressCanceled => {
                held = false;
                if chosen.is_none() {
                    chosen = Some(PanelCursor::Default);
                }
            },
            FluxInteraction::PointerLeave => {
                if !held && chosen.is_none() {
                    chosen = Some(PanelCursor::Default);
                }
            },
            _ => {},
        }
        i += 1;
    }
    assert(events@.take(events.len() as int) =~= events@);
    (chosen, held)
}

/// An interaction that takes or lets go of the cursor.
pub open spec fn changes_hold(f: FluxInteraction) -> bool {
    f == FluxInteraction::Pressed || f == FluxInteraction::Released || f
        == FluxInteraction::PressCanceled
}

proof fn lemma_hold_after_prefix(
    events: Seq<(ResizeDirection, FluxInteraction)>,
    locked: bool,
    n: int,
)
    requires
        0 <= n <= events.len(),
        forall|j: int| n <= j < events.len() ==> !changes_hold(#[trigger] events[j].1),
    ensures
        cursor_after(events, locked).1 == cursor_after(events.take(n), locked).1,
    decreases events.len(),
{
    if events.len() > n {
        let prev = events.drop_last();
        assert forall|j: int| n <= j < prev.len() implies !changes_hold(#[trigger] prev[j].1) by {
            assert(prev[j] == events[j]);
        }
        lemma_hold_after_prefix(prev, locked, n);
        assert(prev.take(n) =~= events.take(n));
        assert(!changes_hold(events[events.len() - 1].1));
    } else {
        assert(events.take(n) =~= events);
    }
}

/// A handle holds the cursor after a run of interactions exactly when the
/// last press, release or cancelled press among them was a press; with none
/// of them, whether a handle holds it is unchanged.
pub proof fn law_press_holds_cursor_until_release(
    events: Seq<(ResizeDirection, FluxInteraction)>,
    locked: bool,
    k: int,
)
    requires
        0 <= k < events.len(),
        changes_hold(events[k].1),
        forall|j: int| k < j < events.len() ==> !changes_hold(#[trigger] events[j].1),
    ensures
        cursor_after(events, locked).1 == (events[k].1 == FluxInteraction::Pressed),
{
    lemma_hold_after_prefix(events, locked, k + 1);
    assert(events.take(k + 1).drop_last() =~= events.take(k));
    assert(events.take(k + 1).last() == events[k]);
}

/// Without a press, release or cancelled press, whether a handle holds the
/// cursor does not change.
pub proof fn law_hold_unchanged_without_press(
    events: Seq<(ResizeDirection, FluxInteraction)>,
    locked: bool,
)
    requires
        forall|j: int| 0 <= j < events.len() ==> !changes_hold(#[trigger] events[j].1),
    ensures
        cursor_after(events, locked).1 == locked,
{
    lemma_hold_after_prefix(events, locked, 0);
}

/// While a handle holds the cursor, pointers entering and leaving handles do
/// not change the cursor.
pub proof fn law_hover_ignored_while_held(events: Seq<(ResizeDirection, FluxInteraction)>)
    requires
        forall|j: int| 0 <= j < events.len() ==> !changes_hold(#[trigger] events[j].1),
    ensures
        cursor_after(events, true) == (None::<PanelCursor>, true),
    decreases events.len(),
{
    if events.len() > 0 {
        let prev = events.drop_last();
        assert forall|j: int| 0 <= j < prev.len() implies !changes_hold(#[trigger] prev[j].1) by {
            assert(prev[j] == events[j]);
        }
        law_hover_ignored_while_held(prev);
        assert(!changes_hold(events[events.len() - 1].1));
    }
}

/// Scrolling can be restricted to one axis.
#[derive(Clone, Copy, Debug, PartialEq, Eq, Structural)]
pub enum ScrollAxis {
    Horizontal,
    Vertical,
}

/// How a floating panel is set up: an optional title bar, whether it can be
/// dragged and resized, and an optional restriction of its scrolling.
#[derive(Clone, Debug)]
pub struct FloatingPanelConfig {
    pub title: Option<String>,
    pub draggable: bool,
    pub resizable: bool,
    pub restrict_scroll: Option<ScrollAxis>,
}

impl Default for FloatingPanelConfig {
    /// No title, draggable, resizable, scrolling on both axes.
    fn default() -> (r: Self)
        ensures
            r.title is None,
            r.draggable,
            r.resizable,
            r.restrict_scroll is None,
    {
        FloatingPanelConfig { title: None, draggable: true, resizable: true, restrict_scroll: None }
    }
}

/// Which of its optional child nodes a panel has: a title bar, a bare drag
/// handle, and the frame of resize handles.
#[derive(Clone, Copy, Debug, PartialEq, Eq, Structural)]
pub struct PanelChildren {
    pub title: bool,
    pub drag_handle: bool,
    pub resize_handles: bool,
}

/// What to do to a panel's child nodes after its configuration changed.
/// A new title bar is made draggable when `title_draggable` holds.
#[derive(Clone, Copy, Debug, PartialEq, Eq, Structural)]
pub struct ChildrenPlan {
    pub despawn_title: bool,
    pub despawn_drag_handle: bool,
    pub spawn_title: bool,
    pub title_draggable: bool,
    pub spawn_drag_handle: bool,
    pub spawn_resize_handles: bool,
    pub despawn_resize_handles: bool,
}

/// The child nodes that a configuration calls for: a title bar when it has a
/// title, a bare drag handle when it has none and is draggable, and resize
/// handles when it is resizable.
pub open spec fn wanted_children(has_title: bool, draggable: bool, resizable: bool) -> PanelChildren {
    PanelChildren {
        title: has_title,
        drag_handle: !has_title && draggable,
        resize_handles: resizable,
    }
}

/// The plan: with a title, any title bar and drag handle are removed and a
/// new title bar is made; without one, any title bar is removed and a drag
/// handle is added or removed as `draggable` asks; resize handles are added
/// or removed as `resizable` asks. Nothing present is added again, nothing
/// absent is removed.
pub open spec fn spec_children_plan(
    has_title: bool,
    draggable: bool,
    resizable: bool,
    present: PanelChildren,
) -> ChildrenPlan {
    ChildrenPlan {
        despawn_title: present.title,
        despawn_drag_handle: if has_title {
            present.drag_handle
        } else {
            !draggable && present.drag_handle
        },
        spawn_title: has_title,
        title_draggable: has_title && draggable,
        spawn_drag_handle: !has_title && draggable && !present.drag_handle,
        spawn_resize_handles: resizable && !present.resize_handles,
        despawn_resize_handles: !resizable && present.resize_handles,
    }
}

/// The child nodes present after carrying out a plan.
pub open spec fn after_plan(present: PanelChildren, plan: ChildrenPlan) -> PanelChildren {
    PanelChildren {
        title: (present.title && !plan.despawn_title) || plan.spawn_title,
        drag_handle: (present.drag_handle && !plan.despawn_drag_handle) || plan.spawn_drag_handle,
        resize_handles: (present.resize_handles && !plan.despawn_resize_handles)
            || plan.spawn_resize_handles,
    }
}

/// Decides how a panel's child nodes change after its configuration changed,
/// given which of them it has.
pub fn plan_children(config: &FloatingPanelConfig, present: PanelChildren) -> (plan: ChildrenPlan)
    ensures
        plan == spec_children_plan(config.title is Some, config.draggable, config.resizable, present),
{
    let has_title = config.title.is_some();
    ChildrenPlan {
        despawn_title: present.title,
        despawn_drag_handle: if has_title {
            present.drag_handle
        } else {
            !config.draggable && present.drag_handle
        },
        spawn_title: has_title,
        title_draggable: has_title && config.draggable,
        spawn_drag_handle: !has_title && config.draggable && !present.drag_handle,
        spawn_resize_handles: config.resizable && !present.resize_handles,
        despawn_resize_handles: !config.resizable && present.resize_handles,
    }
}

/// Whatever child nodes a panel has, carrying out the plan leaves it with
/// exactly the ones that its configuration calls for; the plan removes only
/// nodes that are present, and adds a node only where none is left.
pub proof fn law_plan_reaches_wanted_children(
    has_title: bool,
    draggable: bool,
    resizable: bool,
    present: PanelChildren,
)
    ensures
        after_plan(present, spec_children_plan(has_title, draggable, resizable, present))
            == wanted_children(has_title, draggable, resizable),
        ({
            let plan = spec_children_plan(has_title, draggable, resizable, present);
            &&& plan.despawn_title ==> present.title
            &&& plan.despawn_drag_handle ==> present.drag_handle
            &&& plan.despawn_resize_handles ==> present.resize_handles
            &&& plan.spawn_title ==> !(present.title && !plan.despawn_title)
            &&& plan.spawn_drag_handle ==> !(present.drag_handle && !plan.despawn_drag_handle)
            &&& plan.spawn_resize_handles ==> !(present.resize_handles
                && !plan.despawn_resize_handles)
        }),
{
}

/// A handle spans a whole side of the panel exactly along the axis on which it
/// does not resize the panel; along an axis it resizes, it is as long as the
/// resize zone.
pub proof fn law_handle_spans_follow_resize_axes(d: ResizeDirection)
    ensures
        (spec_handle_spans(d).0 == HandleSpan::Full) <==> spec_size_change_signs(d).0 == 0,
        (spec_handle_spans(d).1 == HandleSpan::Full) <==> spec_size_change_signs(d).1 == 0,
        (spec_handle_spans(d).0 == HandleSpan::Zone) <==> spec_size_change_signs(d).0 != 0,
        (spec_handle_spans(d).1 == HandleSpan::Zone) <==> spec_size_change_signs(d).1 != 0,
{
}

/// Each handle's size change is a compass direction: the horizontal factor is
/// 1 towards the east, -1 towards the west, 0 otherwise; the vertical factor
/// -1 towards the north, 1 towards the south, 0 otherwise.
pub proof fn law_size_change_follows_compass(d: ResizeDirection)
    ensures
        spec_size_change_signs(d).0 == 1 <==> (d == ResizeDirection::East || d
            == ResizeDirection::NorthEast || d == ResizeDirection::SouthEast),
        spec_size_change_signs(d).0 == -1 <==> (d == ResizeDirection::West || d
            == ResizeDirection::NorthWest || d == ResizeDirection::SouthWest),
        spec_size_change_signs(d).1 == -1 <==> (d == ResizeDirection::North || d
            == ResizeDirection::NorthEast || d == ResizeDirection::NorthWest),
        spec_size_change_signs(d).1 == 1 <==> (d == ResizeDirection::South || d
            == ResizeDirection::SouthEast || d == ResizeDirection::SouthWest),
        -1 <= spec_size_change_signs(d).0 <= 1,
        -1 <= spec_size_change_signs(d).1 <= 1,
{
}

/// The cursor over a handle names the same compass direction as the handle.
pub proof fn law_cursor_names_the_handle(d: ResizeDirection)
    ensures
        d == ResizeDirection::North <==> spec_cursor(d) == PanelCursor::NResize,
        d == ResizeDirection::NorthEast <==> spec_cursor(d) == PanelCursor::NeResize,
        d == ResizeDirection::East <==> spec_cursor(d) == PanelCursor::EResize,
        d == ResizeDirection::SouthEast <==> spec_cursor(d) == PanelCursor::SeResize,
        d == ResizeDirection::South <==> spec_cursor(d) == PanelCursor::SResize,
        d == ResizeDirection::SouthWest <==> spec_cursor(d) == PanelCursor::SwResize,
        d == ResizeDirection::West <==> spec_cursor(d) == PanelCursor::WResize,
        d == ResizeDirection::NorthWest <==> spec_cursor(d) == PanelCursor::NwResize,
{
}

/// The handles are laid out as on a compass: row `r` holds the handles whose
/// vertical size factor is `r - 1` (north on top, south at the bottom), and
/// within a row the handles go from west to east.
pub proof fn law_handle_rows_follow_compass()
    ensures
        forall|r: int, c: int|
            0 <= r < 3 && 0 <= c < spec_handle_rows()[r].len() ==> spec_size_change_signs(
                #[trigger] spec_handle_rows()[r][c],
            ).1 == r - 1,
        forall|r: int, c1: int, c2: int|
            0 <= r < 3 && 0 <= c1 < c2 < spec_handle_rows()[r].len() ==> spec_size_change_signs(
                #[trigger] spec_handle_rows()[r][c1],
            ).0 < spec_size_change_signs(#[trigger] spec_handle_rows()[r][c2]).0,
{
    let rows = spec_handle_rows();
    assert(rows[0].len() == 3 && rows[1].len() == 2 && rows[2].len() == 3);
    assert(rows[0][0] == ResizeDirection::NorthWest);
    assert(rows[0][1] == ResizeDirection::North);
    assert(rows[0][2] == ResizeDirection::NorthEast);
    assert(rows[1][0] == ResizeDirection::West);
    assert(rows[1][1] == ResizeDirection::East);
    assert(rows[2][0] == ResizeDirection::SouthWest);
    assert(rows[2][1] == ResizeDirection::South);
    assert(rows[2][2] == ResizeDirection::SouthEast);
}

proof fn lemma_cursor_after_push(
    events: Seq<(ResizeDirection, FluxInteraction)>,
    locked: bool,
    e: (ResizeDirection, FluxInteraction),
)
    ensures
        cursor_after(events.push(e), locked) == cursor_step(cursor_after(events, locked), e),
{
    assert(events.push(e).drop_last() =~= events);
}

/// How one more interaction at the end of a pass changes the outcome:
/// - entering a handle while no handle holds the cursor shows that handle's
///   cursor, whatever came before it in the pass; while one holds it, the
///   outcome is unchanged;
/// - pressing a handle shows its cursor and holds it;
/// - releasing or cancelling a press lets go and leaves a cursor chosen: the
///   one already chosen, or the default one;
/// - leaving a handle while none holds the cursor leaves a cursor chosen: the
///   one already chosen, or the default one;
/// - other interactions change nothing.
pub proof fn law_last_interaction_decides(
    events: Seq<(ResizeDirection, FluxInteraction)>,
    locked: bool,
    d: ResizeDirection,
)
    ensures
        !cursor_after(events, locked).1 ==> cursor_after(
            events.push((d, FluxInteraction::PointerEnter)),
            locked,
        ) == (Some(spec_cursor(d)), false),
        cursor_after(events, locked).1 ==> cursor_after(
            events.push((d, FluxInteraction::PointerEnter)),
            locked,
        ) == cursor_after(events, locked),
        cursor_after(events.push((d, FluxInteraction::Pressed)), locked) == (
            Some(spec_cursor(d)),
            true,
        ),
        ({
            let before = cursor_after(events, locked);
            let after = cursor_after(events.push((d, FluxInteraction::Released)), locked);
            let cancelled = cursor_after(events.push((d, FluxInteraction::PressCanceled)), locked);
            &&& !after.1 && !cancelled.1
            &&& after.0 == cancelled.0
            &&& after.0 == (if before.0 is Some {
                before.0
            } else {
                Some(PanelCursor::Default)
            })
        }),
        ({
            let before = cursor_after(events, locked);
            let after = cursor_after(events.push((d, FluxInteraction::PointerLeave)), locked);
            &&& after.1 == before.1
            &&& !before.1 ==> after.0 == (if before.0 is Some {
                before.0
            } else {
                Some(PanelCursor::Default)
            })
            &&& before.1 ==> after.0 == before.0
        }),
        cursor_after(events.push((d, FluxInteraction::Idle)), locked) == cursor_after(
            events,
            locked,
        ),
        cursor_after(events.push((d, FluxInteraction::Disabled)), locked) == cursor_after(
            events,
            locked,
        ),
{
    lemma_cursor_after_push(events, locked, (d, FluxInteraction::PointerEnter));
    lemma_cursor_after_push(events, locked, (d, FluxInteraction::Pressed));
    lemma_cursor_after_push(events, locked, (d, FluxInteraction::Released));
    lemma_cursor_after_push(events, locked, (d, FluxInteraction::PressCanceled));
    lemma_cursor_after_push(events, locked, (d, FluxInteraction::PointerLeave));
    lemma_cursor_after_push(events, locked, (d, FluxInteraction::Idle));
    lemma_cursor_after_push(events, locked, (d, FluxInteraction::Disabled));
}

/// With no interactions, no cursor is chosen and the hold is unchanged.
pub proof fn law_no_interaction_no_cursor(locked: bool)
    ensures
        cursor_after(Seq::empty(), locked) == (None::<PanelCursor>, locked),
{
}

/// The plan for each child node, in terms of the configuration and the
/// children present:
/// - a configuration with a title always gets a freshly built title bar,
///   replacing any present one, draggable exactly when the configuration is;
///   without a title, any title bar is removed and none is built;
/// - a bare drag handle is removed when present and the configuration has a
///   title or is not draggable; it is added when absent, the configuration
///   has no title and is draggable;
/// - resize handles are added when absent and resizable, removed when present
///   and not resizable.
pub proof fn law_plan_per_child(has_title: bool, draggable: bool, resizable: bool, present: PanelChildren)
    ensures
        spec_children_plan(has_title, draggable, resizable, present).spawn_title == has_title,
        spec_children_plan(has_title, draggable, resizable, present).despawn_title == present.title,
        spec_children_plan(has_title, draggable, resizable, present).title_draggable == (has_title
            && draggable),
        spec_children_plan(has_title, draggable, resizable, present).despawn_drag_handle == (
        present.drag_handle && (has_title || !draggable)),
        spec_children_plan(has_title, draggable, resizable, present).spawn_drag_handle == (
        !present.drag_handle && !has_title && draggable),
        spec_children_plan(has_title, draggable, resizable, present).spawn_resize_handles == (
        !present.resize_handles && resizable),
        spec_children_plan(has_title, draggable, resizable, present).despawn_resize_handles == (
        present.resize_handles && !resizable),
{
}

} // verus!
