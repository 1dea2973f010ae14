//! Stacking order of floating panels.
//!
//! Panels are listed in the order in which the application visits them;
//! each holds an optional stacking index (`None` for a panel that has not
//! been indexed yet). Indices compare as options do: no index sorts below
//! every index.
use vstd::prelude::*;
use crate::interaction::DragState;
use crate::count::{
    count_where, lemma_count_all, lemma_count_all_but_one, lemma_count_bound, lemma_count_ext,
    lemma_count_mono, lemma_count_strict,
};

verus! {

/// The lowest stacking index that an ordinary floating panel receives is one
/// above this base.
pub const MIN_FLOATING_PANEL_Z_INDEX: usize = 1000;

/// The stacking index of a panel that has priority over all others.
pub const PRIORITY_FLOATING_PANEL_Z_INDEX: usize = 10000;

/// The order on optional stacking indices: `None` below any `Some`, and
/// `Some` values by their number.
pub open spec fn key_lt(a: Option<usize>, b: Option<usize>) -> bool {
    match (a, b) {
        (None, Some(_)) => true,
        (Some(x), Some(y)) => x < y,
        _ => false,
    }
}

/// Panel `j` comes before panel `i` in a stable sort of the panels by index.
pub open spec fn stacked_before(z: Seq<Option<usize>>, j: int, i: int) -> bool {
    key_lt(z[j], z[i]) || (z[j] == z[i] && j < i)
}

/// The panels that come before panel `i`.
pub open spec fn before_pred(z: Seq<Option<usize>>, i: int) -> spec_fn(int) -> bool {
    |j: int| stacked_before(z, j, i)
}

/// Position of panel `i` in a stable sort of the panels by index.
pub open spec fn stack_rank(z: Seq<Option<usize>>, i: int) -> nat {
    count_where(z.len() as int, before_pred(z, i))
}

/// The indices after renumbering: panel `i` receives the base plus its
/// position in the stable sort plus one.
pub open spec fn normalized(z: Seq<Option<usize>>) -> Seq<Option<usize>> {
    Seq::new(
        z.len(),
        |i: int| Some((MIN_FLOATING_PANEL_Z_INDEX + stack_rank(z, i) + 1) as usize),
    )
}

/// The largest index held by any panel, or 0 if none holds one.
pub open spec fn max_z(z: Seq<Option<usize>>) -> nat
    decreases z.len(),
{
    if z.len() == 0 {
        0
    } else {
        let m = max_z(z.drop_last());
        match z.last() {
            Some(v) => if v > m {
                v as nat
            } else {
                m
            },
            None => m,
        }
    }
}

/// The panels that have no index yet.
pub open spec fn unindexed_pred(z: Seq<Option<usize>>) -> spec_fn(int) -> bool {
    |k: int| z[k] is None
}

/// How many panels before panel `i` have no index yet.
pub open spec fn unindexed_before(z: Seq<Option<usize>>, i: int) -> nat {
    count_where(i, unindexed_pred(z))
}

/// The indices after indexing the panels that have none: indexed panels keep
/// theirs; the `k`-th unindexed panel (from 0) receives the base plus the
/// largest index plus `k + 1`.
pub open spec fn indexed(z: Seq<Option<usize>>) -> Seq<Option<usize>> {
    Seq::new(
        z.len(),
        |i: int|
            match z[i] {
                Some(v) => Some(v),
                None => Some(
                    (MIN_FLOATING_PANEL_Z_INDEX + max_z(z) + unindexed_before(z, i) + 1) as usize,
                ),
            },
    )
}

/// Whether indexing the unindexed panels stays within `usize`.
pub open spec fn indexing_fits(z: Seq<Option<usize>>) -> bool {
    let fresh = unindexed_before(z, z.len() as int);
    fresh == 0 || MIN_FLOATING_PANEL_Z_INDEX + max_z(z) + fresh <= usize::MAX
}

/// The indices after the panels listed in `dragged` were raised, in order:
/// the `k`-th dragged panel (from 1) receives the largest index plus `k`.
pub open spec fn raised(z: Seq<Option<usize>>, dragged: Seq<usize>) -> Seq<Option<usize>>
    decreases dragged.len(),
{
    if dragged.len() == 0 {
        z
    } else {
        raised(z, dragged.drop_last()).update(
            dragged.last() as int,
            Some((max_z(z) + dragged.len()) as usize),
        )
    }
}

/// Whether raising the dragged panels stays within `usize`.
pub open spec fn raising_fits(z: Seq<Option<usize>>, dragged: Seq<usize>) -> bool {
    dragged.len() == 0 || max_z(z) + dragged.len() <= usize::MAX
}

/// Every dragged entry names a panel.
pub open spec fn dragged_in_range(z: Seq<Option<usize>>, dragged: Seq<usize>) -> bool {
    forall|k: int| 0 <= k < dragged.len() ==> #[trigger] dragged[k] < z.len()
}

/// The stack can be renumbered within `usize`.
pub open spec fn renumbering_fits(z: Seq<Option<usize>>) -> bool {
    MIN_FLOATING_PANEL_Z_INDEX + z.len() <= usize::MAX
}

fn key_less(a: Option<usize>, b: Option<usize>) -> (r: bool)
    ensures
        r == key_lt(a, b),
{
    match (a, b) {
        (None, Some(_)) => true,
        (Some(x), Some(y)) => x < y,
        _ => false,
    }
}

fn key_equal(a: Option<usize>, b: Option<usize>) -> (r: bool)
    ensures
        r == (a == b),
{
    match (a, b) {
        (None, None) => true,
        (Some(x), Some(y)) => x == y,
        _ => false,
    }
}

/// The largest index held by any panel, or 0 if none holds one.
pub fn max_z_index(z: &Vec<Option<usize>>) -> (m: usize)
    ensures
        m == max_z(z@),
{
    let mut m: usize = 0;
    let mut i: usize = 0;
    while i < z.len()
        invariant
            i <= z.len(),
            m == max_z(z@.take(i as int)),
        decreases z.len() - i,
    {
        assert(z@.take(i + 1).drop_last() =~= z@.take(i as int));
        match z[i] {
            Some(v) => {
                if v > m {
                    m = v;
                }
            },
            None => {},
        }
        i += 1;
    }
    assert(z@.take(z.len() as int) =~= z@);
    m
}

/// Gives every panel without an index one above all current indices, in the
/// order in which the panels are listed; panels with an index keep it.
pub fn index_new_panels(z: &Vec<Option<usize>>) -> (res: Vec<Option<usize>>)
    requires
        indexing_fits(z@),
    ensures
        res@ == indexed(z@),
{
    let m = max_z_index(z);
    let n = z.len();
    let mut res: Vec<Option<usize>> = Vec::new();
    let mut offset: usize = 1;
    let mut i: usize = 0;
    proof {
        lemma_count_mono(i as int, unindexed_pred(z@), unindexed_pred(z@));
    }
    while i < n
        invariant
            n == z.len(),
            m == max_z(z@),
            i <= n,
            indexing_fits(z@),
            offset == unindexed_before(z@, i as int) + 1,
            res@ =~= indexed(z@).take(i as int),
        decreases n - i,
    {
        proof {
            lemma_count_mono(i as int, unindexed_pred(z@), unindexed_pred(z@));
            lemma_count_mono(i + 1, unindexed_pred(z@), unindexed_pred(z@));
            lemma_unindexed_before_mono(z@, i + 1, n as int);
        }
        match z[i] {
            Some(v) => {
                res.push(Some(v));
            },
            None => {
                res.push(Some(MIN_FLOATING_PANEL_Z_INDEX + m + offset));
                offset += 1;
            },
        }
        i += 1;
    }
    res
}

proof fn lemma_unindexed_before_mono(z: Seq<Option<usize>>, a: int, b: int)
    requires
        0 <= a <= b,
    ensures
        unindexed_before(z, a) <= unindexed_before(z, b),
    decreases b - a,
{
    if a < b {
        lemma_unindexed_before_mono(z, a, b - 1);
    }
}

/// Raises the dragged panels, in the order listed, above every panel: the
/// `k`-th dragged panel (from 1) receives the largest index plus `k`.
pub fn raise_dragged(z: &Vec<Option<usize>>, dragged: &Vec<usize>) -> (res: Vec<Option<usize>>)
    requires
        raising_fits(z@, dragged@),
        dragged_in_range(z@, dragged@),
    ensures
        res@ == raised(z@, dragged@),
        res@.len() == z@.len(),
{
    let m = max_z_index(z);
    let mut res = z.clone();
    let mut k: usize = 0;
    assert(res@ =~= z@);
    assert(dragged@.take(0) =~= Seq::<usize>::empty());
    while k < dragged.len()
        invariant
            k <= dragged.len(),
            m == max_z(z@),
            raising_fits(z@, dragged@),
            dragged_in_range(z@, dragged@),
            res@.len() == z@.len(),
            res@ =~= raised(z@, dragged@.take(k as int)),
        decreases dragged.len() - k,
    {
        let d = dragged[k];
        assert(d < z@.len());
        res.set(d, Some(m + k + 1));
        assert(dragged@.take(k + 1).drop_last() =~= dragged@.take(k as int));
        assert(dragged@.take(k + 1).last() == d);
        k += 1;
    }
    assert(dragged@.take(dragged.len() as int) =~= dragged@);
    res
}

fn is_stacked_before(z: &Vec<Option<usize>>, j: usize, i: usize) -> (r: bool)
    requires
        j < z.len(),
        i < z.len(),
    ensures
        r == stacked_before(z@, j as int, i as int),
{
    key_less(z[j], z[i]) || (key_equal(z[j], z[i]) && j < i)
}

/// Renumbers the panels: each receives the base plus its position in a
/// stable sort by index plus one.
pub fn normalize_z_indices(z: &Vec<Option<usize>>) -> (res: Vec<Option<usize>>)
    requires
        renumbering_fits(z@),
    ensures
        res@ == normalized(z@),
{
    let n = z.len();
    let mut res: Vec<Option<usize>> = Vec::new();
    let mut i: usize = 0;
    while i < n
        invariant
            n == z.len(),
            i <= n,
            renumbering_fits(z@),
            res@ =~= normalized(z@).take(i as int),
        decreases n - i,
    {
        let mut rank: usize = 0;
        let mut j: usize = 0;
        while j < n
            invariant
                n == z.len(),
                i < n,
                j <= n,
                rank == count_where(j as int, before_pred(z@, i as int)),
            decreases n - j,
        {
            proof {
                lemma_count_bound(j as int, before_pred(z@, i as int));
            }
            if is_stacked_before(z, j, i) {
                rank += 1;
            }
            j += 1;
        }
        proof {
            lemma_rank_below_len(z@, i as int);
        }
        res.push(Some(MIN_FLOATING_PANEL_Z_INDEX + rank + 1));
        i += 1;
    }
    res
}

/// A panel's position in the stable sort is below the number of panels.
pub proof fn lemma_rank_below_len(z: Seq<Option<usize>>, i: int)
    requires
        0 <= i < z.len(),
    ensures
        stack_rank(z, i) < z.len(),
{
    let all = |k: int| true;
    lemma_count_strict(z.len() as int, before_pred(z, i), all, i);
    lemma_count_all(z.len() as int, all);
}

/// A panel that comes before another in the stable sort has a smaller rank.
pub proof fn lemma_rank_order(z: Seq<Option<usize>>, i: int, j: int)
    requires
        0 <= i < z.len(),
        0 <= j < z.len(),
        stacked_before(z, i, j),
    ensures
        stack_rank(z, i) < stack_rank(z, j),
{
    assert forall|k: int| 0 <= k < z.len() && #[trigger] before_pred(z, i)(k) implies before_pred(
        z,
        j,
    )(k) by {
        assert(stacked_before(z, k, i));
    }
    lemma_count_strict(z.len() as int, before_pred(z, i), before_pred(z, j), i);
}

/// Renumbering gives distinct panels distinct indices.
pub proof fn law_renumbered_indices_distinct(z: Seq<Option<usize>>, i: int, j: int)
    requires
        renumbering_fits(z),
        0 <= i < z.len(),
        0 <= j < z.len(),
        i != j,
    ensures
        normalized(z)[i] != normalized(z)[j],
{
    lemma_rank_below_len(z, i);
    lemma_rank_below_len(z, j);
    if stacked_before(z, i, j) {
        lemma_rank_order(z, i, j);
    } else {
        lemma_rank_order(z, j, i);
    }
}

/// Renumbering gives each of `n` panels an index in `base + 1 ..= base + n`.
pub proof fn law_renumbered_indices_in_range(z: Seq<Option<usize>>, i: int)
    requires
        renumbering_fits(z),
        0 <= i < z.len(),
    ensures
        normalized(z)[i] matches Some(v) && MIN_FLOATING_PANEL_Z_INDEX < v
            <= MIN_FLOATING_PANEL_Z_INDEX + z.len(),
{
    lemma_rank_below_len(z, i);
}

/// Renumbering keeps the stacking order: a panel below another (by index,
/// or at equal index earlier in the list) stays below it.
pub proof fn law_renumbering_keeps_order(z: Seq<Option<usize>>, i: int, j: int)
    requires
        renumbering_fits(z),
        0 <= i < z.len(),
        0 <= j < z.len(),
        stacked_before(z, i, j),
    ensures
        key_lt(normalized(z)[i], normalized(z)[j]),
{
    lemma_rank_below_len(z, i);
    lemma_rank_below_len(z, j);
    lemma_rank_order(z, i, j);
}

/// Renumbering an already renumbered stack changes nothing.
pub proof fn law_renumbering_idempotent(z: Seq<Option<usize>>)
    requires
        renumbering_fits(z),
    ensures
        normalized(normalized(z)) == normalized(z),
{
    let w = normalized(z);
    assert forall|i: int| 0 <= i < z.len() implies #[trigger] stack_rank(w, i) == stack_rank(
        z,
        i,
    ) by {
        assert forall|j: int| 0 <= j < z.len() implies (#[trigger] before_pred(w, i)(j)
            <==> before_pred(z, i)(j)) by {
            if j == i {
            } else if stacked_before(z, j, i) {
                law_renumbering_keeps_order(z, j, i);
            } else {
                law_renumbered_indices_distinct(z, i, j);
                law_renumbering_keeps_order(z, i, j);
            }
        }
        lemma_count_ext(z.len() as int, before_pred(w, i), before_pred(z, i));
    }
    assert(normalized(w) =~= w);
}

/// Any index that a panel holds is at most the largest index.
pub proof fn lemma_max_z_bounds(z: Seq<Option<usize>>, j: int)
    requires
        0 <= j < z.len(),
    ensures
        z[j] matches Some(v) ==> v <= max_z(z),
    decreases z.len(),
{
    if j < z.len() - 1 {
        lemma_max_z_bounds(z.drop_last(), j);
        assert(z.drop_last()[j] == z[j]);
    }
}

/// After raising, every index is at most the largest original index plus the
/// number of dragged entries.
proof fn lemma_raised_bound(z: Seq<Option<usize>>, dragged: Seq<usize>, j: int)
    requires
        raising_fits(z, dragged),
        dragged_in_range(z, dragged),
        0 <= j < z.len(),
    ensures
        raised(z, dragged).len() == z.len(),
        raised(z, dragged)[j] matches Some(v) ==> v <= max_z(z) + dragged.len(),
    decreases dragged.len(),
{
    if dragged.len() == 0 {
        lemma_max_z_bounds(z, j);
    } else {
        assert(dragged[dragged.len() - 1] < z.len());
        lemma_raised_bound(z, dragged.drop_last(), j);
    }
}

/// Dragging panels by their title brings the last one dragged to the front:
/// after raising and renumbering it holds the highest index, the base plus the
/// number of panels.
pub proof fn law_dragged_panel_on_top(z: Seq<Option<usize>>, dragged: Seq<usize>)
    requires
        dragged.len() > 0,
        raising_fits(z, dragged),
        dragged_in_range(z, dragged),
        renumbering_fits(z),
    ensures
        normalized(raised(z, dragged))[dragged.last() as int] == Some(
            (MIN_FLOATING_PANEL_Z_INDEX + z.len()) as usize,
        ),
{
    let r = raised(z, dragged);
    let t = dragged.last() as int;
    let prev = dragged.drop_last();
    assert(dragged[dragged.len() - 1] < z.len());
    lemma_raised_bound(z, dragged, t);
    assert(dragged_in_range(z, prev));
    lemma_raised_bound(z, prev, t);
    assert(r[t] == Some((max_z(z) + dragged.len()) as usize));
    assert forall|k: int| 0 <= k < r.len() implies (#[trigger] before_pred(r, t)(k) <==> k != t) by {
        if k != t {
            lemma_raised_bound(z, prev, k);
            assert(r[k] == raised(z, prev)[k]);
            assert(key_lt(r[k], r[t]));
        }
    }
    lemma_count_all_but_one(r.len() as int, before_pred(r, t), t);
}

/// Indexing new panels keeps the indices that panels already hold and puts
/// every new panel above every panel that was indexed before, the new ones in
/// the order in which they are listed.
pub proof fn law_new_panels_on_top(z: Seq<Option<usize>>, i: int, j: int)
    requires
        indexing_fits(z),
        0 <= i < z.len(),
        0 <= j < z.len(),
    ensures
        z[j] is Some ==> indexed(z)[j] == z[j],
        z[i] is None && z[j] is Some ==> (indexed(z)[j] matches Some(w) && indexed(z)[i] matches Some(
            v,
        ) && w < v),
        z[i] is None && z[j] is None && j < i ==> (indexed(z)[j] matches Some(w) && indexed(
            z,
        )[i] matches Some(v) && w < v),
{
    lemma_max_z_bounds(z, j);
    lemma_unindexed_before_mono(z, i, z.len() as int);
    if j < i {
        lemma_unindexed_before_mono(z, j + 1, i);
    }
    lemma_unindexed_before_mono(z, j + 1, z.len() as int);
    lemma_unindexed_before_mono(z, i + 1, z.len() as int);
}

/// Whether any panel has priority over the others.
pub fn any_priority(priority: &Vec<bool>) -> (r: bool)
    ensures
        r == exists|i: int| 0 <= i < priority@.len() && priority@[i],
{
    let mut i: usize = 0;
    while i < priority.len()
        invariant
            i <= priority.len(),
            forall|k: int| 0 <= k < i ==> !priority@[k],
        decreases priority.len() - i,
    {
        if priority[i] {
            return true;
        }
        i += 1;
    }
    false
}

/// The indices after panels were dragged by their title bars: the dragged
/// panels are raised in the order listed, then all panels are renumbered.
pub fn stack_after_title_drag(z: &Vec<Option<usize>>, dragged: &Vec<usize>) -> (res: Vec<
    Option<usize>,
>)
    requires
        raising_fits(z@, dragged@),
        dragged_in_range(z@, dragged@),
        renumbering_fits(z@),
    ensures
        res@ == normalized(raised(z@, dragged@)),
{
    let r = raise_dragged(z, dragged);
    normalize_z_indices(&r)
}

/// The global stacking index with which a panel is drawn: the priority index
/// for a panel with priority, otherwise its own index (as an `i32`, wrapping
/// as Rust's `as` does) if it has one, and `None` (keep the current one) if
/// it has none.
pub fn layout_z_index(priority: bool, z_index: Option<usize>) -> (r: Option<i32>)
    ensures
        priority ==> r == Some(PRIORITY_FLOATING_PANEL_Z_INDEX as i32),
        !priority ==> r == match z_index {
            Some(i) => Some(i as i32),
            None => None,
        },
{
    if priority {
        Some(PRIORITY_FLOATING_PANEL_Z_INDEX as i32)
    } else {
        match z_index {
            Some(i) => Some(i as i32),
            None => None,
        }
    }
}

/// A drag phase that moves the dragged node.
pub open spec fn phase_moves(state: DragState) -> bool {
    !(state == DragState::Inactive || state == DragState::MaybeDragged || state
        == DragState::DragCanceled)
}

/// The title-bar drag events that move a panel, in order, each as the
/// event's position and the panel it moves: each event gives its phase, the
/// panel it belongs to (if that panel exists) and whether the pointer moved;
/// an event counts when its phase moves the panel, the panel exists and the
/// pointer moved.
pub open spec fn spec_panel_drags(events: Seq<(DragState, Option<usize>, bool)>) -> Seq<
    (usize, usize),
>
    decreases events.len(),
{
    if events.len() == 0 {
        Seq::empty()
    } else {
        let prev = spec_panel_drags(events.drop_last());
        let e = events.last();
        match e.1 {
            Some(panel) => if phase_moves(e.0) && e.2 {
                prev.push(((events.len() - 1) as usize, panel))
            } else {
                prev
            },
            None => prev,
        }
    }
}

/// The title-bar drag events that move a panel, in order, each as the event's
/// position and the panel it moves.
pub fn panel_drags(events: &Vec<(DragState, Option<usize>, bool)>) -> (drags: Vec<(usize, usize)>)
    ensures
        drags@ == spec_panel_drags(events@),
{
    let mut drags: Vec<(usize, usize)> = Vec::new();
    let mut i: usize = 0;
    assert(events@.take(0) =~= Seq::<(DragState, Option<usize>, bool)>::empty());
    while i < events.len()
        invariant
            i <= events.len(),
            drags@ == spec_panel_drags(events@.take(i as int)),
        decreases events.len() - i,
    {
        let (state, panel, moved) = events[i];
        assert(events@.take(i + 1).drop_last() =~= events@.take(i as int));
        assert(events@.take(i + 1).last() == (state, panel, moved));
        match panel {
            Some(p) => {
                if state.moves_target() && moved {
                    drags.push((i, p));
                }
            },
            None => {},
        }
        i += 1;
    }
    assert(events@.take(events.len() as int) =~= events@);
    drags
}

/// A drag event that moves a panel: its panel exists, the pointer moved, and
/// its phase is none of `Inactive`, `MaybeDragged` and `DragCanceled`.
pub open spec fn drag_counts(e: (DragState, Option<usize>, bool)) -> bool {
    &&& e.1 is Some
    &&& e.2
    &&& !(e.0 == DragState::Inactive || e.0 == DragState::MaybeDragged || e.0
        == DragState::DragCanceled)
}

/// The drags picked out are exactly the moving events of existing panels, in
/// the order of the events: every entry names a counting event and its panel,
/// entries are in strictly increasing event order, and every counting event
/// has an entry.
pub proof fn law_panel_drags_are_the_moving_events(events: Seq<(DragState, Option<usize>, bool)>)
    requires
        events.len() <= usize::MAX,
    ensures
        forall|j: int|
            0 <= j < spec_panel_drags(events).len() ==> {
                let (k, p) = #[trigger] spec_panel_drags(events)[j];
                &&& k < events.len()
                &&& drag_counts(events[k as int])
                &&& events[k as int].1 == Some(p)
            },
        forall|j1: int, j2: int|
            0 <= j1 < j2 < spec_panel_drags(events).len() ==> (#[trigger] spec_panel_drags(
                events,
            )[j1]).0 < (#[trigger] spec_panel_drags(events)[j2]).0,
        forall|k: int|
            0 <= k < events.len() && drag_counts(#[trigger] events[k]) ==> exists|j: int|
                0 <= j < spec_panel_drags(events).len() && (#[trigger] spec_panel_drags(
                    events,
                )[j]).0 == k,
    decreases events.len(),
{
    if events.len() > 0 {
        let prev = events.drop_last();
        law_panel_drags_are_the_moving_events(prev);
        let r = spec_panel_drags(events);
        let rp = spec_panel_drags(prev);
        let n = events.len() - 1;
        assert forall|j: int| 0 <= j < rp.len() implies (#[trigger] rp[j]).0 < n by {
            let (k, p) = rp[j];
            assert(k < prev.len());
        }
        assert forall|k: int| 0 <= k < events.len() && drag_counts(#[trigger] events[k]) implies exists|
            j: int,
        | 0 <= j < r.len() && (#[trigger] r[j]).0 == k by {
            if k < n {
                assert(prev[k] == events[k]);
                let j = choose|j: int| 0 <= j < rp.len() && (#[trigger] rp[j]).0 == k;
                assert(r[j] == rp[j]);
            } else {
                assert(r[rp.len() as int].0 == k);
            }
        }
        assert forall|j: int| 0 <= j < r.len() implies {
            let (k, p) = #[trigger] r[j];
            &&& k < events.len()
            &&& drag_counts(events[k as int])
            &&& events[k as int].1 == Some(p)
        } by {
            if j < rp.len() {
                assert(r[j] == rp[j]);
                assert(prev[rp[j].0 as int] == events[rp[j].0 as int]);
            }
        }
    }
}

/// A single moving drag of an existing panel is picked out as that panel.
pub proof fn law_single_drag_is_picked(state: DragState, panel: usize)
    requires
        !(state == DragState::Inactive || state == DragState::MaybeDragged || state
            == DragState::DragCanceled),
    ensures
        spec_panel_drags(seq![(state, Some(panel), true)]) == seq![(0usize, panel)],
{
    let events = seq![(state, Some(panel), true)];
    assert(events.drop_last() =~= Seq::<(DragState, Option<usize>, bool)>::empty());
    assert(spec_panel_drags(events.drop_last()) =~= Seq::<(usize, usize)>::empty());
    assert(events.last() == (state, Some(panel), true));
    assert(spec_panel_drags(events) =~= seq![(0usize, panel)]);
}

/// The largest index is held by some panel, unless no panel holds a
/// positive index (then it is 0); no panel holds a larger one.
pub proof fn law_max_index_is_attained(z: Seq<Option<usize>>)
    ensures
        forall|j: int| 0 <= j < z.len() ==> (#[trigger] z[j] matches Some(v) ==> v <= max_z(z)),
        max_z(z) == 0 || exists|j: int| 0 <= j < z.len() && z[j] == Some(max_z(z) as usize),
    decreases z.len(),
{
    assert forall|j: int| 0 <= j < z.len() implies (#[trigger] z[j] matches Some(v) ==> v <= max_z(
        z,
    )) by {
        lemma_max_z_bounds(z, j);
    }
    if z.len() > 0 {
        let prev = z.drop_last();
        law_max_index_is_attained(prev);
        if max_z(z) != 0 && max_z(z) == max_z(prev) {
            let j = choose|j: int| 0 <= j < prev.len() && prev[j] == Some(max_z(prev) as usize);
            assert(z[j] == prev[j]);
        } else if max_z(z) != 0 {
            assert(z[z.len() - 1] == Some(max_z(z) as usize));
        }
    }
}

/// Raising sets each dragged panel to the largest original index plus the
/// position (from 1) of its last drag, and leaves every other panel's index
/// as it was.
pub proof fn law_raised_panels(z: Seq<Option<usize>>, dragged: Seq<usize>, j: int)
    requires
        raising_fits(z, dragged),
        dragged_in_range(z, dragged),
        0 <= j < z.len(),
    ensures
        raised(z, dragged).len() == z.len(),
        (forall|k: int| 0 <= k < dragged.len() ==> #[trigger] dragged[k] != j) ==> raised(
            z,
            dragged,
        )[j] == z[j],
        forall|k: int|
            0 <= k < dragged.len() && #[trigger] dragged[k] == j && (forall|k2: int|
                k < k2 < dragged.len() ==> dragged[k2] != j) ==> raised(z, dragged)[j] == Some(
                (max_z(z) + k + 1) as usize,
            ),
    decreases dragged.len(),
{
    lemma_raised_bound(z, dragged, j);
    if dragged.len() > 0 {
        let prev = dragged.drop_last();
        assert(dragged[dragged.len() - 1] < z.len());
        law_raised_panels(z, prev, j);
        let last = dragged.len() - 1;
        assert forall|k: int|
            0 <= k < dragged.len() && #[trigger] dragged[k] == j && (forall|k2: int|
                k < k2 < dragged.len() ==> dragged[k2] != j) implies raised(z, dragged)[j] == Some(
            (max_z(z) + k + 1) as usize,
        ) by {
            if k < last {
                assert(dragged[last] != j);
                assert(prev[k] == dragged[k]);
                assert forall|k2: int| k < k2 < prev.len() implies prev[k2] != j by {
                    assert(prev[k2] == dragged[k2]);
                }
            }
        }
        if forall|k: int| 0 <= k < dragged.len() ==> #[trigger] dragged[k] != j {
            assert(dragged[last] != j);
            assert forall|k: int| 0 <= k < prev.len() implies #[trigger] prev[k] != j by {
                assert(prev[k] == dragged[k]);
            }
        }
    }
}

/// Indexing gives the new panels consecutive indices just above the base
/// plus the largest index: each lies in `base + max + 1 ..= base + max +
/// fresh`, where `fresh` is the number of new panels, and they increase in
/// the order the panels are listed.
pub proof fn law_new_indices_consecutive(z: Seq<Option<usize>>, i: int, j: int)
    requires
        indexing_fits(z),
        0 <= i < z.len(),
        0 <= j < z.len(),
        z[i] is None,
        z[j] is None,
        j < i,
    ensures
        indexed(z)[i] matches Some(v) && MIN_FLOATING_PANEL_Z_INDEX + max_z(z) < v
            <= MIN_FLOATING_PANEL_Z_INDEX + max_z(z) + unindexed_before(z, z.len() as int),
        indexed(z)[j] matches Some(w) && MIN_FLOATING_PANEL_Z_INDEX + max_z(z) < w && (
        indexed(z)[i] matches Some(v) && w < v),
{
    lemma_unindexed_before_mono(z, i + 1, z.len() as int);
    lemma_unindexed_before_mono(z, j + 1, z.len() as int);
    lemma_unindexed_before_mono(z, j + 1, i);
}

/// Renumbering, in plain numbers: an unindexed panel ends below an indexed
/// one, a smaller index stays smaller, and of two panels with the same index
/// the one listed first ends below.
pub proof fn law_renumbering_order_in_numbers(z: Seq<Option<usize>>, i: int, j: int)
    requires
        renumbering_fits(z),
        0 <= i < z.len(),
        0 <= j < z.len(),
    ensures
        normalized(z)[i] matches Some(a) && normalized(z)[j] matches Some(b) && {
            &&& (z[i] is None && z[j] is Some) ==> a < b
            &&& (z[i] matches Some(x) && z[j] matches Some(y) && x < y) ==> a < b
            &&& (z[i] == z[j] && i < j) ==> a < b
        },
{
    law_renumbered_indices_in_range(z, i);
    law_renumbered_indices_in_range(z, j);
    if stacked_before(z, i, j) {
        law_renumbering_keeps_order(z, i, j);
    }
}

} // verus!
