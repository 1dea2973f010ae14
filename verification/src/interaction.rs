//! The pointer and drag states that the widgets react to.
use vstd::prelude::*;

verus! {

/// How the pointer interacts with a UI node, as reported once per change.
#[derive(Clone, Copy, Debug, PartialEq, Eq, Structural)]
pub enum FluxInteraction {
    /// No interaction (`None` in the scaffold's own enum).
    Idle,
    PointerEnter,
    PointerLeave,
    Pressed,
    Released,
    PressCanceled,
    Disabled,
}

impl FluxInteraction {
    /// Whether a press was completed over the node.
    pub fn is_released(&self) -> (r: bool)
        ensures
            r == (*self == FluxInteraction::Released),
    {
        match self {
            FluxInteraction::Released => true,
            _ => false,
        }
    }
}

/// The phase of a drag gesture on a draggable node.
#[derive(Clone, Copy, Debug, PartialEq, Eq, Structural)]
pub enum DragState {
    Inactive,
    MaybeDragged,
    DragStart,
    Dragging,
    DragEnd,
    DragCanceled,
}

impl DragState {
    /// Whether a drag in this phase moves or resizes what it is attached to:
    /// every phase but `Inactive`, `MaybeDragged` and `DragCanceled`.
    pub fn moves_target(&self) -> (r: bool)
        ensures
            r == !(*self == DragState::Inactive || *self == DragState::MaybeDragged || *self
                == DragState::DragCanceled),
    {
        match self {
            DragState::Inactive | DragState::MaybeDragged | DragState::DragCanceled => false,
            _ => true,
        }
    }
}

} // verus!
