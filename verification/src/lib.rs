//! Verified logic of a set of UI widgets: floating panels that can be
//! dragged, resized and stacked, a hierarchy browser, and a checkbox button.
use vstd::prelude::*;

pub mod button;
pub mod count;
pub mod interaction;
pub mod floating_panel;
pub mod hierarchy;
pub mod panel_stack;

verus! {
} // verus!
