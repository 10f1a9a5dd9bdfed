//! The decisions of a screen-capture tool, apart from its window: the state
//! of a capture, the grab handles that resize or move a selection, the
//! drawing tools and their undo history, and the capture shortcut.

use vstd::prelude::*;

pub mod myapp;
pub mod painting;
pub mod selection;
pub mod shortcut;
pub mod status;

verus! {

} // verus!
