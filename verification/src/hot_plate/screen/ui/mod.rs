//! The menus of the display.

use vstd::prelude::*;

pub mod default;

verus! {

/// A menu of the user interface.
#[derive(Clone, Copy, Debug, PartialEq, Eq, Structural, Hash)]
pub enum Menu {
    /// The menu that the plate starts with.
    Home,
    /// The menu of a reflow process in progress.
    Reflowing,
}

} // verus!
