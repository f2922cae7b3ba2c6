//! The colors the panes draw with.
use vstd::prelude::*;

verus! {

#[derive(Debug, Clone, Copy, PartialEq, Eq, Structural)]
pub enum UiColor {
    Cyan,
    Magenta,
    Green,
    Yellow,
    Blue,
    LightRed,
    LightGreen,
    LightCyan,
    Red,
    Gray,
    DarkGray,
    White,
}

} // verus!
