use vstd::prelude::*;

pub mod text;
pub mod paths;
pub mod surface;
pub mod runtime;
pub mod agents;
pub mod beads;
pub mod app;
pub mod guard;
pub mod git;
pub mod config;
pub mod gh;
pub mod keymap;
pub mod panes;
pub mod layout;
pub mod event;

verus! {

} // verus!
