//! What the screens of the user interface compute.
use vstd::prelude::*;

pub mod input;
pub mod settings;
pub mod soundboard;
pub mod theme;

verus! {

/// The screen shown below the tab bar.
#[derive(Debug, Clone, Copy, PartialEq, Eq, Structural)]
pub enum Screen {
    Input,
    Soundboard,
    Settings,
}

} // verus!
