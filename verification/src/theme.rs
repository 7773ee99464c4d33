//! The overlay's theme vocabulary: which style a widget is drawn with and
//! the named palette colors. Turning these into concrete colors and style
//! sheets involves floating-point color math and belongs to the GUI outside
//! this crate.

use vstd::prelude::*;

verus! {

/// The style a switcher widget is drawn with.
#[derive(Debug, Clone, Default)]
pub enum Style {
    #[default]
    Default,
    Switcher,
    SelectedWindow,
}

/// The named colors of the Catppuccin Mocha palette the overlay uses.
#[derive(Debug, Clone, Copy)]
pub enum MochaColor {
    Text,
    Surface2,
    Surface1,
    Surface0,
    Base,
    Crust,
}

/// The overlay's theme; the style-sheet implementations live in the GUI.
#[derive(Debug, Default)]
pub struct Theme;

} // verus!
