//! The settings window of the graphical front end.

use vstd::prelude::*;

verus! {

/// The root view of the settings window, which fills the whole window.
#[derive(Debug, Clone, Copy)]
pub struct Fenster;

} // verus!
