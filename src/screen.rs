//! The screens of the control surface.

use vstd::prelude::*;

verus! {

/// A page of the synthesizer's parameter screens.
#[derive(Debug, Clone, Copy, PartialEq, Eq, PartialOrd, Ord, Structural)]
pub enum SynthScreen {
    Osc,
    Env,
    LFO,
    LowPass,
    ModMatrix,
}

/// A screen of the control surface.
#[derive(Debug, Clone, Copy, PartialEq, Eq, PartialOrd, Ord, Structural)]
pub enum Screen {
    Settings,
    MidiSelection,
    SynthScreen(SynthScreen),
}

} // verus!
