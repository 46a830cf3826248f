//! LED (simple) messaging: what other parts of the program ask of the LEDs.

use vstd::prelude::*;

verus! {

/// Led pub-sub message item definition/structure
#[derive(Debug, Copy, Clone)]
pub enum LedMessage {
    /// Set immediate on/off state (`false`: OFF or `true`: ON)
    SetState { ids: &'static [u8], state: bool },
}

} // verus!
