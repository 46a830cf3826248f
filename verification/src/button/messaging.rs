//! Button module - the messages that report button presses.

use vstd::prelude::*;

verus! {

/// Button press type
#[derive(Debug, Copy, Clone, PartialEq, Eq, Structural)]
pub enum PressType {
    /// Short button press type
    ShortRelease,
    /// Long button press type
    LongRelease,
    /// Long hold
    LongHold,
}

/// Button message: one completed press of a button.
///
/// Timestamps are ticks of the monotonic system clock.
#[derive(Debug, Copy, Clone)]
pub struct ButtonMessage {
    /// Button ID
    pub id: u8,
    /// Timestamp of button press start
    pub timestamp_start: u64,
    /// Timestamp of button press end
    pub timestamp_end: u64,
    /// The type of button press
    pub press_type: PressType,
}

impl ButtonMessage {
    /// How long the button was held down, in clock ticks.
    pub fn press_duration_ticks(&self) -> (d: u64)
        requires
            self.timestamp_start <= self.timestamp_end,
        ensures
            d == self.timestamp_end - self.timestamp_start,
    {
        self.timestamp_end - self.timestamp_start
    }
}

} // verus!
