//! Verified core of the big-button firmware: button press tracking,
//! LED output bookkeeping, the application state machine, clock planning
//! and secret de-obfuscation.

pub mod button;
pub mod clocks_config;
pub mod gpio;
pub mod led;
pub mod state_machine;
pub mod utility;
