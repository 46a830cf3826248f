//! Button module: button identifiers, press tracking and press messages.

pub mod messaging;
pub mod monitor;

pub use messaging::{ButtonMessage, PressType};
pub use monitor::Button;
