//! LED module: simple on/off LEDs and the messages that switch them.

pub mod messaging;
pub mod status;

pub use messaging::LedMessage;
pub use status::Led;
