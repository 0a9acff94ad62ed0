//! Desktop notifications: the typed notification model, its wire encoding and
//! the protocol state machines of the notification bus interface.
//!
//! The crate holds no transport. Every operation that talks to the session bus
//! is split in two verified halves: one builds the outgoing call as a plain
//! value, the other reads the reply or the signal that came back.

pub mod error;
pub mod hint_set;
pub mod hints;
pub mod image;
pub mod message;
pub mod notification;
pub mod server;
pub mod signals;
pub mod text;
pub mod timeout;
pub mod urgency;
pub mod wire;
pub mod xdg;
