//! Reader for MumbleLink, the shared-memory record through which a game tells
//! positional-audio software where the player stands and looks.
//!
//! The library holds what can be decided without the operating system: where the
//! fields of the record lie, how its text is decoded, which calls open the shared
//! region and in what order, and what becomes of a handler when it is released. The
//! calls themselves, and the copying of the mapped bytes, are left to the caller.

pub mod error;
pub mod layout;
pub mod mumble_link;
pub mod mumble_link_handler;
pub mod platform;
pub mod wide_text;
