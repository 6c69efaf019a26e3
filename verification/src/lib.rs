//! The decisions of a D-Bus connection, on plain values.
//!
//! A connection to a message bus is mostly calls into the C library that owns the
//! socket. What stands between those calls is decided here, and proved: which reply
//! an unhandled message gets ([`reply`]), how a method call collects the one reply
//! it is owed ([`context`]), which file descriptors are to be watched ([`watch`]),
//! and what the answers of the C library mean to a caller ([`channel`]).
pub mod channel;
pub mod context;
pub mod error;
pub mod message;
pub mod reply;
pub mod watch;
