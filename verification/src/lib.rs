//! A reader–writer lock built on a single 32-bit atomic state word and a
//! futex-style parking facility.
//!
//! The word counts live readers; its maximum value is reserved as the writer
//! sentinel. `state` holds the word's encoding and the protocol decisions,
//! `model` the protocol's transition system and the laws proved of it, and
//! `lock` the lock itself with its two guards.

pub mod lock;
pub mod model;
pub mod state;
