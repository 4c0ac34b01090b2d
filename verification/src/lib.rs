//! Verified core of a small interactive teaching demo.
//!
//! The library holds the logic the demo exercises: the reference-and-lifetime
//! examples, the shared cells the concurrency walkthroughs mutate under a lock,
//! the serialized round each walkthrough performs, the joiner bookkeeping, a
//! model of lock poisoning, and the menu parsing. The surrounding binary does
//! the console input and output and the actual thread spawning, and calls into
//! these functions for every decision and every state change.

pub mod cells;
pub mod driver;
pub mod errors;
pub mod joiner;
pub mod lifetimes;
pub mod lock;
pub mod menu;
pub mod schedule;
