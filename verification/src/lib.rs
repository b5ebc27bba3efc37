//! Asynchronous wait/notification core of a small kernel, with the utility
//! types and geometry helpers that accompany it.
//!
//! The heart of the crate is the one-shot, one-waiter event latch
//! ([`event::Source`]) together with the uniform wait capability contract
//! ([`event::PrimitiveWaiter`]), the protocol that folds several waiters into
//! a single blocking step ([`aggregate`]), and the user-space reactor that
//! applies the same protocol across a syscall boundary ([`reactor`]).

pub mod aggregate;
pub mod event;
pub mod geom;
pub mod reactor;
pub mod util;

pub use util::round_up;
