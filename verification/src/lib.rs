//! Cross-process named counting semaphores: the verified logic.
//!
//! A semaphore is identified by a caller-chosen string. The library derives a
//! stable rendezvous token from that string, resolves the create-or-join race
//! that a non-atomic kernel creation protocol forces on unrelated processes,
//! and fixes the observable count semantics of `wait`, `try_wait` and `post`.
//! The kernel calls themselves are performed by a thin unverified driver that
//! consults this library for every decision.

pub mod hashing;
pub mod keys;
pub mod ops;
pub mod protocol;
