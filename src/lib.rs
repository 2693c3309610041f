//! Resolves a process id to the systemd unit (service or scope) that owns it
//! and reads that unit's current memory counter.
//!
//! The bus traffic itself is driven by the caller: the library decides, from
//! each reply, which request comes next and when the answer is complete.

pub mod focus;
pub mod interfaces;
pub mod query;
pub mod laws;
