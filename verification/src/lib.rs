//! Host-facts collection: query the local machine for OS identity, CPU,
//! memory and storage figures, normalize the sometimes-missing telemetry
//! into one consistent immutable record, and hand it to the caller.
//!
//! The normalization policy (defaults for missing facts, unit conversion,
//! the underflow clamp, the system-drive placeholder) is specified by the
//! spec function [`normalize::facts_of`] and proved of every collection.

pub mod collector;
pub mod facts;
pub mod normalize;
mod os_query;
pub mod raw;
pub mod strutil;
