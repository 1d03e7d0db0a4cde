//! Marshaling of runtime values between an execution engine and a host.
//!
//! The engine keeps every runtime value in memory of its own and hands out
//! opaque handles. This crate states, and proves, what the host may rely on
//! when it reads, writes, builds and releases such values, and how the trace
//! of a fault that a memory-safety checker reports is put into text.

pub mod aggregate;
pub mod engine;
pub mod generic_value;
pub mod miri;
pub mod types;
pub mod values;
pub mod word_codec;
