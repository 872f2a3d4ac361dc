//! Support library for a family of small operational command-line tools.
//!
//! The heart of the crate is a structured error-context framework: a closed
//! taxonomy of failure categories ([`error::ErrorKind`]), a generic wrapper
//! that binds one category to an optional underlying cause
//! ([`error::Context`] and [`error::Error`]), payload-carrying structured
//! error variants ([`error::custom`]), an explicit bridge that converts an
//! error defined over one taxonomy into another taxonomy while preserving
//! the full causal chain, and a recursive renderer that turns a chain into
//! one composite diagnostic string.
//!
//! Around that core sit plain configuration records ([`conf`]), a storage
//! usage record with its builder ([`json`]), and the pure decision logic of
//! the process-output helpers ([`util`]).

pub mod conf;
pub mod error;
pub mod json;
pub mod text;
pub mod util;
