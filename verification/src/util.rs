//! The pure decision logic of the utility helpers. The surrounding process
//! plumbing (spawning, piping, locking, logging) happens outside the
//! library and hands plain values in.

pub mod process;
