//! Records shipped as JSON to the log collector.

pub mod storage;
