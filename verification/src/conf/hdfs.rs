//! Configuration of the HDFS inspection and copy tools.

use vstd::prelude::*;

verus! {

/// Configuration of the HDFS usage report: which path to measure.
#[derive(Debug)]
pub struct DfConfig {
    /// The HDFS path whose usage is reported.
    pub path: String,
}

/// Configuration of the HDFS copy tool.
#[derive(Debug)]
pub struct CopyConfig {
    /// The HDFS path to list.
    pub path: String,
    /// Glob patterns selecting the entries to copy.
    pub matches: Vec<String>,
    /// The local destination directory.
    pub copy_to: String,
}

} // verus!
