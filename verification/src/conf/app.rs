//! The general application configuration shared by every tool, and the two
//! capabilities a tool's argument and configuration types satisfy.

use vstd::prelude::*;

verus! {

/// A parsed command-line argument set that can name the configuration file
/// to load.
pub trait ArgConf {
    /// The path of the configuration file.
    fn conf(&self) -> &str;
}

/// A tool configuration that embeds the general section.
pub trait Conf {
    /// The general section of the configuration.
    fn general(&self) -> &Config;
}

/// The general section every tool configuration carries.
#[derive(Debug)]
pub struct Config {
    /// Path of a logger configuration file; the default logger is used when
    /// absent.
    pub log_conf_path: Option<String>,
    /// Path of the lock file that arbitrates concurrent tool invocations.
    pub lock_file: String,
    /// Delay between repeated runs, in milliseconds; run once when absent.
    pub repeat_delay: Option<u64>,
}

} // verus!
