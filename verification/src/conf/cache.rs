//! Configuration of the database entry cache.

use vstd::prelude::*;

verus! {

/// Where the entry cache lives and how long its entries stay valid.
#[derive(Debug)]
pub struct Config {
    /// Connection URL of the cache database.
    pub connection_url: String,
    /// Lifetime of one cache entry, in milliseconds.
    pub entry_expiry_duration: u64,
}

} // verus!
