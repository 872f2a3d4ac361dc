//! A storage usage record and its builder. The builder carries the assigned
//! fields; building computes the remaining space and stamps the record with
//! the current wall-clock time.

use vstd::prelude::*;
use vstd::string::StrSliceExecFns;

verus! {

/// One storage usage measurement: where, how much in total, how much used,
/// how much remains, and when it was taken (milliseconds since the epoch).
#[derive(Debug)]
pub struct Storage {
    path: String,
    capacity: u64,
    used: u64,
    remaining: u64,
    datetime_ms: i64,
}

impl Storage {
    /// The measured path.
    pub closed spec fn spec_path(&self) -> Seq<char> {
        self.path@
    }

    /// The total capacity.
    pub closed spec fn spec_capacity(&self) -> u64 {
        self.capacity
    }

    /// The used amount.
    pub closed spec fn spec_used(&self) -> u64 {
        self.used
    }

    /// The remaining amount.
    pub closed spec fn spec_remaining(&self) -> u64 {
        self.remaining
    }

    /// The measured path.
    pub fn path(&self) -> (r: &str)
        ensures
            r@ == self.spec_path(),
    {
        self.path.as_str()
    }

    /// The total capacity.
    pub fn capacity(&self) -> (r: &u64)
        ensures
            *r == self.spec_capacity(),
    {
        &self.capacity
    }

    /// The used amount.
    pub fn used(&self) -> (r: &u64)
        ensures
            *r == self.spec_used(),
    {
        &self.used
    }

    /// The remaining amount.
    pub fn remaining(&self) -> (r: &u64)
        ensures
            *r == self.spec_remaining(),
    {
        &self.remaining
    }

    /// When the measurement was taken, in milliseconds since the epoch.
    pub fn datetime_ms(&self) -> i64 {
        self.datetime_ms
    }
}

/// Relies on `chrono::Local::now` for the current wall-clock time; the
/// value depends on the clock, so nothing is promised of it.
#[verifier::external_body]
fn now_timestamp_ms() -> i64 {
    chrono::Local::now().timestamp_millis()
}

/// Collects the assigned fields of a [`Storage`] record.
#[derive(Debug, Default)]
pub struct StorageBuilder {
    pub path: String,
    pub capacity: u64,
    pub used: u64,
}

impl StorageBuilder {
    /// Sets the measured path.
    pub fn path(self, path: &str) -> (r: StorageBuilder)
        ensures
            r.path@ == path@,
            r.capacity == self.capacity,
            r.used == self.used,
    {
        StorageBuilder { path: path.to_owned(), capacity: self.capacity, used: self.used }
    }

    /// Sets the total capacity.
    pub fn capacity(self, capacity: u64) -> (r: StorageBuilder)
        ensures
            r.path == self.path,
            r.capacity == capacity,
            r.used == self.used,
    {
        StorageBuilder { path: self.path, capacity, used: self.used }
    }

    /// Sets the used amount.
    pub fn used(self, used: u64) -> (r: StorageBuilder)
        ensures
            r.path == self.path,
            r.capacity == self.capacity,
            r.used == used,
    {
        StorageBuilder { path: self.path, capacity: self.capacity, used }
    }

    /// Builds the record: the remaining space is what the capacity has over
    /// the used amount, and the timestamp is the clock's current reading.
    pub fn build(&self) -> (r: Storage)
        requires
            self.used <= self.capacity,
        ensures
            r.spec_path() == self.path@,
            r.spec_capacity() == self.capacity,
            r.spec_used() == self.used,
            r.spec_remaining() == self.capacity - self.used,
    {
        Storage {
            path: self.path.clone(),
            capacity: self.capacity,
            used: self.used,
            remaining: self.capacity - self.used,
            datetime_ms: now_timestamp_ms(),
        }
    }
}

} // verus!
