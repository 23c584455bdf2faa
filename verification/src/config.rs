//! Immutable parameters of one benchmark run.

use vstd::prelude::*;

verus! {

/// The configuration of a run: created once from resolved inputs, read-only
/// for the run's whole life. Operation-specific fields are meaningful only
/// for their operation family: object and part size and the multipart switch
/// for PUT, the range length for GET, none beyond the prefix for LIST.
pub struct BenchmarkConfig {
    /// Nominal length of the issuing window.
    pub duration_micros: u64,
    /// Concurrency limit: the number of admission slots.
    pub concurrency: u64,
    /// Key prefix shared by PUT, GET and LIST runs.
    pub prefix: String,
    /// Bytes per uploaded object.
    pub object_size: usize,
    /// Bytes per multipart part.
    pub part_size: usize,
    /// Forces the single-shot upload path regardless of sizes.
    pub disable_multipart: bool,
    /// Length of a ranged GET; a full download when absent.
    pub range_bytes: Option<u64>,
}

impl BenchmarkConfig {
    /// A usable configuration: at least one admission slot, parts of at
    /// least one byte, and any configured range long enough to have a last
    /// byte.
    pub open spec fn wf(self) -> bool {
        &&& self.concurrency >= 1
        &&& self.part_size >= 1
        &&& (self.range_bytes matches Some(n) ==> n >= 1)
    }

    /// Decides whether the configuration is usable.
    pub fn validate(&self) -> (r: bool)
        ensures
            r <==> self.wf(),
    {
        let range_ok = match &self.range_bytes {
            Option::Some(n) => *n >= 1,
            Option::None => true,
        };
        self.concurrency >= 1 && self.part_size >= 1 && range_ok
    }
}

} // verus!
