//! One cache line of storage.

use vstd::prelude::*;

use super::padded::{CACHE_LINE_SIZE, CachePadded};

verus! {

/// Storage that takes up exactly one cache line; the target of cache-line
/// flushes.
#[derive(Debug, Clone, Copy, PartialEq, PartialOrd, Ord, Eq, Hash)]
pub struct Cacheline(CachePadded<[u8; CACHE_LINE_SIZE]>);

impl View for Cacheline {
    type V = Seq<u8>;

    closed spec fn view(&self) -> Seq<u8> {
        self.0@@
    }
}

} // verus!
