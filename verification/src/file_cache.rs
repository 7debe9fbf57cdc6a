//! File state cache settings.

use crate::replica::Replica;
use vstd::prelude::*;

verus! {

/// Settings of the file state cache.
#[derive(Debug, Clone)]
pub struct FileCacheConfig {
    /// Maximum number of cached files.
    pub max_entries: usize,
    /// Maximum total size of the cache.
    pub max_size_bytes: usize,
    /// Whether the cache is on.
    pub enabled: bool,
}

impl FileCacheConfig {
    /// Whether every setting has its built-in value.
    pub open spec fn is_default(self) -> bool {
        &&& self.max_entries == 100
        &&& self.max_size_bytes == 26214400
        &&& self.enabled
    }
}

impl Default for FileCacheConfig {
    fn default() -> (r: Self)
        ensures
            r.is_default(),
    {
        FileCacheConfig {
            max_entries: 100,
            max_size_bytes: 26214400,
            enabled: true,
        }
    }
}

impl Replica for FileCacheConfig {
    open spec fn same(self, other: Self) -> bool {
        &&& self.max_entries.same(other.max_entries)
        &&& self.max_size_bytes.same(other.max_size_bytes)
        &&& self.enabled.same(other.enabled)
    }

    fn replicate(&self) -> (r: Self) {
        FileCacheConfig {
            max_entries: self.max_entries.replicate(),
            max_size_bytes: self.max_size_bytes.replicate(),
            enabled: self.enabled.replicate(),
        }
    }

    fn agrees(&self, other: &Self) -> (b: bool) {
        self.max_entries.agrees(&other.max_entries)
            && self.max_size_bytes.agrees(&other.max_size_bytes)
            && self.enabled.agrees(&other.enabled)
    }

    proof fn same_as_itself(self) {
        self.max_entries.same_as_itself();
        self.max_size_bytes.same_as_itself();
        self.enabled.same_as_itself();
    }

    proof fn same_through(self, middle: Self, other: Self) {
        self.max_entries.same_through(middle.max_entries, other.max_entries);
        self.max_size_bytes.same_through(middle.max_size_bytes, other.max_size_bytes);
        self.enabled.same_through(middle.enabled, other.enabled);
    }
}
} // verus!
