//! The catalog of OpenAI-compatible providers.

use crate::replica::Replica;
use crate::text::same_text;
use vstd::prelude::*;

verus! {

/// An OpenAI-compatible provider of the catalog.
#[derive(Debug, Clone)]
pub struct CatalogEntry {
    /// Its id.
    pub id: String,
    /// Its base URL.
    pub base_url: String,
    /// Environment variable that holds its key.
    pub env_var: String,
    /// Its API path, if not the usual one.
    pub api_path: Option<String>,
}

impl Replica for CatalogEntry {
    open spec fn same(self, other: Self) -> bool {
        &&& self.id.same(other.id)
        &&& self.base_url.same(other.base_url)
        &&& self.env_var.same(other.env_var)
        &&& self.api_path.same(other.api_path)
    }

    fn replicate(&self) -> (r: Self) {
        CatalogEntry {
            id: self.id.replicate(),
            base_url: self.base_url.replicate(),
            env_var: self.env_var.replicate(),
            api_path: self.api_path.replicate(),
        }
    }

    fn agrees(&self, other: &Self) -> (b: bool) {
        self.id.agrees(&other.id)
            && self.base_url.agrees(&other.base_url)
            && self.env_var.agrees(&other.env_var)
            && self.api_path.agrees(&other.api_path)
    }

    proof fn same_as_itself(self) {
        self.id.same_as_itself();
        self.base_url.same_as_itself();
        self.env_var.same_as_itself();
        self.api_path.same_as_itself();
    }

    proof fn same_through(self, middle: Self, other: Self) {
        self.id.same_through(middle.id, other.id);
        self.base_url.same_through(middle.base_url, other.base_url);
        self.env_var.same_through(middle.env_var, other.env_var);
        self.api_path.same_through(middle.api_path, other.api_path);
    }
}

/// A catalog of providers that need no arm of their own in
/// [`ProviderType`](crate::config::ProviderType).
#[derive(Debug, Clone)]
pub struct ProviderCatalog {
    /// The entries; of two with the same id the first counts.
    pub entries: Vec<CatalogEntry>,
}

/// The first entry with the id `id`.
pub open spec fn entry_with_id(entries: Seq<CatalogEntry>, id: Seq<char>) -> Option<CatalogEntry>
    decreases entries.len(),
{
    if entries.len() == 0 {
        None
    } else if entries[0].id@ == id {
        Some(entries[0])
    } else {
        entry_with_id(entries.drop_first(), id)
    }
}

impl ProviderCatalog {
    /// The first entry with the id `id`.
    pub fn get(&self, id: &str) -> (r: Option<&CatalogEntry>)
        ensures
            match r {
                Some(e) => entry_with_id(self.entries@, id@) == Some(*e),
                None => entry_with_id(self.entries@, id@) is None,
            },
    {
        let mut i: usize = 0;
        proof {
            assert(self.entries@.skip(0) =~= self.entries@);
        }
        while i < self.entries.len()
            invariant
                i <= self.entries.len(),
                entry_with_id(self.entries@, id@) == entry_with_id(
                    self.entries@.skip(i as int),
                    id@,
                ),
            decreases self.entries.len() - i,
        {
            proof {
                let rest = self.entries@.skip(i as int);
                assert(rest[0] == self.entries@[i as int]);
                assert(rest.drop_first() =~= self.entries@.skip(i as int + 1));
            }
            if same_text(self.entries[i].id.as_str(), id) {
                return Some(&self.entries[i]);
            }
            i = i + 1;
        }
        None
    }
}

} // verus!
