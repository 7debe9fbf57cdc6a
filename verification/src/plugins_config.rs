//! The plugin list.

use vstd::prelude::*;

use crate::text::same_text;

verus! {

/// One plugin.
#[derive(Debug, Clone)]
pub struct PluginEntry {
    /// Its name.
    pub name: String,
    /// Whether it is loaded.
    pub enabled: bool,
    /// Permissions that the user has granted to it.
    pub permissions_granted: Vec<String>,
}

/// The plugin list.
#[derive(Debug, Clone)]
pub struct PluginsConfig {
    /// The plugins.
    pub plugin: Vec<PluginEntry>,
    /// Whether a plugin needs a valid signature.
    pub plugin_signature_verification: bool,
    /// Keys that signatures are checked with, in hexadecimal.
    pub trusted_plugin_keys: Vec<String>,
}

impl Default for PluginsConfig {
    fn default() -> (r: Self)
        ensures
            r.plugin@.len() == 0,
            r.plugin_signature_verification,
            r.trusted_plugin_keys@.len() == 0,
    {
        PluginsConfig {
            plugin: Vec::new(),
            plugin_signature_verification: true,
            trusted_plugin_keys: Vec::new(),
        }
    }
}

/// Whether `i` is the first place in `list` with the name `name`.
pub open spec fn is_first(list: Seq<PluginEntry>, name: Seq<char>, i: int) -> bool {
    &&& 0 <= i < list.len()
    &&& list[i].name@ == name
    &&& forall|j: int| 0 <= j < i ==> (#[trigger] list[j]).name@ != name
}

impl PluginsConfig {
    /// The first entry with the name `name`.
    pub fn entry(&self, name: &str) -> (r: Option<&PluginEntry>)
        ensures
            match r {
                Some(e) => exists|i: int| #[trigger] is_first(self.plugin@, name@, i) && *e
                    == self.plugin@[i],
                None => forall|i: int|
                    0 <= i < self.plugin@.len() ==> (#[trigger] self.plugin@[i]).name@ != name@,
            },
    {
        let mut i: usize = 0;
        while i < self.plugin.len()
            invariant
                i <= self.plugin@.len(),
                forall|j: int| 0 <= j < i ==> (#[trigger] self.plugin@[j]).name@ != name@,
            decreases self.plugin.len() - i,
        {
            if same_text(self.plugin[i].name.as_str(), name) {
                assert(is_first(self.plugin@, name@, i as int));
                return Some(&self.plugin[i]);
            }
            i = i + 1;
        }
        None
    }

    /// Whether the plugin `name` is loaded. One that is not listed is.
    pub fn is_enabled(&self, name: &str) -> (r: bool)
        ensures
            forall|i: int| #[trigger]
                is_first(self.plugin@, name@, i) ==> r == self.plugin@[i].enabled,
            (forall|i: int|
                0 <= i < self.plugin@.len() ==> (#[trigger] self.plugin@[i]).name@ != name@) ==> r,
    {
        match self.entry(name) {
            Some(e) => {
                let ghost at = choose|i: int| #[trigger]
                    is_first(self.plugin@, name@, i) && *e == self.plugin@[i];
                proof {
                    assert forall|i: int| #[trigger] is_first(self.plugin@, name@, i) implies i
                        == at by {
                        if i < at {
                            assert(self.plugin@[i].name@ != name@);
                        }
                        if at < i {
                            assert(self.plugin@[at].name@ != name@);
                        }
                    }
                }
                e.enabled
            },
            None => true,
        }
    }
}

} // verus!
