//! Approval posture and MCP visibility rules.

use crate::config::types::{ApprovalMode, McpConfig, McpServerConfig};
use crate::replica::Replica;
use crate::table::{distinct_keys, key_index, lemma_map_of_index, map_of, StrMap};
use crate::text::{is_listed, listed, same_text};
use vstd::prelude::*;

verus! {

/// How strict a posture is; higher asks for more approvals.
pub open spec fn strictness_of(mode: ApprovalMode) -> int {
    match mode {
        ApprovalMode::Default => 2,
        ApprovalMode::AutoEdit => 1,
        ApprovalMode::Force => 0,
    }
}

/// The wire string of a posture.
pub open spec fn wire_of(mode: ApprovalMode) -> Seq<char> {
    match mode {
        ApprovalMode::Default => "default"@,
        ApprovalMode::AutoEdit => "auto-edit"@,
        ApprovalMode::Force => "force"@,
    }
}

/// The posture that a wire string stands for; anything unknown is the strictest.
pub open spec fn mode_of_wire(s: Seq<char>) -> ApprovalMode {
    if s == "auto-edit"@ {
        ApprovalMode::AutoEdit
    } else if s == "force"@ {
        ApprovalMode::Force
    } else {
        ApprovalMode::Default
    }
}

impl ApprovalMode {
    /// The wire string.
    pub fn as_str(self) -> (r: &'static str)
        ensures
            r@ == wire_of(self),
    {
        match self {
            ApprovalMode::Default => "default",
            ApprovalMode::AutoEdit => "auto-edit",
            ApprovalMode::Force => "force",
        }
    }

    /// The posture that a wire string stands for; anything unknown is `Default`.
    pub fn from_wire(s: &str) -> (r: ApprovalMode)
        ensures
            r == mode_of_wire(s@),
    {
        if same_text(s, "auto-edit") {
            ApprovalMode::AutoEdit
        } else if same_text(s, "force") {
            ApprovalMode::Force
        } else {
            ApprovalMode::Default
        }
    }

    /// How strict the posture is; higher asks for more approvals.
    fn strictness(self) -> (r: u8)
        ensures
            r == strictness_of(self),
    {
        match self {
            ApprovalMode::Default => 2,
            ApprovalMode::AutoEdit => 1,
            ApprovalMode::Force => 0,
        }
    }

    /// Whether `self` asks for at least as many approvals as `other`.
    pub fn is_at_least_as_strict_as(self, other: ApprovalMode) -> (r: bool)
        ensures
            r == (strictness_of(self) >= strictness_of(other)),
    {
        self.strictness() >= other.strictness()
    }
}

/// Reading back the wire string of a posture gives that posture.
pub proof fn law_wire_round_trip(mode: ApprovalMode)
    ensures
        mode_of_wire(wire_of(mode)) == mode,
{
    reveal_strlit("default");
    reveal_strlit("auto-edit");
    reveal_strlit("force");
    assert("default"@.len() == 7);
    assert("auto-edit"@.len() == 9);
    assert("force"@.len() == 5);
}

/// Two postures of the same strictness are the same posture.
pub proof fn law_strictness_tells_modes_apart(a: ApprovalMode, b: ApprovalMode)
    requires
        strictness_of(a) == strictness_of(b),
    ensures
        a == b,
{
}

impl McpServerConfig {
    /// Whether the assistant `active` sees this server: an unmarked server is seen
    /// by every session, a marked one only by an assistant on its list.
    pub open spec fn visible_to(self, active: Option<Seq<char>>) -> bool {
        match self.only_for_assistant {
            None => true,
            Some(list) => list@.len() == 0 || match active {
                Some(a) => listed(list@, a),
                None => false,
            },
        }
    }

    /// Whether the assistant `active` sees this server. An unknown assistant does
    /// not see a marked server.
    pub fn is_visible_to_assistant(&self, active: Option<&str>) -> (r: bool)
        ensures
            r == self.visible_to(
                match active {
                    Some(a) => Some(a@),
                    None => None,
                },
            ),
    {
        match &self.only_for_assistant {
            None => true,
            Some(list) => {
                if list.len() == 0 {
                    true
                } else {
                    match active {
                        Some(a) => is_listed(list, a),
                        None => false,
                    }
                }
            },
        }
    }
}

impl McpConfig {
    /// The servers that the assistant `active` sees.
    pub fn servers_for_assistant(&self, active: Option<&str>) -> (r: StrMap<McpServerConfig>)
        ensures
            forall|k: Seq<char>|
                #![trigger r@.contains_key(k)]
                r@.contains_key(k) <==> self.servers@.contains_key(k) && self.servers@[k].visible_to(
                    match active {
                        Some(a) => Some(a@),
                        None => None,
                    },
                ),
            forall|k: Seq<char>|
                r@.contains_key(k) ==> self.servers@[k].same(#[trigger] r@[k]),
    {
        let ghost who: Option<Seq<char>> = match active {
            Some(a) => Some(a@),
            None => None,
        };
        let entries = self.servers.entries();
        let mut out: StrMap<McpServerConfig> = StrMap::new();
        let mut i: usize = 0;
        while i < entries.len()
            invariant
                i <= entries.len(),
                distinct_keys(entries@),
                map_of(entries@) == self.servers@,
                who == match active {
                    Some(a) => Some(a@),
                    None => None::<Seq<char>>,
                },
                forall|k: Seq<char>|
                    #![trigger out@.contains_key(k)]
                    out@.contains_key(k) <==> exists|j: int|
                        0 <= j < i && (#[trigger] entries@[j]).0@ == k && entries@[j].1.visible_to(
                            who,
                        ),
                forall|k: Seq<char>|
                    out@.contains_key(k) ==> self.servers@[k].same(#[trigger] out@[k]),
            decreases entries.len() - i,
        {
            proof {
                lemma_map_of_index(entries@, i as int);
            }
            if entries[i].1.is_visible_to_assistant(active) {
                let ghost before = out@;
                let copy = entries[i].1.replicate();
                out.insert(entries[i].0.clone(), copy);
                proof {
                    let key = entries@[i as int].0@;
                    assert forall|k: Seq<char>|
                        #![trigger out@.contains_key(k)]
                        out@.contains_key(k) <==> exists|j: int|
                            0 <= j < i + 1 && (#[trigger] entries@[j]).0@ == k
                                && entries@[j].1.visible_to(who) by {
                        assert(before.contains_key(k) <==> exists|j: int|
                            0 <= j < i && (#[trigger] entries@[j]).0@ == k
                                && entries@[j].1.visible_to(who));
                        if k == key {
                            assert(entries@[i as int].0@ == k);
                        }
                    }
                    assert forall|k: Seq<char>| out@.contains_key(k) implies self.servers@[k].same(
                        #[trigger] out@[k],
                    ) by {
                        if k != key {
                            assert(before.contains_key(k));
                            assert(out@[k] == before[k]);
                        }
                    }
                }
            }
            i = i + 1;
        }
        proof {
            assert forall|k: Seq<char>|
                #![trigger out@.contains_key(k)]
                out@.contains_key(k) <==> self.servers@.contains_key(k)
                    && self.servers@[k].visible_to(who) by {
                if self.servers@.contains_key(k) {
                    let j = key_index(entries@, k);
                    assert(entries@[j].0@ == k);
                    lemma_map_of_index(entries@, j);
                }
                if out@.contains_key(k) {
                    let j = choose|j: int|
                        0 <= j < entries@.len() && (#[trigger] entries@[j]).0@ == k
                            && entries@[j].1.visible_to(who);
                    lemma_map_of_index(entries@, j);
                }
            }
        }
        out
    }
}

/// A session without an identified assistant sees exactly the unmarked servers.
pub proof fn law_marked_servers_fail_closed(server: McpServerConfig)
    ensures
        server.visible_to(None) <==> match server.only_for_assistant {
            None => true,
            Some(list) => list@.len() == 0,
        },
{
}

} // verus!
