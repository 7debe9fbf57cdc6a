//! Local MCP servers that other applications advertise.

use vstd::prelude::*;

use crate::config::paths::{join_path, joined};
use crate::text::same_text;
use crate::value::{field_of, lemma_trees_of, tree_of, trees_of, Tree, Value};

verus! {

/// The version of the discovery file that this crate knows.
pub const DISCOVERY_VERSION: u32 = 1;

/// The most that is read of the discovery file, in bytes.
pub const MAX_DISCOVERY_FILE_BYTES: u64 = 262144;

/// How a token for a server is obtained.
#[derive(Debug, Clone, PartialEq, Eq)]
pub struct DiscoveredAuth {
    /// `loopback-grant` or `none`.
    pub scheme: String,
    /// Where a token is asked for.
    pub grant_url: Option<String>,
}

/// An advertised server.
#[derive(Debug, Clone, PartialEq, Eq)]
pub struct DiscoveredMcpServer {
    /// Its name.
    pub name: String,
    /// The name to show to the user.
    pub display_name: Option<String>,
    /// Its transport.
    pub transport: String,
    /// Its URL.
    pub url: String,
    /// How a token is obtained.
    pub auth: DiscoveredAuth,
    /// What to probe before connecting.
    pub metadata_url: String,
}

impl DiscoveredMcpServer {
    /// The name to show to the user.
    pub fn label(&self) -> (r: &str)
        ensures
            r@ == match self.display_name {
                Some(shown) => shown@,
                None => self.name@,
            },
    {
        match &self.display_name {
            Some(shown) => shown.as_str(),
            None => self.name.as_str(),
        }
    }

    /// Whether the server hands out tokens itself.
    pub fn uses_loopback_grant(&self) -> (r: bool)
        ensures
            r == (self.auth.scheme@ == "loopback-grant"@ && self.auth.grant_url is Some),
    {
        same_text(self.auth.scheme.as_str(), "loopback-grant") && self.auth.grant_url.is_some()
    }
}

/// The discovery file below the configuration directory of the platform.
pub fn forge_discovery_path(os_config_dir: Option<&str>) -> (r: Option<String>)
    ensures
        match os_config_dir {
            Some(dir) => r matches Some(p) && p@ == joined(
                joined(dir@, "forge"@),
                "mcp-servers.json"@,
            ),
            None => r is None,
        },
{
    match os_config_dir {
        Some(dir) => Some(join_path(join_path(dir, "forge").as_str(), "mcp-servers.json")),
        None => None,
    }
}

/// The member `key` of a structure: the field of that name where it is written as an object,
/// and the item at its place where it is written as an array of its members.
pub open spec fn member_of(t: Tree, key: Seq<char>, place: int) -> Option<Tree> {
    match t {
        Tree::List(items) => if place < items.len() {
            Some(items[place])
        } else {
            None
        },
        _ => field_of(t, key),
    }
}

/// The member `key` of a structure, if it is a string.
pub open spec fn text_member_of(t: Tree, key: Seq<char>, place: int) -> Option<Seq<char>> {
    match member_of(t, key, place) {
        Some(Tree::Text(s)) => Some(s),
        _ => None,
    }
}

/// Whether `t` has no more items than the structure has members, if it is an array.
pub open spec fn has_room(t: Tree, members: int) -> bool {
    t matches Tree::List(items) ==> items.len() <= members
}

/// Whether `o` has the text of the member `key`: none where the member is missing or null.
pub open spec fn optional_text(t: Tree, key: Seq<char>, place: int, o: Option<String>) -> bool {
    match member_of(t, key, place) {
        None | Some(Tree::Null) => o is None,
        Some(Tree::Text(s)) => o matches Some(x) && x@ == s,
        _ => false,
    }
}

/// Whether the member `key` of `t` is missing, null or a string.
pub open spec fn may_be_text(t: Tree, key: Seq<char>, place: int) -> bool {
    match member_of(t, key, place) {
        None | Some(Tree::Null) | Some(Tree::Text(_)) => true,
        _ => false,
    }
}

/// Whether `t` describes how a token is obtained.
pub open spec fn is_auth(t: Tree) -> bool {
    &&& has_room(t, 2)
    &&& text_member_of(t, "scheme"@, 0) is Some
    &&& may_be_text(t, "grant_url"@, 1)
}

/// Whether `t` describes a server: its required members are there and each is of its kind.
/// Fields of an object that are not known are ignored.
pub open spec fn is_server(t: Tree) -> bool {
    &&& has_room(t, 6)
    &&& text_member_of(t, "name"@, 0) is Some
    &&& may_be_text(t, "display_name"@, 1)
    &&& text_member_of(t, "transport"@, 2) is Some
    &&& text_member_of(t, "url"@, 3) is Some
    &&& member_of(t, "auth"@, 4) matches Some(auth) && is_auth(auth)
    &&& text_member_of(t, "metadata_url"@, 5) is Some
}

/// Whether `s` is the server that `t` describes.
pub open spec fn describes(t: Tree, s: DiscoveredMcpServer) -> bool {
    &&& is_server(t)
    &&& text_member_of(t, "name"@, 0) == Some(s.name@)
    &&& optional_text(t, "display_name"@, 1, s.display_name)
    &&& text_member_of(t, "transport"@, 2) == Some(s.transport@)
    &&& text_member_of(t, "url"@, 3) == Some(s.url@)
    &&& member_of(t, "auth"@, 4) matches Some(auth) && text_member_of(auth, "scheme"@, 0)
        == Some(s.auth.scheme@) && optional_text(auth, "grant_url"@, 1, s.auth.grant_url)
    &&& text_member_of(t, "metadata_url"@, 5) == Some(s.metadata_url@)
}

/// The entries among `items` that describe servers, in their order.
pub open spec fn servers_among(items: Seq<Tree>) -> Seq<Tree>
    decreases items.len(),
{
    if items.len() == 0 {
        Seq::empty()
    } else if is_server(items.last()) {
        servers_among(items.drop_last()).push(items.last())
    } else {
        servers_among(items.drop_last())
    }
}

/// The server entries of a discovery document.
pub open spec fn advertised(doc: Tree) -> Seq<Tree> {
    match member_of(doc, "servers"@, 0) {
        Some(Tree::List(items)) if has_room(doc, 1) => servers_among(items),
        _ => Seq::empty(),
    }
}

/// Whether `found` are the servers that `entries` describe, in order.
pub open spec fn are_described(entries: Seq<Tree>, found: Seq<DiscoveredMcpServer>) -> bool {
    &&& entries.len() == found.len()
    &&& forall|i: int| 0 <= i < found.len() ==> describes(entries[i], #[trigger] found[i])
}

fn member<'a>(v: &'a Value, key: &str, place: usize) -> (r: Option<&'a Value>)
    ensures
        match r {
            Some(x) => member_of(v@, key@, place as int) == Some(x@),
            None => member_of(v@, key@, place as int) is None,
        },
{
    match v {
        Value::List(items) => {
            proof {
                lemma_trees_of(items@);
            }
            if place < items.len() {
                proof {
                    assert(trees_of(items@)[place as int] == tree_of(items@[place as int]));
                }
                Some(&items[place])
            } else {
                None
            }
        },
        _ => v.field(key),
    }
}

fn text_member<'a>(v: &'a Value, key: &str, place: usize) -> (r: Option<&'a str>)
    ensures
        match r {
            Some(s) => text_member_of(v@, key@, place as int) == Some(s@),
            None => text_member_of(v@, key@, place as int) is None,
        },
{
    match member(v, key, place) {
        Some(Value::Text(s)) => Some(s.as_str()),
        _ => None,
    }
}

fn fits(v: &Value, members: usize) -> (r: bool)
    ensures
        r == has_room(v@, members as int),
{
    match v {
        Value::List(items) => {
            proof {
                lemma_trees_of(items@);
            }
            items.len() <= members
        },
        _ => true,
    }
}

fn read_optional(v: &Value, key: &str, place: usize) -> (r: Result<Option<String>, ()>)
    ensures
        match r {
            Ok(o) => may_be_text(v@, key@, place as int) && optional_text(
                v@,
                key@,
                place as int,
                o,
            ),
            Err(_) => !may_be_text(v@, key@, place as int),
        },
{
    match member(v, key, place) {
        None => Ok(None),
        Some(Value::Null) => Ok(None),
        Some(Value::Text(s)) => Ok(Some(s.clone())),
        Some(_) => Err(()),
    }
}

fn read_server(v: &Value) -> (r: Option<DiscoveredMcpServer>)
    ensures
        match r {
            Some(s) => describes(v@, s),
            None => !is_server(v@),
        },
{
    if !fits(v, 6) {
        return None;
    }
    let name = text_member(v, "name", 0)?;
    let display_name = read_optional(v, "display_name", 1).ok()?;
    let transport = text_member(v, "transport", 2)?;
    let url = text_member(v, "url", 3)?;
    let auth = member(v, "auth", 4)?;
    if !fits(auth, 2) {
        return None;
    }
    let scheme = text_member(auth, "scheme", 0)?;
    let grant_url = read_optional(auth, "grant_url", 1).ok()?;
    let metadata_url = text_member(v, "metadata_url", 5)?;
    Some(
        DiscoveredMcpServer {
            name: name.to_owned(),
            display_name,
            transport: transport.to_owned(),
            url: url.to_owned(),
            auth: DiscoveredAuth { scheme: scheme.to_owned(), grant_url },
            metadata_url: metadata_url.to_owned(),
        },
    )
}

/// The advertised servers: those of the discovery document, whatever its version. Entries
/// that do not describe a server are dropped. A file that is missing or not valid has none.
pub fn read_discovered_servers(doc: Option<&Value>) -> (r: Vec<DiscoveredMcpServer>)
    ensures
        match doc {
            Some(v) => are_described(advertised(v@), r@),
            None => r@.len() == 0,
        },
{
    let mut out: Vec<DiscoveredMcpServer> = Vec::new();
    let items = match doc {
        Some(v) => match member(v, "servers", 0) {
            Some(Value::List(items)) if fits(v, 1) => items,
            _ => {
                return out;
            },
        },
        None => {
            return out;
        },
    };
    let ghost all = trees_of(items@);
    proof {
        lemma_trees_of(items@);
        assert(all.take(0) =~= Seq::empty());
    }
    let mut i: usize = 0;
    while i < items.len()
        invariant
            i <= items@.len(),
            all == trees_of(items@),
            all.len() == items@.len(),
            forall|j: int| 0 <= j < items@.len() ==> (#[trigger] all[j]) == tree_of(items@[j]),
            are_described(servers_among(all.take(i as int)), out@),
        decreases items.len() - i,
    {
        let ghost before = out@;
        proof {
            assert(all.take(i as int + 1).drop_last() =~= all.take(i as int));
            assert(all.take(i as int + 1).last() == all[i as int]);
        }
        match read_server(&items[i]) {
            Some(s) => {
                out.push(s);
            },
            None => {},
        }
        i = i + 1;
    }
    proof {
        assert(all.take(all.len() as int) =~= all);
    }
    out
}

} // verus!
