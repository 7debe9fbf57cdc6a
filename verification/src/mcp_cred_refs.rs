//! Credential references `${cred:KEY}` in the headers of MCP servers.
//!
//! The configuration file holds the reference; the secret takes its place only in the copy of
//! a server that is about to connect. `KEY` is everything up to the next closing brace.

use vstd::prelude::*;

use crate::config::types::{McpServerConfig, TransportType};
use crate::credentials::error::CredentialsError;
use crate::replica::Replica;
use crate::table::{distinct_keys, has_key, key_index, lemma_map_of_index, map_of, StrMap};
use crate::text::{
    chars_of, concat, concat3, contains, contains_text, find_char, find_from, lemma_until_is,
    occurs_at, slice_of, string_of, until,
};

verus! {

/// What opens a reference.
pub const CRED_PREFIX: &'static str = "${cred:";

/// The credentials-store key of an MCP server's bearer token.
pub open spec fn token_key(server_name: Seq<char>) -> Seq<char> {
    "mcp:"@ + server_name + ":token"@
}

/// The credentials-store key of an MCP server's bearer token.
pub fn mcp_token_cred_key(server_name: &str) -> (r: String)
    ensures
        r@ == token_key(server_name@),
{
    concat3("mcp:", server_name, ":token")
}

/// The reference to `key` as a bearer token.
pub open spec fn bearer_reference(key: Seq<char>) -> Seq<char> {
    "Bearer "@ + CRED_PREFIX@ + key + "}"@
}

/// The configuration of a local HTTP server whose `Authorization` header refers to the token
/// under `cred_key`.
pub fn build_forge_mcp_server_config(url: &str, cred_key: &str) -> (r: McpServerConfig)
    ensures
        r.transport is StreamableHttp,
        r.command is None,
        r.args is None,
        r.env is None,
        r.url matches Some(u) && u@ == url@,
        r.headers matches Some(h) && h@.dom() =~= set!["Authorization"@]
            && h@["Authorization"@]@ == bearer_reference(cred_key@),
        r.deferred is None,
        r.allow_local,
        r.only_for_assistant is None,
{
    let mut headers: StrMap<String> = StrMap::new();
    let head = concat("Bearer ", CRED_PREFIX);
    headers.insert("Authorization".to_owned(), concat3(head.as_str(), cred_key, "}"));
    McpServerConfig {
        transport: TransportType::StreamableHttp,
        command: None,
        args: None,
        env: None,
        url: Some(url.to_owned()),
        headers: Some(headers),
        deferred: None,
        allow_local: true,
        only_for_assistant: None,
    }
}

/// What a credentials store answers for a key.
#[derive(Debug)]
pub enum StoreAnswer {
    /// It holds this secret.
    Held(String),
    /// It failed.
    Failed(CredentialsError),
}

/// Why a reference was not resolved.
#[derive(Debug)]
pub enum CredRefError {
    /// The store holds nothing under the key.
    Missing {
        /// The key.
        key: String,
    },
    /// The store failed.
    Store {
        /// The key.
        key: String,
        /// What the store's error says.
        source: String,
    },
    /// A reference is not closed.
    Malformed,
}

impl CredRefError {
    /// What the error says to the user.
    pub open spec fn says(self) -> Seq<char> {
        match self {
            CredRefError::Missing { key } => "credential reference ${cred:"@ + key@
                + "} not found in the credentials store"@,
            CredRefError::Store { key, source } => "credentials store error resolving ${cred:"@
                + key@ + "}: "@ + source@,
            CredRefError::Malformed =>
                "malformed credential reference (unterminated `${cred:...}`) in header value"@,
        }
    }

    /// What the error says to the user.
    pub fn message(&self) -> (r: String)
        ensures
            r@ == self.says(),
    {
        match self {
            CredRefError::Missing { key } => concat3(
                "credential reference ${cred:",
                key.as_str(),
                "} not found in the credentials store",
            ),
            CredRefError::Store { key, source } => {
                let head = concat3("credentials store error resolving ${cred:", key.as_str(), "}: ");
                concat(head.as_str(), source.as_str())
            },
            CredRefError::Malformed =>
                "malformed credential reference (unterminated `${cred:...}`) in header value".to_owned(),
        }
    }
}

/// What resolving a text comes to.
pub enum Resolution {
    /// This text.
    Text(Seq<char>),
    /// Nothing is held under this key.
    Missing(Seq<char>),
    /// The store failed on this key, and its error says this.
    Failed(Seq<char>, Seq<char>),
    /// A reference is not closed.
    Malformed,
}

/// The place of the first `needle` in `s`, if there is one.
pub open spec fn first_place(s: Seq<char>, needle: Seq<char>) -> Option<int>
    decreases s.len(),
{
    if occurs_at(s, needle, 0) {
        Some(0int)
    } else if s.len() == 0 {
        None
    } else {
        match first_place(s.drop_first(), needle) {
            Some(i) => Some(i + 1),
            None => None,
        }
    }
}

/// `s` with each reference replaced by the secret that `answers` has for its key, from left to
/// right. A key without an answer is held to be missing. The first reference that cannot be
/// resolved decides.
pub open spec fn resolved(s: Seq<char>, answers: Map<Seq<char>, StoreAnswer>) -> Resolution
    decreases s.len(),
{
    match first_place(s, CRED_PREFIX@) {
        None => Resolution::Text(s),
        Some(at) => {
            let after = s.skip(at + CRED_PREFIX@.len());
            let end = until(after, '}') as int;
            if at < 0 || CRED_PREFIX@.len() == 0 || at + CRED_PREFIX@.len() > s.len() {
                Resolution::Text(s)
            } else if end >= after.len() {
                Resolution::Malformed
            } else {
                let key = after.take(end);
                if !answers.contains_key(key) {
                    Resolution::Missing(key)
                } else {
                    match answers[key] {
                        StoreAnswer::Failed(e) => Resolution::Failed(key, e.says()),
                        StoreAnswer::Held(secret) => match resolved(
                            after.skip(end + 1),
                            answers,
                        ) {
                            Resolution::Text(t) => Resolution::Text(s.take(at) + secret@ + t),
                            other => other,
                        },
                    }
                }
            }
        },
    }
}

/// [`first_place`] is where `needle` stands and not before.
pub proof fn lemma_first_place(s: Seq<char>, needle: Seq<char>)
    ensures
        match first_place(s, needle) {
            Some(i) => 0 <= i && occurs_at(s, needle, i) && forall|j: int|
                0 <= j < i ==> !occurs_at(s, needle, j),
            None => forall|j: int| !occurs_at(s, needle, j),
        },
    decreases s.len(),
{
    if !occurs_at(s, needle, 0) && s.len() > 0 {
        let rest = s.drop_first();
        lemma_first_place(rest, needle);
        assert forall|j: int| j >= 1 implies occurs_at(s, needle, j) == occurs_at(
            rest,
            needle,
            j - 1,
        ) by {
            if j + needle.len() <= s.len() {
                assert(s.subrange(j, j + needle.len()) =~= rest.subrange(j - 1, j - 1 + needle.len()));
            }
        }
    }
}

/// A place where `needle` stands and not before is [`first_place`].
pub proof fn lemma_first_place_is(s: Seq<char>, needle: Seq<char>, at: int)
    requires
        0 <= at,
        occurs_at(s, needle, at),
        forall|j: int| 0 <= j < at ==> !occurs_at(s, needle, j),
    ensures
        first_place(s, needle) == Some(at),
{
    lemma_first_place(s, needle);
    match first_place(s, needle) {
        Some(i) => {
            if i < at {
                assert(!occurs_at(s, needle, i));
            }
            if at < i {
                assert(!occurs_at(s, needle, at));
            }
        },
        None => {
            assert(!occurs_at(s, needle, at));
        },
    }
}

/// How `r` shows a resolution.
pub open spec fn shows(r: Result<String, CredRefError>, want: Resolution) -> bool {
    match (r, want) {
        (Ok(s), Resolution::Text(t)) => s@ == t,
        (Err(CredRefError::Missing { key }), Resolution::Missing(k)) => key@ == k,
        (Err(CredRefError::Store { key, source }), Resolution::Failed(k, why)) => key@ == k
            && source@ == why,
        (Err(CredRefError::Malformed), Resolution::Malformed) => true,
        _ => false,
    }
}

/// `value` with each reference replaced by its secret, or the first reason why one cannot be.
pub fn resolve_cred_refs(value: &str, answers: &StrMap<StoreAnswer>) -> (r: Result<
    String,
    CredRefError,
>)
    ensures
        shows(r, resolved(value@, answers@)),
{
    let prefix = chars_of(CRED_PREFIX);
    proof {
        reveal_strlit("${cred:");
        assert(prefix@.len() == 7);
    }
    let cs = chars_of(value);
    let mut out: Vec<char> = Vec::new();
    let mut from: usize = 0;
    proof {
        assert(cs@.skip(0) =~= cs@);
        match resolved(cs@, answers@) {
            Resolution::Text(t) => {
                assert(out@ + t =~= t);
            },
            _ => {},
        }
    }
    loop
        invariant
            prefix@ == CRED_PREFIX@,
            prefix@.len() == 7,
            from <= cs@.len(),
            cs@ == value@,
            match resolved(cs@.skip(from as int), answers@) {
                Resolution::Text(t) => resolved(value@, answers@) == Resolution::Text(out@ + t),
                other => resolved(value@, answers@) == other,
            },
        decreases cs@.len() - from,
    {
        let ghost rest = cs@.skip(from as int);
        proof {
            assert forall|j: int| j >= 0 implies occurs_at(rest, prefix@, j) == occurs_at(
                cs@,
                prefix@,
                from + j,
            ) by {
                if from + j + 7 <= cs@.len() {
                    assert(rest.subrange(j, j + 7) =~= cs@.subrange(from + j, from + j + 7));
                }
            }
        }
        match find_from(&cs, &prefix, from) {
            None => {
                proof {
                    lemma_first_place(rest, prefix@);
                    match first_place(rest, prefix@) {
                        Some(i) => {
                            assert(occurs_at(cs@, prefix@, from + i));
                        },
                        None => {},
                    }
                    assert(rest =~= cs@.subrange(from as int, cs@.len() as int));
                }
                let mut tail = slice_of(&cs, from, cs.len());
                let ghost end = tail@;
                out.append(&mut tail);
                proof {
                    assert(resolved(rest, answers@) == Resolution::Text(rest));
                }
                return Ok(string_of(&out));
            },
            Some(at) => {
                proof {
                    assert(occurs_at(rest, prefix@, at - from));
                    assert forall|j: int| 0 <= j < at - from implies !occurs_at(rest, prefix@, j) by {
                        assert(!occurs_at(cs@, prefix@, from + j));
                    }
                    lemma_first_place_is(rest, prefix@, at - from);
                    assert(occurs_at(cs@, prefix@, at as int));
                    assert(prefix.len() == 7);
                    assert(at + 7 <= cs.len());
                }
                let start: usize = at + prefix.len();
                let ghost after = rest.skip(at - from + 7);
                proof {
                    assert(after =~= cs@.skip(start as int));
                }
                let end = find_char(&cs, '}', start);
                if end == cs.len() {
                    return Err(CredRefError::Malformed);
                }
                let key_chars = slice_of(&cs, start, end);
                let key = string_of(&key_chars);
                proof {
                    assert(key_chars@ =~= after.take(end - start));
                    assert(key@ == after.take(until(after, '}') as int));
                    assert(after.skip(end - start + 1) =~= cs@.skip(end + 1));
                }
                match answers.get(key.as_str()) {
                    None => {
                        return Err(CredRefError::Missing { key });
                    },
                    Some(StoreAnswer::Failed(e)) => {
                        return Err(CredRefError::Store { key, source: e.message() });
                    },
                    Some(StoreAnswer::Held(secret)) => {
                        let ghost before = out@;
                        let mut plain = slice_of(&cs, from, at);
                        let mut inner = chars_of(secret.as_str());
                        out.append(&mut plain);
                        out.append(&mut inner);
                        proof {
                            assert(cs@.subrange(from as int, at as int) =~= rest.take(at - from));
                            assert(out@ =~= before + rest.take(at - from) + secret@);
                            let next = cs@.skip(end + 1);
                            match resolved(next, answers@) {
                                Resolution::Text(t) => {
                                    assert(out@ + t =~= before + (rest.take(at - from) + secret@
                                        + t));
                                },
                                _ => {},
                            }
                        }
                        from = end + 1;
                    },
                }
            },
        }
    }
}

/// A text without a reference stays as it is, whatever the store would answer.
pub proof fn law_plain_text_needs_no_store(s: Seq<char>, answers: Map<Seq<char>, StoreAnswer>)
    requires
        !contains_text(s, CRED_PREFIX@),
    ensures
        resolved(s, answers) == Resolution::Text(s),
{
    lemma_first_place(s, CRED_PREFIX@);
    match first_place(s, CRED_PREFIX@) {
        Some(i) => {
            assert(occurs_at(s, CRED_PREFIX@, i));
        },
        None => {},
    }
}

/// A bearer reference resolves to the secret under its key, for every key without a closing
/// brace.
pub proof fn law_bearer_reference_resolves(
    key: Seq<char>,
    secret: String,
    answers: Map<Seq<char>, StoreAnswer>,
)
    requires
        forall|i: int| 0 <= i < key.len() ==> (#[trigger] key[i]) != '}',
        answers.contains_key(key),
        answers[key] == StoreAnswer::Held(secret),
    ensures
        resolved(bearer_reference(key), answers) == Resolution::Text("Bearer "@ + secret@),
{
    reveal_strlit("Bearer ");
    reveal_strlit("${cred:");
    reveal_strlit("}");
    let s = bearer_reference(key);
    let p = CRED_PREFIX@;
    assert(s.subrange(7, 14) =~= p);
    assert(occurs_at(s, p, 7));
    assert forall|j: int| 0 <= j < 7 implies !occurs_at(s, p, j) by {
        if occurs_at(s, p, j) {
            assert(s.subrange(j, j + 7)[0] == '$');
            assert(s[j] == '$');
        }
    }
    lemma_first_place_is(s, p, 7);
    let after = s.skip(14);
    assert(after =~= key + "}"@);
    assert forall|i: int| 0 <= i < key.len() implies after[i] != '}' by {
        assert(after[i] == key[i]);
    }
    lemma_until_is(after, '}', key.len() as int);
    assert(after.take(key.len() as int) =~= key);
    let none = after.skip(key.len() as int + 1);
    assert(none =~= Seq::empty());
    lemma_first_place(none, p);
    match first_place(none, p) {
        Some(i) => {
            assert(occurs_at(none, p, i));
        },
        None => {},
    }
    assert(resolved(none, answers) == Resolution::Text(none));
    assert(s.take(7) =~= "Bearer "@);
    assert("Bearer "@ + secret@ + none =~= "Bearer "@ + secret@);
}

/// Whether every header resolves.
pub open spec fn all_resolve(
    headers: Map<Seq<char>, String>,
    answers: Map<Seq<char>, StoreAnswer>,
) -> bool {
    forall|k: Seq<char>| #[trigger]
        headers.contains_key(k) ==> resolved(headers[k]@, answers) is Text
}

/// Whether `after` holds the headers of `before` with their references resolved.
pub open spec fn headers_resolved(
    after: Map<Seq<char>, String>,
    before: Map<Seq<char>, String>,
    answers: Map<Seq<char>, StoreAnswer>,
) -> bool {
    &&& after.dom() =~= before.dom()
    &&& forall|k: Seq<char>| #[trigger]
        before.contains_key(k) ==> resolved(before[k]@, answers) == Resolution::Text(after[k]@)
}

fn resolve_headers(headers: &StrMap<String>, answers: &StrMap<StoreAnswer>) -> (r: Result<
    StrMap<String>,
    CredRefError,
>)
    ensures
        match r {
            Ok(after) => all_resolve(headers@, answers@) && headers_resolved(
                after@,
                headers@,
                answers@,
            ),
            Err(e) => exists|k: Seq<char>| #[trigger]
                headers@.contains_key(k) && !(resolved(headers@[k]@, answers@) is Text) && shows(
                    Err(e),
                    resolved(headers@[k]@, answers@),
                ),
        },
{
    let pairs = headers.entries();
    let mut out: StrMap<String> = StrMap::new();
    let mut i: usize = 0;
    while i < pairs.len()
        invariant
            i <= pairs@.len(),
            distinct_keys(pairs@),
            map_of(pairs@) == headers@,
            forall|k: Seq<char>| #[trigger]
                out@.contains_key(k) <==> has_key(pairs@.take(i as int), k),
            forall|k: Seq<char>| #[trigger]
                out@.contains_key(k) ==> resolved(headers@[k]@, answers@) == Resolution::Text(
                    out@[k]@,
                ),
        decreases pairs.len() - i,
    {
        let ghost name = pairs@[i as int].0@;
        proof {
            lemma_map_of_index(pairs@, i as int);
            assert(headers@.contains_key(name));
        }
        match resolve_cred_refs(pairs[i].1.as_str(), answers) {
            Err(e) => {
                return Err(e);
            },
            Ok(text) => {
                let ghost before = out@;
                out.insert(pairs[i].0.clone(), text);
                proof {
                    let now = pairs@.take(i as int + 1);
                    let was = pairs@.take(i as int);
                    assert forall|k: Seq<char>| #[trigger]
                        out@.contains_key(k) <==> has_key(now, k) by {
                        if has_key(was, k) {
                            let j = key_index(was, k);
                            assert(now[j].0@ == k);
                        }
                        if k == name {
                            assert(now[i as int].0@ == k);
                        }
                        if has_key(now, k) {
                            let j = key_index(now, k);
                            if j < i {
                                assert(was[j].0@ == k);
                            }
                        }
                    }
                }
            },
        }
        i = i + 1;
    }
    proof {
        assert(pairs@.take(pairs@.len() as int) =~= pairs@);
        assert forall|k: Seq<char>| #[trigger] headers@.contains_key(k) implies out@.contains_key(
            k,
        ) by {
            assert(has_key(pairs@, k));
        }
        assert(out@.dom() =~= headers@.dom()) by {
            assert forall|k: Seq<char>| out@.dom().contains(k) == headers@.dom().contains(k) by {
                if out@.contains_key(k) {
                    assert(has_key(pairs@, k));
                }
            }
        }
        assert forall|k: Seq<char>| #[trigger] headers@.contains_key(k) implies resolved(
            headers@[k]@,
            answers@,
        ) == Resolution::Text(out@[k]@) by {
            assert(out@.contains_key(k));
        }
    }
    Ok(out)
}

/// Whether `after` is `before` but for its headers.
pub open spec fn same_but_headers(after: McpServerConfig, before: McpServerConfig) -> bool {
    after == McpServerConfig { headers: after.headers, ..before }
}

/// Resolves the references in the headers of `server`. Where one cannot be resolved the
/// server stays as it was.
pub fn resolve_server_headers(server: &mut McpServerConfig, answers: &StrMap<StoreAnswer>) -> (r:
    Result<(), CredRefError>)
    ensures
        match old(server).headers {
            None => r is Ok && *final(server) == *old(server),
            Some(h) => match r {
                Ok(_) => {
                    &&& all_resolve(h@, answers@)
                    &&& same_but_headers(*final(server), *old(server))
                    &&& final(server).headers matches Some(after) && headers_resolved(
                        after@,
                        h@,
                        answers@,
                    )
                },
                Err(e) => {
                    &&& exists|k: Seq<char>| #[trigger]
                        h@.contains_key(k) && !(resolved(h@[k]@, answers@) is Text) && shows(
                            Err(e),
                            resolved(h@[k]@, answers@),
                        )
                    &&& *final(server) == *old(server)
                },
            },
        },
{
    match &server.headers {
        None => Ok(()),
        Some(h) => match resolve_headers(h, answers) {
            Err(e) => Err(e),
            Ok(after) => {
                server.headers = Some(after);
                Ok(())
            },
        },
    }
}

/// Whether `after` is `before` as it connects: with its references resolved if all of them
/// can be, else as it stands in the configuration.
pub open spec fn is_ready(
    after: McpServerConfig,
    before: McpServerConfig,
    answers: Map<Seq<char>, StoreAnswer>,
) -> bool {
    match before.headers {
        Some(h) if all_resolve(h@, answers) => {
            &&& after.headers matches Some(x) && headers_resolved(x@, h@, answers)
            &&& before.same(McpServerConfig { headers: before.headers, ..after })
        },
        _ => before.same(after),
    }
}

/// A copy of `servers` to connect with. A server with a reference that cannot be resolved
/// keeps its literal headers, so that it fails on its own.
pub fn resolve_servers_for_connect(
    servers: &StrMap<McpServerConfig>,
    answers: &StrMap<StoreAnswer>,
) -> (r: StrMap<McpServerConfig>)
    ensures
        r@.dom() =~= servers@.dom(),
        forall|k: Seq<char>| #[trigger]
            servers@.contains_key(k) ==> is_ready(r@[k], servers@[k], answers@),
{
    let pairs = servers.entries();
    let mut out: StrMap<McpServerConfig> = StrMap::new();
    let mut i: usize = 0;
    while i < pairs.len()
        invariant
            i <= pairs@.len(),
            distinct_keys(pairs@),
            map_of(pairs@) == servers@,
            forall|k: Seq<char>| #[trigger]
                out@.contains_key(k) <==> has_key(pairs@.take(i as int), k),
            forall|k: Seq<char>| #[trigger]
                out@.contains_key(k) ==> is_ready(out@[k], servers@[k], answers@),
        decreases pairs.len() - i,
    {
        let ghost name = pairs@[i as int].0@;
        let ghost given = pairs@[i as int].1;
        proof {
            lemma_map_of_index(pairs@, i as int);
        }
        let mut copy = pairs[i].1.replicate();
        let ghost plain = copy;
        let r = resolve_server_headers(&mut copy, answers);
        proof {
            lemma_ready(copy, plain, given, answers@, r);
        }
        let ghost before = out@;
        out.insert(pairs[i].0.clone(), copy);
        proof {
            let now = pairs@.take(i as int + 1);
            let was = pairs@.take(i as int);
            assert forall|k: Seq<char>| #[trigger] out@.contains_key(k) <==> has_key(now, k) by {
                if has_key(was, k) {
                    let j = key_index(was, k);
                    assert(now[j].0@ == k);
                }
                if k == name {
                    assert(now[i as int].0@ == k);
                }
                if has_key(now, k) {
                    let j = key_index(now, k);
                    if j < i {
                        assert(was[j].0@ == k);
                    }
                }
            }
        }
        i = i + 1;
    }
    proof {
        assert(pairs@.take(pairs@.len() as int) =~= pairs@);
        assert(out@.dom() =~= servers@.dom()) by {
            assert forall|k: Seq<char>| out@.dom().contains(k) == servers@.dom().contains(k) by {
                if out@.contains_key(k) {
                    assert(has_key(pairs@, k));
                }
                if servers@.contains_key(k) {
                    assert(has_key(pairs@, k));
                    assert(out@.contains_key(k));
                }
            }
        }
        assert forall|k: Seq<char>| #[trigger] servers@.contains_key(k) implies is_ready(
            out@[k],
            servers@[k],
            answers@,
        ) by {
            assert(has_key(pairs@, k));
            assert(out@.contains_key(k));
        }
    }
    out
}

/// A copy whose headers were resolved is ready.
proof fn lemma_ready(
    after: McpServerConfig,
    copy: McpServerConfig,
    given: McpServerConfig,
    answers: Map<Seq<char>, StoreAnswer>,
    r: Result<(), CredRefError>,
)
    requires
        given.same(copy),
        match copy.headers {
            None => r is Ok && after == copy,
            Some(h) => match r {
                Ok(_) => {
                    &&& all_resolve(h@, answers)
                    &&& same_but_headers(after, copy)
                    &&& after.headers matches Some(x) && headers_resolved(x@, h@, answers)
                },
                Err(e) => {
                    &&& exists|k: Seq<char>| #[trigger]
                        h@.contains_key(k) && !(resolved(h@[k]@, answers) is Text) && shows(
                            Err(e),
                            resolved(h@[k]@, answers),
                        )
                    &&& after == copy
                },
            },
        },
    ensures
        is_ready(after, given, answers),
{
    match given.headers {
        Some(g) => {
            let h = copy.headers->0;
            assert(g.same(h));
            assert(g@.dom() == h@.dom());
            assert forall|k: Seq<char>| #[trigger] g@.contains_key(k) implies g@[k]@ == h@[k]@ by {
                assert(g@[k].same(h@[k]));
            }
            assert(all_resolve(g@, answers) == all_resolve(h@, answers)) by {
                if all_resolve(g@, answers) {
                    assert forall|k: Seq<char>| #[trigger] h@.contains_key(k) implies resolved(
                        h@[k]@,
                        answers,
                    ) is Text by {
                        assert(g@.contains_key(k));
                    }
                }
                if all_resolve(h@, answers) {
                    assert forall|k: Seq<char>| #[trigger] g@.contains_key(k) implies resolved(
                        g@[k]@,
                        answers,
                    ) is Text by {
                        assert(h@.contains_key(k));
                    }
                }
            }
            if r is Ok {
                let x = after.headers->0;
                assert(headers_resolved(x@, g@, answers)) by {
                    assert forall|k: Seq<char>| #[trigger] g@.contains_key(k) implies resolved(
                        g@[k]@,
                        answers,
                    ) == Resolution::Text(x@[k]@) by {
                        assert(h@.contains_key(k));
                    }
                }
                given.headers.same_as_itself();
            }
        },
        None => {},
    }
}

} // verus!
