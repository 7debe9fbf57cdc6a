//! How secrets are kept out of what is shown, put into what is sent, and read from a dotenv file.

use crate::config::redact::{
    masked, masked_entries, masked_items, names_secret, redacted, redacted_entries, redacted_items,
};
use crate::config::types::McpServerConfig;
use crate::env_file::{
    encoded, escaped, is_delicate, is_key, is_value, line_entry, names_credential, needs_quotes,
    parsed, unescaped, unquoted, with_line, with_lines,
};
use crate::mcp_cred_refs::{
    all_resolve, bearer_reference, first_place, is_ready, resolved, token_key, CredRefError,
    Resolution, StoreAnswer,
};
use crate::replica::Replica;
use crate::text::{ascii_lower, contains_text, is_space, lemma_until_is, occurs_at, trimmed};
use crate::value::Tree;
use vstd::prelude::*;

verus! {

/// The words that mark a key as the name of a secret, in whatever case and wherever in the key.
pub proof fn law_secret_words(key: Seq<char>, before: Seq<char>, after: Seq<char>)
    ensures
        ascii_lower(key) == before + "api_key"@ + after ==> names_secret(key),
        ascii_lower(key) == before + "apikey"@ + after ==> names_secret(key),
        ascii_lower(key) == before + "token"@ + after ==> names_secret(key),
        ascii_lower(key) == before + "secret"@ + after ==> names_secret(key),
        ascii_lower(key) == before + "password"@ + after ==> names_secret(key),
        ascii_lower(key) == before + "passwd"@ + after ==> names_secret(key),
        ascii_lower(key) == before + "credential"@ + after ==> names_secret(key),
        ascii_lower(key) == before + "private_key"@ + after ==> names_secret(key),
        ascii_lower(key) == before + "auth"@ + after ==> names_secret(key),
        names_secret(key) ==> contains_text(ascii_lower(key), "api_key"@)
            || contains_text(ascii_lower(key), "apikey"@)
            || contains_text(ascii_lower(key), "token"@)
            || contains_text(ascii_lower(key), "secret"@)
            || contains_text(ascii_lower(key), "password"@)
            || contains_text(ascii_lower(key), "passwd"@)
            || contains_text(ascii_lower(key), "credential"@)
            || contains_text(ascii_lower(key), "private_key"@)
            || contains_text(ascii_lower(key), "auth"@),
{
    lemma_contains(before, "api_key"@, after);
    lemma_contains(before, "apikey"@, after);
    lemma_contains(before, "token"@, after);
    lemma_contains(before, "secret"@, after);
    lemma_contains(before, "password"@, after);
    lemma_contains(before, "passwd"@, after);
    lemma_contains(before, "credential"@, after);
    lemma_contains(before, "private_key"@, after);
    lemma_contains(before, "auth"@, after);
}

proof fn lemma_contains(before: Seq<char>, word: Seq<char>, after: Seq<char>)
    ensures
        contains_text(before + word + after, word),
{
    let s = before + word + after;
    let i = before.len() as int;
    assert(s.subrange(i, i + word.len()) =~= word);
    assert(occurs_at(s, word, i));
}

/// Masking writes three stars for every text at any depth, keeps the shape and the keys, and leaves
/// what is no text as it is.
pub proof fn law_masking(t: Tree, i: int)
    ensures
        t is Text ==> masked(t) == Tree::Text("***"@),
        t is List ==> masked(t) is List && masked(t)->List_0.len() == t->List_0.len() && (0 <= i
            < t->List_0.len() ==> masked(t)->List_0[i] == masked(t->List_0[i])),
        t is Table ==> masked(t) is Table && masked(t)->Table_0.len() == t->Table_0.len() && (0 <= i
            < t->Table_0.len() ==> masked(t)->Table_0[i] == (
            t->Table_0[i].0,
            masked(t->Table_0[i].1),
        )),
        !(t is Text) && !(t is List) && !(t is Table) ==> masked(t) == t,
{
    match t {
        Tree::List(items) => {
            lemma_masked_item(items, i);
        },
        Tree::Table(entries) => {
            lemma_masked_entry(entries, i);
        },
        _ => {},
    }
}

proof fn lemma_masked_item(items: Seq<Tree>, i: int)
    ensures
        masked_items(items).len() == items.len(),
        0 <= i < items.len() ==> masked_items(items)[i] == masked(items[i]),
    decreases items.len(),
{
    if items.len() > 0 {
        lemma_masked_item(items.drop_last(), i);
    }
}

proof fn lemma_masked_entry(entries: Seq<(Seq<char>, Tree)>, i: int)
    ensures
        masked_entries(entries).len() == entries.len(),
        0 <= i < entries.len() ==> masked_entries(entries)[i] == (
            entries[i].0,
            masked(entries[i].1),
        ),
    decreases entries.len(),
{
    if entries.len() > 0 {
        lemma_masked_entry(entries.drop_last(), i);
    }
}

/// Redaction masks what stands under the name of a secret, goes into everything else, and changes
/// neither the shape, the keys nor any other text.
pub proof fn law_redaction(t: Tree, i: int)
    ensures
        t is List ==> redacted(t) is List && redacted(t)->List_0.len() == t->List_0.len() && (0 <= i
            < t->List_0.len() ==> redacted(t)->List_0[i] == redacted(t->List_0[i])),
        t is Table ==> redacted(t) is Table && redacted(t)->Table_0.len() == t->Table_0.len(),
        t is Table && 0 <= i < t->Table_0.len() ==> redacted(t)->Table_0[i].0 == t->Table_0[i].0,
        t is Table && 0 <= i < t->Table_0.len() && names_secret(t->Table_0[i].0) ==> redacted(
            t,
        )->Table_0[i].1 == masked(t->Table_0[i].1),
        t is Table && 0 <= i < t->Table_0.len() && !names_secret(t->Table_0[i].0) ==> redacted(
            t,
        )->Table_0[i].1 == redacted(t->Table_0[i].1),
        !(t is List) && !(t is Table) ==> redacted(t) == t,
{
    match t {
        Tree::List(items) => {
            lemma_redacted_item(items, i);
        },
        Tree::Table(entries) => {
            lemma_redacted_entry(entries, i);
        },
        _ => {},
    }
}

proof fn lemma_redacted_item(items: Seq<Tree>, i: int)
    ensures
        redacted_items(items).len() == items.len(),
        0 <= i < items.len() ==> redacted_items(items)[i] == redacted(items[i]),
    decreases items.len(),
{
    if items.len() > 0 {
        lemma_redacted_item(items.drop_last(), i);
    }
}

proof fn lemma_redacted_entry(entries: Seq<(Seq<char>, Tree)>, i: int)
    ensures
        redacted_entries(entries).len() == entries.len(),
        0 <= i < entries.len() ==> redacted_entries(entries)[i] == (
            entries[i].0,
            if names_secret(entries[i].0) {
                masked(entries[i].1)
            } else {
                redacted(entries[i].1)
            },
        ),
    decreases entries.len(),
{
    if entries.len() > 0 {
        lemma_redacted_entry(entries.drop_last(), i);
    }
}

/// A text under a key that holds one of the secret words is shown as three stars, whatever it is.
pub proof fn law_secret_texts_are_starred(
    entries: Seq<(Seq<char>, Tree)>,
    i: int,
    before: Seq<char>,
    after: Seq<char>,
)
    requires
        0 <= i < entries.len(),
        entries[i].1 is Text,
        ascii_lower(entries[i].0) == before + "api_key"@ + after
            || ascii_lower(entries[i].0) == before + "apikey"@ + after
            || ascii_lower(entries[i].0) == before + "token"@ + after
            || ascii_lower(entries[i].0) == before + "secret"@ + after
            || ascii_lower(entries[i].0) == before + "password"@ + after
            || ascii_lower(entries[i].0) == before + "passwd"@ + after
            || ascii_lower(entries[i].0) == before + "credential"@ + after
            || ascii_lower(entries[i].0) == before + "private_key"@ + after
            || ascii_lower(entries[i].0) == before + "auth"@ + after,
    ensures
        redacted(Tree::Table(entries)) is Table,
        redacted(Tree::Table(entries))->Table_0[i] == (entries[i].0, Tree::Text("***"@)),
{
    law_secret_words(entries[i].0, before, after);
    law_redaction(Tree::Table(entries), i);
}

/// The names under which a server's token is kept and referred to.
pub proof fn law_token_names(server: Seq<char>, key: Seq<char>)
    ensures
        token_key(server) == "mcp:"@ + server + ":token"@,
        bearer_reference(key) == "Bearer ${cred:"@ + key + "}"@,
{
    reveal_strlit("Bearer ");
    reveal_strlit("${cred:");
    reveal_strlit("Bearer ${cred:");
    assert("Bearer "@ + "${cred:"@ =~= "Bearer ${cred:"@);
}

/// The first reference of a text is replaced by the secret that the store holds under its key, and
/// the rest is resolved behind it. A key that the store lacks, or on which it failed, is reported,
/// and so is what is reported of the rest.
pub proof fn law_references_are_replaced(
    before: Seq<char>,
    key: Seq<char>,
    after: Seq<char>,
    answers: Map<Seq<char>, StoreAnswer>,
)
    requires
        forall|i: int| 0 <= i < key.len() ==> (#[trigger] key[i]) != '}',
        first_place(before + "${cred:"@ + key + seq!['}'] + after, "${cred:"@) == Some(
            before.len() as int,
        ),
    ensures
        ({
            let got = resolved(before + "${cred:"@ + key + seq!['}'] + after, answers);
            &&& !answers.contains_key(key) ==> got == Resolution::Missing(key)
            &&& answers.contains_key(key) ==> match answers[key] {
                StoreAnswer::Failed(e) => got == Resolution::Failed(key, e.says()),
                StoreAnswer::Held(secret) => match resolved(after, answers) {
                    Resolution::Text(t) => got == Resolution::Text(before + secret@ + t),
                    other => got == other,
                },
            }
        }),
{
    reveal_strlit("${cred:");
    let s = before + "${cred:"@ + key + seq!['}'] + after;
    let at = before.len() as int;
    let rest = s.skip(at + 7);
    assert(rest =~= key + seq!['}'] + after);
    assert forall|i: int| 0 <= i < key.len() implies rest[i] != '}' by {
        assert(rest[i] == key[i]);
    }
    lemma_until_is(rest, '}', key.len() as int);
    assert(rest.take(key.len() as int) =~= key);
    assert(rest.skip(key.len() as int + 1) =~= after);
    assert(s.take(at) =~= before);
}

/// A reference without its closing brace is malformed; a text without a reference is itself.
pub proof fn law_open_references_are_malformed(
    before: Seq<char>,
    tail: Seq<char>,
    answers: Map<Seq<char>, StoreAnswer>,
)
    requires
        forall|i: int| 0 <= i < tail.len() ==> (#[trigger] tail[i]) != '}',
        first_place(before + "${cred:"@ + tail, "${cred:"@) == Some(before.len() as int),
    ensures
        resolved(before + "${cred:"@ + tail, answers) == Resolution::Malformed,
        !contains_text(before, "${cred:"@) ==> resolved(before, answers)
            == Resolution::Text(before),
{
    reveal_strlit("${cred:");
    let s = before + "${cred:"@ + tail;
    let rest = s.skip(before.len() as int + 7);
    assert(rest =~= tail);
    lemma_until_is(rest, '}', tail.len() as int);
    if !contains_text(before, "${cred:"@) {
        crate::mcp_cred_refs::law_plain_text_needs_no_store(before, answers);
    }
}

/// What is said of a reference that does not resolve never holds a secret: the key, and what the
/// store said.
pub proof fn law_reference_failures_are_explained(e: CredRefError)
    ensures
        e matches CredRefError::Missing { key } ==> e.says()
            == "credential reference ${cred:"@ + key@
            + "} not found in the credentials store"@,
        e matches CredRefError::Store { key, source } ==> e.says()
            == "credentials store error resolving ${cred:"@ + key@ + "}: "@ + source@,
        e is Malformed ==> e.says()
            == "malformed credential reference (unterminated `${cred:...}`) in header value"@,
{
}

/// A server made ready has every header resolved, or none: where one does not resolve the headers
/// stay as they are. Nothing but the headers changes.
pub proof fn law_headers_resolve_together(
    after: McpServerConfig,
    before: McpServerConfig,
    answers: Map<Seq<char>, StoreAnswer>,
    k: Seq<char>,
)
    requires
        is_ready(after, before, answers),
    ensures
        before.headers is None ==> after.headers is None,
        before.headers is Some ==> after.headers is Some && after.headers->0@.dom()
            == before.headers->0@.dom(),
        before.headers is Some && all_resolve(before.headers->0@, answers)
            && before.headers->0@.contains_key(k) ==> resolved(before.headers->0@[k]@, answers)
            == Resolution::Text(after.headers->0@[k]@),
        before.headers is Some && before.headers->0@.contains_key(k) && !(resolved(
            before.headers->0@[k]@,
            answers,
        ) is Text) ==> after.headers->0@[k]@ == before.headers->0@[k]@,
        before.headers is Some && !all_resolve(before.headers->0@, answers)
            && before.headers->0@.contains_key(k) ==> after.headers->0@[k]@
            == before.headers->0@[k]@,
        after.transport == before.transport,
        after.allow_local == before.allow_local,
        before.url is Some ==> after.url is Some && after.url->0@ == before.url->0@,
        before.url is None ==> after.url is None,
        before.command.same(after.command),
        before.args.same(after.args),
        before.env.same(after.env),
        before.only_for_assistant.same(after.only_for_assistant),
{
    if before.headers is Some && !all_resolve(before.headers->0@, answers) {
        assert(before.headers->0.same(after.headers->0));
        if before.headers->0@.contains_key(k) {
            assert(before.headers->0@[k].same(after.headers->0@[k]));
        }
    }
}

/// A variable's name is capitals, digits and underscores, beginning with a capital; its value has
/// no line end and no NUL.
pub proof fn law_names_and_values(s: Seq<char>, i: int)
    ensures
        is_key(s) ==> s.len() > 0 && 'A' <= s[0] && s[0] <= 'Z',
        is_key(s) && 0 <= i < s.len() ==> ('A' <= s[i] && s[i] <= 'Z') || ('0' <= s[i] && s[i]
            <= '9') || s[i] == '_',
        s.len() > 0 && 'A' <= s[0] && s[0] <= 'Z' && (forall|j: int|
            0 <= j < s.len() ==> ('A' <= #[trigger] s[j] && s[j] <= 'Z') || ('0' <= s[j] && s[j]
                <= '9') || s[j] == '_') ==> is_key(s),
        is_value(s) <==> !s.contains('\n') && !s.contains('\r') && !s.contains('\0'),
{
    if is_value(s) {
        assert forall|j: int| 0 <= j < s.len() implies s[j] != '\n' && s[j] != '\r' && s[j]
            != '\0' by {}
    }
    if !s.contains('\n') && !s.contains('\r') && !s.contains('\0') {
        assert forall|j: int| 0 <= j < s.len() implies (#[trigger] s[j]) != '\n' && s[j] != '\r'
            && s[j] != '\0' by {
            assert(s.contains(s[j]));
        }
    }
}

/// A line gives a variable where it is a name, an equals sign and a value, with blanks left out
/// around both; an empty line, a comment, a line without the sign and one with another name give
/// none.
pub proof fn law_lines(line: Seq<char>, name: Seq<char>, value: Seq<char>)
    ensures
        trimmed(line).len() == 0 ==> line_entry(line) is None,
        trimmed(line).len() > 0 && trimmed(line)[0] == '#' ==> line_entry(line) is None,
        !trimmed(line).contains('=') ==> line_entry(line) is None,
        trimmed(line) == name + seq!['='] + value && !name.contains('=') && !(name.len() > 0
            && name[0] == '#') && is_key(trimmed(name)) ==> line_entry(line) == Some(
            (trimmed(name), unquoted(trimmed(value))),
        ),
        trimmed(line) == name + seq!['='] + value && !name.contains('=') && !is_key(trimmed(name))
            ==> line_entry(line) is None,
{
    let t = trimmed(line);
    if !t.contains('=') {
        assert forall|i: int| 0 <= i < t.len() implies t[i] != '=' by {
            assert(t.contains(t[i]));
        }
        lemma_until_is(t, '=', t.len() as int);
    }
    if t == name + seq!['='] + value && !name.contains('=') {
        let at = name.len() as int;
        assert forall|i: int| 0 <= i < at implies t[i] != '=' by {
            assert(t[i] == name[i]);
            assert(name.contains(name[i]));
        }
        assert(t[at] == '=');
        lemma_until_is(t, '=', at);
        assert(t.take(at) =~= name);
        assert(t.skip(at + 1) =~= value);
        if name.len() > 0 {
            assert(t[0] == name[0]);
        }
    }
}

/// A value in double quotes is what stands between them, with each escaped quote written plainly;
/// any other value is itself.
pub proof fn law_quoted_values(inner: Seq<char>, rest: Seq<char>, s: Seq<char>)
    ensures
        unquoted(seq!['"'] + inner + seq!['"']) == unescaped(inner),
        unescaped(seq!['\\', '"'] + rest) == seq!['"'] + unescaped(rest),
        s.len() > 0 && s[0] != '\\' ==> unescaped(s) == seq![s[0]] + unescaped(s.skip(1)),
        !inner.contains('\\') ==> unescaped(inner) == inner,
        s.len() < 2 || s[0] != '"' || s.last() != '"' ==> unquoted(s) == s,
{
    let q = seq!['"'] + inner + seq!['"'];
    assert(q[0] == '"' && q.last() == '"');
    assert(q.subrange(1, q.len() - 1) =~= inner);
    let e = seq!['\\', '"'] + rest;
    assert(e[0] == '\\' && e[1] == '"');
    assert(e.skip(2) =~= rest);
    if !inner.contains('\\') {
        lemma_nothing_escaped(inner);
    }
}

proof fn lemma_nothing_escaped(s: Seq<char>)
    requires
        !s.contains('\\'),
    ensures
        unescaped(s) == s,
    decreases s.len(),
{
    if s.len() > 0 {
        assert(s.contains(s[0]));
        let rest = s.skip(1);
        assert forall|i: int| 0 <= i < rest.len() implies rest[i] != '\\' by {
            assert(rest[i] == s[i + 1]);
            assert(s.contains(s[i + 1]));
        }
        lemma_nothing_escaped(rest);
        assert(seq![s[0]] + rest =~= s);
    }
}

/// A file is read line by line: a line's variable is added, replacing one of its name that an
/// earlier line gave, and a line without one changes nothing.
pub proof fn law_lines_in_order(
    m: Map<Seq<char>, Seq<char>>,
    line: Seq<char>,
    rest: Seq<char>,
    k: Seq<char>,
)
    requires
        !line.contains('\n'),
    ensures
        with_lines(m, line + seq!['\n'] + rest) == with_lines(with_line(m, line), rest),
        with_lines(m, line) == with_line(m, line) || line.len() == 0,
        parsed(line + seq!['\n'] + rest) == with_lines(
            with_line(Map::<Seq<char>, Seq<char>>::empty(), line),
            rest,
        ),
        line_entry(line) is None ==> with_line(m, line) == m,
        line_entry(line) matches Some((name, value)) ==> {
            &&& with_line(m, line).contains_key(name)
            &&& with_line(m, line)[name] == value
            &&& k != name ==> with_line(m, line).contains_key(k) == m.contains_key(k)
            &&& k != name && m.contains_key(k) ==> with_line(m, line)[k] == m[k]
        },
{
    let body = line + seq!['\n'] + rest;
    let at = line.len() as int;
    assert forall|i: int| 0 <= i < at implies body[i] != '\n' && line[i] != '\n' by {
        assert(body[i] == line[i]);
        assert(line.contains(line[i]));
    }
    assert(body[at] == '\n');
    lemma_until_is(body, '\n', at);
    lemma_until_is(line, '\n', at);
    assert(body.take(at) =~= line);
    assert(body.skip(at + 1) =~= rest);
    assert(line.take(at) =~= line);
}

/// A value is written in quotes where it holds a blank, an equals sign or a quote, with a backslash
/// before each quote; any other value is written as it is.
pub proof fn law_written_values(v: Seq<char>, i: int, c: char)
    ensures
        0 <= i < v.len() && (is_space(v[i]) || v[i] == '=' || v[i]
            == '"') ==> encoded(v) == seq!['"']
            + escaped(v) + seq!['"'],
        (forall|j: int|
            0 <= j < v.len() ==> !is_space(#[trigger] v[j]) && v[j] != '=' && v[j] != '"')
            ==> encoded(v) == v,
        escaped(v.push('"')) == escaped(v) + seq!['\\', '"'],
        c != '"' ==> escaped(v.push(c)) == escaped(v).push(c),
{
    if 0 <= i < v.len() && (is_space(v[i]) || v[i] == '=' || v[i] == '"') {
        assert(is_delicate(v[i]));
        assert(needs_quotes(v));
    }
    if forall|j: int| 0 <= j < v.len() ==> !is_space(#[trigger] v[j]) && v[j] != '='
        && v[j] != '"' {
        assert forall|j: int| 0 <= j < v.len() implies !is_delicate(#[trigger] v[j]) by {}
        assert(!needs_quotes(v));
    }
    assert(v.push('"').drop_last() =~= v);
    assert(v.push(c).drop_last() =~= v);
    assert(escaped(v).push('\\').push('"') =~= escaped(v) + seq!['\\', '"']);
}

/// The variables that count as credentials are `API_KEY` and those whose name ends in `_API_KEY`.
pub proof fn law_credential_variables(k: Seq<char>, start: Seq<char>)
    ensures
        k == "API_KEY"@ ==> names_credential(k),
        k == start + "_API_KEY"@ ==> names_credential(k),
        names_credential(k) ==> k == "API_KEY"@ || (k.len() >= 8 && k == k.take(k.len() - 8)
            + "_API_KEY"@),
{
    reveal_strlit("_API_KEY");
    assert("_API_KEY"@.len() == 8);
    if k == start + "_API_KEY"@ {
        assert(k.subrange(k.len() - 8, k.len() as int) =~= "_API_KEY"@);
    }
    if "_API_KEY"@.is_suffix_of(k) {
        assert(k =~= k.take(k.len() - 8) + "_API_KEY"@);
    }
}

} // verus!
