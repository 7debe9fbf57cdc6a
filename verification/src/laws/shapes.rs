//! How values are carried over: optional texts, trees, documents and what is reported of them.

use crate::compat::opt_chars;
use crate::config::host::opt_texts;
use crate::config::keys::chars;
use crate::config::redact::table_of;
use crate::config::types::McpServerConfig;
use crate::credentials::document::{
    crowded, document_of, long_run, plain_document, run_at_end, same_document, text_of_document,
    toml_document, toml_text, trees_in, DATE_MARK, MAX_DEPTH,
};
use crate::credentials::error::CredentialsError;
use crate::credentials::secrets::{secret_in, with_secret, without_secret};
use crate::credentials::stores::{file_text, is_file_with};
use crate::credentials::vault::{
    file_bytes, has_changed, is_unreadable, is_written_document, keeps_secrets, vault_document,
    vault_text, UnlockedVault,
};
use crate::mcp_cred_refs::{
    headers_resolved, resolved, same_but_headers, shows, CredRefError, Resolution, StoreAnswer,
};
use crate::plugins_config::{is_first, PluginEntry};
use crate::profile::launch::slice_text;
use crate::replica::{first_of, opt_text};
use crate::table::{distinct_keys, kept, map_of, texts_in};
use crate::text::listed;
use crate::value::{entries_of, lemma_entries_of, lemma_trees_of, tree_of, trees_of, Tree, Value};
use vstd::prelude::*;

verus! {

/// An optional text is its characters where it is there, in each of its forms.
pub proof fn law_optional_texts(
    s: String,
    slice: &str,
    list: Seq<Option<String>>,
    bytes: &Vec<u8>,
    i: int,
)
    ensures
        opt_text(Some(s)) == Some(s@),
        opt_text(None) is None,
        opt_chars(Some(slice)) == Some(slice@) && opt_chars(None) is None,
        chars(Some(slice)) == Some(slice@) && chars(None) is None,
        slice_text(Some(slice)) == Some(slice@) && slice_text(None) is None,
        file_text(Some(slice)) == Some(slice@) && file_text(None) is None,
        file_bytes(Some(bytes)) == Some(bytes@) && file_bytes(None) is None,
        opt_texts(list).len() == list.len(),
        0 <= i < list.len() && list[i] is Some ==> opt_texts(list)[i] == Some(list[i]->0@),
        0 <= i < list.len() && list[i] is None ==> opt_texts(list)[i] is None,
{
}

/// Of two optional values the first stands where it is there, else the second.
pub proof fn law_first_of_two<T>(first: Option<T>, second: Option<T>)
    ensures
        first is Some ==> first_of(first, second) == first,
        first is None ==> first_of(first, second) == second,
{
}

/// A value is carried over as it is: a text as its characters, a list item by item, a table entry
/// by entry under its keys.
pub proof fn law_values_are_trees(v: Value, i: int)
    ensures
        v is Null ==> tree_of(v) is Null,
        v matches Value::Bool(b) ==> tree_of(v) == Tree::Bool(b),
        v matches Value::Atom(s) ==> tree_of(v) == Tree::Atom(s@),
        v matches Value::Text(s) ==> tree_of(v) == Tree::Text(s@),
        v matches Value::List(items) ==> tree_of(v) is List && tree_of(v)->List_0.len()
            == items@.len() && (0 <= i < items@.len() ==> tree_of(v)->List_0[i]
                == tree_of(items@[i])),
        v matches Value::Table(entries) ==> tree_of(v) is Table && tree_of(v)->Table_0.len()
            == entries@.len() && (0 <= i < entries@.len() ==> tree_of(v)->Table_0[i] == (
            entries@[i].0@,
            tree_of(entries@[i].1),
        )),
{
    match v {
        Value::List(items) => {
            lemma_trees_of(items@);
            if 0 <= i < items@.len() {
                assert(trees_of(items@)[i] == tree_of(items@[i]));
            }
        },
        Value::Table(entries) => {
            lemma_entries_of(entries@);
            if 0 <= i < entries@.len() {
                assert(entries_of(entries@)[i] == (entries@[i].0@, tree_of(entries@[i].1)));
            }
        },
        _ => {},
    }
}

/// The same of a map of values, and of a map of strings; keeping the listed keys of a map keeps
/// their values and no other key.
pub proof fn law_maps_are_carried_over(
    m: Map<Seq<char>, Value>,
    t: Map<Seq<char>, String>,
    names: Seq<String>,
    k: Seq<char>,
)
    ensures
        trees_in(m).contains_key(k) <==> m.contains_key(k),
        m.contains_key(k) ==> trees_in(m)[k] == tree_of(m[k]),
        texts_in(t).contains_key(k) <==> t.contains_key(k),
        t.contains_key(k) ==> texts_in(t)[k] == t[k]@,
        kept(m, names).contains_key(k) <==> m.contains_key(k) && listed(names, k),
        kept(m, names).contains_key(k) ==> kept(m, names)[k] == m[k],
{
}

/// A list of entries with distinct keys is the map from each key to its value.
pub proof fn law_entries_are_a_map<V>(s: Seq<(String, V)>, i: int, k: Seq<char>)
    requires
        distinct_keys(s),
    ensures
        0 <= i < s.len() ==> map_of(s).contains_key(s[i].0@) && map_of(s)[s[i].0@] == s[i].1,
        (forall|j: int| 0 <= j < s.len() ==> (#[trigger] s[j]).0@ != k) ==> !map_of(s).contains_key(
            k,
        ),
{
    if 0 <= i < s.len() {
        crate::table::lemma_map_of_index(s, i);
    }
}

/// The table of a preview has the last entry of each key.
pub proof fn law_preview_tables(
    fields: Seq<(Seq<char>, Tree)>,
    last: (Seq<char>, Tree),
    k: Seq<char>,
)
    ensures
        table_of(fields.push(last)).contains_key(last.0),
        table_of(fields.push(last))[last.0] == last.1,
        k != last.0 ==> table_of(fields.push(last)).contains_key(k) == table_of(
            fields,
        ).contains_key(k),
        k != last.0 && table_of(fields).contains_key(k) ==> table_of(fields.push(last))[k]
            == table_of(fields)[k],
        !table_of(Seq::empty()).contains_key(k),
{
    assert(fields.push(last).drop_last() =~= fields);
}

/// A document is written as text, unless some value has more than 255 quotes in a row, which is
/// reported.
pub proof fn law_documents_as_text(
    d: Map<Seq<char>, Tree>,
    k: Seq<char>,
    s: Seq<char>,
    from: int,
)
    ensures
        d.contains_key(k) && d[k] == Tree::Text(s) && 0 <= from && from + 256 <= s.len() && (
        forall|i: int| from <= i < from + 256 ==> (#[trigger] s[i]) == '"') ==> text_of_document(d)
            == Err::<Seq<char>, Seq<char>>("value has too many quotes in a row"@),
        (forall|j: Seq<char>| #[trigger]
            d.contains_key(j) ==> (d[j] matches Tree::Text(t) && !t.contains('"') && !t.contains(
                '\'',
            ))) ==> text_of_document(d) == toml_text(d),
        document_of(Some(s)) == toml_document(s),
{
    if d.contains_key(k) && d[k] == Tree::Text(s) && 0 <= from && from + 256 <= s.len() && (
    forall|i: int| from <= i < from + 256 ==> (#[trigger] s[i]) == '"') {
        lemma_long_run(s, '"', from);
        assert(crowded(d[k]));
    }
    if forall|j: Seq<char>| #[trigger]
        d.contains_key(j) ==> (d[j] matches Tree::Text(t)
            && !t.contains('"') && !t.contains('\'')) {
        assert forall|j: Seq<char>| #[trigger] d.contains_key(j) implies !crowded(d[j]) by {
            let t = d[j]->Text_0;
            lemma_no_run(t, '"');
            lemma_no_run(t, '\'');
        }
    }
}

/// Quotes are counted wherever a text stands: in a list, in a table, at any depth.
pub proof fn law_quotes_are_counted_at_depth(
    items: Seq<Tree>,
    fields: Seq<(Seq<char>, Tree)>,
    i: int,
    b: bool,
)
    ensures
        0 <= i < items.len() && crowded(items[i]) ==> crowded(Tree::List(items)),
        0 <= i < fields.len() && crowded(fields[i].1) ==> crowded(Tree::Table(fields)),
        (forall|j: int| 0 <= j < items.len() ==> !crowded(#[trigger] items[j])) ==> !crowded(
            Tree::List(items),
        ),
        (forall|j: int| 0 <= j < fields.len() ==> !crowded((#[trigger] fields[j]).1)) ==> !crowded(
            Tree::Table(fields),
        ),
        !crowded(Tree::Bool(b)) && !crowded(Tree::Null),
{
    let list = Tree::List(items);
    let table = Tree::Table(fields);
    reveal_with_fuel(crowded, 2);
    if 0 <= i < items.len() && crowded(items[i]) {
        assert(crowded(list->List_0[i]));
    }
    if 0 <= i < fields.len() && crowded(fields[i].1) {
        assert(crowded((table->Table_0[i]).1));
    }
}

proof fn lemma_long_run(s: Seq<char>, q: char, from: int)
    requires
        0 <= from,
        from + 256 <= s.len(),
        forall|i: int| from <= i < from + 256 ==> (#[trigger] s[i]) == q,
    ensures
        long_run(s, q),
    decreases s.len(),
{
    if from + 256 < s.len() {
        let front = s.drop_last();
        assert forall|i: int| from <= i < from + 256 implies (#[trigger] front[i]) == q by {
            assert(front[i] == s[i]);
        }
        lemma_long_run(front, q, from);
    } else {
        lemma_run(s, q, 256);
    }
}

proof fn lemma_run(s: Seq<char>, q: char, n: nat)
    requires
        n <= s.len(),
        forall|i: int| s.len() - n <= i < s.len() ==> (#[trigger] s[i]) == q,
    ensures
        run_at_end(s, q) >= n,
    decreases n,
{
    if n > 0 {
        let front = s.drop_last();
        assert(s.last() == s[s.len() - 1]);
        assert forall|i: int| front.len() - (n - 1) <= i < front.len() implies (
        #[trigger] front[i]) == q by {
            assert(front[i] == s[i]);
        }
        lemma_run(front, q, (n - 1) as nat);
    }
}

proof fn lemma_no_run(s: Seq<char>, q: char)
    requires
        !s.contains(q),
    ensures
        !long_run(s, q),
    decreases s.len(),
{
    if s.len() > 0 {
        let front = s.drop_last();
        assert(s.contains(s[s.len() - 1]));
        assert forall|i: int| 0 <= i < front.len() implies front[i] != q by {
            assert(front[i] == s[i]);
            assert(s.contains(s[i]));
        }
        lemma_no_run(front, q);
    }
}

/// The limits of a document that is carried through unchanged.
pub proof fn law_document_limits()
    ensures
        MAX_DEPTH == 79,
        DATE_MARK@ == "$__toml_private_datetime"@,
{
}

/// A plaintext file that is written is the document's text; where it cannot be written it is said
/// why.
pub proof fn law_plaintext_files(d: Map<Seq<char>, Tree>, r: Result<String, CredentialsError>)
    requires
        is_file_with(d, r),
    ensures
        r matches Ok(text) ==> text_of_document(d) == Ok::<Seq<char>, Seq<char>>(text@),
        r matches Err(e) ==> (e matches CredentialsError::TomlSerialize(why) && text_of_document(d)
            == Err::<Seq<char>, Seq<char>>(why@)),
{
}

/// A plain document reads back from the file with every secret that it has.
pub proof fn law_plaintext_secrets_read_back(
    d: Map<Seq<char>, Tree>,
    text: String,
    k: Seq<char>,
)
    requires
        is_file_with(d, Ok(text)),
        plain_document(d),
    ensures
        toml_document(text@) is Ok,
        secret_in(toml_document(text@)->Ok_0, k) == secret_in(d, k),
{
}

/// A vault that was changed under one key holds there what was put, and under every other key what
/// it held.
pub proof fn law_changed_vaults(
    vault: UnlockedVault,
    blob: Seq<u8>,
    d: Map<Seq<char>, Tree>,
    key: Seq<char>,
    value: Option<Seq<char>>,
    other: Seq<char>,
)
    requires
        has_changed(vault, blob, d, key, value),
    ensures
        vault_document(vault, Some(blob)) is Some,
        secret_in(vault_document(vault, Some(blob))->0, key) == value,
        other != key ==> secret_in(vault_document(vault, Some(blob))->0, other) == secret_in(
            d,
            other,
        ),
{
}

/// A vault that keeps its secrets holds each as it was; one that is written holds the document's
/// text, or says why it could not be written.
pub proof fn law_kept_vaults(
    vault: UnlockedVault,
    blob: Seq<u8>,
    d: Map<Seq<char>, Tree>,
    key: Seq<char>,
    r: Result<Vec<u8>, CredentialsError>,
)
    requires
        keeps_secrets(vault, blob, d),
        is_written_document(vault, d, r),
    ensures
        vault_document(vault, Some(blob)) is Some,
        secret_in(vault_document(vault, Some(blob))->0, key) == secret_in(d, key),
        text_of_document(d) matches Err(w) ==> (r matches Err(CredentialsError::TomlSerialize(why))
            && why@ == w),
        r is Ok ==> text_of_document(d) is Ok,
{
}

/// Why a vault cannot be read: it does not open, or its text is no document.
pub proof fn law_unreadable_vaults(
    vault: UnlockedVault,
    blob: Option<Seq<u8>>,
    e: CredentialsError,
)
    requires
        is_unreadable(vault, blob, e),
    ensures
        vault_document(vault, blob) is None,
        vault_text(vault, blob) matches Err(why)
            ==> (e matches CredentialsError::BackendUnavailable(
            w,
        ) && w@ == why),
        vault_text(vault, blob) is Ok ==> e is TomlParse,
        blob is Some,
{
}

/// A resolved reference is reported as it came out: the text, or the key that was missing, that
/// failed and why, or that the reference is malformed.
pub proof fn law_resolutions_are_reported(r: Result<String, CredRefError>, want: Resolution)
    requires
        shows(r, want),
    ensures
        want matches Resolution::Text(t) ==> (r matches Ok(s) && s@ == t),
        want matches Resolution::Missing(k) ==> (r matches Err(CredRefError::Missing { key })
            && key@
            == k),
        want matches Resolution::Failed(k, why) ==> (r matches Err(
            CredRefError::Store { key, source },
        ) && key@ == k && source@ == why),
        want is Malformed ==> (r matches Err(CredRefError::Malformed)),
{
}

/// Resolving a server's headers changes the headers alone, each to its resolved text and under its
/// own name.
pub proof fn law_resolved_headers(
    after: McpServerConfig,
    before: McpServerConfig,
    new_headers: Map<Seq<char>, String>,
    old_headers: Map<Seq<char>, String>,
    answers: Map<Seq<char>, StoreAnswer>,
    k: Seq<char>,
)
    requires
        same_but_headers(after, before),
        headers_resolved(new_headers, old_headers, answers),
    ensures
        after.transport == before.transport,
        after.command == before.command,
        after.args == before.args,
        after.env == before.env,
        after.url == before.url,
        after.deferred == before.deferred,
        after.allow_local == before.allow_local,
        after.only_for_assistant == before.only_for_assistant,
        new_headers.contains_key(k) <==> old_headers.contains_key(k),
        old_headers.contains_key(k) ==> resolved(old_headers[k]@, answers) == Resolution::Text(
            new_headers[k]@,
        ),
{
    assert(new_headers.dom().contains(k) <==> old_headers.dom().contains(k));
}

/// A plugin's entry is the first that has its name.
pub proof fn law_first_plugin_entry(list: Seq<PluginEntry>, name: Seq<char>, i: int, j: int)
    requires
        is_first(list, name, i),
    ensures
        0 <= i < list.len() && list[i].name@ == name,
        0 <= j < list.len() && list[j].name@ == name ==> i <= j,
{
}

/// A document that was read back has the keys of the one that was written, and a text under a key
/// is that text.
pub proof fn law_documents_read_back(
    a: Map<Seq<char>, Tree>,
    b: Map<Seq<char>, Tree>,
    k: Seq<char>,
    s: Seq<char>,
)
    requires
        same_document(a, b),
    ensures
        a.contains_key(k) <==> b.contains_key(k),
        b.contains_key(k) && b[k] == Tree::Text(s) ==> a[k] == Tree::Text(s),
        b.contains_key(k) && b[k] is Table ==> a[k] is Table,
        b.contains_key(k) && b[k] is List ==> a[k] is List && a[k]->List_0.len()
            == b[k]->List_0.len(),
{
    assert(a.dom().contains(k) <==> b.dom().contains(k));
}

/// A secret that is put is found, also over one that was there, and one that is deleted is gone;
/// the two undo each other for every key that was not there.
pub proof fn law_put_and_delete(
    d: Map<Seq<char>, Tree>,
    key: Seq<char>,
    value: Seq<char>,
    other_value: Seq<char>,
    other: Seq<char>,
)
    ensures
        secret_in(with_secret(with_secret(d, key, other_value), key, value), key) == Some(value),
        secret_in(without_secret(with_secret(d, key, value), key), key) is None,
        other != key ==> secret_in(without_secret(with_secret(d, key, value), key), other)
            == secret_in(d, other),
{
    let once = with_secret(d, key, other_value);
    crate::credentials::secrets::law_stored_secret_is_found(once, key, value, other);
    let put = with_secret(d, key, value);
    crate::credentials::secrets::law_stored_secret_is_found(d, key, value, other);
    crate::credentials::secrets::law_deleted_secret_is_gone(put, key, other);
}

} // verus!
