//! The `[secrets]` table of a credentials document.
//!
//! A document is a table of values. Its secrets are the strings of the table under the key
//! `secrets`; whatever else the document holds is left alone.

use vstd::prelude::*;

use crate::credentials::document::{
    is_plain, plain_document, plain_fields, same_document, same_value, trees_in, DATE_MARK,
    MAX_DEPTH,
};
use crate::table::StrMap;
use crate::text::same_text;
use crate::value::{entries_of, lemma_entries_of, lookup, tree_of, Tree, Value};

verus! {

/// The value of the first entry with the key `key`.
pub open spec fn found(entries: Seq<(String, Value)>, key: Seq<char>) -> Option<Value>
    decreases entries.len(),
{
    if entries.len() == 0 {
        None
    } else if entries[0].0@ == key {
        Some(entries[0].1)
    } else {
        found(entries.drop_first(), key)
    }
}

/// The entries of the secrets table, none where the document has no such table.
pub open spec fn held(doc: Map<Seq<char>, Value>) -> Seq<(String, Value)> {
    if doc.contains_key("secrets"@) {
        match doc["secrets"@] {
            Value::Table(entries) => entries@,
            _ => Seq::empty(),
        }
    } else {
        Seq::empty()
    }
}

/// The text of a value, if it is a string.
pub open spec fn text_of(v: Option<Value>) -> Option<Seq<char>> {
    match v {
        Some(Value::Text(s)) => Some(s@),
        _ => None,
    }
}

/// The secret under `key`: the string that the secrets table holds there.
pub open spec fn secret(doc: Map<Seq<char>, Value>, key: Seq<char>) -> Option<Seq<char>> {
    text_of(found(held(doc), key))
}

/// The entries of the secrets table of a document, none where it has no such table.
pub open spec fn secrets_of(d: Map<Seq<char>, Tree>) -> Seq<(Seq<char>, Tree)> {
    if d.contains_key("secrets"@) {
        match d["secrets"@] {
            Tree::Table(fields) => fields,
            _ => Seq::empty(),
        }
    } else {
        Seq::empty()
    }
}

/// The secret of a document under `key`: the string that the secrets table holds there.
pub open spec fn secret_in(d: Map<Seq<char>, Tree>, key: Seq<char>) -> Option<Seq<char>> {
    match lookup(secrets_of(d), key) {
        Some(Tree::Text(s)) => Some(s),
        _ => None,
    }
}

/// The place of the first field with the key `key`, or the number of fields.
pub open spec fn place_of(fields: Seq<(Seq<char>, Tree)>, key: Seq<char>) -> int
    decreases fields.len(),
{
    if fields.len() == 0 || fields[0].0 == key {
        0
    } else {
        1 + place_of(fields.drop_first(), key)
    }
}

/// `fields` with the value of `key` set to `t`, in its place or at the end.
pub open spec fn with_field(fields: Seq<(Seq<char>, Tree)>, key: Seq<char>, t: Tree) -> Seq<
    (Seq<char>, Tree),
> {
    let at = place_of(fields, key);
    if at < fields.len() {
        fields.update(at, (key, t))
    } else {
        fields.push((key, t))
    }
}

/// `d` with the secret under `key` set to `value`. The secrets table is made where it is
/// missing or not a table.
pub open spec fn with_secret(d: Map<Seq<char>, Tree>, key: Seq<char>, value: Seq<char>) -> Map<
    Seq<char>,
    Tree,
> {
    d.insert("secrets"@, Tree::Table(with_field(secrets_of(d), key, Tree::Text(value))))
}

/// The fields with another key than `key`.
pub open spec fn without_field(fields: Seq<(Seq<char>, Tree)>, key: Seq<char>) -> Seq<
    (Seq<char>, Tree),
> {
    fields.filter(other_than(key))
}

/// Tells the fields with another key than `key`.
pub open spec fn other_than(key: Seq<char>) -> spec_fn((Seq<char>, Tree)) -> bool {
    |f: (Seq<char>, Tree)| f.0 != key
}

/// `d` without the secret under `key`.
pub open spec fn without_secret(d: Map<Seq<char>, Tree>, key: Seq<char>) -> Map<Seq<char>, Tree> {
    if d.contains_key("secrets"@) && d["secrets"@] is Table {
        d.insert(
            "secrets"@,
            Tree::Table(without_field(secrets_of(d), key)),
        )
    } else {
        d
    }
}

proof fn lemma_held_trees(doc: Map<Seq<char>, Value>)
    ensures
        secrets_of(trees_in(doc)) == entries_of(held(doc)),
{
    if doc.contains_key("secrets"@) {
        assert(trees_in(doc)["secrets"@] == tree_of(doc["secrets"@]));
    }
    assert(entries_of(Seq::<(String, Value)>::empty()) =~= Seq::empty());
}

proof fn lemma_found_is_lookup(entries: Seq<(String, Value)>, key: Seq<char>)
    ensures
        lookup(entries_of(entries), key) == match found(entries, key) {
            Some(v) => Some(tree_of(v)),
            None => None,
        },
    decreases entries.len(),
{
    lemma_entries_of(entries);
    if entries.len() > 0 {
        lemma_entries_of(entries.drop_first());
        assert(entries_of(entries).drop_first() =~= entries_of(entries.drop_first()));
        assert(entries_of(entries)[0] == (entries[0].0@, tree_of(entries[0].1)));
        lemma_found_is_lookup(entries.drop_first(), key);
    }
}

/// The secret of a document by its model.
pub proof fn lemma_secret_in(doc: Map<Seq<char>, Value>, key: Seq<char>)
    ensures
        secret(doc, key) == secret_in(trees_in(doc), key),
{
    lemma_held_trees(doc);
    lemma_found_is_lookup(held(doc), key);
}

/// The first field with a key stands where it is found.
proof fn lemma_place_of(fields: Seq<(Seq<char>, Tree)>, key: Seq<char>, at: int)
    requires
        0 <= at <= fields.len(),
        at < fields.len() ==> fields[at].0 == key,
        forall|j: int| 0 <= j < at ==> (#[trigger] fields[j]).0 != key,
    ensures
        place_of(fields, key) == at,
    decreases fields.len(),
{
    if fields.len() > 0 && fields[0].0 != key {
        let rest = fields.drop_first();
        assert forall|j: int| 0 <= j < at - 1 implies (#[trigger] rest[j]).0 != key by {
            assert(rest[j] == fields[j + 1]);
        }
        lemma_place_of(rest, key, at - 1);
    } else if at > 0 {
        assert(fields[0].0 != key);
    }
}

/// What a field is set to is what it has, and other fields keep what they have.
proof fn lemma_lookup_with_field(
    fields: Seq<(Seq<char>, Tree)>,
    key: Seq<char>,
    t: Tree,
    k: Seq<char>,
)
    ensures
        0 <= place_of(fields, key) <= fields.len(),
        lookup(with_field(fields, key, t), k) == if k == key {
            Some(t)
        } else {
            lookup(fields, k)
        },
    decreases fields.len(),
{
    let set = with_field(fields, key, t);
    if fields.len() == 0 {
        assert(set =~= seq![(key, t)]);
        assert(set.drop_first() =~= fields);
        assert(lookup(fields, k) is None);
    } else {
        let rest = fields.drop_first();
        lemma_lookup_with_field(rest, key, t, k);
        if fields[0].0 == key {
            assert(set.drop_first() =~= rest);
        } else {
            assert(set.drop_first() =~= with_field(rest, key, t));
            assert(set[0] == fields[0]);
        }
    }
}

/// A secret that was stored is the one that is found, and storing it changes no other.
pub proof fn law_stored_secret_is_found(
    d: Map<Seq<char>, Tree>,
    key: Seq<char>,
    value: Seq<char>,
    other: Seq<char>,
)
    ensures
        secret_in(with_secret(d, key, value), key) == Some(value),
        other != key ==> secret_in(with_secret(d, key, value), other) == secret_in(d, other),
{
    lemma_lookup_with_field(secrets_of(d), key, Tree::Text(value), key);
    lemma_lookup_with_field(secrets_of(d), key, Tree::Text(value), other);
    assert(secrets_of(with_secret(d, key, value)) == with_field(
        secrets_of(d),
        key,
        Tree::Text(value),
    ));
}

/// How deep the values of the secrets table of a plain document may be nested.
spec fn secret_depth() -> nat {
    (MAX_DEPTH - 1) as nat
}

proof fn lemma_plain_secrets(d: Map<Seq<char>, Tree>)
    requires
        plain_document(d),
    ensures
        plain_fields(secrets_of(d), secret_depth()),
{
    if d.contains_key("secrets"@) {
        assert(is_plain(d["secrets"@], MAX_DEPTH as nat));
    }
    assert(plain_fields(Seq::empty(), secret_depth()));
}

proof fn lemma_plain_insert(d: Map<Seq<char>, Tree>, fields: Seq<(Seq<char>, Tree)>)
    requires
        plain_document(d),
        plain_fields(fields, secret_depth()),
    ensures
        plain_document(d.insert("secrets"@, Tree::Table(fields))),
{
    let t = Tree::Table(fields);
    assert(is_plain(t, MAX_DEPTH as nat));
}

/// Storing a secret keeps a plain document plain.
pub proof fn lemma_plain_with_secret(d: Map<Seq<char>, Tree>, key: Seq<char>, value: Seq<char>)
    requires
        plain_document(d),
        key != DATE_MARK@,
    ensures
        plain_document(with_secret(d, key, value)),
{
    let fields = secrets_of(d);
    let t = Tree::Text(value);
    let set = with_field(fields, key, t);
    lemma_plain_secrets(d);
    lemma_lookup_with_field(fields, key, t, key);
    lemma_before_place(fields, key);
    let at = place_of(fields, key);
    assert forall|i: int, j: int| 0 <= i < j < set.len() implies (#[trigger] set[i]).0 != (
    #[trigger] set[j]).0 by {
        if at < fields.len() {
            assert(set[i].0 == fields[i].0 && set[j].0 == fields[j].0);
        } else {
            assert(set[i] == fields[i]);
            if j < fields.len() {
                assert(set[j] == fields[j]);
            }
        }
    }
    assert(is_plain(t, secret_depth()));
    assert forall|i: int| 0 <= i < set.len() implies (#[trigger] set[i]).0 != DATE_MARK@
        && is_plain(set[i].1, secret_depth()) by {
        if i < fields.len() && i != at {
            assert(set[i] == fields[i]);
        }
    }
    assert(plain_fields(set, secret_depth()));
    lemma_plain_insert(d, set);
}

proof fn lemma_before_place(fields: Seq<(Seq<char>, Tree)>, key: Seq<char>)
    ensures
        0 <= place_of(fields, key) <= fields.len(),
        place_of(fields, key) < fields.len() ==> fields[place_of(fields, key)].0 == key,
        forall|i: int| 0 <= i < place_of(fields, key) ==> (#[trigger] fields[i]).0 != key,
    decreases fields.len(),
{
    if fields.len() > 0 && fields[0].0 != key {
        let rest = fields.drop_first();
        lemma_before_place(rest, key);
        assert forall|i: int| 0 <= i < place_of(fields, key) implies (#[trigger] fields[i]).0
            != key by {
            if i > 0 {
                assert(fields[i] == rest[i - 1]);
            }
        }
    }
}

proof fn lemma_lookup_place(fields: Seq<(Seq<char>, Tree)>, key: Seq<char>)
    ensures
        match lookup(fields, key) {
            Some(t) => place_of(fields, key) < fields.len() && fields[place_of(fields, key)].1 == t,
            None => place_of(fields, key) == fields.len(),
        },
    decreases fields.len(),
{
    if fields.len() > 0 && fields[0].0 != key {
        let rest = fields.drop_first();
        lemma_lookup_place(rest, key);
        lemma_before_place(rest, key);
        let at = place_of(rest, key);
        if at < rest.len() {
            assert(rest[at] == fields[at + 1]);
        }
    }
}

/// Documents that hold the same have the same secrets.
pub proof fn lemma_same_secrets(
    a: Map<Seq<char>, Tree>,
    b: Map<Seq<char>, Tree>,
    key: Seq<char>,
)
    requires
        same_document(a, b),
    ensures
        secret_in(a, key) == secret_in(b, key),
{
    if b.contains_key("secrets"@) {
        assert(a.dom().contains("secrets"@));
        let t = b["secrets"@];
        let u = a["secrets"@];
        assert(same_value(u, t));
        if t is Table {
            let fields = t->Table_0;
            lemma_before_place(fields, key);
            lemma_lookup_place(fields, key);
            if lookup(fields, key) is None {
                assert(lookup(u->Table_0, key) is None);
            } else {
                let v = t->Table_0[place_of(fields, key)];
                assert(v.0 == key);
                assert(same_value(lookup(u->Table_0, v.0)->Some_0, v.1));
            }
        }
    } else {
        assert(!a.dom().contains("secrets"@));
    }
}

proof fn lemma_lookup_filtered(fields: Seq<(Seq<char>, Tree)>, key: Seq<char>, k: Seq<char>)
    ensures
        lookup(without_field(fields, key), k) == if k == key {
            None
        } else {
            lookup(fields, k)
        },
    decreases fields.len(),
{
    let keep = other_than(key);
    reveal(Seq::filter);
    if fields.len() > 0 {
        let rest = fields.drop_first();
        lemma_lookup_filtered(rest, key, k);
        assert(fields =~= seq![fields[0]] + rest);
        let head = seq![fields[0]];
        Seq::filter_distributes_over_add(head, rest, keep);
        assert(head.drop_last() =~= Seq::empty());
        assert(Seq::<(Seq<char>, Tree)>::empty().filter(keep) =~= Seq::empty());
        if keep(fields[0]) {
            assert(head.filter(keep) =~= head);
            assert(fields.filter(keep).drop_first() =~= rest.filter(keep));
        } else {
            assert(head.filter(keep) =~= Seq::empty());
            assert(fields.filter(keep) =~= rest.filter(keep));
        }
    }
}

proof fn lemma_plain_filtered(fields: Seq<(Seq<char>, Tree)>, key: Seq<char>)
    requires
        plain_fields(fields, secret_depth()),
    ensures
        plain_fields(without_field(fields, key), secret_depth()),
        forall|i: int|
            0 <= i < without_field(fields, key).len() ==> fields.contains(
                #[trigger] without_field(fields, key)[i],
            ),
    decreases fields.len(),
{
    reveal(Seq::filter);
    if fields.len() > 0 {
        let rest = fields.drop_last();
        let kept = without_field(rest, key);
        assert(plain_fields(rest, secret_depth()));
        lemma_plain_filtered(rest, key);
        assert forall|i: int| 0 <= i < kept.len() implies fields.contains(#[trigger] kept[i])
            && kept[i].0 != fields[fields.len() - 1].0 by {
            let j = choose|j: int| 0 <= j < rest.len() && rest[j] == kept[i];
            assert(fields[j] == kept[i]);
        }
    }
}

/// Deleting a secret keeps a plain document plain.
pub proof fn lemma_plain_without_secret(d: Map<Seq<char>, Tree>, key: Seq<char>)
    requires
        plain_document(d),
    ensures
        plain_document(without_secret(d, key)),
{
    lemma_plain_secrets(d);
    lemma_plain_filtered(secrets_of(d), key);
    lemma_plain_insert(d, without_field(secrets_of(d), key));
}

/// A secret that was deleted is not found, and deleting it changes no other.
pub proof fn law_deleted_secret_is_gone(
    d: Map<Seq<char>, Tree>,
    key: Seq<char>,
    other: Seq<char>,
)
    ensures
        secret_in(without_secret(d, key), key) is None,
        other != key ==> secret_in(without_secret(d, key), other) == secret_in(d, other),
{
    lemma_lookup_filtered(secrets_of(d), key, key);
    lemma_lookup_filtered(secrets_of(d), key, other);
}

/// The place of the first entry with the key `key`, or the number of entries.
fn place(entries: &Vec<(String, Value)>, key: &str) -> (r: usize)
    ensures
        r <= entries@.len(),
        r < entries@.len() ==> entries@[r as int].0@ == key@ && found(entries@, key@) == Some(
            entries@[r as int].1,
        ),
        r == entries@.len() ==> found(entries@, key@) is None,
        forall|j: int| 0 <= j < r ==> (#[trigger] entries@[j]).0@ != key@,
{
    let mut i: usize = 0;
    proof {
        assert(entries@.skip(0) =~= entries@);
    }
    while i < entries.len()
        invariant
            i <= entries@.len(),
            found(entries@, key@) == found(entries@.skip(i as int), key@),
            forall|j: int| 0 <= j < i ==> (#[trigger] entries@[j]).0@ != key@,
        decreases entries.len() - i,
    {
        proof {
            assert(entries@.skip(i as int)[0] == entries@[i as int]);
            assert(entries@.skip(i as int).drop_first() =~= entries@.skip(i as int + 1));
        }
        if same_text(entries[i].0.as_str(), key) {
            return i;
        }
        i = i + 1;
    }
    i
}

/// The secret of `doc` under `key`.
pub fn get_secret(doc: &StrMap<Value>, key: &str) -> (r: Option<String>)
    ensures
        match r {
            Some(s) => secret(doc@, key@) == Some(s@),
            None => secret(doc@, key@) is None,
        },
{
    match doc.get("secrets") {
        Some(Value::Table(entries)) => {
            let at = place(entries, key);
            if at < entries.len() {
                match &entries[at].1 {
                    Value::Text(s) => Some(s.clone()),
                    _ => None,
                }
            } else {
                None
            }
        },
        _ => None,
    }
}

/// Takes the entries of the secrets table out of `doc`.
fn take_table(doc: &mut StrMap<Value>) -> (r: Vec<(String, Value)>)
    ensures
        r@ == held(old(doc)@),
        final(doc)@ == old(doc)@.remove("secrets"@),
{
    match doc.remove("secrets") {
        Some(Value::Table(entries)) => entries,
        _ => Vec::new(),
    }
}

proof fn lemma_found_none(s: Seq<(String, Value)>, key: Seq<char>)
    requires
        forall|j: int| 0 <= j < s.len() ==> (#[trigger] s[j]).0@ != key,
    ensures
        found(s, key) is None,
    decreases s.len(),
{
    if s.len() > 0 {
        let rest = s.drop_first();
        assert forall|j: int| 0 <= j < rest.len() implies (#[trigger] rest[j]).0@ != key by {
            assert(rest[j] == s[j + 1]);
        }
        assert(s[0].0@ != key);
        lemma_found_none(rest, key);
    }
}

/// Setting the first entry of a key to a value makes that its value and keeps the rest.
proof fn lemma_found_update(s: Seq<(String, Value)>, at: int, e: (String, Value), k: Seq<char>)
    requires
        0 <= at < s.len(),
        e.0@ == s[at].0@,
        forall|j: int| 0 <= j < at ==> (#[trigger] s[j]).0@ != e.0@,
    ensures
        found(s.update(at, e), k) == if k == e.0@ {
            Some(e.1)
        } else {
            found(s, k)
        },
    decreases s.len(),
{
    let t = s.update(at, e);
    if at == 0 {
        assert(t.drop_first() =~= s.drop_first());
    } else {
        let rest = s.drop_first();
        assert(t.drop_first() =~= rest.update(at - 1, e));
        assert forall|j: int| 0 <= j < at - 1 implies (#[trigger] rest[j]).0@ != e.0@ by {
            assert(rest[j] == s[j + 1]);
        }
        lemma_found_update(rest, at - 1, e, k);
        assert(s[0].0@ != e.0@);
    }
}

/// An entry at the end counts where its key has no other.
proof fn lemma_found_push(s: Seq<(String, Value)>, e: (String, Value), k: Seq<char>)
    ensures
        found(s.push(e), k) == if found(s, k) is None && k == e.0@ {
            Some(e.1)
        } else {
            found(s, k)
        },
    decreases s.len(),
{
    let t = s.push(e);
    if s.len() == 0 {
        assert(t.drop_first() =~= Seq::empty());
    } else {
        assert(t.drop_first() =~= s.drop_first().push(e));
        lemma_found_push(s.drop_first(), e, k);
    }
}

/// Stores `value` under `key` in the secrets table of `doc`, which is made where it is
/// missing or not a table.
pub fn put_secret(doc: &mut StrMap<Value>, key: &str, value: &str)
    ensures
        secret(final(doc)@, key@) == Some(value@),
        forall|k: Seq<char>|
            k != key@ ==> #[trigger] found(held(final(doc)@), k) == found(held(old(doc)@), k),
        final(doc)@.remove("secrets"@) == old(doc)@.remove("secrets"@),
        final(doc)@.contains_key("secrets"@),
        final(doc)@["secrets"@] is Table,
        trees_in(final(doc)@) == with_secret(trees_in(old(doc)@), key@, value@),
{
    let ghost before = doc@;
    let mut entries = take_table(doc);
    let ghost was = entries@;
    let at = place(&entries, key);
    let entry = (key.to_owned(), Value::Text(value.to_owned()));
    let ghost e = entry;
    if at < entries.len() {
        entries.set(at, entry);
        proof {
            assert forall|k: Seq<char>| #[trigger] found(entries@, k) == if k == key@ {
                Some(e.1)
            } else {
                found(was, k)
            } by {
                lemma_found_update(was, at as int, e, k);
            }
        }
    } else {
        entries.push(entry);
        proof {
            lemma_found_none(was, key@);
            assert forall|k: Seq<char>| #[trigger] found(entries@, k) == if k == key@ {
                Some(e.1)
            } else {
                found(was, k)
            } by {
                lemma_found_push(was, e, k);
            }
        }
    }
    doc.insert("secrets".to_owned(), Value::Table(entries));
    proof {
        assert(held(doc@) == entries@);
        assert(found(entries@, key@) == Some(e.1));
        assert(doc@.remove("secrets"@) =~= before.remove("secrets"@));
        lemma_held_trees(before);
        lemma_entries_of(was);
        lemma_entries_of(entries@);
        let fields = entries_of(was);
        lemma_place_of(fields, key@, at as int);
        assert(tree_of(e.1) == Tree::Text(value@));
        assert(entries_of(entries@) =~= with_field(fields, key@, Tree::Text(value@)));
        assert(trees_in(doc@) =~= with_secret(trees_in(before), key@, value@));
    }
}

/// Leaving out an item that the filter does not keep changes nothing.
proof fn lemma_filter_remove(
    s: Seq<(Seq<char>, Tree)>,
    at: int,
    keep: spec_fn((Seq<char>, Tree)) -> bool,
)
    requires
        0 <= at < s.len(),
        !keep(s[at]),
    ensures
        s.remove(at).filter(keep) == s.filter(keep),
    decreases s.len(),
{
    reveal(Seq::filter);
    let t = s.remove(at);
    if at == s.len() - 1 {
        assert(t =~= s.drop_last());
    } else {
        assert(t.drop_last() =~= s.drop_last().remove(at));
        assert(t.last() == s.last());
        lemma_filter_remove(s.drop_last(), at, keep);
    }
}

/// A filter that keeps every item changes nothing.
proof fn lemma_filter_all(
    s: Seq<(Seq<char>, Tree)>,
    keep: spec_fn((Seq<char>, Tree)) -> bool,
)
    requires
        forall|i: int| 0 <= i < s.len() ==> keep(#[trigger] s[i]),
    ensures
        s.filter(keep) == s,
    decreases s.len(),
{
    reveal(Seq::filter);
    if s.len() > 0 {
        let front = s.drop_last();
        assert forall|i: int| 0 <= i < front.len() implies keep(#[trigger] front[i]) by {
            assert(front[i] == s[i]);
        }
        lemma_filter_all(front, keep);
        assert(keep(s[s.len() - 1]));
        assert(front.push(s.last()) =~= s);
    }
}

/// A key that is not found is the key of no entry.
proof fn lemma_absent(s: Seq<(String, Value)>, key: Seq<char>)
    requires
        found(s, key) is None,
    ensures
        forall|i: int| 0 <= i < s.len() ==> (#[trigger] s[i]).0@ != key,
    decreases s.len(),
{
    if s.len() > 0 {
        let rest = s.drop_first();
        lemma_absent(rest, key);
        assert forall|i: int| 0 <= i < s.len() implies (#[trigger] s[i]).0@ != key by {
            if i > 0 {
                assert(rest[i - 1] == s[i]);
            }
        }
    }
}

proof fn lemma_found_remove(s: Seq<(String, Value)>, at: int, k: Seq<char>)
    requires
        0 <= at < s.len(),
        k != s[at].0@,
    ensures
        found(s.remove(at), k) == found(s, k),
    decreases s.len(),
{
    let t = s.remove(at);
    if at == 0 {
        assert(t =~= s.drop_first());
    } else {
        let rest = s.drop_first();
        assert(t.drop_first() =~= rest.remove(at - 1));
        assert(t[0] == s[0]);
        lemma_found_remove(rest, at - 1, k);
    }
}

/// Removes `key` from the secrets table of `doc`, if there is such a table.
pub fn delete_secret(doc: &mut StrMap<Value>, key: &str)
    ensures
        found(held(final(doc)@), key@) is None,
        forall|k: Seq<char>|
            k != key@ ==> #[trigger] found(held(final(doc)@), k) == found(held(old(doc)@), k),
        final(doc)@.remove("secrets"@) == old(doc)@.remove("secrets"@),
        !(old(doc)@.contains_key("secrets"@) && old(doc)@["secrets"@] is Table) ==> final(doc)@
            == old(doc)@,
        trees_in(final(doc)@) == without_secret(trees_in(old(doc)@), key@),
{
    let ghost before = doc@;
    let ghost keep = other_than(key@);
    let is_table = match doc.get("secrets") {
        Some(Value::Table(_)) => true,
        _ => false,
    };
    if !is_table {
        proof {
            assert(held(before) =~= Seq::empty());
        }
        return;
    }
    let mut entries = take_table(doc);
    let ghost was = entries@;
    let mut at = place(&entries, key);
    while at < entries.len()
        invariant
            at <= entries@.len(),
            at < entries@.len() ==> entries@[at as int].0@ == key@,
            at == entries@.len() ==> found(entries@, key@) is None,
            forall|k: Seq<char>| k != key@ ==> #[trigger] found(entries@, k) == found(was, k),
            keep == other_than(key@),
            entries_of(entries@).filter(keep) == entries_of(was).filter(keep),
        decreases entries@.len(),
    {
        let ghost now = entries@;
        entries.remove(at);
        proof {
            assert forall|k: Seq<char>| k != key@ implies #[trigger] found(entries@, k) == found(
                was,
                k,
            ) by {
                lemma_found_remove(now, at as int, k);
            }
            lemma_entries_of(now);
            lemma_entries_of(entries@);
            assert(entries_of(entries@) =~= entries_of(now).remove(at as int));
            lemma_filter_remove(entries_of(now), at as int, keep);
        }
        at = place(&entries, key);
    }
    doc.insert("secrets".to_owned(), Value::Table(entries));
    proof {
        assert(held(doc@) == entries@);
        assert(doc@.remove("secrets"@) =~= before.remove("secrets"@));
        lemma_held_trees(before);
        lemma_entries_of(entries@);
        lemma_absent(entries@, key@);
        lemma_filter_all(entries_of(entries@), keep);
        assert(trees_in(before)["secrets"@] == tree_of(before["secrets"@]));
        assert(trees_in(doc@) =~= without_secret(trees_in(before), key@));
    }
}

/// The string entries among `entries`, in their order.
pub open spec fn string_entries(entries: Seq<(String, Value)>) -> Seq<(Seq<char>, Seq<char>)>
    decreases entries.len(),
{
    if entries.len() == 0 {
        Seq::empty()
    } else {
        let before = string_entries(entries.drop_last());
        match entries.last().1 {
            Value::Text(s) => before.push((entries.last().0@, s@)),
            _ => before,
        }
    }
}

/// The texts of a list of pairs.
pub open spec fn pair_texts(pairs: Seq<(String, String)>) -> Seq<(Seq<char>, Seq<char>)> {
    pairs.map_values(|p: (String, String)| (p.0@, p.1@))
}

/// The string entries of the secrets table, and the number of all its entries.
pub fn load_all(doc: &StrMap<Value>) -> (r: (Vec<(String, String)>, usize))
    ensures
        pair_texts(r.0@) == string_entries(held(doc@)),
        r.1 == held(doc@).len(),
{
    let mut out: Vec<(String, String)> = Vec::new();
    match doc.get("secrets") {
        Some(Value::Table(entries)) => {
            let mut i: usize = 0;
            proof {
                assert(pair_texts(out@) =~= Seq::empty());
                assert(entries@.take(0) =~= Seq::empty());
            }
            while i < entries.len()
                invariant
                    i <= entries@.len(),
                    pair_texts(out@) == string_entries(entries@.take(i as int)),
                decreases entries.len() - i,
            {
                let ghost was = out@;
                proof {
                    assert(entries@.take(i as int + 1).drop_last() =~= entries@.take(i as int));
                    assert(entries@.take(i as int + 1).last() == entries@[i as int]);
                }
                match &entries[i].1 {
                    Value::Text(s) => {
                        out.push((entries[i].0.clone(), s.clone()));
                        proof {
                            assert(pair_texts(out@) =~= pair_texts(was).push(
                                (entries@[i as int].0@, s@),
                            ));
                        }
                    },
                    _ => {},
                }
                i = i + 1;
            }
            proof {
                assert(entries@.take(entries@.len() as int) =~= entries@);
            }
            (out, entries.len())
        },
        _ => {
            proof {
                assert(pair_texts(out@) =~= Seq::empty());
                assert(held(doc@) =~= Seq::empty());
            }
            (out, 0)
        },
    }
}

/// The text of the first pair with the key `key`.
pub open spec fn first_text(pairs: Seq<(Seq<char>, Seq<char>)>, key: Seq<char>) -> Option<Seq<char>>
    decreases pairs.len(),
{
    if pairs.len() == 0 {
        None
    } else if first_text(pairs.drop_last(), key) is Some {
        first_text(pairs.drop_last(), key)
    } else if pairs.last().0 == key {
        Some(pairs.last().1)
    } else {
        None
    }
}

/// Adds to the secrets table of `doc` each pair whose key it does not hold. What it holds
/// already stays as it is.
pub fn import_secrets(doc: &mut StrMap<Value>, pairs: &Vec<(String, String)>)
    ensures
        forall|k: Seq<char>|
            found(held(old(doc)@), k) is Some ==> #[trigger] found(held(final(doc)@), k) == found(
                held(old(doc)@),
                k,
            ),
        forall|k: Seq<char>|
            found(held(old(doc)@), k) is None ==> {
                let now = #[trigger] found(held(final(doc)@), k);
                &&& text_of(now) == first_text(pair_texts(pairs@), k)
                &&& now is Some <==> first_text(pair_texts(pairs@), k) is Some
            },
        final(doc)@.remove("secrets"@) == old(doc)@.remove("secrets"@),
{
    let ghost before = doc@;
    let mut entries = take_table(doc);
    let ghost was = entries@;
    let ghost all = pair_texts(pairs@);
    let mut i: usize = 0;
    proof {
        assert(all.take(0) =~= Seq::empty());
    }
    while i < pairs.len()
        invariant
            i <= pairs@.len(),
            all == pair_texts(pairs@),
            forall|k: Seq<char>|
                found(was, k) is Some ==> #[trigger] found(entries@, k) == found(was, k),
            forall|k: Seq<char>|
                found(was, k) is None ==> {
                    let now = #[trigger] found(entries@, k);
                    &&& text_of(now) == first_text(all.take(i as int), k)
                    &&& now is Some <==> first_text(all.take(i as int), k) is Some
                },
        decreases pairs.len() - i,
    {
        let ghost now = entries@;
        let ghost key = pairs@[i as int].0@;
        proof {
            assert(all.take(i as int + 1).drop_last() =~= all.take(i as int));
            assert(all.take(i as int + 1).last() == (pairs@[i as int].0@, pairs@[i as int].1@));
        }
        let at = place(&entries, pairs[i].0.as_str());
        if at == entries.len() {
            let entry = (pairs[i].0.clone(), Value::Text(pairs[i].1.clone()));
            let ghost e = entry;
            entries.push(entry);
            proof {
                assert forall|k: Seq<char>| #[trigger] found(entries@, k) == if found(now, k) is None
                    && k == key {
                    Some(e.1)
                } else {
                    found(now, k)
                } by {
                    lemma_found_push(now, e, k);
                }
            }
        }
        i = i + 1;
    }
    doc.insert("secrets".to_owned(), Value::Table(entries));
    proof {
        assert(all.take(all.len() as int) =~= all);
        assert(held(doc@) == entries@);
        assert(doc@.remove("secrets"@) =~= before.remove("secrets"@));
    }
}

} // verus!
