//! Masking of credentials in a configuration preview.

use crate::credentials::document::{render, text_of_document, trees_in};
use crate::table::StrMap;
use crate::text::{ascii_lower, chars_of, contains, contains_text, lower_chars};
use crate::value::{entries_of, lemma_entries_of, tree_of, trees_of, Tree, Value};
use vstd::prelude::*;

verus! {

/// Whether a key name looks like that of a credential: it contains one of the
/// telling words, in any letter case.
pub open spec fn names_secret(key: Seq<char>) -> bool {
    let k = ascii_lower(key);
    ||| contains_text(k, "api_key"@)
    ||| contains_text(k, "apikey"@)
    ||| contains_text(k, "token"@)
    ||| contains_text(k, "secret"@)
    ||| contains_text(k, "password"@)
    ||| contains_text(k, "passwd"@)
    ||| contains_text(k, "credential"@)
    ||| contains_text(k, "private_key"@)
    ||| contains_text(k, "auth"@)
}

/// Whether a key name looks like that of a credential.
pub fn is_secret_key(key: &str) -> (r: bool)
    ensures
        r == names_secret(key@),
{
    let k = lower_chars(key);
    contains(&k, &chars_of("api_key")) || contains(&k, &chars_of("apikey")) || contains(
        &k,
        &chars_of("token"),
    ) || contains(&k, &chars_of("secret")) || contains(&k, &chars_of("password")) || contains(
        &k,
        &chars_of("passwd"),
    ) || contains(&k, &chars_of("credential")) || contains(&k, &chars_of("private_key"))
        || contains(&k, &chars_of("auth"))
}

/// `t` with every string replaced by `***`; other leaves stay.
pub open spec fn masked(t: Tree) -> Tree
    decreases t,
{
    match t {
        Tree::Text(_) => Tree::Text("***"@),
        Tree::List(items) => Tree::List(masked_items(items)),
        Tree::Table(entries) => Tree::Table(masked_entries(entries)),
        _ => t,
    }
}

/// [`masked`] of each item.
pub open spec fn masked_items(items: Seq<Tree>) -> Seq<Tree>
    decreases items,
{
    if items.len() == 0 {
        Seq::empty()
    } else {
        masked_items(items.drop_last()).push(masked(items.last()))
    }
}

/// [`masked`] of each value.
pub open spec fn masked_entries(entries: Seq<(Seq<char>, Tree)>) -> Seq<(Seq<char>, Tree)>
    decreases entries,
{
    if entries.len() == 0 {
        Seq::empty()
    } else {
        masked_entries(entries.drop_last()).push((entries.last().0, masked(entries.last().1)))
    }
}

/// `t` with the value of each secret-named key [`masked`], at any depth.
pub open spec fn redacted(t: Tree) -> Tree
    decreases t,
{
    match t {
        Tree::List(items) => Tree::List(redacted_items(items)),
        Tree::Table(entries) => Tree::Table(redacted_entries(entries)),
        _ => t,
    }
}

/// [`redacted`] of each item.
pub open spec fn redacted_items(items: Seq<Tree>) -> Seq<Tree>
    decreases items,
{
    if items.len() == 0 {
        Seq::empty()
    } else {
        redacted_items(items.drop_last()).push(redacted(items.last()))
    }
}

/// The value of a secret-named key [`masked`], any other value [`redacted`].
pub open spec fn redacted_entries(entries: Seq<(Seq<char>, Tree)>) -> Seq<(Seq<char>, Tree)>
    decreases entries,
{
    if entries.len() == 0 {
        Seq::empty()
    } else {
        let last = entries.last();
        redacted_entries(entries.drop_last()).push(
            (
                last.0,
                if names_secret(last.0) {
                    masked(last.1)
                } else {
                    redacted(last.1)
                },
            ),
        )
    }
}

/// Computes [`masked`].
fn mask_value(v: &Value) -> (r: Value)
    ensures
        r@ == masked(v@),
    decreases v,
{
    match v {
        Value::Text(_) => Value::Text("***".to_owned()),
        Value::List(items) => {
            let mut out: Vec<Value> = Vec::new();
            let mut i: usize = 0;
            while i < items.len()
                invariant
                    i <= items.len(),
                    v == Value::List(*items),
                    trees_of(out@) == masked_items(trees_of(items@.take(i as int))),
                decreases items.len() - i,
            {
                proof {
                    assert(decreases_to!(*v => v->List_0));
                    assert(decreases_to!(*items => items@));
                    assert(decreases_to!(items@ => items@[i as int]));
                }
                let item = mask_value(&items[i]);
                proof {
                    let next = items@.take(i as int + 1);
                    assert(next.drop_last() =~= items@.take(i as int));
                    assert(trees_of(next).drop_last() =~= trees_of(items@.take(i as int)));
                    assert(out@.push(item).drop_last() =~= out@);
                }
                out.push(item);
                i = i + 1;
            }
            proof {
                assert(items@.take(items@.len() as int) =~= items@);
            }
            Value::List(out)
        },
        Value::Table(entries) => {
            let mut out: Vec<(String, Value)> = Vec::new();
            let mut i: usize = 0;
            while i < entries.len()
                invariant
                    i <= entries.len(),
                    v == Value::Table(*entries),
                    entries_of(out@) == masked_entries(entries_of(entries@.take(i as int))),
                decreases entries.len() - i,
            {
                proof {
                    assert(decreases_to!(*v => v->Table_0));
                    assert(decreases_to!(*entries => entries@));
                    assert(decreases_to!(entries@ => entries@[i as int]));
                    assert(decreases_to!(entries@[i as int] => entries@[i as int].1));
                }
                let entry = (entries[i].0.clone(), mask_value(&entries[i].1));
                proof {
                    let next = entries@.take(i as int + 1);
                    assert(next.drop_last() =~= entries@.take(i as int));
                    assert(entries_of(next).drop_last() =~= entries_of(entries@.take(i as int)));
                    assert(out@.push(entry).drop_last() =~= out@);
                }
                out.push(entry);
                i = i + 1;
            }
            proof {
                assert(entries@.take(entries@.len() as int) =~= entries@);
            }
            Value::Table(out)
        },
        _ => v.duplicate(),
    }
}

/// Computes [`redacted`].
fn redact_value(v: &Value) -> (r: Value)
    ensures
        r@ == redacted(v@),
    decreases v,
{
    match v {
        Value::List(items) => {
            let mut out: Vec<Value> = Vec::new();
            let mut i: usize = 0;
            while i < items.len()
                invariant
                    i <= items.len(),
                    v == Value::List(*items),
                    trees_of(out@) == redacted_items(trees_of(items@.take(i as int))),
                decreases items.len() - i,
            {
                proof {
                    assert(decreases_to!(*v => v->List_0));
                    assert(decreases_to!(*items => items@));
                    assert(decreases_to!(items@ => items@[i as int]));
                }
                let item = redact_value(&items[i]);
                proof {
                    let next = items@.take(i as int + 1);
                    assert(next.drop_last() =~= items@.take(i as int));
                    assert(trees_of(next).drop_last() =~= trees_of(items@.take(i as int)));
                    assert(out@.push(item).drop_last() =~= out@);
                }
                out.push(item);
                i = i + 1;
            }
            proof {
                assert(items@.take(items@.len() as int) =~= items@);
            }
            Value::List(out)
        },
        Value::Table(entries) => {
            let mut out: Vec<(String, Value)> = Vec::new();
            let mut i: usize = 0;
            while i < entries.len()
                invariant
                    i <= entries.len(),
                    v == Value::Table(*entries),
                    entries_of(out@) == redacted_entries(entries_of(entries@.take(i as int))),
                decreases entries.len() - i,
            {
                proof {
                    assert(decreases_to!(*v => v->Table_0));
                    assert(decreases_to!(*entries => entries@));
                    assert(decreases_to!(entries@ => entries@[i as int]));
                    assert(decreases_to!(entries@[i as int] => entries@[i as int].1));
                }
                let child = if is_secret_key(entries[i].0.as_str()) {
                    mask_value(&entries[i].1)
                } else {
                    redact_value(&entries[i].1)
                };
                let entry = (entries[i].0.clone(), child);
                proof {
                    let next = entries@.take(i as int + 1);
                    assert(next.drop_last() =~= entries@.take(i as int));
                    assert(entries_of(next).drop_last() =~= entries_of(entries@.take(i as int)));
                    assert(out@.push(entry).drop_last() =~= out@);
                }
                out.push(entry);
                i = i + 1;
            }
            proof {
                assert(entries@.take(entries@.len() as int) =~= entries@);
            }
            Value::Table(out)
        },
        _ => v.duplicate(),
    }
}

/// Replaces every string under a secret-named key of `value`, at any depth, by
/// `***`. Numbers and booleans stay.
pub fn redact_secrets_in_place(value: &mut Value)
    ensures
        final(value)@ == redacted(old(value)@),
{
    let clean = redact_value(&*value);
    *value = clean;
}

/// Whether every string of `t` is the mask `***`.
pub open spec fn is_masked(t: Tree) -> bool
    decreases t,
{
    match t {
        Tree::Text(s) => s == "***"@,
        Tree::List(items) => are_masked_items(items),
        Tree::Table(entries) => are_masked_entries(entries),
        _ => true,
    }
}

/// [`is_masked`] of each item.
pub open spec fn are_masked_items(items: Seq<Tree>) -> bool
    decreases items,
{
    items.len() > 0 ==> are_masked_items(items.drop_last()) && is_masked(items.last())
}

/// [`is_masked`] of each value.
pub open spec fn are_masked_entries(entries: Seq<(Seq<char>, Tree)>) -> bool
    decreases entries,
{
    entries.len() > 0 ==> are_masked_entries(entries.drop_last()) && is_masked(entries.last().1)
}

/// Whether, at every depth of `t`, the value of a secret-named key [`is_masked`].
pub open spec fn leaks_nothing(t: Tree) -> bool
    decreases t,
{
    match t {
        Tree::List(items) => leak_nothing_items(items),
        Tree::Table(entries) => leak_nothing_entries(entries),
        _ => true,
    }
}

/// [`leaks_nothing`] of each item.
pub open spec fn leak_nothing_items(items: Seq<Tree>) -> bool
    decreases items,
{
    items.len() > 0 ==> leak_nothing_items(items.drop_last()) && leaks_nothing(items.last())
}

/// Each value is masked under a secret name, and [`leaks_nothing`] elsewhere.
pub open spec fn leak_nothing_entries(entries: Seq<(Seq<char>, Tree)>) -> bool
    decreases entries,
{
    entries.len() > 0 ==> {
        &&& leak_nothing_entries(entries.drop_last())
        &&& if names_secret(entries.last().0) {
            is_masked(entries.last().1)
        } else {
            leaks_nothing(entries.last().1)
        }
    }
}

proof fn lemma_masked(t: Tree)
    ensures
        is_masked(masked(t)),
        masked(masked(t)) == masked(t),
    decreases t,
{
    match t {
        Tree::List(items) => {
            lemma_masked_items(items);
        },
        Tree::Table(entries) => {
            lemma_masked_entries(entries);
        },
        _ => {},
    }
}

proof fn lemma_masked_items(items: Seq<Tree>)
    ensures
        are_masked_items(masked_items(items)),
        masked_items(masked_items(items)) == masked_items(items),
    decreases items,
{
    if items.len() > 0 {
        lemma_masked_items(items.drop_last());
        lemma_masked(items.last());
        assert(masked_items(items).drop_last() =~= masked_items(items.drop_last()));
    }
}

proof fn lemma_masked_entries(entries: Seq<(Seq<char>, Tree)>)
    ensures
        are_masked_entries(masked_entries(entries)),
        masked_entries(masked_entries(entries)) == masked_entries(entries),
    decreases entries,
{
    if entries.len() > 0 {
        lemma_masked_entries(entries.drop_last());
        lemma_masked(entries.last().1);
        assert(masked_entries(entries).drop_last() =~= masked_entries(entries.drop_last()));
    }
}

/// Why a configuration that is not a table has no preview.
pub const NOT_A_TABLE: &'static str = "configuration is not a table";

/// The entries of a table, a later one in place of an earlier one with the same key.
pub open spec fn table_of(fields: Seq<(Seq<char>, Tree)>) -> Map<Seq<char>, Tree>
    decreases fields.len(),
{
    if fields.len() == 0 {
        Map::empty()
    } else {
        table_of(fields.drop_last()).insert(fields.last().0, fields.last().1)
    }
}

fn document_with(entries: &Vec<(String, Value)>) -> (r: StrMap<Value>)
    ensures
        trees_in(r@) == table_of(entries_of(entries@)),
{
    let mut out: StrMap<Value> = StrMap::new();
    let ghost all = entries_of(entries@);
    let mut i: usize = 0;
    proof {
        lemma_entries_of(entries@);
        assert(trees_in(out@) =~= table_of(all.take(0)));
    }
    while i < entries.len()
        invariant
            i <= entries@.len(),
            all == entries_of(entries@),
            all.len() == entries@.len(),
            forall|j: int|
                0 <= j < entries@.len() ==> (#[trigger] all[j]) == (
                    entries@[j].0@,
                    tree_of(entries@[j].1),
                ),
            trees_in(out@) == table_of(all.take(i as int)),
        decreases entries.len() - i,
    {
        let ghost before = out@;
        let copy = entries[i].1.duplicate();
        proof {
            let next = all.take(i as int + 1);
            assert(next.drop_last() =~= all.take(i as int));
            assert(next.last() == all[i as int]);
            assert(trees_in(before.insert(entries@[i as int].0@, copy)) =~= trees_in(
                before,
            ).insert(entries@[i as int].0@, copy@));
        }
        out.insert(entries[i].0.clone(), copy);
        i = i + 1;
    }
    proof {
        assert(all.take(all.len() as int) =~= all);
    }
    out
}

/// The TOML text of a configuration with its secrets masked, or why there is none.
pub fn preview_text(tree: Value) -> (r: Result<String, String>)
    ensures
        match redacted(tree@) {
            Tree::Table(fields) => match r {
                Ok(text) => text_of_document(table_of(fields)) matches Ok(t) && t == text@,
                Err(why) => text_of_document(table_of(fields)) matches Err(w) && w == why@,
            },
            _ => r matches Err(why) && why@ == NOT_A_TABLE@,
        },
{
    let mut shown = tree;
    redact_secrets_in_place(&mut shown);
    match &shown {
        Value::Table(entries) => render(document_with(entries)),
        _ => Err(NOT_A_TABLE.to_owned()),
    }
}

/// A redacted value holds no string other than the mask under a secret-named
/// key, at any depth, and redacting it again changes nothing.
pub proof fn law_redaction_leaks_nothing(t: Tree)
    ensures
        leaks_nothing(redacted(t)),
        redacted(redacted(t)) == redacted(t),
    decreases t,
{
    match t {
        Tree::List(items) => {
            lemma_redacted_items(items);
        },
        Tree::Table(entries) => {
            lemma_redacted_entries(entries);
        },
        _ => {},
    }
}

proof fn lemma_redacted_items(items: Seq<Tree>)
    ensures
        leak_nothing_items(redacted_items(items)),
        redacted_items(redacted_items(items)) == redacted_items(items),
    decreases items,
{
    if items.len() > 0 {
        lemma_redacted_items(items.drop_last());
        law_redaction_leaks_nothing(items.last());
        assert(redacted_items(items).drop_last() =~= redacted_items(items.drop_last()));
    }
}

proof fn lemma_redacted_entries(entries: Seq<(Seq<char>, Tree)>)
    ensures
        leak_nothing_entries(redacted_entries(entries)),
        redacted_entries(redacted_entries(entries)) == redacted_entries(entries),
    decreases entries,
{
    if entries.len() > 0 {
        lemma_redacted_entries(entries.drop_last());
        lemma_masked(entries.last().1);
        law_redaction_leaks_nothing(entries.last().1);
        assert(redacted_entries(entries).drop_last() =~= redacted_entries(entries.drop_last()));
    }
}

} // verus!
