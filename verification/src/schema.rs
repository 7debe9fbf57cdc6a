//! JSON Schema sanitising for providers that accept only a strict subset.

use crate::text::same_text;
use crate::value::{
    entries_of, lemma_entries_of, lemma_trees_of, lookup, tree_of, trees_of, Tree, Value,
};
use vstd::prelude::*;

verus! {

/// Whether `t` is an object whose `type` is `"object"`.
pub open spec fn is_object_schema(t: Tree) -> bool {
    match t {
        Tree::Table(entries) => lookup(entries, "type"@) == Some(Tree::Text("object"@)),
        _ => false,
    }
}

/// An object schema with the single required property `value` of schema `t`.
pub open spec fn wrapped(t: Tree) -> Tree {
    Tree::Table(
        seq![
            ("properties"@, Tree::Table(seq![("value"@, t)])),
            ("required"@, Tree::List(seq![Tree::Text("value"@)])),
            ("type"@, Tree::Text("object"@)),
        ],
    )
}

/// `t` without any `additionalProperties` key, at any depth.
pub open spec fn stripped(t: Tree) -> Tree
    decreases t,
{
    match t {
        Tree::List(items) => Tree::List(stripped_items(items)),
        Tree::Table(entries) => Tree::Table(stripped_entries(entries)),
        _ => t,
    }
}

/// [`stripped`] of each item.
pub open spec fn stripped_items(items: Seq<Tree>) -> Seq<Tree>
    decreases items,
{
    if items.len() == 0 {
        Seq::empty()
    } else {
        stripped_items(items.drop_last()).push(stripped(items.last()))
    }
}

/// The entries other than `additionalProperties`, each [`stripped`].
pub open spec fn stripped_entries(entries: Seq<(Seq<char>, Tree)>) -> Seq<(Seq<char>, Tree)>
    decreases entries,
{
    if entries.len() == 0 {
        Seq::empty()
    } else if entries.last().0 == "additionalProperties"@ {
        stripped_entries(entries.drop_last())
    } else {
        stripped_entries(entries.drop_last()).push((entries.last().0, stripped(entries.last().1)))
    }
}

/// The items other than the string `"null"`.
pub open spec fn non_null(items: Seq<Tree>) -> Seq<Tree>
    decreases items.len(),
{
    if items.len() == 0 {
        Seq::empty()
    } else if items.last() == Tree::Text("null"@) {
        non_null(items.drop_last())
    } else {
        non_null(items.drop_last()).push(items.last())
    }
}

/// The position of an item other than the string `"null"`.
pub open spec fn non_null_index(items: Seq<Tree>) -> int {
    choose|i: int| 0 <= i < items.len() && #[trigger] items[i] != Tree::Text("null"@)
}

/// `t` with each `type` that is an array with one non-null item replaced by
/// that item, at any depth.
pub open spec fn normalized(t: Tree) -> Tree
    decreases t,
{
    match t {
        Tree::List(items) => Tree::List(normalized_items(items)),
        Tree::Table(entries) => Tree::Table(normalized_entries(entries)),
        _ => t,
    }
}

/// [`normalized`] of each item.
pub open spec fn normalized_items(items: Seq<Tree>) -> Seq<Tree>
    decreases items,
{
    if items.len() == 0 {
        Seq::empty()
    } else {
        normalized_items(items.drop_last()).push(normalized(items.last()))
    }
}

/// Each entry [`normalized`]; a `type` entry by [`normalized_type`].
pub open spec fn normalized_entries(entries: Seq<(Seq<char>, Tree)>) -> Seq<(Seq<char>, Tree)>
    decreases entries,
{
    if entries.len() == 0 {
        Seq::empty()
    } else {
        let last = entries.last();
        normalized_entries(entries.drop_last()).push(
            (
                last.0,
                if last.0 == "type"@ {
                    normalized_type(last.1)
                } else {
                    normalized(last.1)
                },
            ),
        )
    }
}

/// The value of a `type` entry: an array with one non-null item becomes that item.
pub open spec fn normalized_type(t: Tree) -> Tree
    decreases t,
{
    match t {
        Tree::List(items) => {
            let i = non_null_index(items);
            if non_null(items).len() == 1 && 0 <= i < items.len() {
                normalized(items[i])
            } else {
                Tree::List(normalized_items(items))
            }
        },
        Tree::Table(entries) => Tree::Table(normalized_entries(entries)),
        _ => t,
    }
}

/// The schema that a strict provider is given for `t`: an object at the root,
/// without `additionalProperties`, with single types.
pub open spec fn sanitized(t: Tree) -> Tree {
    normalized(
        stripped(
            if is_object_schema(t) {
                t
            } else {
                wrapped(t)
            },
        ),
    )
}

/// Decides [`is_object_schema`].
fn has_object_root(v: &Value) -> (r: bool)
    ensures
        r == is_object_schema(v@),
{
    match v {
        Value::Table(entries) => {
            let ghost all = entries_of(entries@);
            proof {
                lemma_entries_of(entries@);
                assert(all.skip(0) =~= all);
            }
            let mut i: usize = 0;
            while i < entries.len()
                invariant
                    i <= entries.len(),
                    v == Value::Table(*entries),
                    all == entries_of(entries@),
                    all.len() == entries@.len(),
                    forall|j: int|
                        0 <= j < entries@.len() ==> (#[trigger] all[j]) == (
                            entries@[j].0@,
                            tree_of(entries@[j].1),
                        ),
                    lookup(all, "type"@) == lookup(all.skip(i as int), "type"@),
                decreases entries.len() - i,
            {
                proof {
                    assert(all.skip(i as int)[0] == all[i as int]);
                    assert(all.skip(i as int).drop_first() =~= all.skip(i as int + 1));
                }
                if same_text(entries[i].0.as_str(), "type") {
                    return match &entries[i].1 {
                        Value::Text(t) => same_text(t.as_str(), "object"),
                        _ => false,
                    };
                }
                i = i + 1;
            }
            proof {
                assert(all.skip(i as int).len() == 0);
            }
            false
        },
        _ => false,
    }
}

/// Computes [`stripped`].
fn strip_additional_properties(v: &Value) -> (r: Value)
    ensures
        r@ == stripped(v@),
    decreases v,
{
    match v {
        Value::List(items) => {
            let mut out: Vec<Value> = Vec::new();
            let mut i: usize = 0;
            while i < items.len()
                invariant
                    i <= items.len(),
                    v == Value::List(*items),
                    trees_of(out@) == stripped_items(trees_of(items@.take(i as int))),
                decreases items.len() - i,
            {
                proof {
                    assert(decreases_to!(*v => v->List_0));
                    assert(decreases_to!(*items => items@));
                    assert(decreases_to!(items@ => items@[i as int]));
                }
                let item = strip_additional_properties(&items[i]);
                proof {
                    let next = items@.take(i as int + 1);
                    assert(next.drop_last() =~= items@.take(i as int));
                    assert(trees_of(next).drop_last() =~= trees_of(items@.take(i as int)));
                    assert(out@.push(item).drop_last() =~= out@);
                }
                out.push(item);
                i = i + 1;
            }
            proof {
                assert(items@.take(items@.len() as int) =~= items@);
            }
            Value::List(out)
        },
        Value::Table(entries) => {
            let mut out: Vec<(String, Value)> = Vec::new();
            let mut i: usize = 0;
            while i < entries.len()
                invariant
                    i <= entries.len(),
                    v == Value::Table(*entries),
                    entries_of(out@) == stripped_entries(entries_of(entries@.take(i as int))),
                decreases entries.len() - i,
            {
                proof {
                    assert(decreases_to!(*v => v->Table_0));
                    assert(decreases_to!(*entries => entries@));
                    assert(decreases_to!(entries@ => entries@[i as int]));
                    assert(decreases_to!(entries@[i as int] => entries@[i as int].1));
                    let next = entries@.take(i as int + 1);
                    assert(next.drop_last() =~= entries@.take(i as int));
                    assert(entries_of(next).drop_last() =~= entries_of(entries@.take(i as int)));
                }
                if !same_text(entries[i].0.as_str(), "additionalProperties") {
                    let entry = (
                        entries[i].0.clone(),
                        strip_additional_properties(&entries[i].1),
                    );
                    proof {
                        assert(out@.push(entry).drop_last() =~= out@);
                    }
                    out.push(entry);
                }
                i = i + 1;
            }
            proof {
                assert(entries@.take(entries@.len() as int) =~= entries@);
            }
            Value::Table(out)
        },
        _ => v.duplicate(),
    }
}

/// The position of the one item other than the string `"null"`, if there is
/// exactly one.
fn single_non_null(items: &Vec<Value>) -> (r: Option<usize>)
    ensures
        match r {
            Some(i) => {
                &&& i < items@.len()
                &&& non_null(trees_of(items@)).len() == 1
                &&& i == non_null_index(trees_of(items@))
            },
            None => non_null(trees_of(items@)).len() != 1,
        },
{
    let ghost all = trees_of(items@);
    let mut count: usize = 0;
    let mut at: usize = 0;
    let mut i: usize = 0;
    proof {
        lemma_trees_of(items@);
    }
    while i < items.len()
        invariant
            i <= items.len(),
            all == trees_of(items@),
            all.len() == items@.len(),
            forall|j: int| 0 <= j < items@.len() ==> (#[trigger] all[j]) == tree_of(items@[j]),
            count <= i,
            count == non_null(all.take(i as int)).len(),
            count > 0 ==> at < i && all[at as int] != Tree::Text("null"@),
            count == 0 ==> forall|j: int|
                0 <= j < i ==> (#[trigger] all[j]) == Tree::Text("null"@),
            count == 1 ==> forall|j: int|
                0 <= j < i && j != at ==> (#[trigger] all[j]) == Tree::Text("null"@),
        decreases items.len() - i,
    {
        let is_null = match &items[i] {
            Value::Text(t) => same_text(t.as_str(), "null"),
            _ => false,
        };
        proof {
            assert(all.take(i as int + 1).drop_last() =~= all.take(i as int));
            assert(all[i as int] == tree_of(items@[i as int]));
            assert(is_null == (all[i as int] == Tree::Text("null"@)));
        }
        if !is_null {
            count = count + 1;
            at = i;
        }
        i = i + 1;
    }
    proof {
        assert(all.take(all.len() as int) =~= all);
    }
    if count == 1 {
        proof {
            assert(all[at as int] != Tree::Text("null"@));
        }
        Some(at)
    } else {
        None
    }
}

/// Computes [`normalized`], or [`normalized_type`] for the value of a `type` entry.
fn normalize_array_types(v: &Value, is_type: bool) -> (r: Value)
    ensures
        r@ == if is_type {
            normalized_type(v@)
        } else {
            normalized(v@)
        },
    decreases v,
{
    match v {
        Value::List(items) => {
            if is_type {
                match single_non_null(items) {
                    Some(i) => {
                        proof {
                            assert(decreases_to!(*v => v->List_0));
                            assert(decreases_to!(*items => items@));
                            assert(decreases_to!(items@ => items@[i as int]));
                            lemma_trees_of(items@);
                            assert(trees_of(items@)[i as int] == tree_of(items@[i as int]));
                        }
                        return normalize_array_types(&items[i], false);
                    },
                    None => {},
                }
            }
            let mut out: Vec<Value> = Vec::new();
            let mut i: usize = 0;
            while i < items.len()
                invariant
                    i <= items.len(),
                    v == Value::List(*items),
                    trees_of(out@) == normalized_items(trees_of(items@.take(i as int))),
                decreases items.len() - i,
            {
                proof {
                    assert(decreases_to!(*v => v->List_0));
                    assert(decreases_to!(*items => items@));
                    assert(decreases_to!(items@ => items@[i as int]));
                }
                let item = normalize_array_types(&items[i], false);
                proof {
                    let next = items@.take(i as int + 1);
                    assert(next.drop_last() =~= items@.take(i as int));
                    assert(trees_of(next).drop_last() =~= trees_of(items@.take(i as int)));
                    assert(out@.push(item).drop_last() =~= out@);
                }
                out.push(item);
                i = i + 1;
            }
            proof {
                assert(items@.take(items@.len() as int) =~= items@);
            }
            Value::List(out)
        },
        Value::Table(entries) => {
            let mut out: Vec<(String, Value)> = Vec::new();
            let mut i: usize = 0;
            while i < entries.len()
                invariant
                    i <= entries.len(),
                    v == Value::Table(*entries),
                    entries_of(out@) == normalized_entries(entries_of(entries@.take(i as int))),
                decreases entries.len() - i,
            {
                proof {
                    assert(decreases_to!(*v => v->Table_0));
                    assert(decreases_to!(*entries => entries@));
                    assert(decreases_to!(entries@ => entries@[i as int]));
                    assert(decreases_to!(entries@[i as int] => entries@[i as int].1));
                }
                let names_type = same_text(entries[i].0.as_str(), "type");
                let entry = (
                    entries[i].0.clone(),
                    normalize_array_types(&entries[i].1, names_type),
                );
                proof {
                    let next = entries@.take(i as int + 1);
                    assert(next.drop_last() =~= entries@.take(i as int));
                    assert(entries_of(next).drop_last() =~= entries_of(entries@.take(i as int)));
                    assert(out@.push(entry).drop_last() =~= out@);
                }
                out.push(entry);
                i = i + 1;
            }
            proof {
                assert(entries@.take(entries@.len() as int) =~= entries@);
            }
            Value::Table(out)
        },
        _ => v.duplicate(),
    }
}

/// An object schema with the single required property `value` of schema `v`.
fn wrap(v: &Value) -> (r: Value)
    ensures
        r@ == wrapped(v@),
{
    let value_entry = ("value".to_owned(), v.duplicate());
    let property = vec![value_entry];
    let required = vec![Value::Text("value".to_owned())];
    let first = ("properties".to_owned(), Value::Table(property));
    let second = ("required".to_owned(), Value::List(required));
    let third = ("type".to_owned(), Value::Text("object".to_owned()));
    let entries = vec![first, second, third];
    proof {
        lemma_entries_of(property@);
        lemma_trees_of(required@);
        lemma_entries_of(entries@);
        assert(entries_of(property@) =~= seq![("value"@, v@)]);
        assert(trees_of(required@) =~= seq![Tree::Text("value"@)]);
        assert(entries_of(entries@)[0] == (entries@[0].0@, tree_of(entries@[0].1)));
        assert(entries_of(entries@)[1] == (entries@[1].0@, tree_of(entries@[1].1)));
        assert(entries_of(entries@)[2] == (entries@[2].0@, tree_of(entries@[2].1)));
        assert(tree_of(entries@[0].1) == Tree::Table(seq![("value"@, v@)]));
        assert(tree_of(entries@[1].1) == Tree::List(seq![Tree::Text("value"@)]));
        assert(tree_of(entries@[2].1) == Tree::Text("object"@));
        assert(entries_of(entries@) =~= seq![
            ("properties"@, Tree::Table(seq![("value"@, v@)])),
            ("required"@, Tree::List(seq![Tree::Text("value"@)])),
            ("type"@, Tree::Text("object"@)),
        ]);
    }
    Value::Table(entries)
}

/// The schema that a strict provider is given for `schema`: the root is an object
/// (another root becomes its `value` property), `additionalProperties` is removed
/// at every depth, and a `type` array with one non-null item becomes that item.
pub fn sanitize_json_schema(schema: &Value) -> (r: Value)
    ensures
        r@ == sanitized(schema@),
        r@ is Table,
        lookup(r@->Table_0, "type"@) == Some(Tree::Text("object"@)),
{
    proof {
        law_every_root_has_type_object(schema@);
    }
    let rooted = if has_object_root(schema) {
        schema.duplicate()
    } else {
        wrap(schema)
    };
    let bare = strip_additional_properties(&rooted);
    normalize_array_types(&bare, false)
}

/// Whether no table of `t`, at any depth, has an `additionalProperties` key.
pub open spec fn is_closed_form(t: Tree) -> bool
    decreases t,
{
    match t {
        Tree::List(items) => are_closed_items(items),
        Tree::Table(entries) => are_closed_entries(entries),
        _ => true,
    }
}

/// [`is_closed_form`] of each item.
pub open spec fn are_closed_items(items: Seq<Tree>) -> bool
    decreases items,
{
    items.len() > 0 ==> are_closed_items(items.drop_last()) && is_closed_form(items.last())
}

/// No entry has the key `additionalProperties`, and each value [`is_closed_form`].
pub open spec fn are_closed_entries(entries: Seq<(Seq<char>, Tree)>) -> bool
    decreases entries,
{
    entries.len() > 0 ==> {
        &&& are_closed_entries(entries.drop_last())
        &&& entries.last().0 != "additionalProperties"@
        &&& is_closed_form(entries.last().1)
    }
}

proof fn lemma_stripped_is_closed(t: Tree)
    ensures
        is_closed_form(stripped(t)),
    decreases t,
{
    match t {
        Tree::List(items) => {
            lemma_stripped_items_closed(items);
        },
        Tree::Table(entries) => {
            lemma_stripped_entries_closed(entries);
        },
        _ => {},
    }
}

proof fn lemma_stripped_items_closed(items: Seq<Tree>)
    ensures
        are_closed_items(stripped_items(items)),
    decreases items,
{
    if items.len() > 0 {
        lemma_stripped_items_closed(items.drop_last());
        lemma_stripped_is_closed(items.last());
        assert(stripped_items(items).drop_last() =~= stripped_items(items.drop_last()));
    }
}

proof fn lemma_stripped_entries_closed(entries: Seq<(Seq<char>, Tree)>)
    ensures
        are_closed_entries(stripped_entries(entries)),
    decreases entries,
{
    if entries.len() > 0 {
        lemma_stripped_entries_closed(entries.drop_last());
        lemma_stripped_is_closed(entries.last().1);
        if entries.last().0 != "additionalProperties"@ {
            assert(stripped_entries(entries).drop_last() =~= stripped_entries(entries.drop_last()));
        }
    }
}

proof fn lemma_closed_item(items: Seq<Tree>, i: int)
    requires
        are_closed_items(items),
        0 <= i < items.len(),
    ensures
        is_closed_form(items[i]),
    decreases items.len(),
{
    if i < items.len() - 1 {
        lemma_closed_item(items.drop_last(), i);
        assert(items.drop_last()[i] == items[i]);
    }
}

proof fn lemma_normalized_stays_closed(t: Tree)
    requires
        is_closed_form(t),
    ensures
        is_closed_form(normalized(t)),
        is_closed_form(normalized_type(t)),
    decreases t,
{
    match t {
        Tree::List(items) => {
            lemma_normalized_items_closed(items);
            let i = non_null_index(items);
            if 0 <= i < items.len() {
                lemma_closed_item(items, i);
                lemma_normalized_stays_closed(items[i]);
            }
        },
        Tree::Table(entries) => {
            lemma_normalized_entries_closed(entries);
        },
        _ => {},
    }
}

proof fn lemma_normalized_items_closed(items: Seq<Tree>)
    requires
        are_closed_items(items),
    ensures
        are_closed_items(normalized_items(items)),
    decreases items,
{
    if items.len() > 0 {
        lemma_normalized_items_closed(items.drop_last());
        lemma_normalized_stays_closed(items.last());
        assert(normalized_items(items).drop_last() =~= normalized_items(items.drop_last()));
    }
}

proof fn lemma_normalized_entries_closed(entries: Seq<(Seq<char>, Tree)>)
    requires
        are_closed_entries(entries),
    ensures
        are_closed_entries(normalized_entries(entries)),
    decreases entries,
{
    if entries.len() > 0 {
        lemma_normalized_entries_closed(entries.drop_last());
        lemma_normalized_stays_closed(entries.last().1);
        assert(normalized_entries(entries).drop_last() =~= normalized_entries(
            entries.drop_last(),
        ));
    }
}

/// A sanitised schema has no `additionalProperties` key at any depth.
pub proof fn law_sanitized_has_no_additional_properties(t: Tree)
    ensures
        is_closed_form(sanitized(t)),
{
    let rooted = if is_object_schema(t) {
        t
    } else {
        wrapped(t)
    };
    lemma_stripped_is_closed(rooted);
    lemma_normalized_stays_closed(stripped(rooted));
}

proof fn lemma_lookup_push(entries: Seq<(Seq<char>, Tree)>, e: (Seq<char>, Tree), key: Seq<char>)
    ensures
        lookup(entries.push(e), key) == match lookup(entries, key) {
            Some(v) => Some(v),
            None => if e.0 == key {
                Some(e.1)
            } else {
                None
            },
        },
    decreases entries.len(),
{
    let all = entries.push(e);
    if entries.len() == 0 {
        assert(all.drop_first().len() == 0);
        assert(lookup(all.drop_first(), key) is None);
    } else {
        assert(all[0] == entries[0]);
        assert(all.drop_first() =~= entries.drop_first().push(e));
        lemma_lookup_push(entries.drop_first(), e, key);
    }
}

proof fn lemma_lookup_stripped(entries: Seq<(Seq<char>, Tree)>, key: Seq<char>)
    requires
        key != "additionalProperties"@,
    ensures
        lookup(stripped_entries(entries), key) == match lookup(entries, key) {
            Some(v) => Some(stripped(v)),
            None => None,
        },
    decreases entries.len(),
{
    if entries.len() > 0 {
        let front = entries.drop_last();
        lemma_lookup_stripped(front, key);
        assert(entries =~= front.push(entries.last()));
        lemma_lookup_push(front, entries.last(), key);
        lemma_lookup_push(
            stripped_entries(front),
            (entries.last().0, stripped(entries.last().1)),
            key,
        );
    }
}

proof fn lemma_lookup_normalized(entries: Seq<(Seq<char>, Tree)>, key: Seq<char>)
    ensures
        lookup(normalized_entries(entries), key) == match lookup(entries, key) {
            Some(v) => Some(
                if key == "type"@ {
                    normalized_type(v)
                } else {
                    normalized(v)
                },
            ),
            None => None,
        },
    decreases entries.len(),
{
    if entries.len() > 0 {
        let front = entries.drop_last();
        let last = entries.last();
        lemma_lookup_normalized(front, key);
        assert(entries =~= front.push(last));
        lemma_lookup_push(front, last, key);
        lemma_lookup_push(
            normalized_entries(front),
            (
                last.0,
                if last.0 == "type"@ {
                    normalized_type(last.1)
                } else {
                    normalized(last.1)
                },
            ),
            key,
        );
    }
}

/// A sanitised schema is an object schema at its root.
pub proof fn law_sanitized_root_is_object(t: Tree)
    ensures
        is_object_schema(sanitized(t)),
{
    let rooted = if is_object_schema(t) {
        t
    } else {
        wrapped(t)
    };
    reveal_strlit("type");
    reveal_strlit("additionalProperties");
    assert("type"@.len() == 4);
    assert("additionalProperties"@.len() == 20);
    assert(is_object_schema(rooted)) by {
        if !is_object_schema(t) {
            let entries = rooted->Table_0;
            reveal_strlit("properties");
            reveal_strlit("required");
            assert("properties"@.len() == 10);
            assert("required"@.len() == 8);
            assert(entries[0].0 == "properties"@);
            let second = entries.drop_first();
            assert(second[0] == entries[1]);
            let third = second.drop_first();
            assert(third[0] == entries[2]);
            assert(lookup(third, "type"@) == Some(Tree::Text("object"@)));
            assert(lookup(second, "type"@) == lookup(third, "type"@));
            assert(lookup(entries, "type"@) == lookup(second, "type"@));
        }
    }
    lemma_lookup_stripped(rooted->Table_0, "type"@);
    lemma_lookup_normalized(stripped_entries(rooted->Table_0), "type"@);
}

/// Whether a value of a `type` key that is an array holds only strings.
pub open spec fn names_types(t: Tree) -> bool {
    t matches Tree::List(items) ==> forall|i: int|
        0 <= i < items.len() ==> (#[trigger] items[i]) is Text
}

/// Whether every array under a `type` key of `t`, at any depth, holds only strings.
pub open spec fn has_string_types(t: Tree) -> bool
    decreases t,
{
    match t {
        Tree::List(items) => have_string_types(items),
        Tree::Table(entries) => entries_have_string_types(entries),
        _ => true,
    }
}

/// [`has_string_types`] of each item.
pub open spec fn have_string_types(items: Seq<Tree>) -> bool
    decreases items,
{
    items.len() > 0 ==> have_string_types(items.drop_last()) && has_string_types(items.last())
}

/// [`has_string_types`] of each value, and [`names_types`] of each under `type`.
pub open spec fn entries_have_string_types(entries: Seq<(Seq<char>, Tree)>) -> bool
    decreases entries,
{
    entries.len() > 0 ==> {
        &&& entries_have_string_types(entries.drop_last())
        &&& has_string_types(entries.last().1)
        &&& entries.last().0 == "type"@ ==> names_types(entries.last().1)
    }
}

/// Whether `t` is no array with exactly one member other than the string `"null"`.
pub open spec fn is_settled_type(t: Tree) -> bool {
    t matches Tree::List(items) ==> non_null(items).len() != 1
}

/// Whether no array under a `type` key of `t`, at any depth, has exactly one member other than
/// the string `"null"`.
pub open spec fn is_settled(t: Tree) -> bool
    decreases t,
{
    match t {
        Tree::List(items) => are_settled_items(items),
        Tree::Table(entries) => are_settled_entries(entries),
        _ => true,
    }
}

/// [`is_settled`] of each item.
pub open spec fn are_settled_items(items: Seq<Tree>) -> bool
    decreases items,
{
    items.len() > 0 ==> are_settled_items(items.drop_last()) && is_settled(items.last())
}

/// [`is_settled`] of each value, and [`is_settled_type`] of each under `type`.
pub open spec fn are_settled_entries(entries: Seq<(Seq<char>, Tree)>) -> bool
    decreases entries,
{
    entries.len() > 0 ==> {
        &&& are_settled_entries(entries.drop_last())
        &&& is_settled(entries.last().1)
        &&& entries.last().0 == "type"@ ==> is_settled_type(entries.last().1)
    }
}

/// Strings are left as they are.
proof fn lemma_strings_stay(items: Seq<Tree>)
    requires
        forall|i: int| 0 <= i < items.len() ==> (#[trigger] items[i]) is Text,
    ensures
        stripped_items(items) == items,
        normalized_items(items) == items,
        are_settled_items(items),
    decreases items.len(),
{
    if items.len() > 0 {
        let front = items.drop_last();
        assert forall|i: int| 0 <= i < front.len() implies (#[trigger] front[i]) is Text by {
            assert(front[i] == items[i]);
        }
        lemma_strings_stay(front);
        let last = items[items.len() - 1];
        assert(last is Text);
        assert(stripped(last) == last);
        assert(normalized(last) == last);
        assert(is_settled(last));
        assert(front.push(last) =~= items);
    } else {
        assert(items =~= Seq::empty());
    }
}

proof fn lemma_stripped_keeps_string_types(t: Tree)
    requires
        has_string_types(t),
    ensures
        has_string_types(stripped(t)),
        names_types(t) ==> names_types(stripped(t)),
    decreases t,
{
    match t {
        Tree::List(items) => {
            lemma_stripped_items_keep_string_types(items);
            if names_types(t) {
                lemma_strings_stay(items);
            }
        },
        Tree::Table(entries) => {
            lemma_stripped_entries_keep_string_types(entries);
        },
        _ => {},
    }
}

proof fn lemma_stripped_items_keep_string_types(items: Seq<Tree>)
    requires
        have_string_types(items),
    ensures
        have_string_types(stripped_items(items)),
    decreases items,
{
    if items.len() > 0 {
        lemma_stripped_items_keep_string_types(items.drop_last());
        lemma_stripped_keeps_string_types(items.last());
        assert(stripped_items(items).drop_last() =~= stripped_items(items.drop_last()));
    }
}

proof fn lemma_stripped_entries_keep_string_types(entries: Seq<(Seq<char>, Tree)>)
    requires
        entries_have_string_types(entries),
    ensures
        entries_have_string_types(stripped_entries(entries)),
    decreases entries,
{
    if entries.len() > 0 {
        lemma_stripped_entries_keep_string_types(entries.drop_last());
        lemma_stripped_keeps_string_types(entries.last().1);
        if entries.last().0 != "additionalProperties"@ {
            assert(stripped_entries(entries).drop_last() =~= stripped_entries(entries.drop_last()));
        }
    }
}

proof fn lemma_normalized_is_settled(t: Tree)
    requires
        has_string_types(t),
    ensures
        is_settled(normalized(t)),
        names_types(t) ==> is_settled(normalized_type(t)) && is_settled_type(normalized_type(t)),
    decreases t,
{
    match t {
        Tree::List(items) => {
            lemma_normalized_items_are_settled(items);
            if names_types(t) {
                lemma_strings_stay(items);
                let i = non_null_index(items);
                if 0 <= i < items.len() {
                    assert(items[i] is Text);
                }
                if non_null(items).len() == 1 {
                    lemma_non_null_index(items);
                }
            }
        },
        Tree::Table(entries) => {
            lemma_normalized_entries_are_settled(entries);
        },
        _ => {},
    }
}

/// Where some item is not the string `"null"`, there is a position of such an item.
proof fn lemma_non_null_index(items: Seq<Tree>)
    requires
        non_null(items).len() > 0,
    ensures
        0 <= non_null_index(items) < items.len(),
    decreases items.len(),
{
    if items.len() > 0 {
        if items.last() == Tree::Text("null"@) {
            let front = items.drop_last();
            lemma_non_null_index(front);
            let i = non_null_index(front);
            assert(exists|j: int| 0 <= j < front.len() && #[trigger] front[j] != Tree::Text("null"@))
                by {
                lemma_non_null_exists(front);
            }
            assert(front[i] == items[i]);
            assert(items[i] != Tree::Text("null"@));
        } else {
            assert(items[items.len() - 1] != Tree::Text("null"@));
        }
    }
}

proof fn lemma_non_null_exists(items: Seq<Tree>)
    requires
        non_null(items).len() > 0,
    ensures
        exists|j: int| 0 <= j < items.len() && #[trigger] items[j] != Tree::Text("null"@),
    decreases items.len(),
{
    if items.last() == Tree::Text("null"@) {
        let front = items.drop_last();
        lemma_non_null_exists(front);
        let j = choose|j: int| 0 <= j < front.len() && #[trigger] front[j] != Tree::Text("null"@);
        assert(items[j] == front[j]);
    } else {
        assert(items[items.len() - 1] != Tree::Text("null"@));
    }
}

proof fn lemma_normalized_items_are_settled(items: Seq<Tree>)
    requires
        have_string_types(items),
    ensures
        are_settled_items(normalized_items(items)),
    decreases items,
{
    if items.len() > 0 {
        lemma_normalized_items_are_settled(items.drop_last());
        lemma_normalized_is_settled(items.last());
        assert(normalized_items(items).drop_last() =~= normalized_items(items.drop_last()));
    }
}

proof fn lemma_normalized_entries_are_settled(entries: Seq<(Seq<char>, Tree)>)
    requires
        entries_have_string_types(entries),
    ensures
        are_settled_entries(normalized_entries(entries)),
    decreases entries,
{
    if entries.len() > 0 {
        lemma_normalized_entries_are_settled(entries.drop_last());
        lemma_normalized_is_settled(entries.last().1);
        assert(normalized_entries(entries).drop_last() =~= normalized_entries(
            entries.drop_last(),
        ));
    }
}

proof fn lemma_settled_stays(t: Tree)
    requires
        is_settled(t),
    ensures
        normalized(t) == t,
        is_settled_type(t) ==> normalized_type(t) == t,
    decreases t,
{
    match t {
        Tree::List(items) => {
            lemma_settled_items_stay(items);
        },
        Tree::Table(entries) => {
            lemma_settled_entries_stay(entries);
        },
        _ => {},
    }
}

proof fn lemma_settled_items_stay(items: Seq<Tree>)
    requires
        are_settled_items(items),
    ensures
        normalized_items(items) == items,
    decreases items,
{
    if items.len() > 0 {
        lemma_settled_items_stay(items.drop_last());
        lemma_settled_stays(items.last());
        assert(items.drop_last().push(items.last()) =~= items);
    } else {
        assert(items =~= Seq::empty());
    }
}

proof fn lemma_settled_entries_stay(entries: Seq<(Seq<char>, Tree)>)
    requires
        are_settled_entries(entries),
    ensures
        normalized_entries(entries) == entries,
    decreases entries,
{
    if entries.len() > 0 {
        lemma_settled_entries_stay(entries.drop_last());
        lemma_settled_stays(entries.last().1);
        assert(entries.drop_last().push(entries.last()) =~= entries);
    } else {
        assert(entries =~= Seq::empty());
    }
}

proof fn lemma_closed_stays(t: Tree)
    requires
        is_closed_form(t),
    ensures
        stripped(t) == t,
    decreases t,
{
    match t {
        Tree::List(items) => {
            lemma_closed_items_stay(items);
        },
        Tree::Table(entries) => {
            lemma_closed_entries_stay(entries);
        },
        _ => {},
    }
}

proof fn lemma_closed_items_stay(items: Seq<Tree>)
    requires
        are_closed_items(items),
    ensures
        stripped_items(items) == items,
    decreases items,
{
    if items.len() > 0 {
        lemma_closed_items_stay(items.drop_last());
        lemma_closed_stays(items.last());
        assert(items.drop_last().push(items.last()) =~= items);
    } else {
        assert(items =~= Seq::empty());
    }
}

proof fn lemma_closed_entries_stay(entries: Seq<(Seq<char>, Tree)>)
    requires
        are_closed_entries(entries),
    ensures
        stripped_entries(entries) == entries,
    decreases entries,
{
    if entries.len() > 0 {
        lemma_closed_entries_stay(entries.drop_last());
        lemma_closed_stays(entries.last().1);
        assert(entries.drop_last().push(entries.last()) =~= entries);
    } else {
        assert(entries =~= Seq::empty());
    }
}

proof fn lemma_wrapped_has_string_types(t: Tree)
    requires
        has_string_types(t),
    ensures
        has_string_types(wrapped(t)),
{
    let entries = wrapped(t)->Table_0;
    let inner = seq![("value"@, t)];
    reveal_strlit("type");
    reveal_strlit("value");
    reveal_strlit("properties");
    reveal_strlit("required");
    assert("type"@.len() == 4);
    assert("value"@.len() == 5);
    assert("properties"@.len() == 10);
    assert("required"@.len() == 8);
    assert(inner.drop_last() =~= Seq::empty());
    assert(entries_have_string_types(inner.drop_last()));
    assert(entries_have_string_types(inner));
    let row = seq![Tree::Text("value"@)];
    assert(row.drop_last() =~= Seq::empty());
    assert(have_string_types(row.drop_last()));
    assert(has_string_types(row.last()));
    assert(have_string_types(row));
    let two = entries.drop_last();
    let one = two.drop_last();
    assert(one.drop_last() =~= Seq::empty());
    assert(entries_have_string_types(one.drop_last()));
    assert(one.last() == entries[0]);
    assert(has_string_types(entries[0].1));
    assert(has_string_types(entries[1].1));
    assert(has_string_types(entries[2].1));
    assert(two.last() == entries[1]);
    assert(entries.last() == entries[2]);
    assert(entries_have_string_types(one));
    assert(entries_have_string_types(two));
}

/// Where every array under a `type` key holds only strings, a sanitised schema has no `type`
/// array with exactly one member other than `"null"`, and sanitising it again changes nothing.
pub proof fn law_sanitizing_settles(t: Tree)
    requires
        has_string_types(t),
    ensures
        is_settled(sanitized(t)),
        sanitized(sanitized(t)) == sanitized(t),
{
    let rooted = if is_object_schema(t) {
        t
    } else {
        wrapped(t)
    };
    lemma_wrapped_has_string_types(t);
    lemma_stripped_keeps_string_types(rooted);
    lemma_normalized_is_settled(stripped(rooted));
    let s = sanitized(t);
    law_sanitized_root_is_object(t);
    law_sanitized_has_no_additional_properties(t);
    lemma_closed_stays(s);
    lemma_settled_stays(s);
}

/// Whatever the schema, what is made of it is a table whose `type` is `"object"`.
pub proof fn law_every_root_has_type_object(t: Tree)
    ensures
        sanitized(t) is Table,
        lookup(sanitized(t)->Table_0, "type"@) == Some(Tree::Text("object"@)),
{
    law_sanitized_root_is_object(t);
}

/// A schema whose `type` is anything else than `"object"` becomes the one property `value` of an
/// object, and that property is required. The property's own schema is the given one, stripped
/// and with single types.
pub proof fn law_other_roots_become_a_property(t: Tree)
    requires
        !(t is Table && lookup(t->Table_0, "type"@) == Some(Tree::Text("object"@))),
    ensures
        sanitized(t) is Table,
        sanitized(t)->Table_0.len() == 3,
        lookup(sanitized(t)->Table_0, "properties"@) == Some(
            Tree::Table(seq![("value"@, normalized(stripped(t)))]),
        ),
        lookup(sanitized(t)->Table_0, "required"@) == Some(
            Tree::List(seq![Tree::Text("value"@)]),
        ),
        lookup(sanitized(t)->Table_0, "type"@) == Some(Tree::Text("object"@)),
{
    law_every_root_has_type_object(t);
    reveal_strlit("type");
    reveal_strlit("value");
    reveal_strlit("properties");
    reveal_strlit("required");
    reveal_strlit("additionalProperties");
    assert("type"@.len() == 4);
    assert("value"@.len() == 5);
    assert("properties"@.len() == 10);
    assert("required"@.len() == 8);
    assert("additionalProperties"@.len() == 20);
    let rooted = wrapped(t);
    let entries = rooted->Table_0;
    let second = entries.drop_first();
    assert(second[0] == entries[1]);
    assert(lookup(entries, "properties"@) == Some(entries[0].1));
    assert(lookup(second, "required"@) == Some(entries[1].1));
    assert(lookup(entries, "required"@) == Some(entries[1].1));
    lemma_lookup_stripped(entries, "properties"@);
    lemma_lookup_stripped(entries, "required"@);
    let bare = stripped_entries(entries);
    lemma_lookup_normalized(bare, "properties"@);
    lemma_lookup_normalized(bare, "required"@);
    let row = seq![Tree::Text("value"@)];
    lemma_strings_stay(row);
    let inner = seq![("value"@, t)];
    assert(inner.drop_last() =~= Seq::empty());
    assert(stripped_entries(inner.drop_last()) =~= Seq::empty());
    assert(stripped_entries(inner) =~= seq![("value"@, stripped(t))]);
    let bare_inner = seq![("value"@, stripped(t))];
    assert(bare_inner.drop_last() =~= Seq::empty());
    assert(normalized_entries(bare_inner.drop_last()) =~= Seq::empty());
    assert(normalized_entries(bare_inner) =~= seq![("value"@, normalized(stripped(t)))]);
    assert(stripped(Tree::Table(inner)) == Tree::Table(bare_inner));
    assert(normalized(Tree::Table(bare_inner)) == Tree::Table(
        seq![("value"@, normalized(stripped(t)))],
    ));
    assert(stripped(Tree::List(row)) == Tree::List(row));
    assert(normalized(Tree::List(row)) == Tree::List(row));
    let two = entries.drop_last();
    let one = two.drop_last();
    assert(one.drop_last() =~= Seq::empty());
    assert(stripped_entries(one.drop_last()).len() == 0);
    assert(one.last() == entries[0]);
    assert(two.last() == entries[1]);
    assert(stripped_entries(one).len() == 1);
    assert(stripped_entries(two).len() == 2);
    assert(bare.len() == 3);
    lemma_normalized_len(bare);
}

proof fn lemma_normalized_len(entries: Seq<(Seq<char>, Tree)>)
    ensures
        normalized_entries(entries).len() == entries.len(),
    decreases entries.len(),
{
    if entries.len() > 0 {
        lemma_normalized_len(entries.drop_last());
    }
}

/// An object schema keeps its entries: under each key stands what stood there, stripped and with
/// single types, and `additionalProperties` is gone.
pub proof fn law_object_roots_keep_their_entries(t: Tree, key: Seq<char>)
    requires
        t is Table,
        lookup(t->Table_0, "type"@) == Some(Tree::Text("object"@)),
        key != "type"@,
    ensures
        sanitized(t) is Table,
        key == "additionalProperties"@ ==> lookup(sanitized(t)->Table_0, key) is None,
        key != "additionalProperties"@ ==> lookup(sanitized(t)->Table_0, key) == match lookup(
            t->Table_0,
            key,
        ) {
            Some(v) => Some(normalized(stripped(v))),
            None => None,
        },
{
    let entries = t->Table_0;
    if key != "additionalProperties"@ {
        lemma_lookup_stripped(entries, key);
    } else {
        lemma_no_additional_properties(entries);
    }
    lemma_lookup_normalized(stripped_entries(entries), key);
}

proof fn lemma_no_additional_properties(entries: Seq<(Seq<char>, Tree)>)
    ensures
        lookup(stripped_entries(entries), "additionalProperties"@) is None,
    decreases entries.len(),
{
    if entries.len() > 0 {
        let front = entries.drop_last();
        lemma_no_additional_properties(front);
        lemma_lookup_push(
            stripped_entries(front),
            (entries.last().0, stripped(entries.last().1)),
            "additionalProperties"@,
        );
    }
}

/// Stripping drops the `additionalProperties` entry of a table and strips what is left; it strips
/// each item of a list and leaves anything else as it is.
pub proof fn law_stripping_removes_one_key(t: Tree, key: Seq<char>, i: int)
    ensures
        t is Table ==> stripped(t) is Table && (key == "additionalProperties"@ ==> lookup(
            stripped(t)->Table_0,
            key,
        ) is None) && (key != "additionalProperties"@ ==> lookup(stripped(t)->Table_0, key)
            == match lookup(t->Table_0, key) {
            Some(v) => Some(stripped(v)),
            None => None,
        }),
        t is List ==> stripped(t) is List && stripped(t)->List_0.len() == t->List_0.len() && (0 <= i
            < t->List_0.len() ==> stripped(t)->List_0[i] == stripped(t->List_0[i])),
        !(t is Table) && !(t is List) ==> stripped(t) == t,
{
    match t {
        Tree::Table(entries) => {
            if key != "additionalProperties"@ {
                lemma_lookup_stripped(entries, key);
            } else {
                lemma_no_additional_properties(entries);
            }
        },
        Tree::List(items) => {
            lemma_stripped_item(items, i);
        },
        _ => {},
    }
}

proof fn lemma_stripped_item(items: Seq<Tree>, i: int)
    ensures
        stripped_items(items).len() == items.len(),
        0 <= i < items.len() ==> stripped_items(items)[i] == stripped(items[i]),
    decreases items.len(),
{
    if items.len() > 0 {
        lemma_stripped_item(items.drop_last(), i);
    }
}

proof fn lemma_normalized_item(items: Seq<Tree>, i: int)
    ensures
        normalized_items(items).len() == items.len(),
        0 <= i < items.len() ==> normalized_items(items)[i] == normalized(items[i]),
    decreases items.len(),
{
    if items.len() > 0 {
        lemma_normalized_item(items.drop_last(), i);
    }
}

/// A `type` array in which one item alone differs from `"null"` is replaced by that item, wherever
/// in the array it stands.
pub proof fn law_nullable_type_becomes_its_one_type(
    entries: Seq<(Seq<char>, Tree)>,
    items: Seq<Tree>,
    i: int,
)
    requires
        lookup(entries, "type"@) == Some(Tree::List(items)),
        0 <= i < items.len(),
        items[i] != Tree::Text("null"@),
        forall|j: int| 0 <= j < items.len() && j != i ==> (#[trigger] items[j]) == Tree::Text("null"@),
    ensures
        normalized(Tree::Table(entries)) is Table,
        lookup(normalized(Tree::Table(entries))->Table_0, "type"@) == Some(normalized(items[i])),
{
    lemma_lookup_normalized(entries, "type"@);
    lemma_one_non_null(items, i);
    assert(non_null_index(items) == i);
}

proof fn lemma_one_non_null(items: Seq<Tree>, i: int)
    requires
        0 <= i < items.len(),
        items[i] != Tree::Text("null"@),
        forall|j: int| 0 <= j < items.len() && j != i ==> (#[trigger] items[j]) == Tree::Text("null"@),
    ensures
        non_null(items).len() == 1,
    decreases items.len(),
{
    let front = items.drop_last();
    if i < items.len() - 1 {
        assert(items.last() == items[items.len() - 1]);
        assert forall|j: int| 0 <= j < front.len() && j != i implies (#[trigger] front[j])
            == Tree::Text("null"@) by {
            assert(front[j] == items[j]);
        }
        lemma_one_non_null(front, i);
    } else {
        assert forall|j: int| 0 <= j < front.len() implies (#[trigger] front[j]) == Tree::Text(
            "null"@,
        ) by {
            assert(front[j] == items[j]);
        }
        lemma_all_null(front);
    }
}

proof fn lemma_all_null(items: Seq<Tree>)
    requires
        forall|j: int| 0 <= j < items.len() ==> (#[trigger] items[j]) == Tree::Text("null"@),
    ensures
        non_null(items).len() == 0,
    decreases items.len(),
{
    if items.len() > 0 {
        let front = items.drop_last();
        assert(items.last() == items[items.len() - 1]);
        assert forall|j: int| 0 <= j < front.len() implies (#[trigger] front[j]) == Tree::Text(
            "null"@,
        ) by {
            assert(front[j] == items[j]);
        }
        lemma_all_null(front);
    }
}

proof fn lemma_two_non_null(items: Seq<Tree>, i: int, j: int)
    requires
        0 <= i < j < items.len(),
        items[i] != Tree::Text("null"@),
        items[j] != Tree::Text("null"@),
    ensures
        non_null(items).len() >= 2,
    decreases items.len(),
{
    let front = items.drop_last();
    if j < items.len() - 1 {
        lemma_two_non_null(front, i, j);
    } else {
        assert(front[i] == items[i]);
        lemma_some_non_null(front, i);
    }
}

proof fn lemma_some_non_null(items: Seq<Tree>, i: int)
    requires
        0 <= i < items.len(),
        items[i] != Tree::Text("null"@),
    ensures
        non_null(items).len() >= 1,
    decreases items.len(),
{
    if i < items.len() - 1 {
        lemma_some_non_null(items.drop_last(), i);
    }
}

/// A `type` array with two items other than `"null"` stays an array of the same length, and so
/// does one with none.
pub proof fn law_type_of_several_stays_an_array(
    entries: Seq<(Seq<char>, Tree)>,
    items: Seq<Tree>,
    i: int,
    j: int,
)
    requires
        lookup(entries, "type"@) == Some(Tree::List(items)),
        (0 <= i < j < items.len() && items[i] != Tree::Text("null"@) && items[j] != Tree::Text(
            "null"@,
        )) || forall|k: int| 0 <= k < items.len() ==> (#[trigger] items[k]) == Tree::Text("null"@),
    ensures
        normalized(Tree::Table(entries)) is Table,
        lookup(normalized(Tree::Table(entries))->Table_0, "type"@) matches Some(Tree::List(kept))
            && kept.len() == items.len() && (0 <= i < items.len() ==> kept[i] == normalized(
            items[i],
        )),
{
    lemma_lookup_normalized(entries, "type"@);
    if 0 <= i < j < items.len() && items[i] != Tree::Text("null"@) && items[j] != Tree::Text(
        "null"@,
    ) {
        lemma_two_non_null(items, i, j);
    } else {
        lemma_all_null(items);
    }
    lemma_normalized_item(items, i);
}

/// Under a key other than `type`, and in a list, everything is kept and taken on its own; what is
/// neither a list nor a table is left as it is.
pub proof fn law_single_types_change_nothing_else(t: Tree, key: Seq<char>, i: int)
    ensures
        t is Table && key != "type"@ ==> normalized(t) is Table && lookup(
            normalized(t)->Table_0,
            key,
        ) == match lookup(t->Table_0, key) {
            Some(v) => Some(normalized(v)),
            None => None,
        },
        t is Table && !(lookup(t->Table_0, "type"@) matches Some(Tree::List(_))) ==> lookup(
            normalized(t)->Table_0,
            "type"@,
        ) == match lookup(t->Table_0, "type"@) {
            Some(v) => Some(normalized(v)),
            None => None,
        },
        t is List ==> normalized(t) is List && normalized(t)->List_0.len() == t->List_0.len() && (0
            <= i < t->List_0.len() ==> normalized(t)->List_0[i] == normalized(t->List_0[i])),
        !(t is Table) && !(t is List) ==> normalized(t) == t,
{
    match t {
        Tree::Table(entries) => {
            lemma_lookup_normalized(entries, key);
            lemma_lookup_normalized(entries, "type"@);
        },
        Tree::List(items) => {
            lemma_normalized_item(items, i);
        },
        _ => {},
    }
}

} // verus!
