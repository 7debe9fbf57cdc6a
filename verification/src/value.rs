//! Tree-shaped values: what a JSON document or a TOML table holds.
//!
//! [`Value`] is the executable tree, [`Tree`] its mathematical model. Numbers
//! and dates are kept as their text, since no rule of this crate looks inside
//! one.

use vstd::prelude::*;

use crate::text::same_text;

verus! {

/// A JSON or TOML value. The keys of a table are expected to be distinct.
pub enum Value {
    /// The JSON null.
    Null,
    /// A boolean.
    Bool(bool),
    /// A number or a date, by its text.
    Atom(String),
    /// A string.
    Text(String),
    /// An array.
    List(Vec<Value>),
    /// An object or a table.
    Table(Vec<(String, Value)>),
}

/// The model of a [`Value`].
#[verifier::ext_equal]
pub enum Tree {
    /// The JSON null.
    Null,
    /// A boolean.
    Bool(bool),
    /// A number or a date, by its text.
    Atom(Seq<char>),
    /// A string.
    Text(Seq<char>),
    /// An array.
    List(Seq<Tree>),
    /// An object or a table.
    Table(Seq<(Seq<char>, Tree)>),
}

impl View for Value {
    type V = Tree;

    open spec fn view(&self) -> Tree {
        tree_of(*self)
    }
}

/// The model of `v`.
pub open spec fn tree_of(v: Value) -> Tree
    decreases v,
{
    match v {
        Value::Null => Tree::Null,
        Value::Bool(b) => Tree::Bool(b),
        Value::Atom(s) => Tree::Atom(s@),
        Value::Text(s) => Tree::Text(s@),
        Value::List(items) => Tree::List(trees_of(items@)),
        Value::Table(entries) => Tree::Table(entries_of(entries@)),
    }
}

/// The models of a row of values.
pub open spec fn trees_of(items: Seq<Value>) -> Seq<Tree>
    decreases items,
{
    if items.len() == 0 {
        Seq::empty()
    } else {
        trees_of(items.drop_last()).push(tree_of(items.last()))
    }
}

/// The models of a row of table entries.
pub open spec fn entries_of(entries: Seq<(String, Value)>) -> Seq<(Seq<char>, Tree)>
    decreases entries,
{
    if entries.len() == 0 {
        Seq::empty()
    } else {
        entries_of(entries.drop_last()).push((entries.last().0@, tree_of(entries.last().1)))
    }
}

/// The models of a row, position by position.
pub proof fn lemma_trees_of(items: Seq<Value>)
    ensures
        trees_of(items).len() == items.len(),
        forall|i: int| 0 <= i < items.len() ==> (#[trigger] trees_of(items)[i]) == tree_of(items[i]),
    decreases items.len(),
{
    if items.len() > 0 {
        lemma_trees_of(items.drop_last());
    }
}

/// The models of a row of entries, position by position.
pub proof fn lemma_entries_of(entries: Seq<(String, Value)>)
    ensures
        entries_of(entries).len() == entries.len(),
        forall|i: int|
            0 <= i < entries.len() ==> (#[trigger] entries_of(entries)[i]) == (
                entries[i].0@,
                tree_of(entries[i].1),
            ),
    decreases entries.len(),
{
    if entries.len() > 0 {
        lemma_entries_of(entries.drop_last());
    }
}

/// The value of the first entry with the key `key`.
pub open spec fn lookup(entries: Seq<(Seq<char>, Tree)>, key: Seq<char>) -> Option<Tree>
    decreases entries.len(),
{
    if entries.len() == 0 {
        None
    } else if entries[0].0 == key {
        Some(entries[0].1)
    } else {
        lookup(entries.drop_first(), key)
    }
}

/// The value under `key` in `t`, if `t` is a table that has one.
pub open spec fn field_of(t: Tree, key: Seq<char>) -> Option<Tree> {
    match t {
        Tree::Table(entries) => lookup(entries, key),
        _ => None,
    }
}

/// The string under `key` in `t`, if there is one.
pub open spec fn text_field_of(t: Tree, key: Seq<char>) -> Option<Seq<char>> {
    match field_of(t, key) {
        Some(Tree::Text(s)) => Some(s),
        _ => None,
    }
}

impl Value {
    /// The value under `key`, if this is a table that has one.
    pub fn field(&self, key: &str) -> (r: Option<&Value>)
        ensures
            match r {
                Some(v) => field_of(self@, key@) == Some(v@),
                None => field_of(self@, key@) is None,
            },
    {
        match self {
            Value::Table(entries) => {
                let ghost all = entries_of(entries@);
                proof {
                    lemma_entries_of(entries@);
                    assert(all.skip(0) =~= all);
                }
                let mut i: usize = 0;
                while i < entries.len()
                    invariant
                        i <= entries.len(),
                        self == Value::Table(*entries),
                        all == entries_of(entries@),
                        all.len() == entries@.len(),
                        forall|j: int|
                            0 <= j < entries@.len() ==> (#[trigger] all[j]) == (
                                entries@[j].0@,
                                tree_of(entries@[j].1),
                            ),
                        lookup(all, key@) == lookup(all.skip(i as int), key@),
                    decreases entries.len() - i,
                {
                    proof {
                        assert(all.skip(i as int)[0] == all[i as int]);
                        assert(all.skip(i as int).drop_first() =~= all.skip(i as int + 1));
                    }
                    if same_text(entries[i].0.as_str(), key) {
                        return Some(&entries[i].1);
                    }
                    i = i + 1;
                }
                None
            },
            _ => None,
        }
    }

    /// The string under `key`, if this is a table that has one.
    pub fn text_field(&self, key: &str) -> (r: Option<&str>)
        ensures
            match r {
                Some(s) => text_field_of(self@, key@) == Some(s@),
                None => text_field_of(self@, key@) is None,
            },
    {
        match self.field(key) {
            Some(Value::Text(s)) => Some(s.as_str()),
            _ => None,
        }
    }

    /// A copy of the value.
    pub fn duplicate(&self) -> (r: Value)
        ensures
            r@ == self@,
        decreases self,
    {
        match self {
            Value::Null => Value::Null,
            Value::Bool(b) => Value::Bool(*b),
            Value::Atom(s) => Value::Atom(s.clone()),
            Value::Text(s) => Value::Text(s.clone()),
            Value::List(items) => {
                let mut out: Vec<Value> = Vec::new();
                let mut i: usize = 0;
                while i < items.len()
                    invariant
                        i <= items.len(),
                        self == Value::List(*items),
                        trees_of(out@) == trees_of(items@.take(i as int)),
                    decreases items.len() - i,
                {
                    proof {
                        assert(decreases_to!(*self => self->List_0));
                        assert(decreases_to!(*items => items@));
                        assert(decreases_to!(items@ => items@[i as int]));
                    }
                    let item = items[i].duplicate();
                    proof {
                        assert(items@.take(i as int + 1).drop_last() =~= items@.take(i as int));
                        assert(out@.push(item).drop_last() =~= out@);
                    }
                    out.push(item);
                    i = i + 1;
                }
                proof {
                    assert(items@.take(items@.len() as int) =~= items@);
                }
                Value::List(out)
            },
            Value::Table(entries) => {
                let mut out: Vec<(String, Value)> = Vec::new();
                let mut i: usize = 0;
                while i < entries.len()
                    invariant
                        i <= entries.len(),
                        self == Value::Table(*entries),
                        entries_of(out@) == entries_of(entries@.take(i as int)),
                    decreases entries.len() - i,
                {
                    proof {
                        assert(decreases_to!(*self => self->Table_0));
                        assert(decreases_to!(*entries => entries@));
                        assert(decreases_to!(entries@ => entries@[i as int]));
                        assert(decreases_to!(entries@[i as int] => entries@[i as int].1));
                    }
                    let entry = (entries[i].0.clone(), entries[i].1.duplicate());
                    proof {
                        assert(entries@.take(i as int + 1).drop_last() =~= entries@.take(i as int));
                        assert(out@.push(entry).drop_last() =~= out@);
                    }
                    out.push(entry);
                    i = i + 1;
                }
                proof {
                    assert(entries@.take(entries@.len() as int) =~= entries@);
                }
                Value::Table(out)
            },
        }
    }
}

} // verus!
