//! Credentials documents as TOML text.

use serde::Deserialize;
use toml::de::ValueDeserializer;
use toml::Value as TomlValue;
use vstd::prelude::*;

use crate::credentials::error::CredentialsError;
use crate::table::{
    ascending, distinct_keys, has_key, lemma_map_of_index, lemma_map_of_push, map_of, StrMap,
};
use crate::text::chars_of;
use crate::value::{
    entries_of, lemma_entries_of, lemma_trees_of, lookup, tree_of, trees_of, Tree, Value,
};

verus! {

/// A TOML value.
#[verifier::external_type_specification]
#[verifier::external_body]
pub struct ExTomlValue(TomlValue);

/// The models of the values in `m`.
pub open spec fn trees_in(m: Map<Seq<char>, Value>) -> Map<Seq<char>, Tree> {
    m.map_values(|v: Value| tree_of(v))
}

/// The top-level entries of a TOML text, or why it is not valid. Numbers and dates are kept as
/// their TOML text.
pub uninterp spec fn toml_document(text: Seq<char>) -> Result<Map<Seq<char>, Tree>, Seq<char>>;

/// The TOML text of some entries, or why there is none.
pub uninterp spec fn toml_text(entries: Map<Seq<char>, Tree>) -> Result<Seq<char>, Seq<char>>;

/// The key by which the `toml` crate tells a date from a table.
pub const DATE_MARK: &'static str = "$__toml_private_datetime";

/// The deepest nesting of lists and tables in a value that is written so that it can be read
/// again: the `toml` crate reads neither 80 keys with dots between them nor 80 brackets inside
/// one another.
pub const MAX_DEPTH: u8 = 79;

/// Whether no two fields have the same key.
pub open spec fn distinct_names(fields: Seq<(Seq<char>, Tree)>) -> bool {
    forall|i: int, j: int|
        0 <= i < j < fields.len() ==> (#[trigger] fields[i]).0 != (#[trigger] fields[j]).0
}

/// Whether a value holds no null, and no table with two fields of the same key.
pub open spec fn is_tidy(t: Tree) -> bool
    decreases t,
{
    match t {
        Tree::Null => false,
        Tree::List(items) => forall|i: int| 0 <= i < items.len() ==> is_tidy(#[trigger] items[i]),
        Tree::Table(fields) => {
            &&& distinct_names(fields)
            &&& forall|i: int| 0 <= i < fields.len() ==> is_tidy((#[trigger] fields[i]).1)
        },
        _ => true,
    }
}

/// Whether a value has at most `depth` levels of lists and tables, and no field with the key
/// [`DATE_MARK`].
pub open spec fn is_shallow(t: Tree, depth: nat) -> bool
    decreases depth,
{
    match t {
        Tree::List(items) => depth > 0 && forall|i: int|
            0 <= i < items.len() ==> is_shallow(#[trigger] items[i], (depth - 1) as nat),
        Tree::Table(fields) => depth > 0 && forall|i: int|
            0 <= i < fields.len() ==> (#[trigger] fields[i]).0 != DATE_MARK@ && is_shallow(
                fields[i].1,
                (depth - 1) as nat,
            ),
        _ => true,
    }
}

/// Whether every value of a document [`is_shallow`].
pub open spec fn shallow_document(d: Map<Seq<char>, Tree>) -> bool {
    forall|k: Seq<char>| #[trigger] d.contains_key(k) ==> is_shallow(d[k], MAX_DEPTH as nat)
}

/// Whether the number or date `s` stands somewhere in `t`.
pub open spec fn holds_atom(t: Tree, s: Seq<char>) -> bool
    decreases t,
{
    match t {
        Tree::Atom(x) => x == s,
        Tree::List(items) => exists|i: int|
            0 <= i < items.len() && holds_atom(#[trigger] items[i], s),
        Tree::Table(fields) => exists|i: int|
            0 <= i < fields.len() && holds_atom((#[trigger] fields[i]).1, s),
        _ => false,
    }
}

/// Whether the number or date `s` stands under the key `k` of a document.
pub open spec fn atom_under(
    d: Result<Map<Seq<char>, Tree>, Seq<char>>,
    k: Seq<char>,
    s: Seq<char>,
) -> bool {
    d matches Ok(m) && m.contains_key(k) && holds_atom(m[k], s)
}

/// Whether `s` is a number or a date as it is read from some TOML text.
pub open spec fn is_read_atom(s: Seq<char>) -> bool {
    exists|text: Seq<char>, k: Seq<char>| #[trigger] atom_under(toml_document(text), k, s)
}

/// Whether a value has a TOML text that reads as the value again: it has at most `depth`
/// levels, no null, numbers and dates as they are read, and tables with distinct keys that
/// are not [`DATE_MARK`].
pub open spec fn is_plain(t: Tree, depth: nat) -> bool
    decreases depth, 0int,
{
    match t {
        Tree::Null => false,
        Tree::Atom(s) => is_read_atom(s),
        Tree::List(items) => depth > 0 && forall|i: int|
            0 <= i < items.len() ==> is_plain(#[trigger] items[i], (depth - 1) as nat),
        Tree::Table(fields) => depth > 0 && plain_fields(fields, (depth - 1) as nat),
        _ => true,
    }
}

/// Whether fields hold values that are [plain](is_plain), under distinct keys that are not
/// [`DATE_MARK`].
pub open spec fn plain_fields(fields: Seq<(Seq<char>, Tree)>, depth: nat) -> bool
    decreases depth, 1int,
{
    &&& distinct_names(fields)
    &&& forall|i: int|
        0 <= i < fields.len() ==> (#[trigger] fields[i]).0 != DATE_MARK@ && is_plain(
            fields[i].1,
            depth,
        )
}

/// Whether every value of a document [`is_plain`], as in what this library writes.
pub open spec fn plain_document(d: Map<Seq<char>, Tree>) -> bool {
    forall|k: Seq<char>| #[trigger] d.contains_key(k) ==> is_plain(d[k], MAX_DEPTH as nat)
}

/// Whether two values are the same but for the order of the fields of their tables.
pub open spec fn same_value(a: Tree, b: Tree) -> bool
    decreases b,
{
    match b {
        Tree::List(items) => {
            &&& a is List
            &&& a->List_0.len() == items.len()
            &&& forall|i: int|
                0 <= i < items.len() ==> same_value(a->List_0[i], #[trigger] items[i])
        },
        Tree::Table(fields) => {
            &&& a is Table
            &&& forall|k: Seq<char>|
                lookup(fields, k) is None ==> (#[trigger] lookup(a->Table_0, k)) is None
            &&& forall|i: int|
                0 <= i < fields.len() ==> lookup(a->Table_0, (#[trigger] fields[i]).0) is Some
                    && same_value(lookup(a->Table_0, fields[i].0)->Some_0, fields[i].1)
        },
        _ => a == b,
    }
}

/// Whether two documents hold the same, whatever the order in their tables.
pub open spec fn same_document(a: Map<Seq<char>, Tree>, b: Map<Seq<char>, Tree>) -> bool {
    &&& a.dom() == b.dom()
    &&& forall|k: Seq<char>| #[trigger] b.contains_key(k) ==> same_value(a[k], b[k])
}

proof fn lemma_read_is_plain(t: Tree, depth: nat)
    requires
        is_tidy(t),
        is_shallow(t, depth),
        forall|s: Seq<char>| #[trigger] holds_atom(t, s) ==> is_read_atom(s),
    ensures
        is_plain(t, depth),
    decreases depth,
{
    match t {
        Tree::Atom(s) => {
            assert(holds_atom(t, s));
        },
        Tree::List(items) => {
            assert forall|i: int| 0 <= i < items.len() implies is_plain(
                #[trigger] items[i],
                (depth - 1) as nat,
            ) by {
                assert(t->List_0[i] == items[i]);
                assert forall|s: Seq<char>| #[trigger] holds_atom(items[i], s) implies is_read_atom(
                    s,
                ) by {
                    assert(holds_atom(t->List_0[i], s));
                    assert(holds_atom(t, s));
                }
                lemma_read_is_plain(items[i], (depth - 1) as nat);
            }
        },
        Tree::Table(fields) => {
            assert(t->Table_0 == fields);
            assert(distinct_names(fields));
            assert forall|i: int| 0 <= i < fields.len() implies (#[trigger] fields[i]).0
                != DATE_MARK@ && is_plain(fields[i].1, (depth - 1) as nat) by {
                assert(t->Table_0[i] == fields[i]);
                assert forall|s: Seq<char>| #[trigger] holds_atom(
                    fields[i].1,
                    s,
                ) implies is_read_atom(s) by {
                    assert(holds_atom(t->Table_0[i].1, s));
                    assert(holds_atom(t, s));
                }
                lemma_read_is_plain(fields[i].1, (depth - 1) as nat);
            }
            assert(plain_fields(fields, (depth - 1) as nat));
        },
        _ => {},
    }
}

/// A document that was read is plain unless it is nested too deep.
proof fn lemma_read_document_is_plain(text: Seq<char>, d: Map<Seq<char>, Tree>)
    requires
        toml_document(text) == Ok::<Map<Seq<char>, Tree>, Seq<char>>(d),
        forall|k: Seq<char>| #[trigger] d.contains_key(k) ==> is_tidy(d[k]),
        shallow_document(d),
    ensures
        plain_document(d),
{
    assert forall|k: Seq<char>| #[trigger] d.contains_key(k) implies is_plain(
        d[k],
        MAX_DEPTH as nat,
    ) by {
        assert forall|s: Seq<char>| #[trigger] holds_atom(d[k], s) implies is_read_atom(s) by {
            assert(atom_under(toml_document(text), k, s));
        }
        lemma_read_is_plain(d[k], MAX_DEPTH as nat);
    }
}

/// A value of the `toml` crate in the form of this library. A number or a date becomes the
/// text that the crate's `Display` gives it.
#[verifier::external_body]
fn value_of(v: &TomlValue) -> (r: Value) {
    match v {
        TomlValue::String(s) => Value::Text(s.clone()),
        TomlValue::Integer(_) | TomlValue::Float(_) => Value::Atom(v.to_string()),
        TomlValue::Datetime(d) => Value::Atom(d.to_string()),
        TomlValue::Boolean(b) => Value::Bool(*b),
        TomlValue::Array(items) => Value::List(items.iter().map(value_of).collect()),
        TomlValue::Table(fields) => Value::Table(
            fields.iter().map(|(k, v)| (k.clone(), value_of(v))).collect(),
        ),
    }
}

/// A number or a date from its TOML text, as the `toml` crate's `ValueDeserializer` reads it.
#[verifier::external_body]
fn atom_of(text: &str) -> (r: Result<TomlValue, String>) {
    TomlValue::deserialize(ValueDeserializer::new(text)).map_err(|e| e.to_string())
}

/// A value in the form of the `toml` crate, whose `Value::try_from` tells that there is no
/// null.
#[verifier::external_body]
fn toml_of(v: &Value) -> (r: Result<TomlValue, String>) {
    match v {
        Value::Null => TomlValue::try_from(()).map_err(|e| e.to_string()),
        Value::Bool(b) => Ok(TomlValue::Boolean(*b)),
        Value::Atom(s) => atom_of(s),
        Value::Text(s) => Ok(TomlValue::String(s.clone())),
        Value::List(items) => Ok(
            TomlValue::Array(items.iter().map(toml_of).collect::<Result<_, _>>()?),
        ),
        Value::Table(fields) => {
            let fields = fields.iter().map(|(k, v)| Ok((k.clone(), toml_of(v)?)));
            Ok(TomlValue::Table(fields.collect::<Result<_, String>>()?))
        },
    }
}

/// `str::parse` into a `Table` of the `toml` crate: a function of the text, with the error by
/// its text. TOML has no null, and a table of the crate has each key once.
#[verifier::external_body]
fn parse_document(text: &str) -> (r: Result<StrMap<Value>, String>)
    ensures
        match r {
            Ok(doc) => {
                &&& toml_document(text@) matches Ok(d) && d == trees_in(doc@)
                &&& forall|k: Seq<char>| #[trigger] doc@.contains_key(k) ==> is_tidy(doc@[k]@)
            },
            Err(why) => toml_document(text@) matches Err(w) && w == why@,
        },
{
    let table = text.parse::<toml::Table>().map_err(|e| e.to_string())?;
    let mut doc = StrMap::new();
    for (k, v) in &table {
        doc.insert(k.clone(), value_of(v));
    }
    Ok(doc)
}

/// `to_string_pretty` of the `toml` crate on a table with the given entries: a function of the
/// entries, with the error by its text. The crate counts quotes that follow one another in a
/// string in 8 bits. A plain document can be written, and its text holds the same again; of
/// other documents, which may be nested too deep to be read, that is not stated.
#[verifier::external_body]
fn render_document(entries: &Vec<(String, Value)>) -> (r: Result<String, String>)
    requires
        ascending(entries@),
        forall|i: int| 0 <= i < entries@.len() ==> !crowded((#[trigger] entries@[i]).1@),
    ensures
        match r {
            Ok(text) => toml_text(trees_in(map_of(entries@))) matches Ok(t) && t == text@,
            Err(why) => toml_text(trees_in(map_of(entries@))) matches Err(w) && w == why@,
        },
        plain_document(trees_in(map_of(entries@))) ==> match r {
            Ok(text) => toml_document(text@) matches Ok(d) && same_document(
                d,
                trees_in(map_of(entries@)),
            ),
            Err(_) => false,
        },
{
    let fields = entries.iter().map(|(k, v)| Ok((k.clone(), toml_of(v)?)));
    let table = fields.collect::<Result<toml::Table, String>>()?;
    toml::to_string_pretty(&table).map_err(|e| e.to_string())
}

/// How many times `q` stands at the end of `s`.
pub open spec fn run_at_end(s: Seq<char>, q: char) -> nat
    decreases s.len(),
{
    if s.len() > 0 && s.last() == q {
        run_at_end(s.drop_last(), q) + 1
    } else {
        0
    }
}

/// Whether `q` stands more than 255 times in a row somewhere in `s`.
pub open spec fn long_run(s: Seq<char>, q: char) -> bool
    decreases s.len(),
{
    s.len() > 0 && (long_run(s.drop_last(), q) || run_at_end(s, q) > 255)
}

/// Whether the value holds, at any depth, a string with more than 255 quotes of one kind in a
/// row. Of a text that should be a number or a date but has quotes, and more than 255
/// characters, that is not told apart.
pub open spec fn crowded(t: Tree) -> bool
    decreases t,
{
    match t {
        Tree::Text(s) => long_run(s, '"') || long_run(s, '\''),
        Tree::Atom(s) => s.len() > 255 && (s.contains('"') || s.contains('\'')),
        Tree::List(items) => exists|i: int| 0 <= i < items.len() && crowded(#[trigger] items[i]),
        Tree::Table(fields) => exists|i: int|
            0 <= i < fields.len() && crowded((#[trigger] fields[i]).1),
        _ => false,
    }
}

fn has_long_run(s: &Vec<char>, q: char) -> (r: bool)
    ensures
        r == long_run(s@, q),
{
    let mut run: usize = 0;
    let mut i: usize = 0;
    let mut found = false;
    proof {
        assert(s@.take(0) =~= Seq::empty());
    }
    while i < s.len()
        invariant
            i <= s@.len(),
            run <= i,
            run == run_at_end(s@.take(i as int), q),
            found == long_run(s@.take(i as int), q),
        decreases s.len() - i,
    {
        proof {
            let next = s@.take(i as int + 1);
            assert(next.drop_last() =~= s@.take(i as int));
            assert(next.last() == s@[i as int]);
        }
        run = if s[i] == q {
            run + 1
        } else {
            0
        };
        found = found || run > 255;
        i = i + 1;
    }
    proof {
        assert(s@.take(s@.len() as int) =~= s@);
    }
    found
}

fn has_char(s: &Vec<char>, c: char) -> (r: bool)
    ensures
        r == s@.contains(c),
{
    let mut i: usize = 0;
    while i < s.len()
        invariant
            i <= s@.len(),
            forall|j: int| 0 <= j < i ==> s@[j] != c,
        decreases s.len() - i,
    {
        if s[i] == c {
            return true;
        }
        i = i + 1;
    }
    false
}

proof fn lemma_crowded_item(items: Seq<Tree>, i: int)
    requires
        0 <= i < items.len(),
        crowded(items[i]),
    ensures
        crowded(Tree::List(items)),
{
    let t = Tree::List(items);
    assert(t->List_0[i] == items[i]);
}

proof fn lemma_crowded_field(fields: Seq<(Seq<char>, Tree)>, i: int)
    requires
        0 <= i < fields.len(),
        crowded(fields[i].1),
    ensures
        crowded(Tree::Table(fields)),
{
    let t = Tree::Table(fields);
    assert(t->Table_0[i] == fields[i]);
}

/// Decides [`crowded`].
fn is_crowded(v: &Value) -> (r: bool)
    ensures
        r == crowded(v@),
    decreases v,
{
    match v {
        Value::Text(s) => {
            let cs = chars_of(s.as_str());
            has_long_run(&cs, '"') || has_long_run(&cs, '\'')
        },
        Value::Atom(s) => {
            let cs = chars_of(s.as_str());
            cs.len() > 255 && (has_char(&cs, '"') || has_char(&cs, '\''))
        },
        Value::List(items) => {
            proof {
                lemma_trees_of(items@);
            }
            let mut i: usize = 0;
            while i < items.len()
                invariant
                    i <= items.len(),
                    v == Value::List(*items),
                    trees_of(items@).len() == items@.len(),
                    forall|j: int|
                        0 <= j < items@.len() ==> (#[trigger] trees_of(items@)[j]) == tree_of(
                            items@[j],
                        ),
                    forall|j: int| 0 <= j < i ==> !crowded(#[trigger] trees_of(items@)[j]),
                decreases items.len() - i,
            {
                proof {
                    assert(decreases_to!(*v => v->List_0));
                    assert(decreases_to!(*items => items@));
                    assert(decreases_to!(items@ => items@[i as int]));
                    assert(trees_of(items@)[i as int] == tree_of(items@[i as int]));
                }
                if is_crowded(&items[i]) {
                    proof {
                        lemma_crowded_item(trees_of(items@), i as int);
                    }
                    return true;
                }
                i = i + 1;
            }
            false
        },
        Value::Table(fields) => {
            proof {
                lemma_entries_of(fields@);
            }
            let mut i: usize = 0;
            while i < fields.len()
                invariant
                    i <= fields.len(),
                    v == Value::Table(*fields),
                    entries_of(fields@).len() == fields@.len(),
                    forall|j: int|
                        0 <= j < fields@.len() ==> (#[trigger] entries_of(fields@)[j]) == (
                            fields@[j].0@,
                            tree_of(fields@[j].1),
                        ),
                    forall|j: int| 0 <= j < i ==> !crowded((#[trigger] entries_of(fields@)[j]).1),
                decreases fields.len() - i,
            {
                proof {
                    assert(decreases_to!(*v => v->Table_0));
                    assert(decreases_to!(*fields => fields@));
                    assert(decreases_to!(fields@ => fields@[i as int]));
                    assert(decreases_to!(fields@[i as int] => fields@[i as int].1));
                    assert(entries_of(fields@)[i as int].1 == tree_of(fields@[i as int].1));
                }
                if is_crowded(&fields[i].1) {
                    proof {
                        lemma_crowded_field(entries_of(fields@), i as int);
                    }
                    return true;
                }
                i = i + 1;
            }
            false
        },
        _ => false,
    }
}

/// Whether a value of `entries` is [`crowded`].
pub open spec fn any_crowded(entries: Map<Seq<char>, Tree>) -> bool {
    exists|k: Seq<char>| #[trigger] entries.contains_key(k) && crowded(entries[k])
}

/// Why an entry that is [`crowded`] is not written.
pub const CROWDED: &'static str = "value has too many quotes in a row";

/// The document of a credentials file: that of its text, or the empty one where there is no
/// file.
pub open spec fn document_of(text: Option<Seq<char>>) -> Result<Map<Seq<char>, Tree>, Seq<char>> {
    match text {
        Some(t) => toml_document(t),
        None => Ok(Map::empty()),
    }
}

/// The text of a credentials file, or why there is none.
pub open spec fn text_of_document(entries: Map<Seq<char>, Tree>) -> Result<Seq<char>, Seq<char>> {
    if any_crowded(entries) {
        Err(CROWDED@)
    } else {
        toml_text(entries)
    }
}

/// The document of the plaintext credentials file whose text is `text`. A file that is not
/// there has the empty document. A document is plain unless it is nested too deep.
pub fn plaintext_document(text: Option<&str>) -> (r: Result<StrMap<Value>, CredentialsError>)
    ensures
        ({
            let given = match text {
                Some(t) => Some(t@),
                None => None,
            };
            match r {
                Ok(doc) => {
                    &&& document_of(given) matches Ok(d) && d == trees_in(doc@)
                    &&& shallow_document(trees_in(doc@)) ==> plain_document(trees_in(doc@))
                },
                Err(e) => document_of(given) matches Err(w) && (e matches
                    CredentialsError::TomlParse(why) && why@ == w),
            }
        }),
{
    match text {
        Some(t) => match parse_document(t) {
            Ok(doc) => {
                proof {
                    let d = trees_in(doc@);
                    assert forall|k: Seq<char>| #[trigger] d.contains_key(k) implies is_tidy(
                        d[k],
                    ) by {
                        assert(doc@.contains_key(k));
                    }
                    if shallow_document(d) {
                        lemma_read_document_is_plain(t@, d);
                    }
                }
                Ok(doc)
            },
            Err(why) => Err(CredentialsError::TomlParse(why)),
        },
        None => {
            let doc: StrMap<Value> = StrMap::new();
            proof {
                assert(trees_in(doc@) =~= Map::empty());
            }
            Ok(doc)
        },
    }
}

/// The TOML text of a document, or why there is none. The text of a plain document reads as
/// the document again.
pub(crate) fn render(doc: StrMap<Value>) -> (r: Result<String, String>)
    ensures
        match r {
            Ok(text) => text_of_document(trees_in(doc@)) matches Ok(t) && t == text@,
            Err(why) => text_of_document(trees_in(doc@)) matches Err(w) && w == why@,
        },
        plain_document(trees_in(doc@)) ==> match r {
            Ok(text) => toml_document(text@) matches Ok(d) && same_document(d, trees_in(doc@)),
            Err(_) => any_crowded(trees_in(doc@)),
        },
{
    let ghost all = trees_in(doc@);
    let entries = doc.into_sorted_entries();
    let mut i: usize = 0;
    while i < entries.len()
        invariant
            i <= entries@.len(),
            distinct_keys(entries@),
            all == trees_in(doc@),
            trees_in(map_of(entries@)) == all,
            forall|j: int| 0 <= j < i ==> !crowded((#[trigger] entries@[j]).1@),
        decreases entries.len() - i,
    {
        if is_crowded(&entries[i].1) {
            proof {
                let k = entries@[i as int].0@;
                lemma_map_of_index(entries@, i as int);
                assert(all.contains_key(k));
                assert(crowded(all[k]));
            }
            return Err(CROWDED.to_owned());
        }
        i = i + 1;
    }
    proof {
        assert forall|k: Seq<char>| #[trigger] all.contains_key(k) implies !crowded(all[k]) by {
            assert(has_key(entries@, k));
            let j = choose|j: int| 0 <= j < entries@.len() && (#[trigger] entries@[j]).0@ == k;
            lemma_map_of_index(entries@, j);
        }
    }
    render_document(&entries)
}

fn copy_of(doc: &StrMap<Value>) -> (r: StrMap<Value>)
    ensures
        trees_in(r@) == trees_in(doc@),
{
    let entries = doc.entries();
    let mut out: StrMap<Value> = StrMap::new();
    let mut i: usize = 0;
    proof {
        let none = entries@.take(0);
        assert(distinct_keys(none));
        assert forall|k: Seq<char>| !has_key(none, k) by {}
        assert(trees_in(out@) =~= trees_in(map_of(none)));
    }
    while i < entries.len()
        invariant
            i <= entries@.len(),
            distinct_keys(entries@),
            distinct_keys(entries@.take(i as int)),
            trees_in(out@) == trees_in(map_of(entries@.take(i as int))),
        decreases entries.len() - i,
    {
        let ghost before = entries@.take(i as int);
        let ghost (key, value) = entries@[i as int];
        let ghost old_out = out@;
        let copy = entries[i].1.duplicate();
        proof {
            assert(entries@.take(i as int + 1) =~= before.push((key, value)));
            assert(!has_key(before, key@));
            lemma_map_of_push(before, key, value);
            assert(trees_in(map_of(before).insert(key@, value)) =~= trees_in(
                map_of(before),
            ).insert(key@, value@));
            assert(trees_in(old_out.insert(key@, copy)) =~= trees_in(old_out).insert(
                key@,
                copy@,
            ));
        }
        out.insert(entries[i].0.clone(), copy);
        i = i + 1;
    }
    proof {
        assert(entries@.take(entries@.len() as int) =~= entries@);
    }
    out
}

/// The text of a credentials file with the document `doc`.
pub fn document_text(doc: &StrMap<Value>) -> (r: Result<String, CredentialsError>)
    ensures
        match r {
            Ok(text) => text_of_document(trees_in(doc@)) matches Ok(t) && t == text@,
            Err(e) => text_of_document(trees_in(doc@)) matches Err(w) && (e matches
                CredentialsError::TomlSerialize(why) && why@ == w),
        },
        plain_document(trees_in(doc@)) ==> match r {
            Ok(text) => toml_document(text@) matches Ok(d) && same_document(d, trees_in(doc@)),
            Err(_) => any_crowded(trees_in(doc@)),
        },
{
    match render(copy_of(doc)) {
        Ok(text) => Ok(text),
        Err(why) => Err(CredentialsError::TomlSerialize(why)),
    }
}

} // verus!
