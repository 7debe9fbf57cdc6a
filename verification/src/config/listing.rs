//! What the configuration file says to listings: its profiles and the display
//! name of its user, and where a saved API key goes.

use vstd::prelude::*;

use crate::config::provider::{
    credentials_store_key, provider_type_slug, slug_of, store_key, ProviderType,
};
use crate::config::types::{ConfigFile, ProfileConfig};
use crate::replica::opt_text;
use crate::table::{distinct_keys, has_key, lemma_map_of_index, StrMap};
use crate::text::{concat3, precedes, trim, trimmed};

verus! {

/// The text of an optional string, empty where there is none.
pub open spec fn text_or_empty(o: Option<String>) -> Seq<char> {
    match o {
        Some(s) => s@,
        None => Seq::empty(),
    }
}

/// Whether `row` shows the profile `p` under the name `name`.
pub open spec fn row_shows(row: (String, String, String), name: Seq<char>, p: ProfileConfig) -> bool {
    &&& row.0@ == name
    &&& row.1@ == text_or_empty(p.provider)
    &&& row.2@ == text_or_empty(p.model)
}

fn or_empty(o: Option<String>) -> (r: String)
    ensures
        r@ == text_or_empty(o),
{
    match o {
        Some(s) => s,
        None => String::new(),
    }
}

/// The profiles of `file` as rows of name, provider and model, in ascending order of
/// their names. A provider or a model that the profile leaves out is empty.
pub fn global_profiles(file: ConfigFile) -> (rows: Vec<(String, String, String)>)
    ensures
        forall|i: int, j: int|
            0 <= i < j < rows@.len() ==> precedes((#[trigger] rows@[i]).0@, (#[trigger] rows@[j]).0@),
        forall|i: int|
            0 <= i < rows@.len() ==> {
                &&& file.profiles@.contains_key((#[trigger] rows@[i]).0@)
                &&& row_shows(rows@[i], rows@[i].0@, file.profiles@[rows@[i].0@])
            },
        forall|name: Seq<char>|
            #[trigger] file.profiles@.contains_key(name) ==> exists|i: int|
                0 <= i < rows@.len() && (#[trigger] rows@[i]).0@ == name,
{
    let ghost all = file.profiles@;
    let mut pairs = file.profiles.into_sorted_entries();
    let ghost sorted = pairs@;
    proof {
        assert(distinct_keys(sorted)) by {
            assert forall|i: int, j: int| 0 <= i < j < sorted.len() implies (
            #[trigger] sorted[i]).0@ != (#[trigger] sorted[j]).0@ by {
                crate::text::lemma_precedes_irreflexive(sorted[i].0@);
            }
        }
    }
    let mut out: Vec<(String, String, String)> = Vec::new();
    while pairs.len() > 0
        invariant
            pairs@.len() <= sorted.len(),
            pairs@ == sorted.take(pairs@.len() as int),
            out@.len() == sorted.len() - pairs@.len(),
            forall|i: int|
                0 <= i < out@.len() ==> row_shows(
                    #[trigger] out@[i],
                    sorted[sorted.len() - 1 - i].0@,
                    sorted[sorted.len() - 1 - i].1,
                ),
        decreases pairs@.len(),
    {
        let ghost before = pairs@;
        let (name, profile) = pairs.pop().unwrap();
        proof {
            assert(before.last() == sorted[before.len() - 1]);
            assert(pairs@ =~= sorted.take(pairs@.len() as int));
        }
        out.push((name, or_empty(profile.provider), or_empty(profile.model)));
    }
    let ghost backwards = out@;
    let mut rows: Vec<(String, String, String)> = Vec::new();
    while out.len() > 0
        invariant
            out@.len() <= backwards.len(),
            out@ == backwards.take(out@.len() as int),
            backwards.len() == sorted.len(),
            rows@.len() == backwards.len() - out@.len(),
            forall|i: int|
                0 <= i < backwards.len() ==> row_shows(
                    #[trigger] backwards[i],
                    sorted[sorted.len() - 1 - i].0@,
                    sorted[sorted.len() - 1 - i].1,
                ),
            forall|i: int|
                0 <= i < rows@.len() ==> row_shows(
                    #[trigger] rows@[i],
                    sorted[i].0@,
                    sorted[i].1,
                ),
        decreases out@.len(),
    {
        let ghost before = out@;
        let row = out.pop().unwrap();
        proof {
            let at = before.len() - 1;
            assert(before.last() == backwards[at]);
            assert(row_shows(backwards[at], sorted[sorted.len() - 1 - at].0@, sorted[sorted.len() - 1 - at].1));
            assert(out@ =~= backwards.take(out@.len() as int));
        }
        rows.push(row);
    }
    proof {
        assert forall|i: int| 0 <= i < rows@.len() implies {
            &&& all.contains_key((#[trigger] rows@[i]).0@)
            &&& row_shows(rows@[i], rows@[i].0@, all[rows@[i].0@])
        } by {
            assert(row_shows(rows@[i], sorted[i].0@, sorted[i].1));
            lemma_map_of_index(sorted, i);
        }
        assert forall|i: int, j: int| 0 <= i < j < rows@.len() implies precedes(
            (#[trigger] rows@[i]).0@,
            (#[trigger] rows@[j]).0@,
        ) by {
            assert(row_shows(rows@[i], sorted[i].0@, sorted[i].1));
            assert(row_shows(rows@[j], sorted[j].0@, sorted[j].1));
            assert(precedes(sorted[i].0@, sorted[j].0@));
        }
        assert forall|name: Seq<char>| #[trigger] all.contains_key(name) implies exists|i: int|
            0 <= i < rows@.len() && (#[trigger] rows@[i]).0@ == name by {
            assert(has_key(sorted, name));
            let i = choose|i: int| 0 <= i < sorted.len() && (#[trigger] sorted[i]).0@ == name;
            assert(row_shows(rows@[i], sorted[i].0@, sorted[i].1));
            assert(rows@[i].0@ == name);
        }
    }
    rows
}

/// The display name of the user, without the white space around it; `None` where it is
/// unset or blank.
pub fn global_user_display_name(file: &ConfigFile) -> (r: Option<String>)
    ensures
        opt_text(r) == match file.default.user {
            Some(name) => if trimmed(name@).len() > 0 {
                Some(trimmed(name@))
            } else {
                None
            },
            None => None,
        },
{
    match &file.default.user {
        Some(name) => {
            let shown = trim(name.as_str());
            if shown.as_str().unicode_len() > 0 {
                Some(shown)
            } else {
                None
            }
        },
        None => None,
    }
}

/// What saving the API key of `provider` puts into the credentials store: the entry that
/// resolution looks the key up by, and the key. A provider that has no such entry is refused.
pub fn store_provider_api_key(provider: ProviderType, api_key: &str) -> (r: Result<
    (String, String),
    String,
>)
    ensures
        match r {
            Ok((entry, value)) => store_key(provider) == Some(entry@) && value@ == api_key@,
            Err(why) => store_key(provider) is None && why@ == "provider "@ + slug_of(provider)
                + " authenticates out-of-band and has no credentials-store API key"@,
        },
{
    match credentials_store_key(provider) {
        Some(entry) => Ok((entry, api_key.to_owned())),
        None => Err(
            concat3(
                "provider ",
                provider_type_slug(provider),
                " authenticates out-of-band and has no credentials-store API key",
            ),
        ),
    }
}

} // verus!
