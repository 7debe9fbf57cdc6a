//! Operations on profiles: what each does to the disk, or why it is refused.
//!
//! Each function takes the profiles root as it was found and says what to change. Nothing
//! is changed where an error is returned.

use vstd::prelude::*;

use crate::config::paths::joined;
use crate::profile::launch::{
    active_pointer_path, is_active, names_active, pointed, profile_dir, EntryKind, ProfilesDisk,
};
use crate::profile::name::{refusal, validate_profile_name, ProfileError};
use crate::quote::{quote, quoted};
use crate::table::{ascending, has_key, lemma_map_of_index, map_of, StrMap};
use crate::text::{
    ascii_lower, ascii_lowercase, concat, concat3, is_space, lemma_precedes_irreflexive, precedes,
    same_text, trimmed, trimmed_end, trimmed_start,
};

verus! {

/// Why an operation failed.
#[derive(Debug)]
pub enum ProfileOpError {
    /// A name is not valid.
    Name(ProfileError),
    /// There is such a profile already.
    AlreadyExists(String),
    /// There is no such profile.
    NotFound(String),
    /// A path cannot be used as a source.
    UnsafePath {
        /// The path.
        path: String,
        /// The reason.
        reason: &'static str,
    },
    /// A file operation failed.
    Io {
        /// The operation.
        op: &'static str,
        /// What its error says.
        source: String,
    },
}

impl ProfileOpError {
    /// What the error says to the user.
    pub open spec fn says(self) -> Seq<char> {
        match self {
            ProfileOpError::Name(e) => e.says(),
            ProfileOpError::AlreadyExists(name) => "profile "@ + quoted(name@) + " already exists"@,
            ProfileOpError::NotFound(name) => "profile "@ + quoted(name@) + " does not exist"@,
            ProfileOpError::UnsafePath { path, reason } => "refusing unsafe path "@ + quoted(path@)
                + ": "@ + reason@,
            ProfileOpError::Io { op, source } => op@ + " failed: "@ + source@,
        }
    }

    /// What the error says to the user.
    pub fn message(&self) -> (r: String)
        ensures
            r@ == self.says(),
    {
        match self {
            ProfileOpError::Name(e) => e.message(),
            ProfileOpError::AlreadyExists(name) => concat3(
                "profile ",
                quote(name.as_str()).as_str(),
                " already exists",
            ),
            ProfileOpError::NotFound(name) => concat3(
                "profile ",
                quote(name.as_str()).as_str(),
                " does not exist",
            ),
            ProfileOpError::UnsafePath { path, reason } => {
                let head = concat3("refusing unsafe path ", quote(path.as_str()).as_str(), ": ");
                concat(head.as_str(), reason)
            },
            ProfileOpError::Io { op, source } => concat3(op, " failed: ", source.as_str()),
        }
    }

    /// Whether the error refuses the name `name`.
    pub open spec fn refuses(self, name: Seq<char>) -> bool {
        self matches ProfileOpError::Name(ProfileError::InvalidName { name: n, reason }) && n@
            == name && refusal(name) == Some(reason@)
    }

    /// Whether the error says that the profile `name` is missing.
    pub open spec fn misses(self, name: Seq<char>) -> bool {
        self matches ProfileOpError::NotFound(n) && n@ == ascii_lower(name)
    }

    /// Whether the error says that the profile `name` is there already.
    pub open spec fn collides(self, name: Seq<char>) -> bool {
        self matches ProfileOpError::AlreadyExists(n) && n@ == ascii_lower(name)
    }
}

/// The path of the directory of a profile.
pub open spec fn home_of(disk: ProfilesDisk, name: Seq<char>) -> Seq<char> {
    joined(disk.root@, ascii_lower(name))
}

fn home_path(disk: &ProfilesDisk, name: &str) -> (r: Result<String, ProfileOpError>)
    ensures
        match r {
            Ok(dir) => refusal(name@) is None && dir@ == home_of(*disk, name@),
            Err(e) => refusal(name@) is Some && e.refuses(name@),
        },
{
    match profile_dir(disk.root.as_str(), name) {
        Ok(dir) => Ok(dir),
        Err(e) => Err(ProfileOpError::Name(e)),
    }
}

/// The names of the profiles, in ascending order: the directories whose names are valid.
pub fn list_profiles(entries: StrMap<EntryKind>) -> (r: Vec<String>)
    ensures
        forall|i: int, j: int|
            0 <= i < j < r@.len() ==> precedes((#[trigger] r@[i])@, (#[trigger] r@[j])@),
        forall|i: int|
            0 <= i < r@.len() ==> {
                let name = (#[trigger] r@[i])@;
                entries@.contains_key(name) && entries@[name] is Directory && refusal(name) is None
            },
        forall|name: Seq<char>|
            #[trigger] entries@.contains_key(name) && entries@[name] is Directory && refusal(
                name,
            ) is None ==> exists|i: int| 0 <= i < r@.len() && (#[trigger] r@[i])@ == name,
{
    let ghost all = entries@;
    let pairs = entries.into_sorted_entries();
    let mut out: Vec<String> = Vec::new();
    let mut i: usize = 0;
    while i < pairs.len()
        invariant
            i <= pairs@.len(),
            ascending(pairs@),
            map_of(pairs@) == all,
            forall|a: int|
                0 <= a < out@.len() ==> exists|b: int|
                    0 <= b < i && (#[trigger] out@[a])@ == (#[trigger] pairs@[b]).0@
                        && pairs@[b].1 is Directory && refusal(pairs@[b].0@) is None,
            forall|b: int|
                0 <= b < i && (#[trigger] pairs@[b]).1 is Directory && refusal(pairs@[b].0@) is None
                    ==> exists|a: int| 0 <= a < out@.len() && (#[trigger] out@[a])@ == pairs@[b].0@,
            forall|a: int, c: int|
                0 <= a < c < out@.len() ==> precedes((#[trigger] out@[a])@, (#[trigger] out@[c])@),
        decreases pairs.len() - i,
    {
        let ghost before = out@;
        let is_dir = match pairs[i].1 {
            EntryKind::Directory => true,
            EntryKind::DirectoryLink => false,
            EntryKind::Other => false,
        };
        if is_dir && validate_profile_name(pairs[i].0.as_str()).is_ok() {
            out.push(pairs[i].0.clone());
            proof {
                assert forall|a: int, c: int| 0 <= a < c < out@.len() implies precedes(
                    (#[trigger] out@[a])@,
                    (#[trigger] out@[c])@,
                ) by {
                    if c == out@.len() - 1 {
                        assert(out@[a] == before[a]);
                        let b = choose|b: int|
                            0 <= b < i && before[a]@ == (#[trigger] pairs@[b]).0@
                                && pairs@[b].1 is Directory && refusal(pairs@[b].0@) is None;
                        assert(precedes(pairs@[b].0@, pairs@[i as int].0@));
                    } else {
                        assert(out@[a] == before[a] && out@[c] == before[c]);
                    }
                }
                assert forall|a: int| 0 <= a < out@.len() implies exists|b: int|
                    0 <= b < i + 1 && (#[trigger] out@[a])@ == (#[trigger] pairs@[b]).0@
                        && pairs@[b].1 is Directory && refusal(pairs@[b].0@) is None by {
                    if a == out@.len() - 1 {
                        assert(out@[a]@ == pairs@[i as int].0@);
                    } else {
                        assert(out@[a] == before[a]);
                    }
                }
                assert forall|b: int|
                    0 <= b < i + 1 && (#[trigger] pairs@[b]).1 is Directory && refusal(
                        pairs@[b].0@,
                    ) is None implies exists|a: int|
                    0 <= a < out@.len() && (#[trigger] out@[a])@ == pairs@[b].0@ by {
                    if b == i {
                        assert(out@[out@.len() - 1]@ == pairs@[b].0@);
                    } else {
                        let a = choose|a: int|
                            0 <= a < before.len() && (#[trigger] before[a])@ == pairs@[b].0@;
                        assert(out@[a]@ == pairs@[b].0@);
                    }
                }
            }
        }
        i = i + 1;
    }
    proof {
        assert(crate::table::distinct_keys(pairs@)) by {
            assert forall|a: int, b: int| 0 <= a < b < pairs@.len() implies (
            #[trigger] pairs@[a]).0@ != (#[trigger] pairs@[b]).0@ by {
                lemma_precedes_irreflexive(pairs@[a].0@);
            }
        }
        assert forall|a: int| 0 <= a < out@.len() implies {
            let name = (#[trigger] out@[a])@;
            all.contains_key(name) && all[name] is Directory && refusal(name) is None
        } by {
            let b = choose|b: int|
                0 <= b < pairs@.len() && out@[a]@ == (#[trigger] pairs@[b]).0@
                    && pairs@[b].1 is Directory && refusal(pairs@[b].0@) is None;
            lemma_map_of_index(pairs@, b);
        }
        assert forall|name: Seq<char>|
            #[trigger] all.contains_key(name) && all[name] is Directory && refusal(
                name,
            ) is None implies exists|a: int| 0 <= a < out@.len() && (#[trigger] out@[a])@
            == name by {
            assert(has_key(pairs@, name));
            let b = choose|b: int| 0 <= b < pairs@.len() && (#[trigger] pairs@[b]).0@ == name;
            lemma_map_of_index(pairs@, b);
        }
    }
    out
}

/// A file to write.
pub struct FileWrite {
    /// Its path.
    pub path: String,
    /// Its content.
    pub content: String,
}

/// What the active-profile file holds for a profile.
pub open spec fn pointer_for(name: Seq<char>) -> Seq<char> {
    ascii_lower(name) + "\n"@
}

/// The write that makes `name` the active profile.
pub fn set_active_profile(name: &str, disk: &ProfilesDisk) -> (r: Result<FileWrite, ProfileOpError>)
    ensures
        match r {
            Ok(w) => {
                &&& disk.has_profile(name@)
                &&& w.path@ == joined(disk.root@, "active"@)
                &&& w.content@ == pointer_for(name@)
            },
            Err(e) => !disk.has_profile(name@) && if refusal(name@) is Some {
                e.refuses(name@)
            } else {
                e.misses(name@)
            },
        },
{
    match home_path(disk, name) {
        Err(e) => Err(e),
        Ok(_) => {
            let lower = ascii_lowercase(name);
            if disk.is_dir(lower.as_str()) {
                Ok(
                    FileWrite {
                        path: active_pointer_path(disk.root.as_str()),
                        content: concat(lower.as_str(), "\n"),
                    },
                )
            } else {
                Err(ProfileOpError::NotFound(lower))
            }
        },
    }
}

/// After a profile was made the active one, it is the active one, and no other is.
pub proof fn law_active_profile_is_read_back(name: Seq<char>, other: Seq<char>)
    requires
        refusal(name) is None,
    ensures
        names_active(name, Some(pointer_for(name))),
        names_active(other, Some(pointer_for(name))) ==> ascii_lower(other) == ascii_lower(name),
{
    reveal_strlit("\n");
    let low = ascii_lower(name);
    crate::profile::name::law_lowercase_name_is_valid(name);
    let s = pointer_for(name);
    assert forall|i: int| 0 <= i < low.len() implies !is_space(#[trigger] low[i]) by {
        assert(crate::profile::name::is_name_char(low[i]));
    }
    assert(low.len() > 0);
    assert(s[0] == low[0]);
    assert(trimmed_start(s) == s);
    assert(s.last() == '\n');
    assert(s.drop_last() =~= low);
    assert(low.last() == low[low.len() - 1]);
    assert(trimmed_end(low) == low);
    assert(trimmed(s) == low);
    assert(pointed(Some(s)) == Some(low));
}

/// What creating a profile does.
pub struct NewProfile {
    /// The directory to make.
    pub dir: String,
    /// The content of its `profile.toml`, if it has one.
    pub marker: Option<String>,
}

/// What creating the profile `name` does. With a base, which must be there, a marker names
/// it; nothing is copied from it.
pub fn create_profile(name: &str, base: Option<&str>, disk: &ProfilesDisk) -> (r: Result<
    NewProfile,
    ProfileOpError,
>)
    ensures
        ({
            let lower = ascii_lower(name@);
            match r {
                Ok(p) => {
                    &&& refusal(name@) is None
                    &&& !disk.has(lower)
                    &&& p.dir@ == home_of(*disk, name@)
                    &&& match base {
                        None => p.marker is None,
                        Some(b) => disk.has_profile(b@) && (p.marker matches Some(m) && m@
                            == "base = \""@ + ascii_lower(b@) + "\"\n"@),
                    }
                },
                Err(e) => if refusal(name@) is Some {
                    e.refuses(name@)
                } else if disk.has(lower) {
                    e.collides(name@)
                } else {
                    base matches Some(b) && !disk.has_profile(b@) && if refusal(b@) is Some {
                        e.refuses(b@)
                    } else {
                        e.misses(b@)
                    }
                },
            }
        }),
{
    let dir = match home_path(disk, name) {
        Ok(dir) => dir,
        Err(e) => {
            return Err(e);
        },
    };
    let lower = ascii_lowercase(name);
    if disk.entries.contains_key(lower.as_str()) {
        return Err(ProfileOpError::AlreadyExists(lower));
    }
    let marker = match base {
        None => None,
        Some(b) => {
            match home_path(disk, b) {
                Ok(_) => {},
                Err(e) => {
                    return Err(e);
                },
            }
            let base_lower = ascii_lowercase(b);
            if !disk.is_dir(base_lower.as_str()) {
                return Err(ProfileOpError::NotFound(base_lower));
            }
            Some(concat3("base = \"", base_lower.as_str(), "\"\n"))
        },
    };
    Ok(NewProfile { dir, marker })
}

/// What renaming a profile does.
pub enum Renaming {
    /// Nothing: both names stand for one directory.
    Nothing,
    /// The directory moves.
    Move {
        /// From here.
        from: String,
        /// To here.
        to: String,
        /// The write that lets the active profile follow, where it was this one.
        repoint: Option<FileWrite>,
    },
}

/// Whether `plan` is what renaming the profile `old_name` to `new_name` does.
pub open spec fn is_renaming(
    plan: Renaming,
    old_name: Seq<char>,
    new_name: Seq<char>,
    disk: ProfilesDisk,
) -> bool {
    let from = ascii_lower(old_name);
    let to = ascii_lower(new_name);
    &&& refusal(old_name) is None
    &&& refusal(new_name) is None
    &&& disk.has_dir(from)
    &&& match plan {
        Renaming::Nothing => from == to,
        Renaming::Move { from: f, to: t, repoint } => {
            &&& from != to
            &&& !disk.has(to)
            &&& f@ == home_of(disk, old_name)
            &&& t@ == home_of(disk, new_name)
            &&& match repoint {
                Some(w) => {
                    &&& names_active(old_name, disk.pointer_text())
                    &&& w.path@ == joined(disk.root@, "active"@)
                    &&& w.content@ == pointer_for(new_name)
                },
                None => !names_active(old_name, disk.pointer_text()),
            }
        },
    }
}

/// The content of the active-profile file once `plan` was carried out.
pub open spec fn pointer_after(plan: Renaming, before: Option<Seq<char>>) -> Option<Seq<char>> {
    match plan {
        Renaming::Move { repoint: Some(w), .. } => Some(w.content@),
        _ => before,
    }
}

/// What renaming the profile `old_name` to `new_name` does.
pub fn rename_profile(old_name: &str, new_name: &str, disk: &ProfilesDisk) -> (r: Result<
    Renaming,
    ProfileOpError,
>)
    ensures
        ({
            let from = ascii_lower(old_name@);
            let to = ascii_lower(new_name@);
            match r {
                Err(e) => if refusal(old_name@) is Some {
                    e.refuses(old_name@)
                } else if refusal(new_name@) is Some {
                    e.refuses(new_name@)
                } else if !disk.has_dir(from) {
                    e.misses(old_name@)
                } else {
                    from != to && disk.has(to) && e.collides(new_name@)
                },
                Ok(plan) => is_renaming(plan, old_name@, new_name@, *disk),
            }
        }),
{
    let from = match home_path(disk, old_name) {
        Ok(dir) => dir,
        Err(e) => {
            return Err(e);
        },
    };
    let to = match home_path(disk, new_name) {
        Ok(dir) => dir,
        Err(e) => {
            return Err(e);
        },
    };
    let old_lower = ascii_lowercase(old_name);
    let new_lower = ascii_lowercase(new_name);
    if !disk.is_dir(old_lower.as_str()) {
        return Err(ProfileOpError::NotFound(old_lower));
    }
    if same_text(old_lower.as_str(), new_lower.as_str()) {
        return Ok(Renaming::Nothing);
    }
    if disk.entries.contains_key(new_lower.as_str()) {
        return Err(ProfileOpError::AlreadyExists(new_lower));
    }
    let repoint = if is_active(old_name, disk.pointer_content()) {
        Some(
            FileWrite {
                path: active_pointer_path(disk.root.as_str()),
                content: concat(new_lower.as_str(), "\n"),
            },
        )
    } else {
        None
    };
    Ok(Renaming::Move { from, to, repoint })
}

/// The directory that deleting the profile `name` removes.
pub fn delete_profile_dir(name: &str, disk: &ProfilesDisk) -> (r: Result<String, ProfileOpError>)
    ensures
        match r {
            Ok(dir) => disk.has_profile(name@) && dir@ == home_of(*disk, name@),
            Err(e) => !disk.has_profile(name@) && if refusal(name@) is Some {
                e.refuses(name@)
            } else {
                e.misses(name@)
            },
        },
{
    match home_path(disk, name) {
        Err(e) => Err(e),
        Ok(dir) => {
            let lower = ascii_lowercase(name);
            if disk.is_dir(lower.as_str()) {
                Ok(dir)
            } else {
                Err(ProfileOpError::NotFound(lower))
            }
        },
    }
}

/// What deleting a profile does.
pub struct Deletion {
    /// The active-profile file goes first.
    pub clear_pointer: bool,
    /// The directory that goes, or why none does.
    pub removal: Result<String, ProfileOpError>,
}

/// What deleting the profile `name` does. The active-profile file goes with the active
/// profile, also where that is no longer there.
pub fn delete_profile(name: &str, disk: &ProfilesDisk) -> (r: Deletion)
    ensures
        ({
            let lower = ascii_lower(name@);
            &&& r.clear_pointer == names_active(lower, disk.pointer_text())
            &&& match r.removal {
                Ok(dir) => disk.has_profile(lower) && dir@ == home_of(*disk, lower),
                Err(e) => !disk.has_profile(lower) && if refusal(lower) is Some {
                    e.refuses(lower)
                } else {
                    e.misses(lower)
                },
            }
        }),
{
    let lower = ascii_lowercase(name);
    Deletion {
        clear_pointer: is_active(lower.as_str(), disk.pointer_content()),
        removal: delete_profile_dir(lower.as_str(), disk),
    }
}

/// What exporting a profile copies.
pub struct Export {
    /// The directory to copy.
    pub from: String,
    /// Secrets stay behind.
    pub skip_secrets: bool,
}

/// Whether `r` is what exporting the profile `name` comes to: what it copies, or why it is
/// refused.
pub open spec fn is_export(
    r: Result<Export, ProfileOpError>,
    name: Seq<char>,
    include_secrets: bool,
    disk: ProfilesDisk,
) -> bool {
    match r {
        Ok(e) => {
            &&& disk.has_profile(name)
            &&& e.from@ == home_of(disk, name)
            &&& e.skip_secrets == !include_secrets
        },
        Err(e) => !disk.has_profile(name) && if refusal(name) is Some {
            e.refuses(name)
        } else {
            e.misses(name)
        },
    }
}

/// What exporting the profile `name` copies.
pub fn export_profile(name: &str, include_secrets: bool, disk: &ProfilesDisk) -> (r: Result<
    Export,
    ProfileOpError,
>)
    ensures
        is_export(r, name@, include_secrets, *disk),
{
    match delete_profile_dir(name, disk) {
        Ok(from) => Ok(Export { from, skip_secrets: !include_secrets }),
        Err(e) => Err(e),
    }
}

/// What a path turned out to be.
#[derive(Debug, Clone, Copy, PartialEq, Eq, Structural)]
pub enum SourceKind {
    /// It cannot be resolved.
    Unresolved,
    /// Something else than a directory.
    NotDirectory,
    /// A directory.
    Directory,
}

/// Whether `r` is what importing the tree at `source` as the profile `name` comes to: the
/// directory that it makes, or why it is refused.
pub open spec fn is_import(
    r: Result<String, ProfileOpError>,
    name: Seq<char>,
    source: Seq<char>,
    kind: SourceKind,
    disk: ProfilesDisk,
) -> bool {
    match r {
        Ok(dir) => {
            &&& refusal(name) is None
            &&& !disk.has(ascii_lower(name))
            &&& kind is Directory
            &&& dir@ == home_of(disk, name)
        },
        Err(e) => if refusal(name) is Some {
            e.refuses(name)
        } else if disk.has(ascii_lower(name)) {
            e.collides(name)
        } else {
            &&& !(kind is Directory)
            &&& e matches ProfileOpError::UnsafePath { path, reason } && path@ == source
                && reason@ == if kind is Unresolved {
                "source path does not exist or cannot be resolved"@
            } else {
                "import source must be a directory"@
            }
        },
    }
}

/// The directory that importing the tree at `source` as the profile `name` makes.
pub fn import_profile(name: &str, source: &str, kind: SourceKind, disk: &ProfilesDisk) -> (r: Result<
    String,
    ProfileOpError,
>)
    ensures
        is_import(r, name@, source@, kind, *disk),
{
    let dir = match home_path(disk, name) {
        Ok(dir) => dir,
        Err(e) => {
            return Err(e);
        },
    };
    let lower = ascii_lowercase(name);
    if disk.entries.contains_key(lower.as_str()) {
        return Err(ProfileOpError::AlreadyExists(lower));
    }
    match kind {
        SourceKind::Unresolved => Err(
            ProfileOpError::UnsafePath {
                path: source.to_owned(),
                reason: "source path does not exist or cannot be resolved",
            },
        ),
        SourceKind::NotDirectory => Err(
            ProfileOpError::UnsafePath {
                path: source.to_owned(),
                reason: "import source must be a directory",
            },
        ),
        SourceKind::Directory => Ok(dir),
    }
}

/// Once an import made its directory the profile is there, and importing under its name again
/// is refused.
pub proof fn law_imported_once(
    first: Result<String, ProfileOpError>,
    again: Result<String, ProfileOpError>,
    name: Seq<char>,
    source: Seq<char>,
    other_source: Seq<char>,
    kind: SourceKind,
    other_kind: SourceKind,
    before: ProfilesDisk,
    after: ProfilesDisk,
)
    requires
        is_import(first, name, source, kind, before),
        first is Ok,
        after.entries@ == before.entries@.insert(ascii_lower(name), EntryKind::Directory),
        is_import(again, name, other_source, other_kind, after),
    ensures
        after.has_profile(name),
        again matches Err(e) && e.collides(name),
{
}

/// Renaming the active profile keeps it the active one under its new name, and renaming
/// another leaves the active-profile file as it is.
pub proof fn law_rename_keeps_the_active_profile(
    plan: Renaming,
    old_name: Seq<char>,
    new_name: Seq<char>,
    disk: ProfilesDisk,
)
    requires
        is_renaming(plan, old_name, new_name, disk),
    ensures
        names_active(old_name, disk.pointer_text()) ==> names_active(
            new_name,
            pointer_after(plan, disk.pointer_text()),
        ),
        !names_active(old_name, disk.pointer_text()) ==> pointer_after(plan, disk.pointer_text())
            == disk.pointer_text(),
        plan is Move ==> !names_active(old_name, pointer_after(plan, disk.pointer_text())),
{
    law_active_profile_is_read_back(new_name, old_name);
}

} // verus!
