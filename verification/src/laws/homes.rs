//! Profiles on disk: which names they may have, where they live, which one is in force, and what
//! copying one takes along.

use crate::config::paths::joined;
use crate::profile::copy::{
    entry_steps, is_secret, steps_of, tree_steps, without_secrets, CopyStep, Node, Step,
};
use crate::profile::launch::{
    active_name, asked_for, flag_value, names_active, pointed, root_of, ProfilesDisk,
};
use crate::profile::name::{is_device, refusal, stem, ProfileError};
use crate::profile::ops::{
    home_of, is_export, is_import, is_renaming, pointer_after, pointer_for, Export, ProfileOpError,
    Renaming, SourceKind,
};
use crate::quote::quoted;
use crate::text::{ascii_lower, lemma_until_is, trimmed};
use vstd::prelude::*;
use vstd::utf8::encode_utf8;

verus! {

/// A name is valid exactly where it has between one and 64 bytes of letters and digits of ASCII,
/// dots, underscores and hyphens, begins with neither a dot nor a hyphen, does not end with a dot,
/// is no device of Windows before its first dot, and is not `active`.
pub proof fn law_valid_names(name: Seq<char>)
    ensures
        refusal(name) is None <==> {
            &&& name.len() > 0
            &&& encode_utf8(name).len() <= 64
            &&& forall|i: int|
                0 <= i < name.len() ==> ('a' <= #[trigger] name[i] && name[i] <= 'z') || ('A'
                    <= name[i] && name[i] <= 'Z') || ('0' <= name[i] && name[i] <= '9') || name[i]
                    == '.' || name[i] == '_' || name[i] == '-'
            &&& name[0] != '.'
            &&& name[0] != '-'
            &&& name.last() != '.'
            &&& !is_device(stem(name))
            &&& ascii_lower(name) != "active"@
        },
{
    let plain = forall|i: int|
        0 <= i < name.len() ==> ('a' <= #[trigger] name[i] && name[i] <= 'z') || ('A' <= name[i]
            && name[i] <= 'Z') || ('0' <= name[i] && name[i] <= '9') || name[i] == '.' || name[i]
            == '_' || name[i] == '-';
    let strange = exists|i: int|
        0 <= i < name.len() && !crate::profile::name::is_name_char(#[trigger] name[i]);
    assert(plain == !strange) by {
        if strange {
            let i = choose|i: int|
                0 <= i < name.len() && !crate::profile::name::is_name_char(#[trigger] name[i]);
            assert(!(('a' <= name[i] && name[i] <= 'z') || ('A' <= name[i] && name[i] <= 'Z') || (
            '0' <= name[i] && name[i] <= '9') || name[i] == '.' || name[i] == '_' || name[i]
                == '-'));
        } else {
            assert forall|i: int| 0 <= i < name.len() implies ('a' <= #[trigger] name[i] && name[i]
                <= 'z') || ('A' <= name[i] && name[i] <= 'Z') || ('0' <= name[i] && name[i] <= '9')
                || name[i] == '.' || name[i] == '_' || name[i] == '-' by {
                assert(crate::profile::name::is_name_char(name[i]));
            }
        }
    }
    if name.len() > 0 && (forall|i: int| 0 <= i < name.len() ==> (#[trigger] name[i]) == '.') {
        assert(name[0] == '.');
    }
}

/// The devices of Windows: four names, and the ports `com` and `lpt` with a digit. What counts is
/// the part before the first dot, in whatever case.
pub proof fn law_devices(s: Seq<char>, head: Seq<char>, tail: Seq<char>)
    ensures
        s == "con"@ || s == "prn"@ || s == "aux"@ || s == "nul"@ ==> is_device(s),
        s.len() == 4 && s.take(3) == "com"@ && '0' <= s[3] && s[3] <= '9' ==> is_device(s),
        s.len() == 4 && s.take(3) == "lpt"@ && '0' <= s[3] && s[3] <= '9' ==> is_device(s),
        is_device(s) ==> s == "con"@ || s == "prn"@ || s == "aux"@ || s == "nul"@ || (s.len() == 4
            && (s.take(3) == "com"@ || s.take(3) == "lpt"@) && '0' <= s[3] && s[3] <= '9'),
        !head.contains('.') ==> stem(head + seq!['.'] + tail) == ascii_lower(head),
        !head.contains('.') ==> stem(head) == ascii_lower(head),
{
    reveal_strlit("com");
    reveal_strlit("lpt");
    if s.len() == 4 {
        assert(s.take(3)[0] == s[0] && s.take(3)[1] == s[1] && s.take(3)[2] == s[2]);
        if s[0] == 'c' && s[1] == 'o' && s[2] == 'm' {
            assert(s.take(3) =~= "com"@);
        }
        if s[0] == 'l' && s[1] == 'p' && s[2] == 't' {
            assert(s.take(3) =~= "lpt"@);
        }
    }
    if !head.contains('.') {
        let name = head + seq!['.'] + tail;
        let at = head.len() as int;
        assert forall|i: int| 0 <= i < at implies name[i] != '.' && head[i] != '.' by {
            assert(name[i] == head[i]);
            assert(head.contains(head[i]));
        }
        lemma_until_is(name, '.', at);
        lemma_until_is(head, '.', at);
        assert(name.take(at) =~= head);
        assert(head.take(at) =~= head);
    }
}

/// Why a name is refused: the first of these that holds of it.
pub proof fn law_refusals_are_explained(name: Seq<char>)
    ensures
        name.len() == 0 ==> refusal(name) == Some("name must not be empty"@),
        name.len() > 0 && encode_utf8(name).len() > 64 ==> refusal(name) == Some(
            "name too long (max 64 bytes)"@,
        ),
        name.len() > 0 && encode_utf8(name).len() <= 64 && (name.contains('/') || name.contains(
            '\\',
        ) || name.contains(' ') || name.contains(':')) ==> refusal(name) == Some(
            "only ASCII letters, digits, '.', '_', '-' are allowed"@,
        ),
        name == seq!['.'] || name == seq!['.', '.'] ==> encode_utf8(name).len() > 64
            || refusal(name)
            == Some("name must not be all dots ('.', '..')"@),
{
    if name.len() > 0 && encode_utf8(name).len() <= 64 && (name.contains('/') || name.contains('\\')
        || name.contains(' ') || name.contains(':')) {
        let i = choose|i: int|
            0 <= i < name.len() && (name[i] == '/' || name[i] == '\\' || name[i] == ' ' || name[i]
                == ':');
        assert(!crate::profile::name::is_name_char(name[i]));
    }
    if name == seq!['.'] || name == seq!['.', '.'] {
        assert forall|i: int| 0 <= i < name.len() implies crate::profile::name::is_name_char(
            #[trigger] name[i],
        ) && name[i] == '.' by {}
        assert(forall|i: int| 0 <= i < name.len() ==> (#[trigger] name[i]) == '.');
        assert(!exists|i: int|
            0 <= i < name.len() && !crate::profile::name::is_name_char(#[trigger] name[i]));
    }
}

/// Why a plain name is refused for its ends, as a device, or as the control plane's own.
pub proof fn law_plain_names_refused(name: Seq<char>)
    requires
        name.len() > 0,
        encode_utf8(name).len() <= 64,
        forall|i: int|
            0 <= i < name.len() ==> ('a' <= #[trigger] name[i] && name[i] <= 'z') || ('A' <= name[i]
                && name[i] <= 'Z') || ('0' <= name[i] && name[i] <= '9') || name[i] == '.'
                || name[i] == '_' || name[i] == '-',
        exists|i: int| 0 <= i < name.len() && (#[trigger] name[i]) != '.',
    ensures
        name[0] == '.' ==> refusal(name) == Some("name must not start with '.'"@),
        name[0] == '-' ==> refusal(name) == Some("name must not start with '-'"@),
        name[0] != '.' && name[0] != '-' && name.last() == '.' ==> refusal(name) == Some(
            "name must not end with '.'"@,
        ),
        name[0] != '.' && name[0] != '-' && name.last() != '.' && is_device(stem(name)) ==> refusal(
            name,
        ) == Some("name is a reserved device name on Windows"@),
        name[0] != '.' && name[0] != '-' && name.last() != '.' && !is_device(stem(name))
            && ascii_lower(name) == "active"@ ==> refusal(name) == Some(
            "name is reserved for the profiles control plane"@,
        ),
{
    assert forall|i: int| 0 <= i < name.len() implies crate::profile::name::is_name_char(
        #[trigger] name[i],
    ) by {}
}

/// The profiles' directory: the given one where it is absolute, not empty and free of control
/// characters, else `genesis-core-profiles` under the system's configuration directory, else under
/// the working directory.
pub proof fn law_profiles_directory(
    custom: Option<Seq<char>>,
    is_absolute: bool,
    os_config_root: Option<Seq<char>>,
    current_dir: Option<Seq<char>>,
)
    ensures
        ({
            let usable = custom is Some && custom->0.len() > 0 && is_absolute && forall|i: int|
                0 <= i < custom->0.len() ==> !((#[trigger] custom->0[i]) <= '\u{1f}' || ('\u{7f}'
                    <= custom->0[i] && custom->0[i] <= '\u{9f}'));
            let got = root_of(custom, is_absolute, os_config_root, current_dir);
            &&& usable ==> got == custom->0
            &&& !usable && os_config_root is Some ==> got == joined(
                os_config_root->0,
                "genesis-core-profiles"@,
            )
            &&& !usable && os_config_root is None && current_dir is Some ==> got == joined(
                current_dir->0,
                "genesis-core-profiles"@,
            )
            &&& !usable && os_config_root is None && current_dir is None ==> got == joined(
                "."@,
                "genesis-core-profiles"@,
            )
        }),
{
    if custom is Some {
        let c = custom->0;
        let clean = forall|i: int|
            0 <= i < c.len() ==> !((#[trigger] c[i]) <= '\u{1f}' || ('\u{7f}' <= c[i] && c[i]
                <= '\u{9f}'));
        let fit = forall|i: int|
            0 <= i < c.len() ==> !crate::profile::launch::is_control(#[trigger] c[i]);
        if clean {
            assert forall|i: int| 0 <= i < c.len() implies !crate::profile::launch::is_control(
                #[trigger] c[i],
            ) by {}
        }
        if fit {
            assert forall|i: int| 0 <= i < c.len() implies !((#[trigger] c[i]) <= '\u{1f}' || (
            '\u{7f}' <= c[i] && c[i] <= '\u{9f}')) by {
                assert(!crate::profile::launch::is_control(c[i]));
            }
        }
    }
}

/// The active profile is what its file says, without the blanks around it and in lower case; a
/// file that is not there or blank names none.
pub proof fn law_active_profile(content: Option<Seq<char>>, name: Seq<char>)
    ensures
        content is None ==> pointed(content) is None && active_name(content) is None,
        content is Some && trimmed(content->0).len() == 0 ==> pointed(content) is None
            && active_name(content) is None,
        content is Some && trimmed(content->0).len() > 0 ==> pointed(content) == Some(
            trimmed(content->0),
        ) && active_name(content) == Some(ascii_lower(trimmed(content->0))),
        names_active(name, content) <==> refusal(name) is None && content is Some && trimmed(
            content->0,
        ).len() > 0 && ascii_lower(trimmed(content->0)) == ascii_lower(name),
{
}

/// The profile flag of a command line: `--profile NAME` or `--profile=NAME`, the first of them that
/// stands before a bare `--`.
pub proof fn law_profile_flag(before: Seq<String>, flag: String, after: Seq<String>)
    requires
        forall|i: int|
            0 <= i < before.len() ==> (#[trigger] before[i])@ != "--"@ && before[i]@
                != "--profile"@ && !"--profile="@.is_prefix_of(before[i]@),
    ensures
        flag@ == "--"@ ==> flag_value(before + seq![flag] + after) is None,
        flag@ == "--profile"@ && after.len() > 0 ==> flag_value(before + seq![flag] + after)
            == Some(
            after[0]@,
        ),
        flag@ == "--profile"@ && after.len() == 0 ==> flag_value(before + seq![flag] + after)
            is None,
        "--profile="@.is_prefix_of(flag@) ==> flag_value(before + seq![flag] + after) == Some(
            flag@.skip(10),
        ),
        flag_value(before) is None,
    decreases before.len(),
{
    reveal_strlit("--");
    reveal_strlit("--profile");
    reveal_strlit("--profile=");
    assert("--"@.len() == 2);
    assert("--profile"@.len() == 9);
    assert("--profile="@.len() == 10);
    let all = before + seq![flag] + after;
    if before.len() > 0 {
        let rest = before.drop_first();
        assert forall|i: int| 0 <= i < rest.len() implies (#[trigger] rest[i])@ != "--"@ && rest[i]@
            != "--profile"@ && !"--profile="@.is_prefix_of(rest[i]@) by {
            assert(rest[i] == before[i + 1]);
        }
        law_profile_flag(rest, flag, after);
        assert(all[0] == before[0]);
        assert(all.drop_first() =~= rest + seq![flag] + after);
        assert(before[0]@ != "--"@);
    } else {
        assert(all[0] == flag);
        if after.len() > 0 {
            assert(all[1] == after[0]);
        }
    }
}

/// The flag is heard before the active profile's file; without the flag the file is.
pub proof fn law_flag_beats_the_file(args: Seq<String>, pointer: Option<Seq<char>>)
    ensures
        args.len() > 0 && flag_value(args.drop_first()) is Some ==> asked_for(args, pointer)
            == flag_value(args.drop_first()),
        args.len() == 0 || flag_value(args.drop_first()) is None ==> asked_for(args, pointer)
            == pointed(pointer),
{
}

/// A profile is there where its name is valid and a directory, or a link to one, has that name in
/// lower case. It lives under the profiles' directory.
pub proof fn law_profiles_on_disk(disk: ProfilesDisk, name: Seq<char>)
    ensures
        disk.has_profile(name) <==> refusal(name) is None && disk.entries@.contains_key(
            ascii_lower(name),
        ) && (disk.entries@[ascii_lower(name)] is Directory || disk.entries@[ascii_lower(name)]
            is DirectoryLink),
        disk.has(name) <==> disk.entries@.contains_key(name),
        home_of(disk, name) == joined(disk.root@, ascii_lower(name)),
        pointer_for(name) == ascii_lower(name) + seq!['\n'],
        disk.pointer is Some ==> disk.pointer_text() == Some(disk.pointer->0@),
        disk.pointer is None ==> disk.pointer_text() is None,
{
    reveal_strlit("\n");
    assert("\n"@ =~= seq!['\n']);
}

/// Renaming moves the profile's home to the new name's, unless the two names differ in case alone,
/// and points to the new name exactly where the old one was active.
pub proof fn law_renaming(
    plan: Renaming,
    old_name: Seq<char>,
    new_name: Seq<char>,
    disk: ProfilesDisk,
)
    requires
        is_renaming(plan, old_name, new_name, disk),
    ensures
        refusal(old_name) is None && refusal(new_name) is None,
        ascii_lower(old_name) == ascii_lower(new_name) ==> plan is Nothing,
        ascii_lower(old_name) != ascii_lower(new_name) ==> (plan matches Renaming::Move {
            from,
            to,
            repoint,
        } && from@ == joined(disk.root@, ascii_lower(old_name)) && to@ == joined(
            disk.root@,
            ascii_lower(new_name),
        ) && !disk.entries@.contains_key(ascii_lower(new_name)) && (repoint is Some <==> (
        disk.pointer is Some && trimmed(disk.pointer->0@).len() > 0 && ascii_lower(
            trimmed(disk.pointer->0@),
        ) == ascii_lower(old_name))) && (repoint matches Some(w) ==> w.path@ == joined(
            disk.root@,
            "active"@,
        ) && w.content@ == ascii_lower(new_name) + seq!['\n'])),
        plan matches Renaming::Move { repoint: Some(w), .. } ==> pointer_after(
            plan,
            disk.pointer_text(),
        ) == Some(w.content@),
{
    reveal_strlit("\n");
    assert("\n"@ =~= seq!['\n']);
}

/// An export copies the profile's home, with its secrets only where they are asked for.
pub proof fn law_exports(
    r: Result<Export, ProfileOpError>,
    name: Seq<char>,
    include_secrets: bool,
    disk: ProfilesDisk,
)
    requires
        is_export(r, name, include_secrets, disk),
    ensures
        r is Ok <==> disk.has_profile(name),
        r matches Ok(e) ==> e.from@ == joined(disk.root@, ascii_lower(name)) && (e.skip_secrets
            <==> !include_secrets),
        r is Err && refusal(name) is Some ==> (r->Err_0 matches ProfileOpError::Name(
            ProfileError::InvalidName { name: n, reason },
        ) && n@ == name && Some(reason@) == refusal(name)),
        r is Err && refusal(name) is None ==> (r->Err_0 matches ProfileOpError::NotFound(n) && n@
            == ascii_lower(name)),
{
}

/// An import makes a new home of a directory: it is refused a name that is not valid or taken, and
/// a source that is no directory.
pub proof fn law_imports(
    r: Result<String, ProfileOpError>,
    name: Seq<char>,
    source: Seq<char>,
    kind: SourceKind,
    disk: ProfilesDisk,
)
    requires
        is_import(r, name, source, kind, disk),
    ensures
        r is Ok <==> refusal(name) is None && !disk.entries@.contains_key(ascii_lower(name))
            && kind is Directory,
        r matches Ok(dir) ==> dir@ == joined(disk.root@, ascii_lower(name)),
        refusal(name) is None && disk.entries@.contains_key(ascii_lower(name)) ==> (r matches Err(
            ProfileOpError::AlreadyExists(n),
        ) && n@ == ascii_lower(name)),
        refusal(name) is None && !disk.entries@.contains_key(ascii_lower(name)) && kind
            is Unresolved ==> (r matches Err(ProfileOpError::UnsafePath { path, reason }) && path@
            == source && reason@ == "source path does not exist or cannot be resolved"@),
        refusal(name) is None && !disk.entries@.contains_key(ascii_lower(name)) && kind
            is NotDirectory ==> (r matches Err(ProfileOpError::UnsafePath { path, reason }) && path@
            == source && reason@ == "import source must be a directory"@),
{
}

/// What is said of a profile operation that fails.
pub proof fn law_profile_failures_are_explained(e: ProfileOpError, p: ProfileError)
    ensures
        p matches ProfileError::InvalidName { name, reason } ==> p.says()
            == "invalid profile name "@
            + quoted(name@) + ": "@ + reason@,
        e matches ProfileOpError::Name(q) ==> e.says() == q.says(),
        e matches ProfileOpError::AlreadyExists(name) ==> e.says() == "profile "@ + quoted(name@)
            + " already exists"@,
        e matches ProfileOpError::NotFound(name) ==> e.says() == "profile "@ + quoted(name@)
            + " does not exist"@,
        e matches ProfileOpError::UnsafePath { path, reason } ==> e.says()
            == "refusing unsafe path "@ + quoted(path@) + ": "@ + reason@,
        e matches ProfileOpError::Io { op, source } ==> e.says() == op@ + " failed: "@ + source@,
{
}

/// The secrets of a profile: the login directory, the credentials file, and every file whose name
/// is that file's with something after a dot.
pub proof fn law_secret_entries(name: Seq<char>, rest: Seq<char>)
    ensures
        name == "oauth"@ ==> is_secret(name),
        name == "credentials"@ ==> is_secret(name),
        name == "credentials."@ + rest ==> is_secret(name),
        is_secret(name) ==> name == "oauth"@ || name == "credentials"@ || name == "credentials."@
            + name.skip(12),
{
    reveal_strlit("credentials.");
    assert("credentials."@.len() == 12);
    if name == "credentials."@ + rest {
        assert(name.subrange(0, 12) =~= "credentials."@);
    }
    if "credentials."@.is_prefix_of(name) {
        assert(name =~= "credentials."@ + name.skip(12));
    }
}

/// Copying one entry: a secret is passed over where secrets stay behind, a link always; a file is
/// copied to its own name; a directory is made and its entries are copied into it, secrets among
/// them included.
pub proof fn law_copying_an_entry(
    name: Seq<char>,
    node: Node,
    src: Seq<char>,
    dst: Seq<char>,
    skip_secrets: bool,
)
    ensures
        skip_secrets && is_secret(name) ==> entry_steps(name, node, src, dst, skip_secrets).len()
            == 0,
        node is Link ==> entry_steps(name, node, src, dst, skip_secrets).len() == 0,
        !(skip_secrets && is_secret(name)) && node is File ==> entry_steps(
            name,
            node,
            src,
            dst,
            skip_secrets,
        ) == seq![Step::Copy(joined(src, name), joined(dst, name))],
        !(skip_secrets && is_secret(name)) ==> (node matches Node::Dir(entries) ==> entry_steps(
            name,
            node,
            src,
            dst,
            skip_secrets,
        ) == seq![Step::Make(joined(dst, name))] + tree_steps(
            entries@,
            joined(src, name),
            joined(dst, name),
            false,
        )),
{
}

/// Copying the entries of a directory copies each in turn.
pub proof fn law_copying_entries_in_turn(
    entries: Seq<(String, Node)>,
    last: (String, Node),
    src: Seq<char>,
    dst: Seq<char>,
    skip_secrets: bool,
)
    ensures
        tree_steps(Seq::empty(), src, dst, skip_secrets).len() == 0,
        tree_steps(entries.push(last), src, dst, skip_secrets) == tree_steps(
            entries,
            src,
            dst,
            skip_secrets,
        ) + entry_steps(last.0@, last.1, src, dst, skip_secrets),
{
    assert(entries.push(last).drop_last() =~= entries);
}

/// Leaving secrets out keeps every other entry, in its order.
pub proof fn law_entries_without_secrets(entries: Seq<(String, Node)>, last: (String, Node))
    ensures
        is_secret(last.0@) ==> without_secrets(entries.push(last)) == without_secrets(entries),
        !is_secret(last.0@) ==> without_secrets(entries.push(last)) == without_secrets(
            entries,
        ).push(last),
{
    assert(entries.push(last).drop_last() =~= entries);
}

/// A step that is handed out stands for what it says: the directory to make, or the file to copy
/// and where to.
pub proof fn law_steps_say_what_they_do(list: Seq<CopyStep>, i: int)
    requires
        0 <= i < list.len(),
    ensures
        steps_of(list).len() == list.len(),
        list[i] matches CopyStep::MakeDir(path) ==> steps_of(list)[i] == Step::Make(path@),
        list[i] matches CopyStep::CopyFile { from, to } ==> steps_of(list)[i] == Step::Copy(
            from@,
            to@,
        ),
{
}

} // verus!
