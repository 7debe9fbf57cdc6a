//! Where profiles live and which one a launch activates.

use vstd::prelude::*;

use crate::config::paths::{join_path, joined};
use crate::profile::name::{refusal, validate_profile_name, ProfileError};
use crate::quote::{quote, quoted};
use crate::replica::opt_text;
use crate::table::StrMap;
use crate::text::{
    ascii_lower, ascii_lowercase, chars_of, concat, concat3, same_text, slice_of, starts_with,
    string_of, trim, trimmed,
};

verus! {

/// Whether `c` is a control character.
pub open spec fn is_control(c: char) -> bool {
    c <= '\u{1f}' || ('\u{7f}' <= c && c <= '\u{9f}')
}

/// Whether an explicit root is used: it is not empty, absolute and free of control
/// characters.
pub open spec fn root_is_usable(custom: Seq<char>, is_absolute: bool) -> bool {
    &&& custom.len() > 0
    &&& forall|i: int| 0 <= i < custom.len() ==> !is_control(#[trigger] custom[i])
    &&& is_absolute
}

/// The directory that holds the profiles.
pub open spec fn root_of(
    custom: Option<Seq<char>>,
    is_absolute: bool,
    os_config_root: Option<Seq<char>>,
    current_dir: Option<Seq<char>>,
) -> Seq<char> {
    match custom {
        Some(c) if root_is_usable(c, is_absolute) => c,
        _ => joined(
            match os_config_root {
                Some(dir) => dir,
                None => match current_dir {
                    Some(dir) => dir,
                    None => "."@,
                },
            },
            "genesis-core-profiles"@,
        ),
    }
}

/// The characters of an optional string slice.
pub open spec fn slice_text(o: Option<&str>) -> Option<Seq<char>> {
    match o {
        Some(s) => Some(s@),
        None => None,
    }
}

/// The directory that holds the profiles: the value of `GENESIS_PROFILES_ROOT` where it is
/// usable, else a directory beside the default home. `GENESIS_HOME` has no part in it.
pub fn profiles_root(
    custom: Option<&str>,
    is_absolute: bool,
    os_config_root: Option<&str>,
    current_dir: Option<&str>,
) -> (r: String)
    ensures
        r@ == root_of(
            slice_text(custom),
            is_absolute,
            slice_text(os_config_root),
            slice_text(current_dir),
        ),
{
    if let Some(c) = custom {
        let cs = chars_of(c);
        let mut i: usize = 0;
        while i < cs.len() && !(cs[i] <= '\u{1f}' || ('\u{7f}' <= cs[i] && cs[i] <= '\u{9f}'))
            invariant
                i <= cs@.len(),
                forall|j: int| 0 <= j < i ==> !is_control(#[trigger] cs@[j]),
            decreases cs.len() - i,
        {
            i = i + 1;
        }
        proof {
            if i < cs@.len() {
                assert(is_control(cs@[i as int]));
            }
        }
        if i == cs.len() && cs.len() > 0 && is_absolute {
            return c.to_owned();
        }
    }
    let base = match os_config_root {
        Some(dir) => dir,
        None => match current_dir {
            Some(dir) => dir,
            None => ".",
        },
    };
    join_path(base, "genesis-core-profiles")
}

/// The directory of the profile `name` below `root`. Names that differ in letter case alone
/// have one directory.
pub fn profile_dir(root: &str, name: &str) -> (r: Result<String, ProfileError>)
    ensures
        match r {
            Ok(dir) => refusal(name@) is None && dir@ == joined(root@, ascii_lower(name@)),
            Err(ProfileError::InvalidName { name: n, reason }) => n@ == name@ && refusal(name@)
                == Some(reason@),
        },
{
    match validate_profile_name(name) {
        Ok(_) => Ok(join_path(root, ascii_lowercase(name).as_str())),
        Err(e) => Err(e),
    }
}

/// The directory of a profile is a direct child of the root.
pub proof fn law_profile_dir_is_child_of_root(root: Seq<char>, name: Seq<char>)
    requires
        refusal(name) is None,
        root.len() > 0,
    ensures
        joined(root, ascii_lower(name)) == if root.last() == '/' {
            root + ascii_lower(name)
        } else {
            root + "/"@ + ascii_lower(name)
        },
        forall|i: int| 0 <= i < name.len() ==> (#[trigger] ascii_lower(name)[i]) != '/',
{
    crate::profile::name::law_lowercase_name_is_valid(name);
    crate::profile::name::law_valid_name_is_one_component(ascii_lower(name));
    assert(ascii_lower(name)[0] != '/');
}

/// The file that names the active profile.
pub fn active_pointer_path(root: &str) -> (r: String)
    ensures
        r@ == joined(root@, "active"@),
{
    join_path(root, "active")
}

/// The name in the active-profile file: its content without the white space around it, none
/// where the file is missing or blank.
pub open spec fn pointed(content: Option<Seq<char>>) -> Option<Seq<char>> {
    match content {
        Some(c) if trimmed(c).len() > 0 => Some(trimmed(c)),
        _ => None,
    }
}

/// The name in the active-profile file with this content.
pub fn read_active_pointer(content: Option<&str>) -> (r: Option<String>)
    ensures
        opt_text(r) == pointed(slice_text(content)),
{
    match content {
        Some(c) => {
            let name = trim(c);
            if name.as_str().is_empty() {
                None
            } else {
                Some(name)
            }
        },
        None => None,
    }
}

/// The active profile, in lowercase.
pub open spec fn active_name(content: Option<Seq<char>>) -> Option<Seq<char>> {
    match pointed(content) {
        Some(name) => Some(ascii_lower(name)),
        None => None,
    }
}

/// The active profile, in lowercase.
pub fn active_profile_name(content: Option<&str>) -> (r: Option<String>)
    ensures
        opt_text(r) == active_name(slice_text(content)),
{
    match read_active_pointer(content) {
        Some(name) => Some(ascii_lowercase(name.as_str())),
        None => None,
    }
}

/// Whether `name` is the active profile.
pub open spec fn names_active(name: Seq<char>, content: Option<Seq<char>>) -> bool {
    refusal(name) is None && active_name(content) == Some(ascii_lower(name))
}

/// Whether `name` is the active profile.
pub fn is_active(name: &str, content: Option<&str>) -> (r: bool)
    ensures
        r == names_active(name@, slice_text(content)),
{
    match validate_profile_name(name) {
        Ok(_) => match active_profile_name(content) {
            Some(active) => same_text(active.as_str(), ascii_lowercase(name).as_str()),
            None => false,
        },
        Err(_) => false,
    }
}

/// The value of the first `--profile` option among `args`, before any `--`.
pub open spec fn flag_value(args: Seq<String>) -> Option<Seq<char>>
    decreases args.len(),
{
    if args.len() == 0 || args[0]@ == "--"@ {
        None
    } else if "--profile="@.is_prefix_of(args[0]@) {
        Some(args[0]@.skip("--profile="@.len() as int))
    } else if args[0]@ == "--profile"@ {
        if args.len() > 1 {
            Some(args[1]@)
        } else {
            None
        }
    } else {
        flag_value(args.drop_first())
    }
}

/// The value of the first `--profile` option on a command line, whose first word is the
/// program.
pub fn profile_flag_from_args(args: &Vec<String>) -> (r: Option<String>)
    ensures
        opt_text(r) == if args@.len() == 0 {
            None
        } else {
            flag_value(args@.drop_first())
        },
{
    if args.len() == 0 {
        return None;
    }
    let ghost goal = flag_value(args@.drop_first());
    let mut i: usize = 1;
    proof {
        assert(args@.skip(1) =~= args@.drop_first());
        reveal_strlit("--profile=");
    }
    while i < args.len()
        invariant
            1 <= i <= args@.len(),
            "--profile="@.len() == 10,
            goal == flag_value(args@.drop_first()),
            goal == flag_value(args@.skip(i as int)),
        decreases args.len() - i,
    {
        let arg = args[i].as_str();
        proof {
            assert(args@.skip(i as int)[0] == args@[i as int]);
            assert(args@.skip(i as int).drop_first() =~= args@.skip(i as int + 1));
        }
        if same_text(arg, "--") {
            return None;
        }
        let cs = chars_of(arg);
        if starts_with(&cs, "--profile=") {
            proof {
                assert(cs@.subrange(10, cs@.len() as int) =~= cs@.skip(10));
            }
            return Some(string_of(&slice_of(&cs, 10, cs.len())));
        }
        if same_text(arg, "--profile") {
            proof {
                if i + 1 < args@.len() {
                    assert(args@.skip(i as int)[1] == args@[i as int + 1]);
                }
            }
            return if i + 1 < args.len() {
                Some(args[i + 1].clone())
            } else {
                None
            };
        }
        i = i + 1;
    }
    None
}

/// An entry of the profiles root.
#[derive(Debug, Clone, Copy, PartialEq, Eq, Structural)]
pub enum EntryKind {
    /// A directory.
    Directory,
    /// A link to a directory. It stands for a profile but is not listed as one.
    DirectoryLink,
    /// Anything else.
    Other,
}

/// The profiles root as it was found.
pub struct ProfilesDisk {
    /// The path of the root.
    pub root: String,
    /// Its entries.
    pub entries: StrMap<EntryKind>,
    /// The content of the active-profile file, if it can be read.
    pub pointer: Option<String>,
}

impl ProfilesDisk {
    /// Whether the root has an entry with this name.
    pub open spec fn has(self, entry: Seq<char>) -> bool {
        self.entries@.contains_key(entry)
    }

    /// Whether the root has a directory, or a link to one, with this name.
    pub open spec fn has_dir(self, entry: Seq<char>) -> bool {
        self.entries@.contains_key(entry) && !(self.entries@[entry] is Other)
    }

    /// Whether there is a profile with this name.
    pub open spec fn has_profile(self, name: Seq<char>) -> bool {
        refusal(name) is None && self.has_dir(ascii_lower(name))
    }

    /// The content of the active-profile file.
    pub open spec fn pointer_text(self) -> Option<Seq<char>> {
        opt_text(self.pointer)
    }

    /// Decides [`Self::has_dir`].
    pub fn is_dir(&self, entry: &str) -> (r: bool)
        ensures
            r == self.has_dir(entry@),
    {
        match self.entries.get(entry) {
            Some(EntryKind::Directory) => true,
            Some(EntryKind::DirectoryLink) => true,
            _ => false,
        }
    }

    /// The content of the active-profile file.
    pub fn pointer_content(&self) -> (r: Option<&str>)
        ensures
            slice_text(r) == self.pointer_text(),
    {
        match &self.pointer {
            Some(s) => Some(s.as_str()),
            None => None,
        }
    }
}

/// Whether there is a profile with this name.
pub fn profile_exists(name: &str, disk: &ProfilesDisk) -> (r: bool)
    ensures
        r == disk.has_profile(name@),
{
    match validate_profile_name(name) {
        Ok(_) => disk.is_dir(ascii_lowercase(name).as_str()),
        Err(_) => false,
    }
}

/// What a launch does about profiles.
pub enum Launch {
    /// The home stays what it is.
    Unchanged,
    /// This directory becomes the home.
    Home(String),
    /// The default home is used, with this warning.
    Warning(String),
}

/// The profile that a launch asks for: the option on the command line, else the active
/// profile.
pub open spec fn asked_for(args: Seq<String>, pointer: Option<Seq<char>>) -> Option<Seq<char>> {
    let flag = if args.len() == 0 {
        None
    } else {
        flag_value(args.drop_first())
    };
    match flag {
        Some(name) => Some(name),
        None => pointed(pointer),
    }
}

/// The profile that a launch asks for.
pub fn selected_profile(args: &Vec<String>, pointer: Option<&str>) -> (r: Option<String>)
    ensures
        opt_text(r) == asked_for(args@, slice_text(pointer)),
{
    match profile_flag_from_args(args) {
        Some(name) => Some(name),
        None => read_active_pointer(pointer),
    }
}

/// What a launch does about profiles. A home that is set already stays; a profile that is
/// asked for and there becomes the home; one that is not valid or not there is warned of.
pub fn activate_for_launch(home_set: bool, args: &Vec<String>, disk: &ProfilesDisk) -> (r: Launch)
    ensures
        ({
            let asked = asked_for(args@, disk.pointer_text());
            if home_set || asked is None {
                r is Unchanged
            } else {
                let name = asked->0;
                let dir = joined(disk.root@, ascii_lower(name));
                match refusal(name) {
                    Some(why) => r matches Launch::Warning(w) && w@
                        == "warning: ignoring invalid profile selection: invalid profile name "@
                        + quoted(name) + ": "@ + why,
                    None => if disk.has_dir(ascii_lower(name)) {
                        r matches Launch::Home(d) && d@ == dir
                    } else {
                        r matches Launch::Warning(w) && w@ == "warning: profile "@ + quoted(name)
                            + " not found at "@ + dir + " \u{2014} using the default home"@
                    },
                }
            }
        }),
{
    if home_set {
        return Launch::Unchanged;
    }
    let name = match selected_profile(args, disk.pointer_content()) {
        Some(name) => name,
        None => {
            return Launch::Unchanged;
        },
    };
    match profile_dir(disk.root.as_str(), name.as_str()) {
        Err(e) => {
            let text = e.message();
            let out = concat("warning: ignoring invalid profile selection: ", text.as_str());
            proof {
                reveal_strlit("warning: ignoring invalid profile selection: ");
                reveal_strlit("invalid profile name ");
                reveal_strlit("warning: ignoring invalid profile selection: invalid profile name ");
                assert("warning: ignoring invalid profile selection: "@ + "invalid profile name "@
                    =~= "warning: ignoring invalid profile selection: invalid profile name "@);
                let ProfileError::InvalidName { name: n, reason } = e;
                assert(out@
                    =~= "warning: ignoring invalid profile selection: invalid profile name "@
                    + quoted(name@) + ": "@ + reason@);
            }
            Launch::Warning(out)
        },
        Ok(dir) => if disk.is_dir(ascii_lowercase(name.as_str()).as_str()) {
            Launch::Home(dir)
        } else {
            let head = concat3("warning: profile ", quote(name.as_str()).as_str(), " not found at ");
            Launch::Warning(
                concat3(head.as_str(), dir.as_str(), " \u{2014} using the default home"),
            )
        },
    }
}

} // verus!
