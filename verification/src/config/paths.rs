//! Locations of files.
//!
//! A path is a string with `/` between its parts. What the process finds in its
//! environment is handed in as [`HomeFacts`].

use crate::text::{chars_of, concat, concat3};
use vstd::prelude::*;

verus! {

/// What the environment says about directories.
#[derive(Debug, Clone)]
pub struct HomeFacts {
    /// `GENESIS_HOME`.
    pub genesis_home: Option<String>,
    /// `XDG_DATA_HOME`.
    pub xdg_data_home: Option<String>,
    /// The platform's configuration directory.
    pub os_config_dir: Option<String>,
    /// The user's home directory.
    pub home_dir: Option<String>,
    /// The current directory.
    pub current_dir: Option<String>,
}

/// The path `leaf` below the directory `dir`. An absolute `leaf` stands for itself.
pub open spec fn joined(dir: Seq<char>, leaf: Seq<char>) -> Seq<char> {
    if dir.len() == 0 || (leaf.len() > 0 && leaf[0] == '/') {
        leaf
    } else if dir.last() == '/' {
        dir + leaf
    } else {
        dir + "/"@ + leaf
    }
}

/// The path `leaf` below the directory `dir`. An absolute `leaf` stands for itself.
pub fn join_path(dir: &str, leaf: &str) -> (r: String)
    ensures
        r@ == joined(dir@, leaf@),
{
    let d = chars_of(dir);
    let l = chars_of(leaf);
    if d.len() == 0 || (l.len() > 0 && l[0] == '/') {
        leaf.to_owned()
    } else if d[d.len() - 1] == '/' {
        concat(dir, leaf)
    } else {
        concat3(dir, "/", leaf)
    }
}

/// The configuration directory: `GENESIS_HOME`, else below `XDG_DATA_HOME`, else
/// below the platform's configuration directory.
pub open spec fn config_dir(f: HomeFacts) -> Seq<char> {
    match f.genesis_home {
        Some(home) => home@,
        None => match f.xdg_data_home {
            Some(xdg) => joined(xdg@, "genesis-core"@),
            None => match f.os_config_dir {
                Some(dir) => joined(dir@, "genesis-core"@),
                None => joined("genesis-core"@, "genesis-core"@),
            },
        },
    }
}

/// The configuration directory: `GENESIS_HOME`, else below `XDG_DATA_HOME`, else
/// below the platform's configuration directory.
pub fn genesis_config_dir(f: &HomeFacts) -> (r: String)
    ensures
        r@ == config_dir(*f),
{
    if let Some(home) = &f.genesis_home {
        return home.clone();
    }
    if let Some(xdg) = &f.xdg_data_home {
        return join_path(xdg.as_str(), "genesis-core");
    }
    match &f.os_config_dir {
        Some(dir) => join_path(dir.as_str(), "genesis-core"),
        None => join_path("genesis-core", "genesis-core"),
    }
}

/// The configuration directory.
pub fn app_config_dir(f: &HomeFacts) -> (r: Option<String>)
    ensures
        r matches Some(dir) && dir@ == config_dir(*f),
{
    Some(genesis_config_dir(f))
}

/// Whether `c` is a control character.
pub open spec fn is_control(c: char) -> bool {
    c <= '\u{1f}' || ('\u{7f}' <= c && c <= '\u{9f}')
}

/// Whether some character of `s` is a control character.
pub open spec fn has_control(s: Seq<char>) -> bool {
    exists|i: int| 0 <= i < s.len() && is_control(#[trigger] s[i])
}

fn contains_control(s: &str) -> (r: bool)
    ensures
        r == has_control(s@),
{
    let cs = chars_of(s);
    let mut i: usize = 0;
    while i < cs.len()
        invariant
            i <= cs.len(),
            cs@ == s@,
            forall|j: int| 0 <= j < i ==> !is_control(#[trigger] cs@[j]),
        decreases cs.len() - i,
    {
        let c = cs[i];
        if c <= '\u{1f}' || ('\u{7f}' <= c && c <= '\u{9f}') {
            return true;
        }
        i = i + 1;
    }
    false
}

/// The profile home: `GENESIS_HOME` unless it holds a control character, else
/// `.genesis` below the home directory, the current directory, or nothing.
pub open spec fn home_of_profile(f: HomeFacts) -> Seq<char> {
    let fallback = match f.home_dir {
        Some(h) => joined(h@, ".genesis"@),
        None => match f.current_dir {
            Some(d) => joined(d@, ".genesis"@),
            None => ".genesis"@,
        },
    };
    match f.genesis_home {
        Some(home) => if has_control(home@) {
            fallback
        } else {
            home@
        },
        None => fallback,
    }
}

/// The profile home: `GENESIS_HOME` unless it holds a control character, else
/// `.genesis` below the home directory, the current directory, or nothing.
pub fn profile_home(f: &HomeFacts) -> (r: String)
    ensures
        r@ == home_of_profile(*f),
{
    if let Some(home) = &f.genesis_home {
        if !contains_control(home.as_str()) {
            return home.clone();
        }
    }
    match &f.home_dir {
        Some(h) => join_path(h.as_str(), ".genesis"),
        None => match &f.current_dir {
            Some(d) => join_path(d.as_str(), ".genesis"),
            None => ".genesis".to_owned(),
        },
    }
}

/// The global configuration file.
pub fn global_config_path(f: &HomeFacts) -> (r: String)
    ensures
        r@ == joined(config_dir(*f), "config.toml"@),
{
    join_path(genesis_config_dir(f).as_str(), "config.toml")
}

/// The file of the plaintext credentials store, beside the configuration file.
pub fn credentials_storage_path(f: &HomeFacts) -> (r: String)
    ensures
        r@ == joined(config_dir(*f), "credentials.toml"@),
{
    join_path(genesis_config_dir(f).as_str(), "credentials.toml")
}

/// The stock session directory.
pub fn default_session_dir(f: &HomeFacts) -> (r: String)
    ensures
        r@ == joined(config_dir(*f), "sessions"@),
{
    join_path(genesis_config_dir(f).as_str(), "sessions")
}

/// The stored ChatGPT login.
pub fn chatgpt_oauth_token_path(f: &HomeFacts) -> (r: String)
    ensures
        r@ == joined(joined(home_of_profile(*f), "oauth"@), "chatgpt.json"@),
{
    let dir = join_path(profile_home(f).as_str(), "oauth");
    join_path(dir.as_str(), "chatgpt.json")
}

/// The stored xAI login.
pub fn xai_oauth_token_path(f: &HomeFacts) -> (r: String)
    ensures
        r@ == joined(joined(home_of_profile(*f), "oauth"@), "xai.json"@),
{
    let dir = join_path(profile_home(f).as_str(), "oauth");
    join_path(dir.as_str(), "xai.json")
}

/// The dotenv file that is loaded at start-up, where `wayland_home` is the value of
/// `WAYLAND_HOME`.
pub open spec fn dotenv_path(wayland_home: Option<Seq<char>>, f: HomeFacts) -> Seq<char> {
    let dir = match wayland_home {
        Some(dir) => dir,
        None => match f.home_dir {
            Some(h) => joined(h@, ".wayland"@),
            None => ".wayland"@,
        },
    };
    joined(dir, ".env"@)
}

/// The dotenv file that is loaded at start-up: `.env` in the directory that `WAYLAND_HOME`
/// names, else in `.wayland` below the home directory.
pub fn wayland_env_path(wayland_home: Option<&str>, f: &HomeFacts) -> (r: String)
    ensures
        r@ == dotenv_path(
            match wayland_home {
                Some(dir) => Some(dir@),
                None => None,
            },
            *f,
        ),
{
    match wayland_home {
        Some(dir) => join_path(dir, ".env"),
        None => match &f.home_dir {
            Some(h) => join_path(join_path(h.as_str(), ".wayland").as_str(), ".env"),
            None => join_path(".wayland", ".env"),
        },
    }
}

/// The legacy settings file: below `GENESIS_HOME` when that is set, else below
/// `.genesis` in the home directory; nowhere without a home directory.
pub fn legacy_yaml_path(f: &HomeFacts) -> (r: Option<String>)
    ensures
        match f.genesis_home {
            Some(_) => r matches Some(p) && p@ == joined(config_dir(*f), "config.yaml"@),
            None => match f.home_dir {
                Some(h) => r matches Some(p) && p@ == joined(
                    joined(h@, ".genesis"@),
                    "config.yaml"@,
                ),
                None => r is None,
            },
        },
{
    if f.genesis_home.is_some() {
        return Some(join_path(genesis_config_dir(f).as_str(), "config.yaml"));
    }
    match &f.home_dir {
        Some(h) => {
            let dir = join_path(h.as_str(), ".genesis");
            Some(join_path(dir.as_str(), "config.yaml"))
        },
        None => None,
    }
}

/// The project configuration file of the current directory. The plain file is the
/// canonical form; the file in a directory counts only when it alone exists.
pub fn project_config_path(file_form_exists: bool, dir_form_exists: bool) -> (r: &'static str)
    ensures
        r@ == if dir_form_exists && !file_form_exists {
            ".genesis-core/config.toml"@
        } else {
            ".genesis-core.toml"@
        },
{
    if dir_form_exists && !file_form_exists {
        ".genesis-core/config.toml"
    } else {
        ".genesis-core.toml"
    }
}

/// The project file of a session: the plain file of the project directory, if one is given,
/// else that of the current directory.
pub fn project_file(
    project_dir: Option<&str>,
    file_form_exists: bool,
    dir_form_exists: bool,
) -> (r: String)
    ensures
        r@ == match project_dir {
            Some(dir) => joined(dir@, ".genesis-core.toml"@),
            None => if dir_form_exists && !file_form_exists {
                ".genesis-core/config.toml"@
            } else {
                ".genesis-core.toml"@
            },
        },
{
    match project_dir {
        Some(dir) => join_path(dir, ".genesis-core.toml"),
        None => project_config_path(file_form_exists, dir_form_exists).to_owned(),
    }
}

/// Setting `GENESIS_HOME` to a clean value makes it both the configuration directory and the
/// home of the profile.
pub proof fn law_genesis_home_rules(f: HomeFacts, home: String)
    requires
        f.genesis_home == Some(home),
        !has_control(home@),
    ensures
        config_dir(f) == home@,
        home_of_profile(f) == home@,
{
}

} // verus!
