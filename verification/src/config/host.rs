//! What the host tells about credentials: which variables and files count.

use crate::config::keys::{AwsFacts, ConnectionFacts, GcpFacts, KeySources};
use crate::config::paths::{
    chatgpt_oauth_token_path, home_of_profile, join_path, joined, xai_oauth_token_path, HomeFacts,
};
use crate::replica::opt_text;
use crate::table::StrMap;
use crate::text::{blank, is_blank, is_listed, listed};
use vstd::prelude::*;

verus! {

/// Whether the variable `name` is set and not empty.
pub open spec fn is_set(env: Map<Seq<char>, String>, name: Seq<char>) -> bool {
    env.contains_key(name) && env[name]@.len() > 0
}

fn set(env: &StrMap<String>, name: &str) -> (r: bool)
    ensures
        r == is_set(env@, name@),
{
    match env.get(name) {
        Some(v) => !v.as_str().is_empty(),
        None => false,
    }
}

/// A file of the AWS tools: the one that the variable `name` names, else `leaf` in `.aws`
/// below the home directory.
pub open spec fn aws_file(
    env: Map<Seq<char>, String>,
    home: Option<Seq<char>>,
    name: Seq<char>,
    leaf: Seq<char>,
) -> Option<Seq<char>> {
    if env.contains_key(name) {
        Some(env[name]@)
    } else {
        match home {
            Some(h) => Some(joined(joined(h, ".aws"@), leaf)),
            None => None,
        }
    }
}

fn find_aws_file(env: &StrMap<String>, home: &Option<String>, name: &str, leaf: &str) -> (r: Option<
    String,
>)
    ensures
        opt_text(r) == aws_file(env@, opt_text(*home), name@, leaf@),
{
    match env.get(name) {
        Some(path) => Some(path.clone()),
        None => match home {
            Some(h) => Some(join_path(join_path(h.as_str(), ".aws").as_str(), leaf)),
            None => None,
        },
    }
}

/// The application default credentials of GCP.
pub open spec fn gcp_file(home: Option<Seq<char>>) -> Option<Seq<char>> {
    match home {
        Some(h) => Some(joined(h, ".config/gcloud/application_default_credentials.json"@)),
        None => None,
    }
}

fn find_gcp_file(home: &Option<String>) -> (r: Option<String>)
    ensures
        opt_text(r) == gcp_file(opt_text(*home)),
{
    match home {
        Some(h) => Some(
            join_path(h.as_str(), ".config/gcloud/application_default_credentials.json"),
        ),
        None => None,
    }
}

/// The login of the Grok tool: below `GROK_HOME` unless that is blank, else below the home
/// directory.
pub open spec fn grok_file(env: Map<Seq<char>, String>, home: Option<Seq<char>>) -> Option<
    Seq<char>,
> {
    if env.contains_key("GROK_HOME"@) && !is_blank(env["GROK_HOME"@]@) {
        Some(joined(env["GROK_HOME"@]@, "auth.json"@))
    } else {
        match home {
            Some(h) => Some(joined(joined(h, ".grok"@), "auth.json"@)),
            None => None,
        }
    }
}

fn find_grok_file(env: &StrMap<String>, home: &Option<String>) -> (r: Option<String>)
    ensures
        opt_text(r) == grok_file(env@, opt_text(*home)),
{
    if let Some(dir) = env.get("GROK_HOME") {
        if !blank(dir.as_str()) {
            return Some(join_path(dir.as_str(), "auth.json"));
        }
    }
    match home {
        Some(h) => Some(join_path(join_path(h.as_str(), ".grok").as_str(), "auth.json")),
        None => None,
    }
}

/// The files whose existence tells about credentials.
pub open spec fn probed(env: Map<Seq<char>, String>, homes: HomeFacts) -> Seq<Option<Seq<char>>> {
    let home = opt_text(homes.home_dir);
    seq![
        aws_file(env, home, "AWS_SHARED_CREDENTIALS_FILE"@, "credentials"@),
        aws_file(env, home, "AWS_CONFIG_FILE"@, "config"@),
        gcp_file(home),
        grok_file(env, home),
        Some(joined(joined(home_of_profile(homes), "oauth"@), "chatgpt.json"@)),
        Some(joined(joined(home_of_profile(homes), "oauth"@), "xai.json"@)),
    ]
}

/// The texts of a list of optional strings.
pub open spec fn opt_texts(s: Seq<Option<String>>) -> Seq<Option<Seq<char>>> {
    s.map_values(|o: Option<String>| opt_text(o))
}

/// The files whose existence tells about credentials: the two shared files of AWS, the default
/// credentials of GCP, and the logins of the Grok tool, of ChatGPT and of xAI.
pub fn credential_files(env: &StrMap<String>, homes: &HomeFacts) -> (r: Vec<Option<String>>)
    ensures
        opt_texts(r@) == probed(env@, *homes),
{
    let r: Vec<Option<String>> = vec![
        find_aws_file(env, &homes.home_dir, "AWS_SHARED_CREDENTIALS_FILE", "credentials"),
        find_aws_file(env, &homes.home_dir, "AWS_CONFIG_FILE", "config"),
        find_gcp_file(&homes.home_dir),
        find_grok_file(env, &homes.home_dir),
        Some(chatgpt_oauth_token_path(homes)),
        Some(xai_oauth_token_path(homes)),
    ];
    proof {
        assert(opt_texts(r@) =~= probed(env@, *homes));
    }
    r
}

/// Whether the file `path` is one of those that exist.
pub open spec fn is_there(path: Option<Seq<char>>, existing: Seq<String>) -> bool {
    path matches Some(p) && listed(existing, p)
}

fn there(path: &Option<String>, existing: &Vec<String>) -> (r: bool)
    ensures
        r == is_there(opt_text(*path), existing@),
{
    match path {
        Some(p) => is_listed(existing, p.as_str()),
        None => false,
    }
}

/// `f` is what the variables `env`, the stored keys `stored` and the files `existing` tell.
pub open spec fn are_facts(
    f: ConnectionFacts,
    env: StrMap<String>,
    stored: StrMap<String>,
    homes: HomeFacts,
    existing: Seq<String>,
) -> bool {
    let e = env@;
    let files = probed(e, homes);
    &&& f.aws.access_key_id == is_set(e, "AWS_ACCESS_KEY_ID"@)
    &&& f.aws.secret_access_key == is_set(e, "AWS_SECRET_ACCESS_KEY"@)
    &&& f.aws.profile == is_set(e, "AWS_PROFILE"@)
    &&& f.aws.container_relative_uri == is_set(e, "AWS_CONTAINER_CREDENTIALS_RELATIVE_URI"@)
    &&& f.aws.container_full_uri == is_set(e, "AWS_CONTAINER_CREDENTIALS_FULL_URI"@)
    &&& f.aws.web_identity_token_file == is_set(e, "AWS_WEB_IDENTITY_TOKEN_FILE"@)
    &&& f.aws.credentials_file_exists == is_there(files[0], existing)
    &&& f.aws.config_file_exists == is_there(files[1], existing)
    &&& f.gcp.application_credentials == is_set(e, "GOOGLE_APPLICATION_CREDENTIALS"@)
    &&& f.gcp.default_credentials_exist == is_there(files[2], existing)
    &&& f.chatgpt_login == is_there(files[4], existing)
    &&& f.keys.xai_login == (is_there(files[5], existing) || is_there(files[3], existing))
    &&& f.keys.environment == env
    &&& f.keys.stored == stored
}

/// What the variables `env`, the stored keys `stored` and those of the [`credential_files`]
/// that exist tell about credentials.
pub fn connection_facts(
    env: StrMap<String>,
    stored: StrMap<String>,
    homes: &HomeFacts,
    existing: &Vec<String>,
) -> (r: ConnectionFacts)
    ensures
        are_facts(r, env, stored, *homes, existing@),
{
    let files = credential_files(&env, homes);
    proof {
        let texts = probed(env@, *homes);
        assert(opt_texts(files@).len() == 6);
        assert forall|i: int| 0 <= i < 6 implies opt_text(#[trigger] files@[i]) == texts[i] by {
            assert(opt_texts(files@)[i] == opt_text(files@[i]));
        }
    }
    let aws = AwsFacts {
        access_key_id: set(&env, "AWS_ACCESS_KEY_ID"),
        secret_access_key: set(&env, "AWS_SECRET_ACCESS_KEY"),
        profile: set(&env, "AWS_PROFILE"),
        container_relative_uri: set(&env, "AWS_CONTAINER_CREDENTIALS_RELATIVE_URI"),
        container_full_uri: set(&env, "AWS_CONTAINER_CREDENTIALS_FULL_URI"),
        web_identity_token_file: set(&env, "AWS_WEB_IDENTITY_TOKEN_FILE"),
        credentials_file_exists: there(&files[0], existing),
        config_file_exists: there(&files[1], existing),
    };
    let gcp = GcpFacts {
        application_credentials: set(&env, "GOOGLE_APPLICATION_CREDENTIALS"),
        default_credentials_exist: there(&files[2], existing),
    };
    let xai_login = there(&files[5], existing) || there(&files[3], existing);
    let chatgpt_login = there(&files[4], existing);
    ConnectionFacts {
        aws,
        gcp,
        chatgpt_login,
        keys: KeySources { stored, environment: env, xai_login },
    }
}

} // verus!
