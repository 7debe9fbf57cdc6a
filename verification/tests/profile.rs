use wcore_config::config::{genesis_config_dir, HomeFacts};
use wcore_config::profile::{
    activate_for_launch, active_pointer_path, active_profile_name, copy_tree_filtered,
    create_profile, delete_profile, delete_profile_dir, export_profile, import_profile, is_active,
    is_secret_entry, list_profiles, profile_dir, profile_exists, profile_flag_from_args,
    profiles_root, rename_profile, set_active_profile, validate_profile_name, CopyStep, EntryKind,
    Launch, Node, ProfileOpError, ProfilesDisk, Renaming, SourceKind, MAX_PROFILE_NAME_LEN,
};
use wcore_config::table::StrMap;

const ROOT: &str = "/tmp/p";

fn argv(parts: &[&str]) -> Vec<String> {
    parts.iter().map(|s| s.to_string()).collect()
}

fn rooted(dirs: &[&str], files: &[&str], pointer: Option<&str>) -> ProfilesDisk {
    let mut entries = StrMap::new();
    for d in dirs {
        entries.insert(d.to_string(), EntryKind::Directory);
    }
    for f in files {
        entries.insert(f.to_string(), EntryKind::Other);
    }
    ProfilesDisk {
        root: ROOT.to_string(),
        entries,
        pointer: pointer.map(|p| p.to_string()),
    }
}

fn create(disk: &mut ProfilesDisk, name: &str, base: Option<&str>) -> Result<String, ProfileOpError> {
    let made = create_profile(name, base, disk)?;
    let leaf = made.dir.rsplit('/').next().unwrap().to_string();
    disk.entries.insert(leaf, EntryKind::Directory);
    Ok(made.dir)
}

fn select(disk: &mut ProfilesDisk, name: &str) -> Result<(), ProfileOpError> {
    let write = set_active_profile(name, disk)?;
    assert_eq!(write.path, active_pointer_path(ROOT));
    disk.pointer = Some(write.content);
    Ok(())
}

fn active(disk: &ProfilesDisk) -> Option<String> {
    active_profile_name(disk.pointer_content())
}

fn copied(steps: &[CopyStep]) -> Vec<String> {
    steps
        .iter()
        .map(|s| match s {
            CopyStep::MakeDir(d) => d.clone(),
            CopyStep::CopyFile { to, .. } => to.clone(),
        })
        .collect()
}

fn dir(entries: Vec<(&str, Node)>) -> Vec<(String, Node)> {
    entries.into_iter().map(|(n, e)| (n.to_string(), e)).collect()
}

#[test]
fn accepts_reasonable_names() {
    for ok in [
        "work",
        "Work",
        "my-profile_2.test",
        "a",
        "client.acme",
        "x-1",
    ] {
        assert!(validate_profile_name(ok).is_ok(), "should accept {ok:?}");
    }
}

#[test]
fn rejects_traversal_and_separators() {
    for bad in [
        "", "..", ".", "...", "a/b", "a\\b", "../etc", "a\0b", "a b", "a:b", "foo.", "café",
        "a/../b", ".hidden", ".", "..foo", "-foo", "--help", "-",
    ] {
        assert!(validate_profile_name(bad).is_err(), "should reject {bad:?}");
    }
}

#[test]
fn rejects_control_plane_reserved_names() {
    for bad in ["active", "Active", "ACTIVE"] {
        assert!(
            validate_profile_name(bad).is_err(),
            "should reject control-plane name {bad:?}"
        );
    }
    assert!(validate_profile_name("active-work").is_ok());
}

#[test]
fn rejects_overlong_name() {
    let long = "a".repeat(MAX_PROFILE_NAME_LEN + 1);
    assert!(validate_profile_name(&long).is_err());
    let max = "a".repeat(MAX_PROFILE_NAME_LEN);
    assert!(validate_profile_name(&max).is_ok());
}

#[test]
fn rejects_windows_reserved_names_case_insensitively() {
    for bad in [
        "CON", "con", "Nul", "COM1", "lpt9", "aux", "con.txt", "NUL.cfg",
    ] {
        assert!(
            validate_profile_name(bad).is_err(),
            "should reject reserved {bad:?}"
        );
    }
    assert!(validate_profile_name("console").is_ok());
    assert!(validate_profile_name("com10").is_ok());
}

#[test]
fn profile_flag_parsing() {
    assert_eq!(
        profile_flag_from_args(&argv(&["wcore", "--profile", "work"])),
        Some("work".to_string())
    );
    assert_eq!(
        profile_flag_from_args(&argv(&["wcore", "--profile=work"])),
        Some("work".to_string())
    );
    assert_eq!(profile_flag_from_args(&argv(&["wcore", "run"])), None);
    assert_eq!(
        profile_flag_from_args(&argv(&["wcore", "--profile", "a", "--profile", "b"])),
        Some("a".to_string())
    );
    assert_eq!(
        profile_flag_from_args(&argv(&["wcore", "--", "--profile", "x"])),
        None
    );
    assert_eq!(profile_flag_from_args(&argv(&["--profile"])), None);
    assert_eq!(profile_flag_from_args(&argv(&["wcore", "--profile"])), None);
}

#[test]
fn is_secret_entry_classification() {
    assert!(is_secret_entry("credentials.toml"));
    assert!(is_secret_entry("credentials.enc"));
    assert!(is_secret_entry("credentials.kdf.json"));
    assert!(is_secret_entry("credentials"));
    assert!(is_secret_entry("oauth"));
    assert!(!is_secret_entry("config.toml"));
    assert!(!is_secret_entry("credentials-notes"));
    assert!(!is_secret_entry("oauth-helper"));
    assert!(!is_secret_entry("memory"));
}

#[test]
fn profiles_root_honors_explicit_override() {
    let at = |custom, is_absolute| {
        profiles_root(custom, is_absolute, Some("/home/u/.config"), Some("/work"))
    };
    assert_eq!(at(Some("/tmp/custom-profiles"), true), "/tmp/custom-profiles");
    assert_ne!(at(Some("/tmp/bad\nroot"), true), "/tmp/bad\nroot");
    let r = at(Some("relative/profiles"), false);
    assert_ne!(r, "relative/profiles");
    assert!(r.starts_with('/'), "default profiles_root should be absolute");
}

#[test]
fn profiles_root_ignores_genesis_home() {
    let isolated = "/tmp/some-isolated-home";
    let homes = |genesis_home: Option<&str>| HomeFacts {
        genesis_home: genesis_home.map(|h| h.to_string()),
        xdg_data_home: None,
        os_config_dir: Some("/home/u/.config".to_string()),
        home_dir: Some("/home/u".to_string()),
        current_dir: Some("/work".to_string()),
    };
    let root = |f: HomeFacts| {
        profiles_root(None, false, f.os_config_dir.as_deref(), f.current_dir.as_deref())
    };
    let without = root(homes(None));
    let with = root(homes(Some(isolated)));
    assert_eq!(without, with, "profiles_root must not depend on GENESIS_HOME");
    assert!(
        !with.starts_with(isolated),
        "profiles_root must never resolve inside a profile home"
    );
    assert_eq!(genesis_config_dir(&homes(Some(isolated))), isolated);
}

#[test]
fn profile_dir_case_folds_to_same_path() {
    let upper = profile_dir(ROOT, "Work").unwrap();
    let lower = profile_dir(ROOT, "work").unwrap();
    assert_eq!(upper, lower, "Work and work must map to the same directory");
    assert_eq!(lower, "/tmp/p/work");
}

#[test]
fn profile_dir_rejects_invalid_name() {
    assert!(profile_dir(ROOT, "../escape").is_err());
    assert!(profile_dir(ROOT, "a/b").is_err());
}

#[test]
fn active_pointer_is_under_root_not_in_a_home() {
    assert_eq!(active_pointer_path(ROOT), "/tmp/p/active");
}

#[test]
fn activate_respects_existing_genesis_home() {
    let disk = rooted(&["work"], &[], None);
    let launch = activate_for_launch(true, &argv(&["wcore", "--profile", "work"]), &disk);
    assert!(matches!(launch, Launch::Unchanged));
}

#[test]
fn activate_sets_home_from_profile_flag() {
    let disk = rooted(&["work"], &[], None);
    match activate_for_launch(false, &argv(&["wcore", "--profile", "Work"]), &disk) {
        Launch::Home(dir) => assert_eq!(dir, "/tmp/p/work"),
        _ => panic!("the profile exists"),
    }
}

#[test]
fn activate_reads_pointer_when_no_flag() {
    let disk = rooted(&["work"], &["active"], Some("work\n"));
    match activate_for_launch(false, &argv(&["wcore"]), &disk) {
        Launch::Home(dir) => assert_eq!(dir, "/tmp/p/work"),
        _ => panic!("the profile exists"),
    }
}

#[test]
fn activate_flag_wins_over_pointer() {
    let disk = rooted(&["flagged", "pointed"], &["active"], Some("pointed"));
    match activate_for_launch(false, &argv(&["wcore", "--profile", "flagged"]), &disk) {
        Launch::Home(dir) => assert_eq!(dir, "/tmp/p/flagged"),
        _ => panic!("the profile exists"),
    }
}

#[test]
fn activate_falls_through_on_missing_dir() {
    let disk = rooted(&[], &[], None);
    let launch = activate_for_launch(false, &argv(&["wcore", "--profile", "ghost"]), &disk);
    assert!(matches!(launch, Launch::Warning(_)));
}

#[test]
fn activate_falls_through_on_invalid_name() {
    let disk = rooted(&[], &[], None);
    let launch = activate_for_launch(false, &argv(&["wcore", "--profile", "../escape"]), &disk);
    assert!(matches!(launch, Launch::Warning(_)));
}

#[test]
fn create_lists_and_exists() {
    let mut disk = rooted(&[], &[], None);
    assert!(!profile_exists("work", &disk));
    assert!(create_profile("work", None, &disk).ok().unwrap().marker.is_none());
    let dir = create(&mut disk, "work", None).unwrap();
    assert_eq!(dir, "/tmp/p/work");
    assert!(profile_exists("Work", &disk));

    create(&mut disk, "client.acme", None).unwrap();
    assert_eq!(list_profiles(disk.entries), vec!["client.acme", "work"]);
}

#[test]
fn create_rejects_duplicate_and_invalid() {
    let mut disk = rooted(&[], &[], None);
    create(&mut disk, "work", None).unwrap();
    assert!(matches!(
        create(&mut disk, "Work", None),
        Err(ProfileOpError::AlreadyExists(_))
    ));
    assert!(matches!(
        create(&mut disk, "../escape", None),
        Err(ProfileOpError::Name(_))
    ));
}

#[test]
fn create_with_base_writes_marker_and_never_copies_secrets() {
    let disk = rooted(&["base"], &[], None);
    let made = create_profile("child", Some("base"), &disk).ok().unwrap();
    assert_eq!(made.dir, "/tmp/p/child");
    assert_eq!(made.marker.as_deref(), Some("base = \"base\"\n"));
}

#[test]
fn create_with_missing_base_errors_and_leaves_nothing() {
    let disk = rooted(&[], &[], None);
    assert!(matches!(
        create_profile("child", Some("ghost"), &disk),
        Err(ProfileOpError::NotFound(_))
    ));
}

#[test]
fn list_skips_pointer_and_nondirs() {
    let disk = rooted(&["work", "..junk"], &["active", "README"], Some("work\n"));
    assert_eq!(list_profiles(disk.entries), vec!["work"]);
}

#[test]
fn linked_directory_is_a_profile_but_not_listed() {
    let mut disk = rooted(&["work"], &[], None);
    disk.entries.insert("linked".to_string(), EntryKind::DirectoryLink);
    assert!(profile_exists("linked", &disk));
    assert_eq!(list_profiles(disk.entries), vec!["work"]);
}

#[test]
fn set_clear_and_active_name_roundtrip() {
    let mut disk = rooted(&["work"], &[], None);
    assert_eq!(active(&disk), None);
    assert!(!is_active("work", disk.pointer_content()));

    select(&mut disk, "Work").unwrap();
    assert_eq!(active(&disk), Some("work".to_string()));
    assert!(is_active("work", disk.pointer_content()));
    assert!(is_active("WORK", disk.pointer_content()));

    disk.pointer = None;
    assert_eq!(active(&disk), None);
}

#[test]
fn set_active_refuses_missing_profile() {
    let mut disk = rooted(&[], &[], None);
    assert!(matches!(
        select(&mut disk, "ghost"),
        Err(ProfileOpError::NotFound(_))
    ));
    assert!(matches!(
        select(&mut disk, "../escape"),
        Err(ProfileOpError::Name(_))
    ));
}

#[test]
fn rename_moves_dir_and_repoints_active() {
    let mut disk = rooted(&["old"], &[], None);
    select(&mut disk, "old").unwrap();
    match rename_profile("old", "new", &disk) {
        Ok(Renaming::Move { from, to, repoint }) => {
            assert_eq!(from, "/tmp/p/old");
            assert_eq!(to, "/tmp/p/new");
            let write = repoint.expect("the active selection follows the rename");
            assert_eq!(write.path, "/tmp/p/active");
            assert_eq!(
                active_profile_name(Some(&write.content)),
                Some("new".to_string())
            );
        }
        _ => panic!("the directory moves"),
    }
}

#[test]
fn rename_errors_on_missing_and_conflict() {
    let disk = rooted(&["a", "b"], &[], None);
    assert!(matches!(
        rename_profile("ghost", "z", &disk),
        Err(ProfileOpError::NotFound(_))
    ));
    assert!(matches!(
        rename_profile("a", "b", &disk),
        Err(ProfileOpError::AlreadyExists(_))
    ));
    assert!(matches!(rename_profile("a", "A", &disk), Ok(Renaming::Nothing)));
}

#[test]
fn delete_dir_does_not_touch_pointer() {
    let mut disk = rooted(&["work"], &[], None);
    select(&mut disk, "work").unwrap();
    assert_eq!(delete_profile_dir("work", &disk).unwrap(), "/tmp/p/work");
    disk.entries.remove("work");
    assert_eq!(active(&disk), Some("work".to_string()));
    assert!(matches!(
        delete_profile_dir("work", &disk),
        Err(ProfileOpError::NotFound(_))
    ));
}

#[test]
fn delete_profile_clears_pointer_when_active() {
    let mut disk = rooted(&["work", "other", "temp"], &[], None);
    select(&mut disk, "work").unwrap();
    let deletion = delete_profile("work", &disk);
    assert!(deletion.clear_pointer, "active pointer cleared");
    assert_eq!(deletion.removal.unwrap(), "/tmp/p/work");

    select(&mut disk, "other").unwrap();
    let deletion = delete_profile("temp", &disk);
    assert!(!deletion.clear_pointer);
    assert_eq!(active(&disk), Some("other".to_string()));
}

#[test]
fn export_excludes_secrets_by_default() {
    let disk = rooted(&["work"], &[], None);
    let export = export_profile("work", false, &disk).ok().unwrap();
    let tree = dir(vec![
        ("config.toml", Node::File),
        ("credentials.toml", Node::File),
        ("credentials.enc", Node::File),
        ("oauth", Node::Dir(dir(vec![("t.json", Node::File)]))),
        ("memory", Node::Dir(dir(vec![("notes.md", Node::File)]))),
    ]);
    let steps = copy_tree_filtered(&tree, &export.from, "/out", export.skip_secrets);
    assert_eq!(
        copied(&steps),
        ["/out", "/out/config.toml", "/out/memory", "/out/memory/notes.md"]
    );
}

#[test]
fn export_include_secrets_copies_them() {
    let disk = rooted(&["work"], &[], None);
    let export = export_profile("work", true, &disk).ok().unwrap();
    let tree = dir(vec![("credentials.toml", Node::File)]);
    let steps = copy_tree_filtered(&tree, &export.from, "/out", export.skip_secrets);
    assert_eq!(copied(&steps), ["/out", "/out/credentials.toml"]);
    assert!(matches!(
        export_profile("ghost", true, &disk),
        Err(ProfileOpError::NotFound(_))
    ));
}

#[test]
fn import_creates_profile_from_tree() {
    let disk = rooted(&[], &[], None);
    let to = import_profile("imported", "/src", SourceKind::Directory, &disk).unwrap();
    assert_eq!(to, "/tmp/p/imported");
    let tree = dir(vec![
        ("config.toml", Node::File),
        ("skills", Node::Dir(dir(vec![("s.md", Node::File)]))),
    ]);
    let steps = copy_tree_filtered(&tree, "/src", &to, false);
    assert_eq!(
        copied(&steps),
        [
            "/tmp/p/imported",
            "/tmp/p/imported/config.toml",
            "/tmp/p/imported/skills",
            "/tmp/p/imported/skills/s.md"
        ]
    );
}

#[test]
fn import_rejects_existing_and_bad_source() {
    let disk = rooted(&["taken"], &[], None);
    assert!(matches!(
        import_profile("taken", "/src", SourceKind::Directory, &disk),
        Err(ProfileOpError::AlreadyExists(_))
    ));
    assert!(matches!(
        import_profile("fresh", "/src/does-not-exist", SourceKind::Unresolved, &disk),
        Err(ProfileOpError::UnsafePath { .. })
    ));
    assert!(matches!(
        import_profile("fresh", "/src/file", SourceKind::NotDirectory, &disk),
        Err(ProfileOpError::UnsafePath { .. })
    ));
}

#[test]
fn import_does_not_follow_symlinks() {
    let tree = dir(vec![("real.txt", Node::File), ("escape", Node::Link)]);
    let steps = copy_tree_filtered(&tree, "/src", "/tmp/p/safe", false);
    assert_eq!(copied(&steps), ["/tmp/p/safe", "/tmp/p/safe/real.txt"]);
}

#[test]
fn profile_errors_quote_the_name() {
    let disk = rooted(&["taken"], &[], None);
    let exists = create_profile("taken", None, &disk).err().unwrap();
    assert_eq!(exists.message(), "profile \"taken\" already exists");
    let missing = delete_profile_dir("gone", &disk).err().unwrap();
    assert_eq!(missing.message(), "profile \"gone\" does not exist");
    let name = validate_profile_name("a\tb").unwrap_err();
    assert!(name.message().contains("\"a\\tb\""), "{}", name.message());
    let failed = ProfileOpError::Io {
        op: "rename",
        source: "busy".to_string(),
    };
    assert_eq!(failed.message(), "rename failed: busy");
}

/// What stands at each path: a directory, or a file with its content.
type Paths = std::collections::BTreeMap<String, Option<String>>;

fn carry_out(paths: &mut Paths, steps: &[CopyStep]) {
    for step in steps {
        match step {
            CopyStep::MakeDir(dir) => {
                paths.insert(dir.clone(), None);
            }
            CopyStep::CopyFile { from, to } => {
                let content = paths[from].clone();
                paths.insert(to.clone(), content);
            }
        }
    }
}

#[test]
fn export_and_import_keep_the_tree() {
    let entries = vec![
        ("config.toml".to_string(), Node::File),
        ("credentials.toml".to_string(), Node::File),
        (
            "memory".to_string(),
            Node::Dir(vec![
                ("a".to_string(), Node::File),
                ("empty".to_string(), Node::Dir(vec![])),
            ]),
        ),
    ];
    let file = |s: &str| Some(s.to_string());
    let mut paths = Paths::new();
    paths.insert("/p/old/config.toml".to_string(), file("c"));
    paths.insert("/p/old/credentials.toml".to_string(), file("s"));
    paths.insert("/p/old/memory/a".to_string(), file("m"));
    carry_out(&mut paths, &copy_tree_filtered(&entries, "/p/old", "/p/old-export", false));
    carry_out(&mut paths, &copy_tree_filtered(&entries, "/p/old-export", "/p/new", false));
    let new: Vec<(&str, Option<&str>)> = paths
        .iter()
        .filter_map(|(k, v)| k.strip_prefix("/p/new/").map(|k| (k, v.as_deref())))
        .collect();
    assert_eq!(
        new,
        vec![
            ("config.toml", Some("c")),
            ("credentials.toml", Some("s")),
            ("memory", None),
            ("memory/a", Some("m")),
            ("memory/empty", None),
        ]
    );
}
