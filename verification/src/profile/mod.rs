//! Isolated profiles: their names, where they live, which one is active, and what the
//! operations on them do to the disk.

pub mod carry;
pub mod copy;
pub mod launch;
pub mod name;
pub mod ops;

pub use copy::{copy_tree_filtered, is_secret_entry, CopyStep, Node};
pub use launch::{
    activate_for_launch, active_pointer_path, active_profile_name, is_active, profile_dir,
    profile_exists, profile_flag_from_args, profiles_root, read_active_pointer, selected_profile,
    EntryKind, Launch, ProfilesDisk,
};
pub use name::{validate_profile_name, ProfileError, MAX_PROFILE_NAME_LEN};
pub use ops::{
    create_profile, delete_profile, delete_profile_dir, export_profile, import_profile,
    list_profiles, rename_profile, set_active_profile, Deletion, Export, FileWrite, NewProfile,
    ProfileOpError, Renaming, SourceKind,
};
