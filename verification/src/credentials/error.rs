//! Errors of credential storage.

use vstd::prelude::*;

use crate::text::concat;

verus! {

/// Why a credentials store failed.
#[derive(Debug)]
pub enum CredentialsError {
    /// Reading or writing a file failed, with the reason.
    Io(String),
    /// The document is not valid TOML, with the reason.
    TomlParse(String),
    /// The document cannot be written as TOML, with the reason.
    TomlSerialize(String),
    /// The OS keyring failed, with the reason.
    Keyring(String),
    /// The backend cannot be used, with the reason.
    BackendUnavailable(String),
}

impl CredentialsError {
    /// What the error says to the user.
    pub open spec fn says(self) -> Seq<char> {
        match self {
            CredentialsError::Io(why) => "io error: "@ + why@,
            CredentialsError::TomlParse(why) => "toml parse error: "@ + why@,
            CredentialsError::TomlSerialize(why) => "toml serialize error: "@ + why@,
            CredentialsError::Keyring(why) => "keyring error: "@ + why@,
            CredentialsError::BackendUnavailable(why) => "backend not available: "@ + why@,
        }
    }

    /// What the error says to the user.
    pub fn message(&self) -> (r: String)
        ensures
            r@ == self.says(),
    {
        match self {
            CredentialsError::Io(why) => concat("io error: ", why.as_str()),
            CredentialsError::TomlParse(why) => concat("toml parse error: ", why.as_str()),
            CredentialsError::TomlSerialize(why) => concat("toml serialize error: ", why.as_str()),
            CredentialsError::Keyring(why) => concat("keyring error: ", why.as_str()),
            CredentialsError::BackendUnavailable(why) => concat(
                "backend not available: ",
                why.as_str(),
            ),
        }
    }

    /// Whether the error says that the backend cannot be used because of `why`.
    pub open spec fn is_unavailable(self, why: Seq<char>) -> bool {
        self matches CredentialsError::BackendUnavailable(w) && w@ == why
    }
}

} // verus!
