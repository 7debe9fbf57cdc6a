//! What reading a configuration file comes to.

use crate::config::types::ConfigFile;
use crate::text::{concat, concat3};
use vstd::prelude::*;

verus! {

/// Why a configuration file was not loaded.
#[derive(Debug, Clone)]
pub enum ConfigLoadError {
    /// The file is there but is not valid.
    ParseFailed {
        /// Its path.
        path: String,
        /// What is wrong with it.
        source: String,
    },
}

impl ConfigLoadError {
    /// What the error says to the user.
    pub open spec fn says(self) -> Seq<char> {
        match self {
            ConfigLoadError::ParseFailed { path, source } => "failed to parse "@ + path@ + ": "@
                + source@,
        }
    }

    /// What the error says to the user.
    pub fn message(&self) -> (r: String)
        ensures
            r@ == self.says(),
    {
        match self {
            ConfigLoadError::ParseFailed { path, source } => {
                let head = concat3("failed to parse ", path.as_str(), ": ");
                concat(head.as_str(), source.as_str())
            },
        }
    }
}

/// The configuration of the file `path`, of which `parsed` was read. A file that is not there
/// has the stock settings `stock`; one that is there but not valid is an error, so that no
/// setting of its is ever replaced by a stock one.
pub fn try_load_config_file(
    path: &str,
    parsed: Option<Result<ConfigFile, String>>,
    stock: ConfigFile,
) -> (r: Result<ConfigFile, ConfigLoadError>)
    ensures
        match parsed {
            None => r == Ok::<ConfigFile, ConfigLoadError>(stock),
            Some(Ok(file)) => r == Ok::<ConfigFile, ConfigLoadError>(file),
            Some(Err(why)) => r matches Err(ConfigLoadError::ParseFailed { path: p, source }) && p@
                == path@ && source == why,
        },
{
    match parsed {
        None => Ok(stock),
        Some(Ok(file)) => Ok(file),
        Some(Err(why)) => Err(ConfigLoadError::ParseFailed { path: path.to_owned(), source: why }),
    }
}

/// The configuration of a file that is only listed: a file that is not valid counts as one
/// that is not there, with a warning.
pub fn load_config_file(loaded: Result<ConfigFile, ConfigLoadError>, stock: ConfigFile) -> (r: (
    ConfigFile,
    Option<String>,
))
    ensures
        match loaded {
            Ok(file) => r == (file, None::<String>),
            Err(e) => r.0 == stock && (r.1 matches Some(w) && w@ == "Warning: "@ + e.says()),
        },
{
    match loaded {
        Ok(file) => (file, None),
        Err(e) => {
            let why = e.message();
            (stock, Some(concat("Warning: ", why.as_str())))
        },
    }
}

} // verus!
