//! Configuration from the environment: what to do with a value that was
//! looked up, and what to do without one.

use vstd::prelude::*;
use vstd::string::*;
use crate::error::BackendError;

verus! {

/// Name of the variable that holds the directory where games are installed.
pub const DEVCADE_PATH_VAR: &'static str = "DEVCADE_PATH";

/// Name of the variable that holds the URL of the API.
pub const DEVCADE_API_URL_VAR: &'static str = "DEVCADE_API_URL";

/// Directory where games are installed when the environment names none.
pub const DEFAULT_DEVCADE_PATH: &'static str = "/tmp/devcade";

/// The directory where games are installed, and how it was chosen.
#[derive(Debug, Clone, PartialEq, Eq)]
pub struct DevcadePath {
    /// The directory.
    pub path: String,
    /// The environment named none, so `path` is the default: the caller
    /// warns and stores the default under [`DEVCADE_PATH_VAR`].
    pub fell_back: bool,
}

/// The directory where games are installed: `configured`, the value of
/// [`DEVCADE_PATH_VAR`], where the lookup gave one, and
/// [`DEFAULT_DEVCADE_PATH`] otherwise.
pub fn devcade_path(configured: Option<String>) -> (chosen: DevcadePath)
    ensures
        configured matches Some(path) ==> chosen.path@ == path@ && !chosen.fell_back,
        configured is None ==> chosen.path@ == DEFAULT_DEVCADE_PATH@ && chosen.fell_back,
{
    match configured {
        Some(path) => DevcadePath { path, fell_back: false },
        None => DevcadePath { path: DEFAULT_DEVCADE_PATH.to_owned(), fell_back: true },
    }
}

/// The URL of the API: `configured`, the value of [`DEVCADE_API_URL_VAR`].
/// Nothing stands in for a missing one: that is a configuration error,
/// which is fatal.
pub fn api_url(configured: Option<String>) -> (url: Result<String, BackendError>)
    ensures
        configured matches Some(value) ==> url == Ok::<String, BackendError>(value),
        configured is None ==> url == Err::<String, BackendError>(BackendError::ConfigError),
{
    match configured {
        Some(value) => Ok(value),
        None => Err(BackendError::ConfigError),
    }
}

} // verus!
