//! The per-user directories that the operating system reports.
use vstd::prelude::*;

use crate::platform::UserDir;

verus! {

/// Relies on `dirs::data_local_dir`: the user's local application data
/// directory, `None` when it is unknown or not valid UTF-8. It depends on
/// the environment, so nothing is stated of it.
#[verifier::external_body]
fn data_local_dir() -> (r: Option<String>) {
    dirs::data_local_dir().and_then(|d| d.into_os_string().into_string().ok())
}

/// Relies on `dirs::home_dir`: the user's home directory, `None` when it is
/// unknown or not valid UTF-8. It depends on the environment, so nothing is
/// stated of it.
#[verifier::external_body]
fn home_dir() -> (r: Option<String>) {
    dirs::home_dir().and_then(|d| d.into_os_string().into_string().ok())
}

/// The per-user directory `dir` of this machine, as the answer to a
/// directory query expects it.
pub fn user_directory(dir: UserDir) -> (r: Option<String>) {
    match dir {
        UserDir::LocalData => data_local_dir(),
        UserDir::Home => home_dir(),
    }
}

} // verus!
