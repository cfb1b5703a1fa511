//! The machines and applications the search knows about.
use vstd::prelude::*;

verus! {

/// The operating system the search runs on.
#[derive(Clone, Copy, Debug, PartialEq, Eq, Structural)]
pub enum Platform {
    Windows,
    MacOs,
    /// Any other system: nothing is searched there.
    Unsupported,
}

/// The editor whose installation is looked for.
#[derive(Clone, Copy, Debug, PartialEq, Eq, Structural)]
pub enum Application {
    Antigravity,
    Windsurf,
}

/// A root of the Windows registry.
#[derive(Clone, Copy, Debug, PartialEq, Eq, Structural)]
pub enum Hive {
    LocalMachine,
    CurrentUser,
}

/// A per-user directory that the operating system reports.
#[derive(Clone, Copy, Debug, PartialEq, Eq, Structural)]
pub enum UserDir {
    /// The per-user local application data directory.
    LocalData,
    /// The user's home directory.
    Home,
}

} // verus!
