//! Locates the installation directory of the supported editors.
//!
//! The search is a verified state machine: a [`Resolver`] names each
//! registry, directory or file probe it needs as a [`Query`], takes the
//! answer as a [`Reply`], and finishes with the first candidate directory of
//! its plan whose marker file exists.
pub mod detect;
pub mod environment;
pub mod plan;
pub mod platform;
pub mod query;
pub mod resolver;
pub mod search;
pub mod text;

pub use detect::{
    detect_macos, detect_windows, detect_windsurf_macos, detect_windsurf_windows,
    is_valid_antigravity_path, is_valid_windsurf_path,
};
pub use environment::user_directory;
pub use platform::{Application, Hive, Platform, UserDir};
pub use query::{Query, Reply, Step};
pub use resolver::Resolver;
