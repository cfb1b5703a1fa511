//! The searches for each application, and their installation checks.
use vstd::prelude::*;

use crate::plan::{marker_file, marker_path};
use crate::platform::{Application, Platform};
use crate::query::{Query, QueryView};
use crate::resolver::Resolver;
use crate::search::World;

verus! {

/// The probe that decides whether `path` holds an Antigravity installation:
/// it does when the file this query names exists.
pub fn is_valid_antigravity_path(path: &str, p: Platform) -> (r: Query)
    ensures
        r@ == (QueryView::FileExists { path: marker_path(p, Application::Antigravity, path@) }),
{
    Query::FileExists { path: marker_file(p, Application::Antigravity, path) }
}

/// The probe that decides whether `path` holds a Windsurf installation: it
/// does when the file this query names exists.
pub fn is_valid_windsurf_path(path: &str, p: Platform) -> (r: Query)
    ensures
        r@ == (QueryView::FileExists { path: marker_path(p, Application::Windsurf, path@) }),
{
    Query::FileExists { path: marker_file(p, Application::Windsurf, path) }
}

/// The search for Antigravity on Windows: its uninstall keys under the
/// machine hive, then under the user hive, then the usual drive paths, then
/// the user's local programs directory.
pub fn detect_windows() -> (r: Resolver)
    ensures
        r.wf(),
        r.platform == Platform::Windows,
        r.app == Application::Antigravity,
        r.current == 0,
        forall|w: World| #[trigger] r.agrees(w),
{
    Resolver::new(Platform::Windows, Application::Antigravity)
}

/// The search for Windsurf on Windows: the user's uninstall entries whose
/// name mentions Windsurf, then the user's local programs directory, then
/// the usual drive paths.
pub fn detect_windsurf_windows() -> (r: Resolver)
    ensures
        r.wf(),
        r.platform == Platform::Windows,
        r.app == Application::Windsurf,
        r.current == 0,
        forall|w: World| #[trigger] r.agrees(w),
{
    Resolver::new(Platform::Windows, Application::Windsurf)
}

/// The search for Antigravity on macOS: the system Applications folder,
/// then the user's.
pub fn detect_macos() -> (r: Resolver)
    ensures
        r.wf(),
        r.platform == Platform::MacOs,
        r.app == Application::Antigravity,
        r.current == 0,
        forall|w: World| #[trigger] r.agrees(w),
{
    Resolver::new(Platform::MacOs, Application::Antigravity)
}

/// The search for Windsurf on macOS: the system Applications folder, then
/// the user's.
pub fn detect_windsurf_macos() -> (r: Resolver)
    ensures
        r.wf(),
        r.platform == Platform::MacOs,
        r.app == Application::Windsurf,
        r.current == 0,
        forall|w: World| #[trigger] r.agrees(w),
{
    Resolver::new(Platform::MacOs, Application::Windsurf)
}

} // verus!
