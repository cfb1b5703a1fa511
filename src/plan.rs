//! The search plan: for each platform and application, the ordered list of
//! places where an installation may be found, and the marker file that
//! proves one.
use vstd::prelude::*;

use crate::platform::{Application, Hive, Platform, UserDir};
use crate::text::{contains_text, has_infix, join_all, join_segments, lowercase, lower_of};

verus! {

/// Selects uninstall entries by their display name, lowercased: the name must
/// contain `wanted` and none of `exclude`.
pub struct NameFilter {
    pub wanted: String,
    pub exclude: Vec<String>,
}

pub ghost struct NameFilterView {
    pub wanted: Seq<char>,
    pub exclude: Seq<Seq<char>>,
}

impl View for NameFilter {
    type V = NameFilterView;

    open spec fn view(&self) -> NameFilterView {
        NameFilterView { wanted: self.wanted@, exclude: self.exclude@.map_values(|s: String| s@) }
    }
}

/// Whether the filter keeps an entry whose lowercased display name is `lowered`.
pub open spec fn admits(f: NameFilterView, lowered: Seq<char>) -> bool {
    has_infix(lowered, f.wanted) && forall|k: int| 0 <= k < f.exclude.len() ==> !has_infix(lowered, #[trigger] f.exclude[k])
}

impl NameFilter {
    /// Decides the filter on a display name that is already lowercased.
    pub fn admits_lowered(&self, lowered: &str) -> (r: bool)
        ensures
            r == admits(self@, lowered@),
    {
        if !contains_text(lowered, self.wanted.as_str()) {
            return false;
        }
        let mut k: usize = 0;
        while k < self.exclude.len()
            invariant
                k <= self.exclude.len(),
                forall|t: int| 0 <= t < k ==> !has_infix(lowered@, #[trigger] self@.exclude[t]),
            decreases self.exclude.len() - k,
        {
            if contains_text(lowered, self.exclude[k].as_str()) {
                assert(self@.exclude[k as int] == self.exclude[k as int]@);
                return false;
            }
            k = k + 1;
        }
        true
    }

    /// Decides the filter on a display name as the registry holds it.
    pub fn admits(&self, display_name: &str) -> (r: bool)
        ensures
            r == admits(self@, lower_of(display_name@)),
    {
        let lowered = lowercase(display_name);
        self.admits_lowered(lowered.as_str())
    }
}

/// One place to look for an installation.
pub enum Source {
    /// The `InstallLocation` value of a fixed registry key.
    RegistryKey { hive: Hive, key: String },
    /// Every subkey of `root` whose display name passes `filter`, in the
    /// order the registry lists them; each is read for `InstallLocation`.
    RegistryScan { hive: Hive, root: String, filter: NameFilter },
    /// A fixed directory.
    Literal { path: String },
    /// `parent/name` under a per-user directory.
    UserFolder { base: UserDir, parent: String, name: String },
}

pub ghost enum SourceView {
    RegistryKey { hive: Hive, key: Seq<char> },
    RegistryScan { hive: Hive, root: Seq<char>, filter: NameFilterView },
    Literal { path: Seq<char> },
    UserFolder { base: UserDir, parent: Seq<char>, name: Seq<char> },
}

impl View for Source {
    type V = SourceView;

    open spec fn view(&self) -> SourceView {
        match self {
            Source::RegistryKey { hive, key } => SourceView::RegistryKey { hive: *hive, key: key@ },
            Source::RegistryScan { hive, root, filter } => SourceView::RegistryScan {
                hive: *hive,
                root: root@,
                filter: filter@,
            },
            Source::Literal { path } => SourceView::Literal { path: path@ },
            Source::UserFolder { base, parent, name } => SourceView::UserFolder {
                base: *base,
                parent: parent@,
                name: name@,
            },
        }
    }
}

pub open spec fn uninstall_root() -> Seq<char> {
    "SOFTWARE\\Microsoft\\Windows\\CurrentVersion\\Uninstall"@
}

pub open spec fn antigravity_key() -> Seq<char> {
    "SOFTWARE\\Microsoft\\Windows\\CurrentVersion\\Uninstall\\Antigravity"@
}

pub open spec fn antigravity_wow_key() -> Seq<char> {
    "SOFTWARE\\WOW6432Node\\Microsoft\\Windows\\CurrentVersion\\Uninstall\\Antigravity"@
}

/// The display-name filter of the Windsurf uninstall scan: entries of
/// unrelated products whose names also mention Windsurf are left out.
pub open spec fn windsurf_filter() -> NameFilterView {
    NameFilterView { wanted: "windsurf"@, exclude: seq!["account"@, "assistant"@] }
}

/// The places searched for `app` on `p`, highest priority first.
pub open spec fn plan(p: Platform, app: Application) -> Seq<SourceView> {
    match (p, app) {
        (Platform::Windows, Application::Antigravity) => seq![
            SourceView::RegistryKey { hive: Hive::LocalMachine, key: antigravity_key() },
            SourceView::RegistryKey { hive: Hive::LocalMachine, key: antigravity_wow_key() },
            SourceView::RegistryKey { hive: Hive::CurrentUser, key: antigravity_key() },
            SourceView::RegistryKey { hive: Hive::CurrentUser, key: antigravity_wow_key() },
            SourceView::Literal { path: "C:\\Program Files\\Antigravity"@ },
            SourceView::Literal { path: "D:\\Program Files\\Antigravity"@ },
            SourceView::Literal { path: "E:\\Program Files\\Antigravity"@ },
            SourceView::UserFolder { base: UserDir::LocalData, parent: "Programs"@, name: "Antigravity"@ },
        ],
        (Platform::Windows, Application::Windsurf) => seq![
            SourceView::RegistryScan {
                hive: Hive::CurrentUser,
                root: uninstall_root(),
                filter: windsurf_filter(),
            },
            SourceView::UserFolder { base: UserDir::LocalData, parent: "Programs"@, name: "Windsurf"@ },
            SourceView::Literal { path: "C:\\Program Files\\Windsurf"@ },
            SourceView::Literal { path: "D:\\Program Files\\Windsurf"@ },
        ],
        (Platform::MacOs, Application::Antigravity) => seq![
            SourceView::Literal { path: "/Applications/Antigravity.app"@ },
            SourceView::UserFolder { base: UserDir::Home, parent: "Applications"@, name: "Antigravity.app"@ },
        ],
        (Platform::MacOs, Application::Windsurf) => seq![
            SourceView::Literal { path: "/Applications/Windsurf.app"@ },
            SourceView::UserFolder { base: UserDir::Home, parent: "Applications"@, name: "Windsurf.app"@ },
        ],
        (Platform::Unsupported, _) => seq![],
    }
}

/// The path components, from an installation root, of the file whose
/// existence proves an installation of `app`.
pub open spec fn marker(app: Application) -> Seq<Seq<char>> {
    match app {
        Application::Antigravity => seq![
            "resources"@,
            "app"@,
            "extensions"@,
            "antigravity"@,
            "cascade-panel.html"@,
        ],
        Application::Windsurf => seq![
            "resources"@,
            "app"@,
            "out"@,
            "vs"@,
            "code"@,
            "electron-browser"@,
            "workbench"@,
            "workbench.html"@,
        ],
    }
}

/// Where the marker file of `app` lies under the candidate root `dir` on `p`.
pub open spec fn marker_path(p: Platform, app: Application, dir: Seq<char>) -> Seq<char> {
    join_all(dir, marker(app), p)
}

/// The string holding the characters of `s`.
pub(crate) fn text(s: &str) -> (r: String)
    ensures
        r@ == s@,
{
    String::from_str(s)
}

fn marker_segments(app: Application) -> (r: Vec<String>)
    ensures
        r@.map_values(|s: String| s@) == marker(app),
{
    let mut v: Vec<String> = Vec::new();
    v.push(text("resources"));
    v.push(text("app"));
    match app {
        Application::Antigravity => {
            v.push(text("extensions"));
            v.push(text("antigravity"));
            v.push(text("cascade-panel.html"));
        },
        Application::Windsurf => {
            v.push(text("out"));
            v.push(text("vs"));
            v.push(text("code"));
            v.push(text("electron-browser"));
            v.push(text("workbench"));
            v.push(text("workbench.html"));
        },
    }
    assert(v@.map_values(|s: String| s@) =~= marker(app));
    v
}

/// The path of the marker file of `app` under the candidate root `dir`.
pub fn marker_file(p: Platform, app: Application, dir: &str) -> (r: String)
    ensures
        r@ == marker_path(p, app, dir@),
{
    let segs = marker_segments(app);
    join_segments(dir, &segs, p)
}

fn windsurf_name_filter() -> (r: NameFilter)
    ensures
        r@ == windsurf_filter(),
{
    let mut exclude: Vec<String> = Vec::new();
    exclude.push(text("account"));
    exclude.push(text("assistant"));
    let r = NameFilter { wanted: text("windsurf"), exclude };
    assert(r@.exclude =~= windsurf_filter().exclude);
    r
}

/// The places searched for `app` on `p`, highest priority first.
pub fn search_plan(p: Platform, app: Application) -> (r: Vec<Source>)
    ensures
        r@.map_values(|s: Source| s@) == plan(p, app),
{
    let mut v: Vec<Source> = Vec::new();
    match (p, app) {
        (Platform::Windows, Application::Antigravity) => {
            let key = "SOFTWARE\\Microsoft\\Windows\\CurrentVersion\\Uninstall\\Antigravity";
            let wow_key = "SOFTWARE\\WOW6432Node\\Microsoft\\Windows\\CurrentVersion\\Uninstall\\Antigravity";
            v.push(Source::RegistryKey { hive: Hive::LocalMachine, key: text(key) });
            v.push(Source::RegistryKey { hive: Hive::LocalMachine, key: text(wow_key) });
            v.push(Source::RegistryKey { hive: Hive::CurrentUser, key: text(key) });
            v.push(Source::RegistryKey { hive: Hive::CurrentUser, key: text(wow_key) });
            v.push(Source::Literal { path: text("C:\\Program Files\\Antigravity") });
            v.push(Source::Literal { path: text("D:\\Program Files\\Antigravity") });
            v.push(Source::Literal { path: text("E:\\Program Files\\Antigravity") });
            v.push(
                Source::UserFolder {
                    base: UserDir::LocalData,
                    parent: text("Programs"),
                    name: text("Antigravity"),
                },
            );
        },
        (Platform::Windows, Application::Windsurf) => {
            v.push(
                Source::RegistryScan {
                    hive: Hive::CurrentUser,
                    root: text("SOFTWARE\\Microsoft\\Windows\\CurrentVersion\\Uninstall"),
                    filter: windsurf_name_filter(),
                },
            );
            v.push(
                Source::UserFolder {
                    base: UserDir::LocalData,
                    parent: text("Programs"),
                    name: text("Windsurf"),
                },
            );
            v.push(Source::Literal { path: text("C:\\Program Files\\Windsurf") });
            v.push(Source::Literal { path: text("D:\\Program Files\\Windsurf") });
        },
        (Platform::MacOs, Application::Antigravity) => {
            v.push(Source::Literal { path: text("/Applications/Antigravity.app") });
            v.push(
                Source::UserFolder {
                    base: UserDir::Home,
                    parent: text("Applications"),
                    name: text("Antigravity.app"),
                },
            );
        },
        (Platform::MacOs, Application::Windsurf) => {
            v.push(Source::Literal { path: text("/Applications/Windsurf.app") });
            v.push(
                Source::UserFolder {
                    base: UserDir::Home,
                    parent: text("Applications"),
                    name: text("Windsurf.app"),
                },
            );
        },
        (Platform::Unsupported, _) => {},
    }
    assert(v@.map_values(|s: Source| s@) =~= plan(p, app));
    v
}

} // verus!
