use path_detect::plan::{search_plan, Source};
use path_detect::text::{contains_text, join_path};
use path_detect::{
    detect_macos, detect_windows, detect_windsurf_macos, detect_windsurf_windows,
    is_valid_antigravity_path, is_valid_windsurf_path, Application, Hive, Platform, Query, Reply,
    Resolver, Step, UserDir,
};

const AG_MARKER: &str = "resources/app/extensions/antigravity/cascade-panel.html";
const WS_MARKER: &str = "resources/app/out/vs/code/electron-browser/workbench/workbench.html";
const UNINSTALL: &str = "SOFTWARE\\Microsoft\\Windows\\CurrentVersion\\Uninstall";
const AG_KEY: &str = "SOFTWARE\\Microsoft\\Windows\\CurrentVersion\\Uninstall\\Antigravity";

fn win_marker(dir: &str, marker: &str) -> String {
    let sep = if dir.ends_with('\\') { "" } else { "\\" };
    format!("{}{}{}", dir, sep, marker.replace('/', "\\"))
}

#[derive(Default)]
struct Machine {
    files: Vec<String>,
    values: Vec<(Hive, String, String, String)>,
    subkeys: Vec<(Hive, String, Vec<String>)>,
    local_data: Option<String>,
    home: Option<String>,
}

impl Machine {
    fn reply(&self, q: &Query) -> Reply {
        match q {
            Query::RegistryValue { hive, key, value } => Reply::Text(
                self.values
                    .iter()
                    .find(|(h, k, v, _)| h == hive && k == key && v == value)
                    .map(|(_, _, _, d)| d.clone()),
            ),
            Query::RegistrySubkeys { hive, key } => Reply::Names(
                self.subkeys
                    .iter()
                    .find(|(h, k, _)| h == hive && k == key)
                    .map(|(_, _, n)| n.clone())
                    .unwrap_or_default(),
            ),
            Query::Directory { dir } => Reply::Text(match dir {
                UserDir::LocalData => self.local_data.clone(),
                UserDir::Home => self.home.clone(),
            }),
            Query::FileExists { path } => Reply::Exists(self.files.contains(path)),
        }
    }

    fn run(&self, mut r: Resolver) -> (Option<String>, Vec<Query>) {
        let mut asked = Vec::new();
        loop {
            match r.next_step() {
                Step::Finished(found) => return (found, asked),
                Step::Ask(q) => {
                    let reply = self.reply(&q);
                    asked.push(q);
                    r = r.answer(reply);
                }
            }
            assert!(asked.len() < 1000, "the search does not end");
        }
    }

    fn resolve(&self, p: Platform, app: Application) -> Option<String> {
        self.run(Resolver::new(p, app)).0
    }
}

#[test]
fn macos_system_applications_folder() {
    let m = Machine {
        files: vec![format!("/Applications/Antigravity.app/{}", AG_MARKER)],
        home: Some("/Users/alice".to_string()),
        ..Default::default()
    };
    assert_eq!(m.resolve(Platform::MacOs, Application::Antigravity), Some("/Applications/Antigravity.app".to_string()));
    assert_eq!(m.resolve(Platform::MacOs, Application::Windsurf), None);
    assert_eq!(m.run(detect_macos()).0, Some("/Applications/Antigravity.app".to_string()));
}

#[test]
fn macos_user_applications_folder() {
    let m = Machine {
        files: vec![format!("/Users/alice/Applications/Windsurf.app/{}", WS_MARKER)],
        home: Some("/Users/alice".to_string()),
        ..Default::default()
    };
    assert_eq!(m.run(detect_windsurf_macos()).0, Some("/Users/alice/Applications/Windsurf.app".to_string()));
    let trailing = Machine { home: Some("/Users/alice/".to_string()), ..m };
    assert_eq!(trailing.resolve(Platform::MacOs, Application::Windsurf), Some("/Users/alice/Applications/Windsurf.app".to_string()));
}

#[test]
fn nothing_anywhere_finds_nothing() {
    let m = Machine {
        local_data: Some("C:\\Users\\bob\\AppData\\Local".to_string()),
        home: Some("/Users/bob".to_string()),
        subkeys: vec![(Hive::CurrentUser, UNINSTALL.to_string(), vec!["{1234}".to_string()])],
        values: vec![(Hive::CurrentUser, format!("{}\\{{1234}}", UNINSTALL), "DisplayName".to_string(), "Windsurf".to_string())],
        ..Default::default()
    };
    for p in [Platform::Windows, Platform::MacOs, Platform::Unsupported] {
        for app in [Application::Antigravity, Application::Windsurf] {
            assert_eq!(m.resolve(p, app), None);
        }
    }
}

#[test]
fn unsupported_platform_asks_nothing() {
    let m = Machine {
        files: vec![format!("/Applications/Antigravity.app/{}", AG_MARKER)],
        ..Default::default()
    };
    for app in [Application::Antigravity, Application::Windsurf] {
        let r = Resolver::new(Platform::Unsupported, app);
        assert_eq!(r.next_step(), Step::Finished(None));
        let (found, asked) = m.run(Resolver::new(Platform::Unsupported, app));
        assert_eq!(found, None);
        assert!(asked.is_empty());
    }
}

#[test]
fn registry_entry_wins_over_literal_path() {
    let m = Machine {
        values: vec![(Hive::LocalMachine, AG_KEY.to_string(), "InstallLocation".to_string(), "F:\\Tools\\Antigravity".to_string())],
        files: vec![
            win_marker("F:\\Tools\\Antigravity", AG_MARKER),
            win_marker("C:\\Program Files\\Antigravity", AG_MARKER),
        ],
        ..Default::default()
    };
    let (found, asked) = m.run(detect_windows());
    assert_eq!(found, Some("F:\\Tools\\Antigravity".to_string()));
    assert_eq!(asked.len(), 2);
    assert!(!asked.iter().any(|q| matches!(q, Query::FileExists { path } if path.starts_with("C:\\Program Files"))));
}

#[test]
fn sources_are_tried_in_order() {
    let m = Machine {
        files: vec![
            win_marker("D:\\Program Files\\Antigravity", AG_MARKER),
            win_marker("C:\\Users\\bob\\AppData\\Local\\Programs\\Antigravity", AG_MARKER),
        ],
        local_data: Some("C:\\Users\\bob\\AppData\\Local".to_string()),
        ..Default::default()
    };
    let (found, asked) = m.run(detect_windows());
    assert_eq!(found, Some("D:\\Program Files\\Antigravity".to_string()));
    // four registry keys, then the literal paths on C: and D:
    assert_eq!(asked.len(), 6);
    assert!(!asked.iter().any(|q| matches!(q, Query::Directory { .. })));

    let only_local = Machine { files: vec![m.files[1].clone()], ..m };
    assert_eq!(
        only_local.resolve(Platform::Windows, Application::Antigravity),
        Some("C:\\Users\\bob\\AppData\\Local\\Programs\\Antigravity".to_string())
    );
}

#[test]
fn user_hive_is_read_after_machine_hive() {
    let m = Machine {
        values: vec![
            (Hive::LocalMachine, AG_KEY.to_string(), "InstallLocation".to_string(), "G:\\Stale".to_string()),
            (Hive::CurrentUser, AG_KEY.to_string(), "InstallLocation".to_string(), "G:\\Antigravity\\".to_string()),
        ],
        files: vec![win_marker("G:\\Antigravity\\", AG_MARKER)],
        ..Default::default()
    };
    let (found, asked) = m.run(detect_windows());
    assert_eq!(found, Some("G:\\Antigravity\\".to_string()));
    assert!(asked.contains(&Query::FileExists {
        path: "G:\\Antigravity\\resources\\app\\extensions\\antigravity\\cascade-panel.html".to_string()
    }));
}

fn windsurf_machine(entries: &[(&str, &str, &str)]) -> Machine {
    let mut m = Machine {
        subkeys: vec![(Hive::CurrentUser, UNINSTALL.to_string(), entries.iter().map(|e| e.0.to_string()).collect())],
        ..Default::default()
    };
    for (name, display, location) in entries {
        let key = format!("{}\\{}", UNINSTALL, name);
        m.values.push((Hive::CurrentUser, key.clone(), "DisplayName".to_string(), display.to_string()));
        m.values.push((Hive::CurrentUser, key, "InstallLocation".to_string(), location.to_string()));
        m.files.push(win_marker(location, WS_MARKER));
    }
    m
}

#[test]
fn uninstall_scan_skips_decoy_products() {
    let m = windsurf_machine(&[
        ("WindsurfAccountManager", "Windsurf Account Manager", "C:\\Decoy\\Manager"),
        ("WindsurfAssistant", "Windsurf Assistant", "C:\\Decoy\\Assistant"),
        ("Windsurf_is1", "Windsurf", "C:\\Users\\bob\\AppData\\Local\\Programs\\Windsurf"),
    ]);
    assert_eq!(m.run(detect_windsurf_windows()).0, Some("C:\\Users\\bob\\AppData\\Local\\Programs\\Windsurf".to_string()));

    let decoys_only = windsurf_machine(&[("WindsurfAccountManager", "Windsurf Account Manager", "C:\\Decoy\\Manager")]);
    assert_eq!(decoys_only.resolve(Platform::Windows, Application::Windsurf), None);
}

#[test]
fn display_name_filter() {
    let plan = search_plan(Platform::Windows, Application::Windsurf);
    let filter = match &plan[0] {
        Source::RegistryScan { filter, .. } => filter,
        _ => panic!("the Windsurf search starts with the uninstall scan"),
    };
    assert!(!filter.admits("Windsurf Account Manager"));
    assert!(filter.admits("Windsurf"));
    assert!(filter.admits("WINDSURF Editor"));
    assert!(!filter.admits("AI Assistant for WINDSURF"));
    assert!(!filter.admits("Cursor"));
    assert!(filter.admits_lowered("windsurf"));
    assert!(!filter.admits_lowered("WINDSURF"));
}

#[test]
fn scan_entry_without_valid_location_moves_on() {
    let mut m = windsurf_machine(&[("A", "Windsurf", "C:\\Gone"), ("B", "Windsurf (User)", "E:\\Windsurf")]);
    m.files.remove(0);
    let (found, _) = m.run(detect_windsurf_windows());
    assert_eq!(found, Some("E:\\Windsurf".to_string()));
}

#[test]
fn windsurf_user_folder_before_literal_paths() {
    let m = Machine {
        local_data: Some("C:\\Users\\bob\\AppData\\Local".to_string()),
        files: vec![
            win_marker("C:\\Users\\bob\\AppData\\Local\\Programs\\Windsurf", WS_MARKER),
            win_marker("C:\\Program Files\\Windsurf", WS_MARKER),
        ],
        ..Default::default()
    };
    assert_eq!(m.resolve(Platform::Windows, Application::Windsurf), Some("C:\\Users\\bob\\AppData\\Local\\Programs\\Windsurf".to_string()));
    let no_dir = Machine { local_data: None, ..m };
    assert_eq!(no_dir.resolve(Platform::Windows, Application::Windsurf), Some("C:\\Program Files\\Windsurf".to_string()));
}

#[test]
fn replies_of_the_wrong_kind_count_as_misses() {
    let mut r = Resolver::new(Platform::MacOs, Application::Antigravity);
    let mut steps = 0;
    while let Step::Ask(_) = r.next_step() {
        r = r.answer(Reply::Names(vec!["x".to_string()]));
        steps += 1;
        assert!(steps < 100);
    }
    assert_eq!(r.next_step(), Step::Finished(None));
    assert_eq!(steps, 2);
}

#[test]
fn finished_resolver_stays_finished() {
    let m = Machine {
        files: vec![format!("/Applications/Windsurf.app/{}", WS_MARKER)],
        ..Default::default()
    };
    let mut r = Resolver::new(Platform::MacOs, Application::Windsurf);
    let q = match r.next_step() {
        Step::Ask(q) => q,
        Step::Finished(_) => panic!("the search has not started"),
    };
    r = r.answer(m.reply(&q));
    assert_eq!(r.next_step(), Step::Finished(Some("/Applications/Windsurf.app".to_string())));
    r = r.answer(Reply::Exists(false));
    assert_eq!(r.next_step(), Step::Finished(Some("/Applications/Windsurf.app".to_string())));
}

#[test]
fn marker_probe_paths() {
    assert_eq!(
        is_valid_antigravity_path("/Applications/Antigravity.app", Platform::MacOs),
        Query::FileExists { path: format!("/Applications/Antigravity.app/{}", AG_MARKER) }
    );
    assert_eq!(
        is_valid_windsurf_path("C:\\Program Files\\Windsurf", Platform::Windows),
        Query::FileExists {
            path: "C:\\Program Files\\Windsurf\\resources\\app\\out\\vs\\code\\electron-browser\\workbench\\workbench.html".to_string()
        }
    );
    assert_eq!(
        is_valid_windsurf_path("C:/Apps/Windsurf/", Platform::Windows),
        Query::FileExists { path: format!("C:/Apps/Windsurf/{}", WS_MARKER.replace('/', "\\")) }
    );
    assert_eq!(
        is_valid_antigravity_path("", Platform::MacOs),
        Query::FileExists { path: AG_MARKER.to_string() }
    );
}

#[test]
fn joining_path_components() {
    assert_eq!(join_path("/home/a", "b", Platform::MacOs), "/home/a/b");
    assert_eq!(join_path("/home/a/", "b", Platform::MacOs), "/home/a/b");
    assert_eq!(join_path("C:\\x\\", "b", Platform::Windows), "C:\\x\\b");
    assert_eq!(join_path("C:\\x", "b", Platform::Windows), "C:\\x\\b");
    assert_eq!(join_path("a\\", "b", Platform::Unsupported), "a\\/b");
    assert_eq!(join_path("", "b", Platform::Windows), "b");
}

#[test]
fn substring_search() {
    assert!(contains_text("windsurf account manager", "account"));
    assert!(contains_text("windsurf", "windsurf"));
    assert!(contains_text("abc", ""));
    assert!(!contains_text("wind", "windsurf"));
    assert!(!contains_text("windsurf", "surfw"));
    assert!(contains_text("ééwindsurf", "surf"));
}
