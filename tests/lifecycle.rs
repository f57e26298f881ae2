use ytinu::installer::{download_file_name, prefixed_entries, InstallPlan, ModError, RemovePlan};
use ytinu::loader::{LoaderScan, ReconcileStep};
use ytinu::model::{Game, InstalledMod, Mod, SetupGame};
use ytinu::paths::GamePath;
use ytinu::state::{mods_by_id, Catalog, ConfigError, OpenTarget, State};
use ytinu::store::{load, LoadReport};
use ytinu::table::Table;
use ytinu::version::Version;

fn game(id: &str) -> Game {
    Game { id: id.to_string(), name: "Desperados III".to_string(), appid: None, recommended_mods: vec![] }
}

fn a_mod(id: &str, url: &str) -> Mod {
    Mod {
        id: id.to_string(),
        name: format!("{} name", id),
        download: url.to_string(),
        version: Version::new(1, 2, 3),
        extract_to_root: false,
        files: None,
        dev_mod: false,
        source: None,
        homepage: None,
        description: None,
        ytinu_version: None,
    }
}

fn parts(p: &GamePath) -> Vec<&str> {
    p.parts.iter().map(|s| s.as_str()).collect()
}

fn catalog_with(g: Game, mods: Vec<Mod>) -> Catalog {
    let mut games = Table::new();
    games.insert(g.id.clone(), g);
    Catalog { games, mods: mods_by_id(mods), game_mods: Table::new() }
}

fn configured() -> State {
    let (mut state, _) = load(false, false, None);
    let cat = catalog_with(game("Desperados3"), vec![]);
    state.add_game("/games/d3".to_string(), true, Some(&cat)).unwrap();
    state
}

#[test]
fn first_run_loads_empty_state() {
    let (state, report) = load(false, false, None);
    assert!(matches!(report, LoadReport::Missing));
    assert!(state.selected_game.is_none());
    assert!(state.games.is_empty());
    assert!(state.shown_messages.is_empty());
}

#[test]
fn corrupt_file_loads_empty_state() {
    let (state, report) = load(true, true, None);
    assert!(matches!(report, LoadReport::Corrupt));
    assert!(state.games.is_empty());
    let (state, report) = load(true, false, None);
    assert!(matches!(report, LoadReport::Unreadable));
    assert!(state.selected_game.is_none());
}

#[test]
fn decoded_state_is_kept() {
    let state = configured();
    let (loaded, report) = load(true, true, Some(state));
    assert!(matches!(report, LoadReport::Loaded));
    assert_eq!(loaded.games.len(), 1);
    assert_eq!(loaded.selected_game.as_deref(), Some("Desperados3"));
}

#[test]
fn configuring_a_game_selects_it() {
    let state = configured();
    assert_eq!(state.games.len(), 1);
    assert_eq!(state.selected_game.as_deref(), Some("Desperados3"));
    let g = state.current_game().unwrap();
    assert!(g.bep_in_ex.is_none());
    assert_eq!(g.install_path, "/games/d3");
    assert_eq!(g.mods.len(), 0);
}

#[test]
fn configuring_errors() {
    let mut state = configured();
    let cat = catalog_with(game("Desperados3"), vec![]);
    assert!(matches!(state.add_game("/x".to_string(), true, Some(&cat)), Err(ConfigError::AlreadyConfigured)));
    let (mut fresh, _) = load(false, false, None);
    assert!(matches!(fresh.add_game("/x".to_string(), false, Some(&cat)), Err(ConfigError::InvalidPath)));
    assert!(matches!(fresh.add_game("/x".to_string(), true, None), Err(ConfigError::NoMetadata)));
    let other = catalog_with(game("Other"), vec![]);
    assert!(matches!(fresh.add_game("/x".to_string(), true, Some(&other)), Err(ConfigError::UnknownGame)));
    assert!(fresh.games.is_empty());
    assert!(matches!(fresh.update_install_path("/y".to_string(), true), Err(ConfigError::NotConfigured)));
    assert!(matches!(state.update_install_path("/y".to_string(), false), Err(ConfigError::InvalidPath)));
    assert!(state.update_install_path("/y".to_string(), true).is_ok());
    assert_eq!(state.current_game().unwrap().install_path, "/y");
}

#[test]
fn dll_mod_installs_into_plugins() {
    let mut state = configured();
    let (id, mut g) = state.take_current_game().unwrap();
    let m = a_mod("fastmod", "https://example.com/releases/v1/FastMod.dll");
    let plan = g.plan_install(&m).unwrap();
    match &plan {
        InstallPlan::Direct { url, target } => {
            assert_eq!(url, "https://example.com/releases/v1/FastMod.dll");
            assert_eq!(parts(target), vec!["BepInEx", "plugins", "fastmod.dll"]);
        }
        _ => panic!("expected a direct download"),
    }
    g.complete_install(m, &plan, true).unwrap();
    assert_eq!(g.mods.len(), 1);
    let entry = g.mods.get(&"fastmod".to_string()).unwrap();
    assert!(entry.enabled);
    assert_eq!((entry.version.major, entry.version.minor, entry.version.patch), (1, 2, 3));
    state.put_game(id, g);
    assert_eq!(state.current_game().unwrap().mods.len(), 1);
}

#[test]
fn zip_mod_goes_through_cache() {
    let state = configured();
    let g = state.current_game().unwrap();
    let mut m = a_mod("bigmod", "https://example.com/dl/bigmod.zip");
    match g.plan_install(&m).unwrap() {
        InstallPlan::Archive { url, cache_name, archive_target, extract_to } => {
            assert_eq!(url, "https://example.com/dl/bigmod.zip");
            assert_eq!(cache_name, "Desperados3_bigmod.zip");
            assert_eq!(parts(&archive_target), vec!["BepInEx", "plugins", "Desperados3_bigmod.zip"]);
            assert_eq!(parts(&extract_to), vec!["BepInEx", "plugins", "bigmod"]);
        }
        _ => panic!("expected an archive"),
    }
    m.extract_to_root = true;
    match g.plan_install(&m).unwrap() {
        InstallPlan::Archive { extract_to, .. } => assert!(extract_to.parts.is_empty()),
        _ => panic!("expected an archive"),
    }
}

#[test]
fn install_errors() {
    let state = configured();
    let g = state.current_game().unwrap();
    match g.plan_install(&a_mod("x", "not a url")) {
        Err(ModError::InvalidDownloadUrl(u)) => assert_eq!(u, "not a url"),
        _ => panic!("expected an invalid url"),
    }
    assert!(matches!(g.plan_install(&a_mod("x", "mailto:a@example.com")), Err(ModError::InvalidDownloadUrl(_))));
    match g.plan_install(&a_mod("x", "https://example.com/x.rar")) {
        Err(ModError::UnsupportedFileType(u)) => assert_eq!(u, "https://example.com/x.rar"),
        _ => panic!("expected an unsupported type"),
    }
}

#[test]
fn installing_twice_is_refused() {
    let mut state = configured();
    let (_, mut g) = state.take_current_game().unwrap();
    let m = a_mod("fastmod", "https://example.com/FastMod.dll");
    let plan = g.plan_install(&m).unwrap();
    g.complete_install(m.duplicate(), &plan, true).unwrap();
    assert!(matches!(g.plan_install(&m), Err(ModError::AlreadyInstalled)));
    assert_eq!(g.mods.len(), 1);
}

#[test]
fn failed_downloads_record_nothing() {
    let state = configured();
    let mut g = SetupGame::new(game("Desperados3"), state.current_game().unwrap().install_path.clone());
    let m = a_mod("fastmod", "https://example.com/FastMod.dll");
    let plan = g.plan_install(&m).unwrap();
    assert!(matches!(g.complete_install(m.duplicate(), &plan, false), Err(ModError::DownloadFailed)));
    let z = a_mod("zipped", "https://example.com/zipped.zip");
    let zplan = g.plan_install(&z).unwrap();
    assert!(g.complete_install(z, &zplan, false).is_ok());
    assert_eq!(g.mods.len(), 0);
}

#[test]
fn removing_without_file_list_scans_plugins() {
    let mut g = SetupGame::new(game("Desperados3"), "/games/d3".to_string());
    let m = a_mod("fastmod", "https://example.com/FastMod.dll");
    let plan = g.plan_install(&m).unwrap();
    g.complete_install(m, &plan, true).unwrap();
    let id = "fastmod".to_string();
    assert!(matches!(g.plan_remove(&id), Ok(RemovePlan::ScanPlugins)));
    let names = vec![
        "fastmod.dll".to_string(),
        "other.dll".to_string(),
        "fastmod_extra".to_string(),
        "xfastmod".to_string(),
    ];
    let doomed = prefixed_entries(&names, &id);
    assert_eq!(doomed.len(), 2);
    assert_eq!(parts(&doomed[0]), vec!["BepInEx", "plugins", "fastmod.dll"]);
    assert_eq!(parts(&doomed[1]), vec!["BepInEx", "plugins", "fastmod_extra"]);
    let removed = g.complete_remove(&id).unwrap();
    assert_eq!(removed.id, "fastmod");
    assert_eq!(g.mods.len(), 0);
    assert!(matches!(g.plan_remove(&id), Err(ModError::NotInstalled)));
    assert!(matches!(g.complete_remove(&id), Err(ModError::NotInstalled)));
}

#[test]
fn removing_with_file_list_deletes_listed_paths() {
    let mut g = SetupGame::new(game("Desperados3"), "/games/d3".to_string());
    let mut m = a_mod("packed", "https://example.com/packed.zip");
    m.files = Some(vec!["BepInEx/plugins/packed".to_string(), "packed.cfg".to_string()]);
    let plan = g.plan_install(&m).unwrap();
    g.complete_install(m, &plan, true).unwrap();
    match g.plan_remove(&"packed".to_string()).unwrap() {
        RemovePlan::Paths(ps) => {
            assert_eq!(ps.len(), 2);
            assert_eq!(parts(&ps[0]), vec!["BepInEx/plugins/packed"]);
            assert_eq!(parts(&ps[1]), vec!["packed.cfg"]);
        }
        RemovePlan::ScanPlugins => panic!("expected the file list"),
    }
}

#[test]
fn update_reinstalls_same_version() {
    let mut g = SetupGame::new(game("Desperados3"), "/games/d3".to_string());
    let m = a_mod("fastmod", "https://example.com/FastMod.dll");
    let plan = g.plan_install(&m).unwrap();
    g.complete_install(m, &plan, true).unwrap();
    let removed = g.complete_remove(&"fastmod".to_string()).unwrap();
    let plan = g.plan_install(&removed).unwrap();
    g.complete_install(removed, &plan, true).unwrap();
    let entry = g.mods.get(&"fastmod".to_string()).unwrap();
    assert_eq!((entry.version.major, entry.version.minor, entry.version.patch), (1, 2, 3));
    let removed = g.complete_remove(&"fastmod".to_string()).unwrap();
    let plan = g.plan_install(&removed).unwrap();
    let _ = g.complete_install(removed, &plan, false);
    assert!(!g.mods.contains_key(&"fastmod".to_string()));
}

#[test]
fn url_file_names() {
    assert_eq!(download_file_name("https://example.com/a/b/mod.dll?x=1").as_deref(), Some("mod.dll"));
    assert_eq!(download_file_name("https://example.com/").as_deref(), Some(""));
    assert_eq!(download_file_name("no url here"), None);
    assert_eq!(download_file_name("mailto:someone@example.com"), None);
}

#[test]
fn loader_scan_hashes_core_bytes() {
    let scan = LoaderScan::from_disk(true, Some(b"abc".to_vec()), false);
    assert_eq!(
        scan.core_hash.as_deref(),
        Some("508c5e8c327c14e2e1a72ba34eeb452f37458b209ed63a294d999b4c86675982")
    );
    let none = LoaderScan::from_disk(true, None, false);
    assert!(none.core_hash.is_none());
}

#[test]
fn reconcile_twice_is_stable() {
    let mut g = SetupGame::new(game("Desperados3"), "/games/d3".to_string());
    g.complete_loader_install(&LoaderScan { core_present: true, core_hash: Some("aaaa".to_string()), boot_config_present: true });
    let scan = LoaderScan { core_present: true, core_hash: Some("bbbb".to_string()), boot_config_present: false };
    assert!(matches!(g.reconcile(&scan), ReconcileStep::Settled));
    let first = g.bep_in_ex.as_ref().unwrap().duplicate();
    assert!(first.version.is_none());
    assert_eq!(first.hash.as_deref(), Some("bbbb"));
    assert!(!first.enabled);
    assert!(matches!(g.reconcile(&scan), ReconcileStep::Settled));
    let second = g.bep_in_ex.as_ref().unwrap();
    assert_eq!(second.version.is_none(), first.version.is_none());
    assert_eq!(second.hash, first.hash);
    assert_eq!(second.enabled, first.enabled);
}

#[test]
fn reconcile_unknown_installation() {
    let mut g = SetupGame::new(game("Desperados3"), "/games/d3".to_string());
    let scan = LoaderScan { core_present: true, core_hash: Some("cccc".to_string()), boot_config_present: true };
    assert!(matches!(g.reconcile(&scan), ReconcileStep::UnknownInstallation));
    assert!(g.bep_in_ex.is_none());
    g.resolve_unknown(&scan, false);
    let info = g.bep_in_ex.as_ref().unwrap();
    assert!(info.version.is_none());
    assert!(info.enabled);
    assert_eq!(info.hash.as_deref(), Some("cccc"));
    let gone = LoaderScan { core_present: false, core_hash: None, boot_config_present: true };
    assert!(matches!(g.reconcile(&gone), ReconcileStep::Settled));
    assert!(g.bep_in_ex.is_none());
}

#[test]
fn loader_toggles() {
    let mut g = SetupGame::new(game("Desperados3"), "/games/d3".to_string());
    assert!(g.plan_toggle_enabled().is_err());
    g.complete_loader_install(&LoaderScan::from_disk(true, None, true));
    let info = g.bep_in_ex.as_ref().unwrap();
    assert!(info.enabled);
    let v = info.version.as_ref().unwrap();
    assert_eq!((v.major, v.minor, v.patch), (5, 4, 4));
    let moves = g.plan_toggle_enabled().unwrap();
    assert_eq!(parts(&moves.boot_config.from), vec!["doorstop_config.ini"]);
    assert_eq!(parts(&moves.boot_config.to), vec!["BepInEx", "doorstop_config.ini"]);
    assert_eq!(parts(&moves.injector.from), vec!["winhttp.dll"]);
    assert_eq!(parts(&moves.injector.to), vec!["BepInEx", "winhttp.dll"]);
    g.complete_toggle_enabled(false);
    assert!(g.bep_in_ex.as_ref().unwrap().enabled);
    g.complete_toggle_enabled(true);
    assert!(!g.bep_in_ex.as_ref().unwrap().enabled);
    let back = g.plan_toggle_enabled().unwrap();
    assert_eq!(parts(&back.boot_config.from), vec!["BepInEx", "doorstop_config.ini"]);
    assert_eq!(parts(&back.injector.to), vec!["winhttp.dll"]);
}

#[test]
fn uninstalling_loader_clears_mods() {
    let mut g = SetupGame::new(game("Desperados3"), "/games/d3".to_string());
    g.complete_loader_install(&LoaderScan::from_disk(true, None, true));
    let m = a_mod("fastmod", "https://example.com/FastMod.dll");
    let plan = g.plan_install(&m).unwrap();
    g.complete_install(m, &plan, true).unwrap();
    assert!(g.loader_installed());
    g.complete_uninstall();
    assert!(g.bep_in_ex.is_none());
    assert_eq!(g.mods.len(), 0);
}

#[test]
fn selection_heals() {
    let mut state = configured();
    state.selected_game = Some("Gone".to_string());
    assert!(state.current_game().is_none());
    assert_eq!(state.ensure_selected().as_deref(), Some("Desperados3"));
    assert_eq!(state.selected_game.as_deref(), Some("Desperados3"));
    let (mut empty, _) = load(false, false, None);
    empty.selected_game = Some("Gone".to_string());
    assert_eq!(empty.ensure_selected(), None);
    assert!(empty.selected_game.is_none());
    assert!(!state.select_game("Nope".to_string()));
    assert!(state.selected_game.is_none());
}

#[test]
fn messages_shown_once() {
    let mut state = configured();
    assert!(state.record_message("welcome".to_string(), true, false));
    assert!(!state.record_message("welcome".to_string(), true, false));
    assert!(state.record_message("welcome".to_string(), true, true));
    assert!(!state.record_message("old".to_string(), false, true));
    assert_eq!(state.shown_messages, vec!["welcome".to_string()]);
}

#[test]
fn open_dir_targets() {
    let state = configured();
    match state.open_dir("mods") {
        OpenTarget::Dir { install_path, path } => {
            assert_eq!(install_path, "/games/d3");
            assert_eq!(parts(&path), vec!["BepInEx", "plugins"]);
        }
        _ => panic!("expected a directory"),
    }
    assert!(matches!(state.open_dir("config"), OpenTarget::Dir { .. }));
    assert!(matches!(state.open_dir("game"), OpenTarget::Dir { .. }));
    assert!(matches!(state.open_dir("saves"), OpenTarget::Unknown));
    let (fresh, _) = load(false, false, None);
    assert!(matches!(fresh.open_dir("game"), OpenTarget::NoGame));
}

#[test]
fn catalog_lookup() {
    let mut first = a_mod("dup", "https://example.com/one.dll");
    first.name = "first".to_string();
    let mut last = a_mod("dup", "https://example.com/two.dll");
    last.name = "last".to_string();
    let cat = catalog_with(game("Desperados3"), vec![first, last, a_mod("solo", "https://example.com/s.dll")]);
    assert_eq!(cat.mods.len(), 2);
    let found = cat.get_mod(&None, &"dup".to_string()).unwrap();
    assert_eq!(found.name, "last");
    assert!(cat.get_mod(&None, &"missing".to_string()).is_none());
    let mut with_game = cat;
    with_game.game_mods.insert("Desperados3".to_string(), mods_by_id(vec![a_mod("special", "https://example.com/sp.zip")]));
    let sel = Some("Desperados3".to_string());
    assert_eq!(with_game.get_mod(&sel, &"special".to_string()).unwrap().id, "special");
    assert!(with_game.get_mod(&None, &"special".to_string()).is_none());
}

#[test]
fn metadata_refresh_keeps_versions() {
    let mut g = SetupGame::new(game("Desperados3"), "/games/d3".to_string());
    let m = a_mod("fastmod", "https://example.com/FastMod.dll");
    let plan = g.plan_install(&m).unwrap();
    g.complete_install(m, &plan, true).unwrap();
    let mut newer = a_mod("fastmod", "https://example.com/FastMod2.dll");
    newer.version = Version::new(2, 0, 0);
    newer.description = Some("now faster".to_string());
    g.update_mods_meta(&mods_by_id(vec![newer]));
    let e = g.mods.get(&"fastmod".to_string()).unwrap();
    assert_eq!(e.m.download, "https://example.com/FastMod2.dll");
    assert_eq!(e.m.description.as_deref(), Some("now faster"));
    assert_eq!(e.version.major, 1);
}

#[test]
fn loader_install_records_core_digest() {
    let mut g = SetupGame::new(game("Desperados3"), "/games/d3".to_string());
    g.complete_loader_install(&LoaderScan::from_disk(true, Some(b"abc".to_vec()), true));
    assert_eq!(
        g.bep_in_ex.as_ref().unwrap().hash.as_deref(),
        Some("508c5e8c327c14e2e1a72ba34eeb452f37458b209ed63a294d999b4c86675982")
    );
}

#[test]
fn add_game_succeeds_on_fresh_state() {
    let (mut state, _) = load(false, false, None);
    let cat = catalog_with(game("Desperados3"), vec![]);
    assert!(state.add_game("/games/d3".to_string(), true, Some(&cat)).is_ok());
    assert_eq!(state.games.len(), 1);
    assert_eq!(state.selected_game.as_deref(), Some("Desperados3"));
    let g = state.games.get(&"Desperados3".to_string()).unwrap();
    assert_eq!(g.game.name, "Desperados III");
    assert_eq!(g.install_path, "/games/d3");
    assert!(g.bep_in_ex.is_none());
    assert_eq!(g.mods.len(), 0);
}

#[test]
fn stored_mods_are_filed_by_id() {
    let entry = |id: &str, major: u64| {
        let mut m = a_mod(id, "https://example.com/a.dll");
        m.version = Version::new(major, 0, 0);
        InstalledMod { version: Version::new(major, 0, 0), enabled: true, m }
    };
    let g = SetupGame::from_parts(
        game("Desperados3"),
        "/games/d3".to_string(),
        vec![entry("a", 1), entry("b", 1), entry("a", 2)],
        None,
    );
    assert_eq!(g.mods.len(), 2);
    assert_eq!(g.mods.get(&"a".to_string()).unwrap().version.major, 2);
    assert!(g.mods.contains_key(&"b".to_string()));
}

#[test]
fn uninstall_lists_mod_files() {
    let mut g = SetupGame::new(game("Desperados3"), "/games/d3".to_string());
    let mut rooted = a_mod("rooted", "https://example.com/rooted.zip");
    rooted.extract_to_root = true;
    rooted.files = Some(vec!["rooted.dll".to_string(), "data/rooted".to_string()]);
    let plan = g.plan_install(&rooted).unwrap();
    g.complete_install(rooted, &plan, true).unwrap();
    let plain = a_mod("plain", "https://example.com/plain.dll");
    let plan = g.plan_install(&plain).unwrap();
    g.complete_install(plain, &plan, true).unwrap();
    let listed = g.listed_mod_files();
    let files: Vec<Vec<&str>> = listed.iter().map(|p| parts(p)).collect();
    assert_eq!(files, vec![vec!["rooted.dll"], vec!["data/rooted"]]);
}
