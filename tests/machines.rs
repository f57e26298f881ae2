use ytinu::routes::{parse_endpoint, Endpoint};
use ytinu::cache::{FetchFailure, FetchState};
use ytinu::installer::ModError;
use ytinu::loader::{loader_archive, uninstall_targets, unknown_removal, LoaderError};
use ytinu::report::{report, ErrorExt};
use ytinu::state::ConfigError;
use ytinu::store::{SaveOutcome, SaveState};

/// Runs a save through the given outcomes, returning the final state and
/// the steps taken.
fn run_save(outcomes: &[bool]) -> (SaveState, Vec<String>) {
    let mut s = SaveState::start();
    let mut steps = Vec::new();
    for &ok in outcomes {
        if s.is_done() {
            break;
        }
        steps.push(format!("{:?}", s));
        s = s.step(ok);
    }
    (s, steps)
}

fn run_fetch(outcomes: &[bool]) -> (FetchState, Vec<String>) {
    let mut s = FetchState::start();
    let mut steps = Vec::new();
    for &ok in outcomes {
        if s.is_done() {
            break;
        }
        steps.push(format!("{:?}", s));
        s = s.step(ok);
    }
    (s, steps)
}

#[test]
fn save_with_rename_backup() {
    // file exists, rename ok, create ok, write ok
    let (s, steps) = run_save(&[true, true, true, true]);
    assert!(matches!(s, SaveState::Done { outcome: SaveOutcome::Saved, backup: true }));
    assert_eq!(steps, vec!["CheckData", "RenameToBackup", "Create { backup: true }", "Write { backup: true }"]);
}

#[test]
fn save_falls_back_to_copy() {
    let (s, steps) = run_save(&[true, false, true, true, true]);
    assert!(matches!(s, SaveState::Done { outcome: SaveOutcome::Saved, backup: true }));
    assert_eq!(steps[2], "CopyToBackup");
}

#[test]
fn save_without_backup_asks() {
    // exists, rename fails, copy fails, user declines
    let (s, _) = run_save(&[true, false, false, false]);
    assert!(matches!(s, SaveState::Done { outcome: SaveOutcome::Aborted, backup: false }));
    // user accepts: no backup, write goes ahead
    let (s, _) = run_save(&[true, false, false, true, true, true]);
    assert!(matches!(s, SaveState::Done { outcome: SaveOutcome::Saved, backup: false }));
}

#[test]
fn first_save_needs_no_backup() {
    let (s, steps) = run_save(&[false, true, true]);
    assert!(matches!(s, SaveState::Done { outcome: SaveOutcome::Saved, backup: false }));
    assert_eq!(steps, vec!["CheckData", "Create { backup: false }", "Write { backup: false }"]);
}

#[test]
fn failed_write_restores_backup() {
    // backup by rename, create ok, write fails, backup there, rename back ok
    let (s, steps) = run_save(&[true, true, true, false, true, true]);
    assert!(matches!(s, SaveState::Done { outcome: SaveOutcome::Restored, backup: true }));
    assert_eq!(steps[4], "CheckBackup");
    // rename back fails, copy back ok
    let (s, _) = run_save(&[true, true, true, false, true, false, true]);
    assert!(matches!(s, SaveState::Done { outcome: SaveOutcome::RestoredCopy, backup: true }));
    // both fail
    let (s, _) = run_save(&[true, true, true, false, true, false, false]);
    assert!(matches!(s, SaveState::Done { outcome: SaveOutcome::RestoreFailed, backup: true }));
    // backup gone
    let (s, _) = run_save(&[true, true, false, false]);
    assert!(matches!(s, SaveState::Done { outcome: SaveOutcome::BackupMissing, backup: true }));
}

#[test]
fn failed_create_without_backup_fails() {
    let (s, _) = run_save(&[false, false]);
    assert!(matches!(s, SaveState::Done { outcome: SaveOutcome::Failed, backup: false }));
}

#[test]
fn fetch_uses_cache_hit_and_keeps_it() {
    // cache dir there, archive cached, extraction ok
    let (s, steps) = run_fetch(&[true, true, true]);
    assert!(matches!(s, FetchState::Done { failure: None }));
    assert_eq!(steps, vec!["FindCache", "CheckCached", "Extract { from_cache: true }"]);
}

#[test]
fn fetch_downloads_into_cache() {
    let (s, steps) = run_fetch(&[true, false, true, true]);
    assert!(matches!(s, FetchState::Done { failure: None }));
    assert_eq!(steps[2], "Download { to_cache: true }");
    assert_eq!(steps.len(), 4);
}

#[test]
fn fetch_without_cache_deletes_archive() {
    let (s, steps) = run_fetch(&[false, true, true, false]);
    assert!(matches!(s, FetchState::Done { failure: None }));
    assert_eq!(
        steps,
        vec!["FindCache", "Download { to_cache: false }", "Extract { from_cache: false }", "DeleteArchive"]
    );
}

#[test]
fn fetch_failures() {
    let (s, _) = run_fetch(&[false, false]);
    assert!(matches!(s, FetchState::Done { failure: Some(FetchFailure::Download) }));
    let (s, _) = run_fetch(&[true, true, false]);
    assert!(matches!(s, FetchState::Done { failure: Some(FetchFailure::Extract) }));
}

#[test]
fn error_texts() {
    assert_eq!(ModError::AlreadyInstalled.message(), "Mod already installed");
    assert_eq!(ModError::InvalidDownloadUrl("x y".to_string()).message(), "Invalid download url: 'x y'");
    assert_eq!(
        ModError::UnsupportedFileType("https://e.com/a.rar".to_string()).message(),
        "Unrecognized file type in download URL: https://e.com/a.rar\nValid types are only .zip and .dll"
    );
    assert_eq!(ModError::DownloadFailed.message(), "Failed to download mod");
    assert_eq!(ModError::NotInstalled.message(), "Mod is not installed");
    assert_eq!(ConfigError::AlreadyConfigured.message(), "Desperados III is already configured");
    assert_eq!(ConfigError::NotConfigured.message(), "Desperados III is not yet configured");
    assert_eq!(ConfigError::InvalidPath.message(), "Path is invalid or doesn't exist");
    assert_eq!(ConfigError::NoMetadata.message(), "No metadata loaded. Can not add new game.");
    assert_eq!(ConfigError::UnknownGame.message(), "No metadata for the game Desperados3 loaded.");
    assert_eq!(
        LoaderError::NotInstalled.message(),
        "Tried to enable Mod Loader but BepInEx is not installed for this game."
    );
}

#[test]
fn reports() {
    assert_eq!(report("Oops", "it broke"), "Oops:\n\nit broke");
    let failed: Result<u8, ModError> = Err(ModError::NotInstalled);
    assert_eq!(failed.unwrap_or_msg("Remove"), Err("Remove:\n\nMod is not installed".to_string()));
    let fine: Result<u8, ConfigError> = Ok(3);
    assert_eq!(fine.unwrap_or_msg("Configure"), Ok(3));
}

#[test]
fn loader_fixed_places() {
    let unix = loader_archive(false);
    assert_eq!(unix.url, "https://github.com/BepInEx/BepInEx/releases/download/v5.4.4/BepInEx_unix_5.4.4.0.zip");
    assert_eq!(unix.cache_name, "BepInEx_v5.4.4.0.zip");
    assert_eq!(unix.archive_target.parts, vec!["BepInEx_v5.4.4.0.zip".to_string()]);
    assert!(unix.extract_to.parts.is_empty());
    let win = loader_archive(true);
    assert_eq!(win.url, "https://github.com/BepInEx/BepInEx/releases/download/v5.4.4/BepInEx_x64_5.4.4.0.zip");
    let targets: Vec<Vec<String>> = uninstall_targets().into_iter().map(|p| p.parts).collect();
    assert_eq!(
        targets,
        vec![vec!["BepInEx".to_string()], vec!["doorstop_config.ini".to_string()], vec!["winhttp.dll".to_string()]]
    );
    let keep: Vec<Vec<String>> = unknown_removal(true).into_iter().map(|p| p.parts).collect();
    assert_eq!(keep, vec![vec!["BepInEx".to_string(), "core".to_string()], vec!["BepInEx".to_string(), "cache".to_string()]]);
    let wipe: Vec<Vec<String>> = unknown_removal(false).into_iter().map(|p| p.parts).collect();
    assert_eq!(wipe, vec![vec!["BepInEx".to_string()]]);
}

#[test]
fn server_stop_sets_flag() {
    let flag = std::sync::atomic::AtomicBool::new(false);
    ytinu::server::stop(&flag);
    assert!(flag.load(std::sync::atomic::Ordering::SeqCst));
}

#[test]
fn api_paths() {
    assert!(matches!(parse_endpoint("state"), Endpoint::GetState));
    assert!(matches!(parse_endpoint("update"), Endpoint::CheckForUpdates));
    assert!(matches!(parse_endpoint("toggle_modloader_enabled"), Endpoint::ToggleModloaderEnabled));
    match parse_endpoint("install_mod/fastmod") {
        Endpoint::InstallMod(id) => assert_eq!(id, "fastmod"),
        other => panic!("unexpected {:?}", other),
    }
    match parse_endpoint("open/config") {
        Endpoint::Open(dir) => assert_eq!(dir, "config"),
        other => panic!("unexpected {:?}", other),
    }
    match parse_endpoint("update_mod/") {
        Endpoint::UpdateMod(id) => assert_eq!(id, ""),
        other => panic!("unexpected {:?}", other),
    }
    assert!(matches!(parse_endpoint("states"), Endpoint::Invalid));
    assert!(matches!(parse_endpoint(""), Endpoint::Invalid));
}
