use vstd::prelude::*;
use crate::installer::installed_after;
use crate::loader::{asks_about_unknown, reconciled, LoaderScan};
use crate::model::{BepInExInfo, InstalledMod};
use crate::store::{files_after, outcome_on, run_save, save_next, Files, SaveState};

verus! {

/// What a scan finds after reconciling `status` with `scan`: removing an
/// unknown installation deletes its core binary; nothing else changes the
/// disk.
pub open spec fn scan_after(status: Option<BepInExInfo>, scan: LoaderScan, remove_unknown: bool) -> LoaderScan {
    if asks_about_unknown(status, scan) && remove_unknown {
        LoaderScan { core_present: false, core_hash: None, boot_config_present: scan.boot_config_present }
    } else {
        scan
    }
}

/// Reconciling twice in a row, with no change to the disk between the two
/// but what the first one did, gives the same loader state both times.
pub proof fn lemma_reconcile_idempotent(
    status: Option<BepInExInfo>,
    scan: LoaderScan,
    remove_unknown: bool,
    remove_again: bool,
)
    ensures
        reconciled(
            reconciled(status, scan, remove_unknown),
            scan_after(status, scan, remove_unknown),
            remove_again,
        ) == reconciled(status, scan, remove_unknown),
{
}

/// Updating a mod (removing it, then installing its recorded descriptor
/// again) gives it back the version it had, when the files are fetched;
/// when they are not, the mod is left out.
pub proof fn lemma_update_reinstalls(mods: Map<Seq<char>, InstalledMod>, id: Seq<char>, fetched: bool)
    requires
        mods.contains_key(id),
        mods[id].m.id@ == id,
    ensures
        !mods.remove(id).contains_key(id),
        fetched ==> installed_after(mods.remove(id), mods[id].m, fetched).contains_key(id)
            && installed_after(mods.remove(id), mods[id].m, fetched)[id].version
            == mods[id].m.version,
        !fetched ==> !installed_after(mods.remove(id), mods[id].m, fetched).contains_key(id),
{
}

/// What the files are, given where a save stands (starting with no backup
/// file).
pub open spec fn backup_tracks(s: SaveState, f: Files) -> bool {
    match s {
        SaveState::CheckData => !f.backup,
        SaveState::RenameToBackup => !f.backup,
        SaveState::CopyToBackup => !f.backup,
        SaveState::AskOverwrite => !f.backup,
        SaveState::Create { backup } => f.backup == backup,
        SaveState::Write { backup } => f.backup == backup,
        SaveState::CheckBackup => f.backup,
        SaveState::RenameBackup => f.backup,
        SaveState::CopyBackup => f.backup,
        SaveState::Done { outcome, backup } => f.backup == (backup && !(outcome is Restored)),
    }
}

proof fn lemma_backup_tracks_run(s: SaveState, f: Files, oks: Seq<bool>)
    requires
        backup_tracks(s, f),
    ensures
        backup_tracks(run_save(s, f, oks).0, run_save(s, f, oks).1),
    decreases oks.len(),
{
    if oks.len() > 0 {
        let ok = outcome_on(s, f, oks[0]);
        lemma_backup_tracks_run(save_next(s, ok), files_after(s, f, ok), oks.drop_first());
    }
}

/// After a save that starts with no backup file on disk, the backup file
/// exists exactly when the backup step (rename, else copy) succeeded,
/// unless a failed write had the backup moved back over the state file.
pub proof fn lemma_backup_iff_backed_up(data_exists: bool, oks: Seq<bool>)
    ensures
        ({
            let (s, f) = run_save(SaveState::CheckData, Files { data: data_exists, backup: false }, oks);
            match s {
                SaveState::Done { outcome, backup } => !(outcome is Restored) ==> (f.backup
                    <==> backup),
                _ => true,
            }
        }),
        ({
            let (s, f) = run_save(SaveState::CheckData, Files { data: data_exists, backup: false }, oks);
            match s {
                SaveState::Done { outcome, backup } => outcome is Restored ==> !f.backup,
                _ => true,
            }
        }),
{
    lemma_backup_tracks_run(SaveState::CheckData, Files { data: data_exists, backup: false }, oks);
}

} // verus!
