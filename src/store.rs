use vstd::prelude::*;
use crate::model::SetupGame;
use crate::state::State;

verus! {

/// How loading the state file went.
#[derive(Clone, Debug)]
pub enum LoadReport {
    /// The file was read and decoded.
    Loaded,
    /// There is no state file (a first run).
    Missing,
    /// The file exists but could not be opened; the user is told.
    Unreadable,
    /// The file could not be decoded; this is only logged.
    Corrupt,
}

/// The state of a first run.
pub open spec fn is_fresh(s: State) -> bool {
    &&& s.wf()
    &&& s.selected_game is None
    &&& s.games@ == Map::<Seq<char>, SetupGame>::empty()
    &&& s.shown_messages@ == Seq::<String>::empty()
}

/// The state to start from, given whether the state file exists, whether it
/// could be opened, and what it decoded to. Every failure falls back to the
/// state of a first run.
pub fn load(exists: bool, opened: bool, decoded: Option<State>) -> (r: (State, LoadReport))
    ensures
        opened && decoded is Some ==> r.0 == decoded->Some_0 && r.1 is Loaded,
        opened && decoded is None ==> is_fresh(r.0) && r.1 is Corrupt,
        !opened && exists ==> is_fresh(r.0) && r.1 is Unreadable,
        !opened && !exists ==> is_fresh(r.0) && r.1 is Missing,
{
    if !opened {
        if exists {
            (State::new(), LoadReport::Unreadable)
        } else {
            (State::new(), LoadReport::Missing)
        }
    } else {
        match decoded {
            Some(s) => (s, LoadReport::Loaded),
            None => (State::new(), LoadReport::Corrupt),
        }
    }
}

/// How a save ended.
#[derive(Clone, Debug)]
pub enum SaveOutcome {
    /// The state was written.
    Saved,
    /// No backup could be made and the user declined to overwrite.
    Aborted,
    /// Writing failed and there was no backup to restore.
    Failed,
    /// Writing failed and the backup had gone.
    BackupMissing,
    /// Writing failed; the backup was moved back in place.
    Restored,
    /// Writing failed; the backup was copied back in place.
    RestoredCopy,
    /// Writing failed and the backup could not be put back: the user must
    /// recover it by hand.
    RestoreFailed,
}

/// Where a save stands; each state names the work to do next, whose
/// outcome [`SaveState::step`] takes.
#[derive(Clone, Debug)]
pub enum SaveState {
    /// See whether the state file exists.
    CheckData,
    /// Rename the state file to the backup path.
    RenameToBackup,
    /// Copy the state file to the backup path.
    CopyToBackup,
    /// Ask the user whether to overwrite the state file without a backup.
    AskOverwrite,
    /// Create (truncate) the state file; `backup` says whether a backup was
    /// made.
    Create { backup: bool },
    /// Write the state into the file.
    Write { backup: bool },
    /// See whether the backup file exists.
    CheckBackup,
    /// Rename the backup to the state file.
    RenameBackup,
    /// Copy the backup to the state file.
    CopyBackup,
    /// Finished; `backup` says whether the backup step succeeded.
    Done { outcome: SaveOutcome, backup: bool },
}

/// The state after `s` given the outcome `ok` of its work.
pub open spec fn save_next(s: SaveState, ok: bool) -> SaveState {
    match s {
        SaveState::CheckData => if ok {
            SaveState::RenameToBackup
        } else {
            SaveState::Create { backup: false }
        },
        SaveState::RenameToBackup => if ok {
            SaveState::Create { backup: true }
        } else {
            SaveState::CopyToBackup
        },
        SaveState::CopyToBackup => if ok {
            SaveState::Create { backup: true }
        } else {
            SaveState::AskOverwrite
        },
        SaveState::AskOverwrite => if ok {
            SaveState::Create { backup: false }
        } else {
            SaveState::Done { outcome: SaveOutcome::Aborted, backup: false }
        },
        SaveState::Create { backup } => if ok {
            SaveState::Write { backup }
        } else if backup {
            SaveState::CheckBackup
        } else {
            SaveState::Done { outcome: SaveOutcome::Failed, backup: false }
        },
        SaveState::Write { backup } => if ok {
            SaveState::Done { outcome: SaveOutcome::Saved, backup }
        } else if backup {
            SaveState::CheckBackup
        } else {
            SaveState::Done { outcome: SaveOutcome::Failed, backup: false }
        },
        SaveState::CheckBackup => if ok {
            SaveState::RenameBackup
        } else {
            SaveState::Done { outcome: SaveOutcome::BackupMissing, backup: true }
        },
        SaveState::RenameBackup => if ok {
            SaveState::Done { outcome: SaveOutcome::Restored, backup: true }
        } else {
            SaveState::CopyBackup
        },
        SaveState::CopyBackup => if ok {
            SaveState::Done { outcome: SaveOutcome::RestoredCopy, backup: true }
        } else {
            SaveState::Done { outcome: SaveOutcome::RestoreFailed, backup: true }
        },
        SaveState::Done { outcome, backup } => SaveState::Done { outcome, backup },
    }
}

impl SaveState {
    /// The first state of a save.
    pub fn start() -> (r: SaveState)
        ensures
            r == SaveState::CheckData,
    {
        SaveState::CheckData
    }

    /// Moves on, given whether the work of this state succeeded (for the
    /// checks: whether the file is there; for the question: whether the
    /// user agreed).
    pub fn step(self, ok: bool) -> (r: SaveState)
        ensures
            r == save_next(self, ok),
    {
        match self {
            SaveState::CheckData => if ok {
                SaveState::RenameToBackup
            } else {
                SaveState::Create { backup: false }
            },
            SaveState::RenameToBackup => if ok {
                SaveState::Create { backup: true }
            } else {
                SaveState::CopyToBackup
            },
            SaveState::CopyToBackup => if ok {
                SaveState::Create { backup: true }
            } else {
                SaveState::AskOverwrite
            },
            SaveState::AskOverwrite => if ok {
                SaveState::Create { backup: false }
            } else {
                SaveState::Done { outcome: SaveOutcome::Aborted, backup: false }
            },
            SaveState::Create { backup } => if ok {
                SaveState::Write { backup }
            } else if backup {
                SaveState::CheckBackup
            } else {
                SaveState::Done { outcome: SaveOutcome::Failed, backup: false }
            },
            SaveState::Write { backup } => if ok {
                SaveState::Done { outcome: SaveOutcome::Saved, backup }
            } else if backup {
                SaveState::CheckBackup
            } else {
                SaveState::Done { outcome: SaveOutcome::Failed, backup: false }
            },
            SaveState::CheckBackup => if ok {
                SaveState::RenameBackup
            } else {
                SaveState::Done { outcome: SaveOutcome::BackupMissing, backup: true }
            },
            SaveState::RenameBackup => if ok {
                SaveState::Done { outcome: SaveOutcome::Restored, backup: true }
            } else {
                SaveState::CopyBackup
            },
            SaveState::CopyBackup => if ok {
                SaveState::Done { outcome: SaveOutcome::RestoredCopy, backup: true }
            } else {
                SaveState::Done { outcome: SaveOutcome::RestoreFailed, backup: true }
            },
            SaveState::Done { outcome, backup } => SaveState::Done { outcome, backup },
        }
    }

    /// The save has finished.
    pub fn is_done(&self) -> (r: bool)
        ensures
            r == self is Done,
    {
        match self {
            SaveState::Done { .. } => true,
            _ => false,
        }
    }
}

/// Which of the two files are on disk: the state file and its backup.
#[derive(Clone, Debug)]
pub struct Files {
    pub data: bool,
    pub backup: bool,
}

/// The outcome that the work of `s` has on `files`: the checks find what
/// is there; other work succeeds as `ok` says.
pub open spec fn outcome_on(s: SaveState, files: Files, ok: bool) -> bool {
    match s {
        SaveState::CheckData => files.data,
        SaveState::CheckBackup => files.backup,
        _ => ok,
    }
}

/// The files after the work of `s` with outcome `ok`. Work that fails
/// leaves the files as they were.
pub open spec fn files_after(s: SaveState, files: Files, ok: bool) -> Files {
    if !ok {
        files
    } else {
        match s {
            SaveState::RenameToBackup => Files { data: false, backup: true },
            SaveState::CopyToBackup => Files { backup: true, ..files },
            SaveState::Create { .. } => Files { data: true, ..files },
            SaveState::RenameBackup => Files { data: true, backup: false },
            SaveState::CopyBackup => Files { data: true, ..files },
            _ => files,
        }
    }
}

/// Runs a save from `s` on `files`, the work taking the outcomes `oks` in
/// turn; returns where it stands and the files then.
pub open spec fn run_save(s: SaveState, files: Files, oks: Seq<bool>) -> (SaveState, Files)
    decreases oks.len(),
{
    if oks.len() == 0 {
        (s, files)
    } else {
        let ok = outcome_on(s, files, oks[0]);
        run_save(save_next(s, ok), files_after(s, files, ok), oks.drop_first())
    }
}

} // verus!
