use vstd::prelude::*;

verus! {

/// Where the archive-fetching pipeline stands; each state names the work to
/// do next, whose outcome [`FetchState::step`] takes.
#[derive(Clone, Debug)]
pub enum FetchState {
    /// Look for the download cache: the outcome says whether a cache
    /// directory is available.
    FindCache,
    /// See whether the archive is in the cache already.
    CheckCached,
    /// Download the archive: into the cache, or to the fallback target.
    Download { to_cache: bool },
    /// Extract the archive (the cached copy, or the fallback target).
    Extract { from_cache: bool },
    /// Delete the downloaded archive; the outcome does not matter.
    DeleteArchive,
    /// Finished: the archive was extracted unless `failure` says otherwise.
    Done { failure: Option<FetchFailure> },
}

/// What went wrong in a fetch.
#[derive(Clone, Debug)]
pub enum FetchFailure {
    Download,
    Extract,
}

/// The state after `s` given the outcome `ok` of its work.
pub open spec fn fetch_next(s: FetchState, ok: bool) -> FetchState {
    match s {
        FetchState::FindCache => if ok {
            FetchState::CheckCached
        } else {
            FetchState::Download { to_cache: false }
        },
        FetchState::CheckCached => if ok {
            FetchState::Extract { from_cache: true }
        } else {
            FetchState::Download { to_cache: true }
        },
        FetchState::Download { to_cache } => if ok {
            FetchState::Extract { from_cache: to_cache }
        } else {
            FetchState::Done { failure: Some(FetchFailure::Download) }
        },
        FetchState::Extract { from_cache } => if !ok {
            FetchState::Done { failure: Some(FetchFailure::Extract) }
        } else if from_cache {
            FetchState::Done { failure: None }
        } else {
            FetchState::DeleteArchive
        },
        FetchState::DeleteArchive => FetchState::Done { failure: None },
        FetchState::Done { failure } => FetchState::Done { failure },
    }
}

impl FetchState {
    /// The first state of a fetch.
    pub fn start() -> (r: FetchState)
        ensures
            r == FetchState::FindCache,
    {
        FetchState::FindCache
    }

    /// Moves on, given whether the work of this state succeeded (for
    /// [`FetchState::FindCache`] and [`FetchState::CheckCached`]: whether
    /// what was looked for is there). A cached archive is trusted as it is
    /// and kept; a freshly downloaded one outside the cache is deleted
    /// after extraction.
    pub fn step(self, ok: bool) -> (r: FetchState)
        ensures
            r == fetch_next(self, ok),
    {
        match self {
            FetchState::FindCache => if ok {
                FetchState::CheckCached
            } else {
                FetchState::Download { to_cache: false }
            },
            FetchState::CheckCached => if ok {
                FetchState::Extract { from_cache: true }
            } else {
                FetchState::Download { to_cache: true }
            },
            FetchState::Download { to_cache } => if ok {
                FetchState::Extract { from_cache: to_cache }
            } else {
                FetchState::Done { failure: Some(FetchFailure::Download) }
            },
            FetchState::Extract { from_cache } => if !ok {
                FetchState::Done { failure: Some(FetchFailure::Extract) }
            } else if from_cache {
                FetchState::Done { failure: None }
            } else {
                FetchState::DeleteArchive
            },
            FetchState::DeleteArchive => FetchState::Done { failure: None },
            FetchState::Done { failure } => FetchState::Done { failure },
        }
    }

    /// The fetch has finished.
    pub fn is_done(&self) -> (r: bool)
        ensures
            r == self is Done,
    {
        match self {
            FetchState::Done { .. } => true,
            _ => false,
        }
    }
}

} // verus!
