use vstd::prelude::*;
use crate::model::{BepInExInfo, InstalledMod, SetupGame};
use crate::installer::paths_view;
use crate::bindings::{blake2s_hex, checksum};
use crate::paths::{
    boot_config, core_dir, injector, loader_cache_dir, loader_dir, parked_boot_config,
    parked_injector, relative, GamePath,
};
use crate::version::Version;

verus! {

// The places of the loader's files, as paths inside the installation directory.

pub open spec fn core_dir_view() -> Seq<Seq<char>> {
    seq![crate::paths::loader_dir_name(), "core"@]
}

pub open spec fn cache_dir_view() -> Seq<Seq<char>> {
    seq![crate::paths::loader_dir_name(), "cache"@]
}

pub open spec fn loader_dir_view() -> Seq<Seq<char>> {
    seq![crate::paths::loader_dir_name()]
}

pub open spec fn boot_config_view() -> Seq<Seq<char>> {
    seq![crate::paths::boot_config_name()]
}

pub open spec fn parked_boot_config_view() -> Seq<Seq<char>> {
    seq![crate::paths::loader_dir_name(), crate::paths::boot_config_name()]
}

pub open spec fn injector_view() -> Seq<Seq<char>> {
    seq![crate::paths::injector_name()]
}

pub open spec fn parked_injector_view() -> Seq<Seq<char>> {
    seq![crate::paths::loader_dir_name(), crate::paths::injector_name()]
}

/// The version of the mod loader that this program installs.
pub open spec fn is_bundled_version(v: Version) -> bool {
    &&& v.major == 5
    &&& v.minor == 4
    &&& v.patch == 4
    &&& v.pre@ == Seq::<char>::empty()
    &&& v.build@ == Seq::<char>::empty()
}

/// The version of the mod loader that this program installs.
pub fn bundled_version() -> (r: Version)
    ensures
        is_bundled_version(r),
{
    Version::new(5, 4, 4)
}

/// An archive to fetch through the download cache and extract.
#[derive(Clone, Debug)]
pub struct ArchiveFetch {
    pub url: String,
    /// The name of the archive in the download cache.
    pub cache_name: String,
    /// Where the archive goes when there is no download cache.
    pub archive_target: GamePath,
    pub extract_to: GamePath,
}

pub open spec fn loader_archive_name() -> Seq<char> {
    "BepInEx_v5.4.4.0.zip"@
}

pub open spec fn loader_url(windows: bool) -> Seq<char> {
    if windows {
        "https://github.com/BepInEx/BepInEx/releases/download/v5.4.4/BepInEx_x64_5.4.4.0.zip"@
    } else {
        "https://github.com/BepInEx/BepInEx/releases/download/v5.4.4/BepInEx_unix_5.4.4.0.zip"@
    }
}

/// The loader's release archive for the platform (`windows`, else a Unix
/// one), cached under its versioned name and extracted into the
/// installation root.
pub fn loader_archive(windows: bool) -> (r: ArchiveFetch)
    ensures
        r.url@ == loader_url(windows),
        r.cache_name@ == loader_archive_name(),
        r.archive_target@ == seq![loader_archive_name()],
        r.extract_to@ == Seq::<Seq<char>>::empty(),
{
    let url = if windows {
        String::from_str(
            "https://github.com/BepInEx/BepInEx/releases/download/v5.4.4/BepInEx_x64_5.4.4.0.zip",
        )
    } else {
        String::from_str(
            "https://github.com/BepInEx/BepInEx/releases/download/v5.4.4/BepInEx_unix_5.4.4.0.zip",
        )
    };
    let name = String::from_str("BepInEx_v5.4.4.0.zip");
    ArchiveFetch {
        url,
        cache_name: name.clone(),
        archive_target: crate::paths::relative(&name),
        extract_to: crate::paths::root(),
    }
}

/// What uninstalling the loader deletes, each where it is present: the
/// loader's directory (with every mod in it), the bootstrap configuration
/// and the injector library.
pub fn uninstall_targets() -> (r: Vec<GamePath>)
    ensures
        r@.len() == 3,
        r@[0]@ == loader_dir_view(),
        r@[1]@ == boot_config_view(),
        r@[2]@ == injector_view(),
{
    let mut r: Vec<GamePath> = Vec::new();
    r.push(loader_dir());
    r.push(boot_config());
    r.push(injector());
    r
}

/// The paths that a mod's file list names.
pub open spec fn files_of(e: InstalledMod) -> Seq<Seq<Seq<char>>> {
    match e.m.files {
        Some(fs) => fs@.map_values(|f: String| seq![f@]),
        None => Seq::empty(),
    }
}

/// The paths that the file lists of the mods under `keys` name, in order.
pub open spec fn listed_files(keys: Seq<Seq<char>>, mods: Map<Seq<char>, InstalledMod>) -> Seq<Seq<Seq<char>>>
    decreases keys.len(),
{
    if keys.len() == 0 {
        Seq::empty()
    } else {
        listed_files(keys.drop_last(), mods) + files_of(mods[keys.last()])
    }
}

/// What was found of the mod loader on disk.
#[derive(Clone, Debug)]
pub struct LoaderScan {
    /// The loader's core binary is present.
    pub core_present: bool,
    /// Digest of the core binary, where it could be read.
    pub core_hash: Option<String>,
    /// The bootstrap configuration is in the installation root (the loader
    /// is enabled).
    pub boot_config_present: bool,
}

impl LoaderScan {
    /// A scan from what was read on disk: the digest of the core binary is
    /// computed from its bytes, where they could be read.
    pub fn from_disk(core_present: bool, core_bytes: Option<Vec<u8>>, boot_config_present: bool) -> (r: LoaderScan)
        ensures
            r.core_present == core_present,
            r.boot_config_present == boot_config_present,
            match core_bytes {
                Some(b) => r.core_hash is Some && r.core_hash->Some_0@ == blake2s_hex(b@),
                None => r.core_hash is None,
            },
    {
        let core_hash = match core_bytes {
            Some(b) => Some(checksum(b.as_slice())),
            None => None,
        };
        LoaderScan { core_present, core_hash, boot_config_present }
    }
}

/// What reconciling asks next.
#[derive(Clone, Debug)]
pub enum ReconcileStep {
    /// The recorded state now follows the disk.
    Settled,
    /// A loader that this program does not know of is present: ask whether
    /// to remove it, then call [`SetupGame::resolve_unknown`].
    UnknownInstallation,
}

/// The recorded loader state after reconciling `status` with `scan`, where
/// `remove_unknown` is the answer to the question asked of an unknown
/// installation.
pub open spec fn reconciled(status: Option<BepInExInfo>, scan: LoaderScan, remove_unknown: bool) -> Option<BepInExInfo> {
    if !scan.core_present {
        None
    } else {
        match status {
            Some(info) => {
                let drift = info.hash is Some && scan.core_hash is Some && scan.core_hash->Some_0@
                    != info.hash->Some_0@;
                Some(
                    BepInExInfo {
                        version: if drift {
                            None
                        } else {
                            info.version
                        },
                        enabled: scan.boot_config_present,
                        hash: if drift {
                            scan.core_hash
                        } else {
                            info.hash
                        },
                    },
                )
            },
            None => if remove_unknown {
                None
            } else {
                Some(
                    BepInExInfo {
                        version: None,
                        enabled: scan.boot_config_present,
                        hash: scan.core_hash,
                    },
                )
            },
        }
    }
}

/// Reconciling `status` with `scan` asks about an unknown installation.
pub open spec fn asks_about_unknown(status: Option<BepInExInfo>, scan: LoaderScan) -> bool {
    scan.core_present && status is None
}

/// What to delete of an unknown installation: the `core` and `cache`
/// directories where configs and mods are kept, else the whole loader
/// directory.
pub fn unknown_removal(keep_configs: bool) -> (r: Vec<GamePath>)
    ensures
        keep_configs ==> r@.len() == 2 && r@[0]@ == core_dir_view() && r@[1]@ == cache_dir_view(),
        !keep_configs ==> r@.len() == 1 && r@[0]@ == loader_dir_view(),
{
    let mut r: Vec<GamePath> = Vec::new();
    if keep_configs {
        r.push(core_dir());
        r.push(loader_cache_dir());
    } else {
        r.push(loader_dir());
    }
    r
}

/// A move of one file from `from` to `to`.
#[derive(Clone, Debug)]
pub struct Move {
    pub from: GamePath,
    pub to: GamePath,
}

/// The two marker moves that enable or disable the loader.
#[derive(Clone, Debug)]
pub struct MarkerMoves {
    pub boot_config: Move,
    pub injector: Move,
}

/// Why a loader operation was refused.
#[derive(Clone, Debug)]
pub enum LoaderError {
    /// The loader is not installed for this game.
    NotInstalled,
}

impl SetupGame {
    /// Whether toggling the loader's installation removes it (it is
    /// installed) rather than installs it.
    pub fn loader_installed(&self) -> (r: bool)
        ensures
            r == self.bep_in_ex is Some,
    {
        self.bep_in_ex.is_some()
    }

    /// Records the loader as removed, once the user confirmed and its files
    /// were deleted: every mod goes with it.
    pub fn complete_uninstall(&mut self)
        requires
            old(self).wf(),
        ensures
            final(self).wf(),
            final(self).game == old(self).game,
            final(self).install_path == old(self).install_path,
            final(self).mods@ == Map::<Seq<char>, crate::model::InstalledMod>::empty(),
            final(self).bep_in_ex is None,
    {
        self.mods.clear();
        self.bep_in_ex = None;
    }

    /// Records the loader as installed by this program, once its archive
    /// was extracted; `scan` is what was then found on disk, whose digest
    /// of the core binary is recorded.
    pub fn complete_loader_install(&mut self, scan: &LoaderScan)
        requires
            old(self).wf(),
        ensures
            final(self).wf(),
            final(self).game == old(self).game,
            final(self).install_path == old(self).install_path,
            final(self).mods@ == old(self).mods@,
            final(self).bep_in_ex is Some,
            final(self).bep_in_ex->Some_0.enabled,
            final(self).bep_in_ex->Some_0.hash == scan.core_hash,
            final(self).bep_in_ex->Some_0.version is Some,
            is_bundled_version(final(self).bep_in_ex->Some_0.version->Some_0),
    {
        self.bep_in_ex = Some(
            BepInExInfo {
                version: Some(bundled_version()),
                enabled: true,
                hash: crate::text::copy_opt(&scan.core_hash),
            },
        );
    }

    /// The files that the installed mods list, in the order of the mod
    /// table: uninstalling the loader deletes them with it. (A mod without
    /// a file list lives in the plugins directory, inside the loader's.)
    pub fn listed_mod_files(&self) -> (r: Vec<GamePath>)
        requires
            self.wf(),
        ensures
            paths_view(r@) == listed_files(self.mods.key_seq(), self.mods@),
    {
        let ghost ks = self.mods.key_seq();
        let mut r: Vec<GamePath> = Vec::new();
        let mut i: usize = 0;
        while i < self.mods.len()
            invariant
                self.wf(),
                ks == self.mods.key_seq(),
                i <= ks.len(),
                paths_view(r@) == listed_files(ks.subrange(0, i as int), self.mods@),
            decreases ks.len() - i,
        {
            let k = self.mods.key_at(i);
            assert(ks.contains(k@));
            let e = self.mods.get(k).unwrap();
            let ghost before = r@;
            match &e.m.files {
                Some(fs) => {
                    let mut j: usize = 0;
                    while j < fs.len()
                        invariant
                            j <= fs@.len(),
                            paths_view(r@) == paths_view(before) + fs@.subrange(0, j as int).map_values(
                                |f: String| seq![f@],
                            ),
                        decreases fs@.len() - j,
                    {
                        let ghost mid = r@;
                        r.push(relative(&fs[j]));
                        assert(paths_view(r@) =~= paths_view(mid).push(seq![fs@[j as int]@]));
                        assert(fs@.subrange(0, j + 1).map_values(|f: String| seq![f@])
                            =~= fs@.subrange(0, j as int).map_values(|f: String| seq![f@]).push(
                            seq![fs@[j as int]@],
                        ));
                        j = j + 1;
                    }
                    assert(fs@.subrange(0, fs@.len() as int) =~= fs@);
                },
                None => {
                    assert(paths_view(r@) =~= paths_view(before) + Seq::<Seq<Seq<char>>>::empty());
                },
            }
            assert(ks.subrange(0, i + 1).drop_last() =~= ks.subrange(0, i as int));
            i = i + 1;
        }
        assert(ks.subrange(0, ks.len() as int) =~= ks);
        r
    }

    /// The moves that flip the loader's enabled state: out of the
    /// installation root to disable, back into it to enable.
    pub fn plan_toggle_enabled(&self) -> (r: Result<MarkerMoves, LoaderError>)
        ensures
            self.bep_in_ex is None ==> r is Err,
            self.bep_in_ex is Some ==> r is Ok,
            r is Ok && self.bep_in_ex->Some_0.enabled ==> {
                let mv = r->Ok_0;
                &&& mv.boot_config.from@ == boot_config_view()
                &&& mv.boot_config.to@ == parked_boot_config_view()
                &&& mv.injector.from@ == injector_view()
                &&& mv.injector.to@ == parked_injector_view()
            },
            r is Ok && !self.bep_in_ex->Some_0.enabled ==> {
                let mv = r->Ok_0;
                &&& mv.boot_config.from@ == parked_boot_config_view()
                &&& mv.boot_config.to@ == boot_config_view()
                &&& mv.injector.from@ == parked_injector_view()
                &&& mv.injector.to@ == injector_view()
            },
    {
        match &self.bep_in_ex {
            Some(info) => {
                if info.enabled {
                    Ok(
                        MarkerMoves {
                            boot_config: Move { from: boot_config(), to: parked_boot_config() },
                            injector: Move { from: injector(), to: parked_injector() },
                        },
                    )
                } else {
                    Ok(
                        MarkerMoves {
                            boot_config: Move { from: parked_boot_config(), to: boot_config() },
                            injector: Move { from: parked_injector(), to: injector() },
                        },
                    )
                }
            },
            None => Err(LoaderError::NotInstalled),
        }
    }

    /// Records the outcome of the marker moves: the enabled flag flips only
    /// when both moves succeeded.
    pub fn complete_toggle_enabled(&mut self, both_moved: bool)
        requires
            old(self).wf(),
        ensures
            final(self).wf(),
            final(self).game == old(self).game,
            final(self).install_path == old(self).install_path,
            final(self).mods@ == old(self).mods@,
            old(self).bep_in_ex is None ==> final(self).bep_in_ex is None,
            old(self).bep_in_ex is Some ==> final(self).bep_in_ex == Some(
                BepInExInfo {
                    enabled: if both_moved {
                        !old(self).bep_in_ex->Some_0.enabled
                    } else {
                        old(self).bep_in_ex->Some_0.enabled
                    },
                    ..old(self).bep_in_ex->Some_0
                },
            ),
    {
        if both_moved {
            match &mut self.bep_in_ex {
                Some(info) => {
                    info.enabled = !info.enabled;
                },
                None => {},
            }
        }
    }

    /// Brings the recorded loader state in line with `scan`: absent when the
    /// core binary is; drift of the core binary's digest clears the version;
    /// the enabled flag follows the disk. An installation that this program
    /// does not know of is left for the user to decide on.
    pub fn reconcile(&mut self, scan: &LoaderScan) -> (r: ReconcileStep)
        requires
            old(self).wf(),
        ensures
            final(self).wf(),
            final(self).game == old(self).game,
            final(self).install_path == old(self).install_path,
            final(self).mods@ == old(self).mods@,
            asks_about_unknown(old(self).bep_in_ex, *scan) ==> r is UnknownInstallation
                && final(self).bep_in_ex == old(self).bep_in_ex,
            !asks_about_unknown(old(self).bep_in_ex, *scan) ==> r is Settled
                && final(self).bep_in_ex == reconciled(old(self).bep_in_ex, *scan, false),
    {
        if !scan.core_present {
            self.bep_in_ex = None;
            return ReconcileStep::Settled;
        }
        match &mut self.bep_in_ex {
            Some(info) => {
                let drift = match (&info.hash, &scan.core_hash) {
                    (Some(expected), Some(found)) => *found != *expected,
                    _ => false,
                };
                if drift {
                    info.version = None;
                    info.hash = crate::text::copy_opt(&scan.core_hash);
                }
                info.enabled = scan.boot_config_present;
                ReconcileStep::Settled
            },
            None => ReconcileStep::UnknownInstallation,
        }
    }

    /// Settles an unknown installation: adopted with no known version when
    /// the user keeps it; left absent when the user removes it (the files
    /// are deleted per [`unknown_removal`]).
    pub fn resolve_unknown(&mut self, scan: &LoaderScan, remove: bool)
        requires
            old(self).wf(),
            asks_about_unknown(old(self).bep_in_ex, *scan),
        ensures
            final(self).wf(),
            final(self).game == old(self).game,
            final(self).install_path == old(self).install_path,
            final(self).mods@ == old(self).mods@,
            final(self).bep_in_ex == reconciled(old(self).bep_in_ex, *scan, remove),
    {
        if !remove {
            self.bep_in_ex = Some(
                BepInExInfo {
                    version: None,
                    enabled: scan.boot_config_present,
                    hash: crate::text::copy_opt(&scan.core_hash),
                },
            );
        }
    }
}

} // verus!
