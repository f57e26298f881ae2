use vstd::prelude::*;
use crate::model::{BepInExInfo, Game, InstalledMod, Mod, SetupGame};
use crate::table::Table;
use crate::bindings::{parse_url_path, url_path};
use crate::paths::{
    in_plugins, loader_dir_name, plugins_dir, plugins_dir_name, relative, root, GamePath,
};
use crate::text::{ends_with, has_prefix, has_suffix, join2, starts_with};

verus! {

/// Why a mod operation was refused or failed.
#[derive(Clone, Debug)]
pub enum ModError {
    /// The mod id already has an entry.
    AlreadyInstalled,
    /// The download URL does not parse, or names no file; the URL is given.
    InvalidDownloadUrl(String),
    /// The download URL names a file that is neither `.dll` nor `.zip`; the
    /// URL is given.
    UnsupportedFileType(String),
    /// Downloading the mod's file failed.
    DownloadFailed,
    /// The mod id has no entry.
    NotInstalled,
}

/// How to fetch a mod's files.
#[derive(Clone, Debug)]
pub enum InstallPlan {
    /// Download the single file at `url` to `target`.
    Direct { url: String, target: GamePath },
    /// Fetch the archive at `url` through the download cache under
    /// `cache_name` (or to `archive_target` where there is no cache), then
    /// extract it into `extract_to`.
    Archive { url: String, cache_name: String, archive_target: GamePath, extract_to: GamePath },
}

/// What to delete to remove a mod.
#[derive(Clone, Debug)]
pub enum RemovePlan {
    /// These paths, in this order.
    Paths(Vec<GamePath>),
    /// Every entry of the plugins directory whose name begins with the mod
    /// id (see [`prefixed_entries`]).
    ScanPlugins,
}

/// The text after the last `/` of `p` (all of `p` where it has none).
pub open spec fn after_last_slash(p: Seq<char>) -> Seq<char>
    decreases p.len(),
{
    if p.len() == 0 {
        p
    } else if p.last() == '/' {
        Seq::empty()
    } else {
        after_last_slash(p.drop_last()).push(p.last())
    }
}

/// The last segment of a URL path; `None` unless the path begins with `/`.
pub open spec fn last_segment(path: Seq<char>) -> Option<Seq<char>> {
    if path.len() > 0 && path[0] == '/' {
        Some(after_last_slash(path))
    } else {
        None
    }
}

/// The file name that a download URL ends in.
pub open spec fn download_file(url: Seq<char>) -> Option<Seq<char>> {
    match url_path(url) {
        Some(p) => last_segment(p),
        None => None,
    }
}

/// The name under which a mod's archive is cached.
pub open spec fn archive_name(game_id: Seq<char>, mod_id: Seq<char>) -> Seq<char> {
    game_id + "_"@ + mod_id + ".zip"@
}

/// The view of an optional string.
pub open spec fn opt_view(s: Option<String>) -> Option<Seq<char>> {
    match s {
        Some(x) => Some(x@),
        None => None,
    }
}

/// The entry that installing `m` records.
pub open spec fn installed_entry(m: Mod) -> InstalledMod {
    InstalledMod { version: m.version, enabled: true, m }
}

/// The mod table after installing `m`, where its files were fetched.
pub open spec fn installed_after(mods: Map<Seq<char>, InstalledMod>, m: Mod, fetched: bool) -> Map<Seq<char>, InstalledMod> {
    if fetched {
        mods.insert(m.id@, installed_entry(m))
    } else {
        mods
    }
}

/// `r` is what installing `m` into `g` plans, given the file name `file`
/// that its download URL ends in.
pub open spec fn plans_install(
    g: SetupGame,
    m: Mod,
    file: Option<Seq<char>>,
    r: Result<InstallPlan, ModError>,
) -> bool {
    if g.mods@.contains_key(m.id@) {
        r is Err && r->Err_0 is AlreadyInstalled
    } else {
        match file {
            None => match r {
                Err(ModError::InvalidDownloadUrl(u)) => u == m.download,
                _ => false,
            },
            Some(f) => if has_suffix(f, ".dll"@) {
                match r {
                    Ok(InstallPlan::Direct { url, target }) => url == m.download && target@
                        == seq![loader_dir_name(), plugins_dir_name(), m.id@ + ".dll"@],
                    _ => false,
                }
            } else if has_suffix(f, ".zip"@) {
                match r {
                    Ok(InstallPlan::Archive { url, cache_name, archive_target, extract_to }) => {
                        &&& url == m.download
                        &&& cache_name@ == archive_name(g.game.id@, m.id@)
                        &&& archive_target@ == seq![loader_dir_name(), plugins_dir_name(), cache_name@]
                        &&& extract_to@ == if m.extract_to_root {
                            Seq::<Seq<char>>::empty()
                        } else {
                            seq![loader_dir_name(), plugins_dir_name(), m.id@]
                        }
                    },
                    _ => false,
                }
            } else {
                match r {
                    Err(ModError::UnsupportedFileType(u)) => u == m.download,
                    _ => false,
                }
            },
        }
    }
}

proof fn lemma_after_last_slash(p: Seq<char>, j: int)
    requires
        0 <= j <= p.len(),
        j == 0 || p[j - 1] == '/',
        forall|k: int| j <= k < p.len() ==> p[k] != '/',
    ensures
        after_last_slash(p) == p.subrange(j, p.len() as int),
    decreases p.len(),
{
    if p.len() == 0 {
        assert(p.subrange(j, 0) =~= p);
    } else if p.len() == j {
        assert(p.last() == '/');
        assert(p.subrange(j, j) =~= Seq::<char>::empty());
    } else {
        let q = p.drop_last();
        lemma_after_last_slash(q, j);
        assert(p.subrange(j, p.len() as int) =~= q.subrange(j, q.len() as int).push(p.last()));
    }
}

/// The last segment of a URL path: the text after its last `/`, where the
/// path begins with `/`.
pub fn path_file_segment(path: &str) -> (r: Option<String>)
    ensures
        opt_view(r) == last_segment(path@),
{
    let n = path.unicode_len();
    if n == 0 || path.get_char(0) != '/' {
        return None;
    }
    let mut j: usize = n;
    while j > 0 && path.get_char(j - 1) != '/'
        invariant
            n == path@.len(),
            j <= n,
            path@[0] == '/',
            forall|k: int| j <= k < n ==> path@[k] != '/',
        decreases j,
    {
        j = j - 1;
    }
    proof {
        lemma_after_last_slash(path@, j as int);
    }
    let seg = path.substring_char(j, n);
    Some(seg.to_owned())
}

/// The file name that the download URL `url` ends in.
pub fn download_file_name(url: &str) -> (r: Option<String>)
    ensures
        opt_view(r) == download_file(url@),
{
    match parse_url_path(url) {
        Some(p) => path_file_segment(p.as_str()),
        None => None,
    }
}

/// The entries among `names` (of the plugins directory) whose names begin
/// with `mod_id`, in their order.
pub open spec fn prefixed(names: Seq<String>, mod_id: Seq<char>) -> Seq<Seq<Seq<char>>> {
    names.filter_map(
        |n: String|
            if has_prefix(n@, mod_id) {
                Some(seq![loader_dir_name(), plugins_dir_name(), n@])
            } else {
                None
            },
    )
}

/// The view of a list of paths.
pub open spec fn paths_view(v: Seq<GamePath>) -> Seq<Seq<Seq<char>>> {
    v.map_values(|p: GamePath| p@)
}

/// The paths, in the plugins directory, of the entries among `names` whose
/// names begin with `mod_id`: the fallback for a mod without a file list.
pub fn prefixed_entries(names: &Vec<String>, mod_id: &String) -> (r: Vec<GamePath>)
    ensures
        paths_view(r@) == prefixed(names@, mod_id@),
{
    let mut r: Vec<GamePath> = Vec::new();
    let mut i: usize = 0;
    while i < names.len()
        invariant
            i <= names@.len(),
            paths_view(r@) == prefixed(names@.subrange(0, i as int), mod_id@),
        decreases names@.len() - i,
    {
        let ghost before = r@;
        let n = &names[i];
        if starts_with(n.as_str(), mod_id.as_str()) {
            r.push(in_plugins(n.clone()));
            assert(paths_view(r@) =~= paths_view(before).push(
                seq![loader_dir_name(), plugins_dir_name(), n@],
            ));
        }
        assert(names@.subrange(0, i + 1).drop_last() =~= names@.subrange(0, i as int));
        i = i + 1;
    }
    assert(names@.subrange(0, names@.len() as int) =~= names@);
    r
}

/// Every descriptor of `mods` is filed under its own id.
pub open spec fn keyed_by_id(mods: Map<Seq<char>, Mod>) -> bool {
    forall|k: Seq<char>| #[trigger] mods.contains_key(k) ==> mods[k].id@ == k
}

/// `e` is the entry `before` with its descriptor taken from `catalog` where
/// the catalog has one.
pub open spec fn refreshed(e: InstalledMod, before: InstalledMod, catalog: Map<Seq<char>, Mod>, k: Seq<char>) -> bool {
    if catalog.contains_key(k) {
        &&& e.m.same(&catalog[k])
        &&& e.version == before.version
        &&& e.enabled == before.enabled
    } else {
        e == before
    }
}

impl SetupGame {
    /// A game as read back from storage: each of `mods` is filed under its
    /// own id, the last one counting where ids repeat.
    pub fn from_parts(
        game: Game,
        install_path: String,
        mods: Vec<InstalledMod>,
        bep_in_ex: Option<BepInExInfo>,
    ) -> (r: SetupGame)
        ensures
            r.wf(),
            r.game == game,
            r.install_path == install_path,
            r.bep_in_ex == bep_in_ex,
            forall|i: int| 0 <= i < mods@.len() ==> #[trigger] r.mods@.contains_key(mods@[i].m.id@),
            forall|k: Seq<char>| #[trigger]
                r.mods@.contains_key(k) ==> exists|i: int|
                    0 <= i < mods@.len() && mods@[i] == r.mods@[k] && forall|j: int|
                        i < j < mods@.len() ==> mods@[j].m.id@ != k,
    {
        let ghost all = mods@;
        let mut rest = mods;
        let mut table: Table<InstalledMod> = Table::new();
        while rest.len() > 0
            invariant
                table.wf(),
                forall|k: Seq<char>| #[trigger] table@.contains_key(k) ==> table@[k].m.id@ == k,
                rest@.len() <= all.len(),
                rest@ == all.subrange(0, rest@.len() as int),
                forall|i: int|
                    rest@.len() <= i < all.len() ==> #[trigger] table@.contains_key(all[i].m.id@),
                forall|k: Seq<char>| #[trigger]
                    table@.contains_key(k) ==> exists|i: int|
                        rest@.len() <= i < all.len() && all[i] == table@[k] && forall|j: int|
                            i < j < all.len() ==> all[j].m.id@ != k,
            decreases rest@.len(),
        {
            let e = rest.pop().unwrap();
            let ghost p = rest@.len() as int;
            assert(all[p] == e);
            if !table.contains_key(&e.m.id) {
                let ghost before = table@;
                let k = e.m.id.clone();
                table.insert(k, e);
                proof {
                    assert forall|kk: Seq<char>| #[trigger] table@.contains_key(kk) implies exists|i: int|
                        p <= i < all.len() && all[i] == table@[kk] && forall|j: int|
                            i < j < all.len() ==> all[j].m.id@ != kk by {
                        if kk == e.m.id@ {
                            assert forall|j: int| p < j < all.len() implies all[j].m.id@ != kk by {
                                if all[j].m.id@ == kk {
                                    assert(before.contains_key(all[j].m.id@));
                                }
                            }
                        } else {
                            assert(before.contains_key(kk));
                        }
                    }
                }
            } else {
                proof {
                    assert forall|kk: Seq<char>| #[trigger] table@.contains_key(kk) implies exists|i: int|
                        p <= i < all.len() && all[i] == table@[kk] && forall|j: int|
                            i < j < all.len() ==> all[j].m.id@ != kk by {
                        let i = choose|i: int|
                            p + 1 <= i < all.len() && all[i] == table@[kk] && forall|j: int|
                                i < j < all.len() ==> all[j].m.id@ != kk;
                    }
                }
            }
            assert(rest@ =~= all.subrange(0, rest@.len() as int));
        }
        SetupGame { game, install_path, mods: table, bep_in_ex }
    }

    /// Refreshes the descriptors of the installed mods from `catalog`,
    /// leaving versions, enabled flags and the set of mods as they are.
    pub fn update_mods_meta(&mut self, catalog: &Table<Mod>)
        requires
            old(self).wf(),
            catalog.wf(),
            keyed_by_id(catalog@),
        ensures
            final(self).wf(),
            final(self).game == old(self).game,
            final(self).install_path == old(self).install_path,
            final(self).bep_in_ex == old(self).bep_in_ex,
            final(self).mods@.dom() == old(self).mods@.dom(),
            forall|k: Seq<char>| #[trigger]
                old(self).mods@.contains_key(k) ==> refreshed(
                    final(self).mods@[k],
                    old(self).mods@[k],
                    catalog@,
                    k,
                ),
    {
        let ghost ks = self.mods.key_seq();
        let ghost before = self.mods@;
        let n = self.mods.len();
        let mut i: usize = 0;
        while i < n
            invariant
                self.wf(),
                n == ks.len(),
                i <= n,
                self.mods.key_seq() == ks,
                self.game == old(self).game,
                self.install_path == old(self).install_path,
                self.bep_in_ex == old(self).bep_in_ex,
                before == old(self).mods@,
                ks == old(self).mods.key_seq(),
                old(self).mods.wf(),
                catalog.wf(),
                keyed_by_id(catalog@),
                self.mods@.dom() == before.dom(),
                forall|j: int| 0 <= j < i ==> refreshed(self.mods@[ks[j]], before[ks[j]], catalog@, ks[j]),
                forall|j: int| i <= j < n ==> self.mods@[ks[j]] == before[ks[j]],
            decreases n - i,
        {
            let k = self.mods.key_at(i).clone();
            assert(ks.contains(k@));
            match catalog.get(&k) {
                Some(nm) => {
                    let e = self.mods.get(&k).unwrap();
                    let (version, enabled) = (e.version.duplicate(), e.enabled);
                    let entry = InstalledMod { m: nm.duplicate(), version, enabled };
                    self.mods.insert(k, entry);
                    proof {
                        assert forall|j: int| 0 <= j < n && j != i implies ks[j] != ks[i as int] by {
                            assert(ks.no_duplicates());
                        }
                        assert(self.mods@.dom() =~= before.dom());
                    }
                },
                None => {},
            }
            i = i + 1;
        }
        proof {
            assert forall|k: Seq<char>| #[trigger] old(self).mods@.contains_key(k) implies refreshed(
                self.mods@[k],
                before[k],
                catalog@,
                k,
            ) by {
                let j = choose|j: int| 0 <= j < ks.len() && ks[j] == k;
            }
        }
    }

    /// Plans installing `m`, given the file name `file` that its download
    /// URL ends in (`None`: the URL is invalid).
    pub fn plan_install_for(&self, m: &Mod, file: Option<String>) -> (r: Result<
        InstallPlan,
        ModError,
    >)
        requires
            self.wf(),
        ensures
            plans_install(*self, *m, opt_view(file), r),
    {
        if self.mods.contains_key(&m.id) {
            return Err(ModError::AlreadyInstalled);
        }
        let f = match file {
            Some(f) => f,
            None => {
                return Err(ModError::InvalidDownloadUrl(m.download.clone()));
            },
        };
        if ends_with(f.as_str(), ".dll") {
            let target = in_plugins(join2(m.id.as_str(), ".dll"));
            Ok(InstallPlan::Direct { url: m.download.clone(), target })
        } else if ends_with(f.as_str(), ".zip") {
            let with_sep = join2(self.game.id.as_str(), "_");
            let with_id = join2(with_sep.as_str(), m.id.as_str());
            let cache_name = join2(with_id.as_str(), ".zip");
            let archive_target = in_plugins(cache_name.clone());
            let extract_to = if m.extract_to_root {
                root()
            } else {
                in_plugins(m.id.clone())
            };
            Ok(InstallPlan::Archive { url: m.download.clone(), cache_name, archive_target, extract_to })
        } else {
            Err(ModError::UnsupportedFileType(m.download.clone()))
        }
    }

    /// Plans installing `m`: refused if its id is installed, or if its
    /// download URL is invalid or names an unsupported file.
    pub fn plan_install(&self, m: &Mod) -> (r: Result<InstallPlan, ModError>)
        requires
            self.wf(),
        ensures
            self.mods@.contains_key(m.id@) ==> r is Err && r->Err_0 is AlreadyInstalled,
            plans_install(*self, *m, download_file(m.download@), r),
    {
        let file = download_file_name(m.download.as_str());
        self.plan_install_for(m, file)
    }

    /// Records the outcome of carrying out `plan` for `m`: the mod is
    /// recorded only if its files were fetched. A failed direct download is
    /// an error; a failed archive fetch was already reported by the fetch.
    pub fn complete_install(&mut self, m: Mod, plan: &InstallPlan, fetched: bool) -> (r: Result<
        (),
        ModError,
    >)
        requires
            old(self).wf(),
        ensures
            final(self).wf(),
            final(self).game == old(self).game,
            final(self).install_path == old(self).install_path,
            final(self).bep_in_ex == old(self).bep_in_ex,
            final(self).mods@ == installed_after(old(self).mods@, m, fetched),
            fetched ==> r is Ok,
            !fetched ==> (r is Err <==> plan is Direct),
            r is Err ==> r->Err_0 is DownloadFailed,
    {
        if fetched {
            let key = m.id.clone();
            let version = m.version.duplicate();
            self.mods.insert(key, InstalledMod { m, version, enabled: true });
            Ok(())
        } else {
            match plan {
                InstallPlan::Direct { .. } => Err(ModError::DownloadFailed),
                InstallPlan::Archive { .. } => Ok(()),
            }
        }
    }

    /// Plans removing the mod `mod_id`: its file list where it has one,
    /// else a scan of the plugins directory.
    pub fn plan_remove(&self, mod_id: &String) -> (r: Result<RemovePlan, ModError>)
        requires
            self.wf(),
        ensures
            !self.mods@.contains_key(mod_id@) ==> (r is Err && r->Err_0 is NotInstalled),
            self.mods@.contains_key(mod_id@) ==> match self.mods@[mod_id@].m.files {
                Some(fs) => r is Ok && r->Ok_0 is Paths && paths_view(r->Ok_0->Paths_0@)
                    == fs@.map_values(|f: String| seq![f@]),
                None => r is Ok && r->Ok_0 is ScanPlugins,
            },
    {
        let entry = match self.mods.get(mod_id) {
            Some(e) => e,
            None => {
                return Err(ModError::NotInstalled);
            },
        };
        match &entry.m.files {
            Some(fs) => {
                let mut paths: Vec<GamePath> = Vec::new();
                let mut i: usize = 0;
                while i < fs.len()
                    invariant
                        i <= fs@.len(),
                        paths_view(paths@) == fs@.subrange(0, i as int).map_values(
                            |f: String| seq![f@],
                        ),
                    decreases fs@.len() - i,
                {
                    let ghost before = paths@;
                    paths.push(relative(&fs[i]));
                    assert(paths_view(paths@) =~= paths_view(before).push(seq![fs@[i as int]@]));
                    assert(fs@.subrange(0, i + 1).map_values(|f: String| seq![f@])
                        =~= fs@.subrange(0, i as int).map_values(|f: String| seq![f@]).push(
                        seq![fs@[i as int]@],
                    ));
                    i = i + 1;
                }
                assert(fs@.subrange(0, fs@.len() as int) =~= fs@);
                Ok(RemovePlan::Paths(paths))
            },
            None => Ok(RemovePlan::ScanPlugins),
        }
    }

    /// Drops the entry of `mod_id` once its files are deleted, returning its
    /// descriptor.
    pub fn complete_remove(&mut self, mod_id: &String) -> (r: Result<Mod, ModError>)
        requires
            old(self).wf(),
        ensures
            final(self).wf(),
            final(self).game == old(self).game,
            final(self).install_path == old(self).install_path,
            final(self).bep_in_ex == old(self).bep_in_ex,
            final(self).mods@ == old(self).mods@.remove(mod_id@),
            old(self).mods@.contains_key(mod_id@) ==> r == Ok::<Mod, ModError>(
                old(self).mods@[mod_id@].m,
            ),
            !old(self).mods@.contains_key(mod_id@) ==> (r is Err && r->Err_0 is NotInstalled),
    {
        match self.mods.remove(mod_id) {
            Some(e) => Ok(e.m),
            None => Err(ModError::NotInstalled),
        }
    }
}

} // verus!
