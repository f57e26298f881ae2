use vstd::prelude::*;
use crate::table::Table;
use crate::version::Version;
use crate::text::{copy_opt, copy_strings};
use crate::paths::{loader_dir_name, plugins_dir, plugins_dir_name, GamePath};

verus! {

/// A game that mods can be installed into.
#[derive(Clone, Debug)]
pub struct Game {
    pub id: String,
    pub name: String,
    pub appid: Option<String>,
    pub recommended_mods: Vec<String>,
}

impl Game {
    /// Same game: every field equal, the recommended mods by their contents.
    pub open spec fn same(&self, o: &Game) -> bool {
        &&& self.id == o.id
        &&& self.name == o.name
        &&& self.appid == o.appid
        &&& self.recommended_mods@ == o.recommended_mods@
    }

    /// A copy of the game.
    pub fn duplicate(&self) -> (r: Game)
        ensures
            r.same(self),
    {
        Game {
            id: self.id.clone(),
            name: self.name.clone(),
            appid: copy_opt(&self.appid),
            recommended_mods: copy_strings(&self.recommended_mods),
        }
    }
}

/// The description of a mod package, as a catalog lists it.
#[derive(Clone, Debug)]
pub struct Mod {
    pub id: String,
    pub name: String,
    pub download: String,
    pub version: Version,
    pub extract_to_root: bool,
    /// Paths, relative to the installation root, that the mod owns.
    pub files: Option<Vec<String>>,
    pub dev_mod: bool,
    pub source: Option<String>,
    pub homepage: Option<String>,
    pub description: Option<String>,
    /// Text of the version range of this program that the mod works with.
    pub ytinu_version: Option<String>,
}

/// The view of an optional list of strings.
pub open spec fn opt_strings(v: Option<Vec<String>>) -> Option<Seq<String>> {
    match v {
        Some(x) => Some(x@),
        None => None,
    }
}

impl Mod {
    /// Same descriptor: every field equal, the file list by its contents.
    pub open spec fn same(&self, o: &Mod) -> bool {
        &&& self.id == o.id
        &&& self.name == o.name
        &&& self.download == o.download
        &&& self.version == o.version
        &&& self.extract_to_root == o.extract_to_root
        &&& opt_strings(self.files) == opt_strings(o.files)
        &&& self.dev_mod == o.dev_mod
        &&& self.source == o.source
        &&& self.homepage == o.homepage
        &&& self.description == o.description
        &&& self.ytinu_version == o.ytinu_version
    }

    /// A copy of the descriptor.
    pub fn duplicate(&self) -> (r: Mod)
        ensures
            r.same(self),
    {
        Mod {
            id: self.id.clone(),
            name: self.name.clone(),
            download: self.download.clone(),
            version: self.version.duplicate(),
            extract_to_root: self.extract_to_root,
            files: match &self.files {
                Some(f) => Some(copy_strings(f)),
                None => None,
            },
            dev_mod: self.dev_mod,
            source: copy_opt(&self.source),
            homepage: copy_opt(&self.homepage),
            description: copy_opt(&self.description),
            ytinu_version: copy_opt(&self.ytinu_version),
        }
    }
}

/// A mod as installed into a game: the descriptor at install time, the
/// version installed, and whether it is enabled.
#[derive(Clone, Debug)]
pub struct InstalledMod {
    pub m: Mod,
    pub version: Version,
    pub enabled: bool,
}

/// What is known of the mod loader in a game's directory.
///
/// `version` is `None` when the loader present is not one that this program
/// installed, or when its core binary changed since (drift).
#[derive(Clone, Debug)]
pub struct BepInExInfo {
    pub version: Option<Version>,
    pub enabled: bool,
    pub hash: Option<String>,
}

impl BepInExInfo {
    /// An exact copy.
    pub fn duplicate(&self) -> (r: BepInExInfo)
        ensures
            r == *self,
    {
        BepInExInfo {
            version: match &self.version {
                Some(v) => Some(v.duplicate()),
                None => None,
            },
            enabled: self.enabled,
            hash: copy_opt(&self.hash),
        }
    }
}

/// A game that has been set up: where it is installed, its mods, and the
/// state of its mod loader (`None`: absent).
#[derive(Clone)]
pub struct SetupGame {
    pub game: Game,
    pub install_path: String,
    pub mods: Table<InstalledMod>,
    pub bep_in_ex: Option<BepInExInfo>,
}

impl SetupGame {
    /// The mod table is well formed and each mod is filed under its own id.
    pub open spec fn wf(&self) -> bool {
        &&& self.mods.wf()
        &&& forall|k: Seq<char>| #[trigger]
            self.mods@.contains_key(k) ==> self.mods@[k].m.id@ == k
    }

    /// A game just set up at `install_path`: no mods, no loader.
    pub fn new(game: Game, install_path: String) -> (r: SetupGame)
        ensures
            r.wf(),
            r.game == game,
            r.install_path == install_path,
            r.mods@ == Map::<Seq<char>, InstalledMod>::empty(),
            r.bep_in_ex.is_none(),
    {
        SetupGame { game, install_path, mods: Table::new(), bep_in_ex: None }
    }

    /// The directory that holds the mods, inside the installation directory.
    pub fn plugins_path(&self) -> (r: GamePath)
        ensures
            r@ == seq![loader_dir_name(), plugins_dir_name()],
    {
        plugins_dir()
    }

    /// The directory that the game is installed in.
    pub fn install_path(&self) -> (r: &String)
        ensures
            *r == self.install_path,
    {
        &self.install_path
    }
}

} // verus!
