use vstd::prelude::*;
use crate::installer::keyed_by_id;
use crate::model::{Game, Mod, SetupGame};
use crate::paths::{configs_dir, plugins_dir, root, GamePath};
use crate::table::Table;
use crate::text::same_text;

verus! {

/// The id of the game that this program sets up.
pub open spec fn managed_game_id() -> Seq<char> {
    "Desperados3"@
}

/// The id of the game that this program sets up.
pub fn managed_game() -> (r: String)
    ensures
        r@ == managed_game_id(),
{
    String::from_str("Desperados3")
}

/// Why configuring a game was refused.
#[derive(Clone, Debug)]
pub enum ConfigError {
    /// A game is set up already.
    AlreadyConfigured,
    /// The game is not set up yet.
    NotConfigured,
    /// The installation path does not exist.
    InvalidPath,
    /// No catalog is loaded.
    NoMetadata,
    /// The catalog does not describe the game.
    UnknownGame,
}

/// A directory that the user asked to open.
#[derive(Clone, Debug)]
pub enum OpenTarget {
    /// No game is selected: nothing to open.
    NoGame,
    /// `path` inside the installation directory `install_path`.
    Dir { install_path: String, path: GamePath },
    /// The name is not one of `game`, `mods`, `config`.
    Unknown,
}

/// The persisted state: the selected game, the games set up, and the ids of
/// the messages already shown.
#[derive(Clone)]
pub struct State {
    pub selected_game: Option<String>,
    pub games: Table<SetupGame>,
    pub shown_messages: Vec<String>,
}

/// The ids in a list of strings, as a set.
pub open spec fn id_set(v: Seq<String>) -> Set<Seq<char>> {
    v.map_values(|s: String| s@).to_set()
}

impl State {
    pub open spec fn wf(&self) -> bool {
        &&& self.games.wf()
        &&& forall|k: Seq<char>| #[trigger] self.games@.contains_key(k) ==> self.games@[k].wf()
    }

    /// The selected game names one that is set up, if any is selected.
    pub open spec fn selection_valid(&self) -> bool {
        self.selected_game is Some ==> self.games@.contains_key(self.selected_game->Some_0@)
    }

    /// The state of a first run: nothing selected, no games, no messages.
    pub fn new() -> (r: State)
        ensures
            r.wf(),
            r.selected_game is None,
            r.games@ == Map::<Seq<char>, SetupGame>::empty(),
            r.shown_messages@ == Seq::<String>::empty(),
    {
        State { selected_game: None, games: Table::new(), shown_messages: Vec::new() }
    }

    /// The selected game, where it is set up.
    pub fn current_game(&self) -> (r: Option<&SetupGame>)
        requires
            self.wf(),
        ensures
            match r {
                Some(g) => self.selected_game is Some && self.games@.contains_key(
                    self.selected_game->Some_0@,
                ) && *g == self.games@[self.selected_game->Some_0@],
                None => self.selected_game is None || !self.games@.contains_key(
                    self.selected_game->Some_0@,
                ),
            },
    {
        match &self.selected_game {
            Some(id) => self.games.get(id),
            None => None,
        }
    }

    /// Takes the selected game out of the table, to work on it; give it
    /// back with [`State::put_game`].
    pub fn take_current_game(&mut self) -> (r: Option<(String, SetupGame)>)
        requires
            old(self).wf(),
        ensures
            final(self).wf(),
            final(self).selected_game == old(self).selected_game,
            final(self).shown_messages == old(self).shown_messages,
            match r {
                Some((id, g)) => old(self).selected_game == Some(id) && old(self).games@.contains_key(id@)
                    && g == old(self).games@[id@] && g.wf() && final(self).games@ == old(
                    self,
                ).games@.remove(id@),
                None => final(self).games@ == old(self).games@ && (old(self).selected_game is None
                    || !old(self).games@.contains_key(old(self).selected_game->Some_0@)),
            },
    {
        let id = match &self.selected_game {
            Some(id) => id.clone(),
            None => {
                return None;
            },
        };
        match self.games.remove(&id) {
            Some(g) => Some((id, g)),
            None => None,
        }
    }

    /// Puts a game (back) into the table under `id`.
    pub fn put_game(&mut self, id: String, game: SetupGame)
        requires
            old(self).wf(),
            game.wf(),
        ensures
            final(self).wf(),
            final(self).selected_game == old(self).selected_game,
            final(self).shown_messages == old(self).shown_messages,
            final(self).games@ == old(self).games@.insert(id@, game),
    {
        self.games.insert(id, game);
    }

    /// Selects the game `id` where it is set up; else clears the selection.
    /// Returns whether it was selected; the caller then reconciles its mod
    /// loader and refreshes its mods' descriptors.
    pub fn select_game(&mut self, id: String) -> (r: bool)
        requires
            old(self).wf(),
        ensures
            final(self).wf(),
            final(self).games == old(self).games,
            final(self).shown_messages == old(self).shown_messages,
            r == old(self).games@.contains_key(id@),
            r ==> final(self).selected_game == Some(id),
            !r ==> final(self).selected_game is None,
            final(self).selection_valid(),
    {
        if self.games.contains_key(&id) {
            self.selected_game = Some(id);
            true
        } else {
            self.selected_game = None;
            false
        }
    }

    /// Makes the selection point at a game that is set up: the selected one
    /// where it is, else some game that is set up, else none. Returns the
    /// game now selected.
    pub fn ensure_selected(&mut self) -> (r: Option<String>)
        requires
            old(self).wf(),
        ensures
            final(self).wf(),
            final(self).games == old(self).games,
            final(self).shown_messages == old(self).shown_messages,
            final(self).selection_valid(),
            final(self).selected_game == r,
            old(self).selection_valid() && old(self).selected_game is Some ==> r == old(
                self,
            ).selected_game,
            r is None <==> old(self).games@.dom().len() == 0,
    {
        let current = match &self.selected_game {
            Some(id) => if self.games.contains_key(id) {
                Some(id.clone())
            } else {
                None
            },
            None => None,
        };
        let pick = match current {
            Some(id) => Some(id),
            None => if self.games.len() > 0 {
                let k = self.games.key_at(0).clone();
                assert(self.games.key_seq().contains(k@));
                Some(k)
            } else {
                None
            },
        };
        match pick {
            Some(id) => {
                self.select_game(id.clone());
                Some(id)
            },
            None => {
                self.selected_game = None;
                None
            },
        }
    }

    /// Sets up the managed game at `install_path` (which must exist) as
    /// the catalog describes it, and selects it. Refused where a game is set
    /// up already.
    pub fn add_game(&mut self, install_path: String, path_exists: bool, catalog: Option<&Catalog>) -> (r: Result<(), ConfigError>)
        requires
            old(self).wf(),
            catalog is Some ==> catalog->Some_0.wf(),
        ensures
            final(self).wf(),
            final(self).shown_messages == old(self).shown_messages,
            old(self).games@.dom().len() != 0 ==> r is Err && r->Err_0 is AlreadyConfigured,
            old(self).games@.dom().len() == 0 && !path_exists ==> r is Err && r->Err_0 is InvalidPath,
            old(self).games@.dom().len() == 0 && path_exists && catalog is None ==> r is Err
                && r->Err_0 is NoMetadata,
            old(self).games@.dom().len() == 0 && path_exists && catalog is Some
                && !catalog->Some_0.games@.contains_key(managed_game_id()) ==> r is Err
                && r->Err_0 is UnknownGame,
            old(self).games@.dom().len() == 0 && path_exists && catalog is Some
                && catalog->Some_0.games@.contains_key(managed_game_id()) ==> r is Ok,
            r is Err ==> *final(self) == *old(self),
            r is Ok ==> {
                &&& final(self).games@.dom() == set![managed_game_id()]
                &&& final(self).selected_game is Some
                &&& final(self).selected_game->Some_0@ == managed_game_id()
                &&& final(self).games@[managed_game_id()].game.same(
                    &catalog->Some_0.games@[managed_game_id()],
                )
                &&& final(self).games@[managed_game_id()].install_path == install_path
                &&& final(self).games@[managed_game_id()].mods@ == Map::<
                    Seq<char>,
                    crate::model::InstalledMod,
                >::empty()
                &&& final(self).games@[managed_game_id()].bep_in_ex is None
            },
    {
        if !self.games.is_empty() {
            return Err(ConfigError::AlreadyConfigured);
        }
        if !path_exists {
            return Err(ConfigError::InvalidPath);
        }
        let catalog = match catalog {
            Some(c) => c,
            None => {
                return Err(ConfigError::NoMetadata);
            },
        };
        let id = managed_game();
        let game = match catalog.games.get(&id) {
            Some(g) => g.duplicate(),
            None => {
                return Err(ConfigError::UnknownGame);
            },
        };
        let setup = SetupGame::new(game, install_path);
        self.games.insert(id.clone(), setup);
        self.selected_game = Some(id);
        proof {
            assert(self.games@.dom() =~= set![managed_game_id()]);
        }
        Ok(())
    }

    /// Moves the managed game to `install_path`, which must exist.
    pub fn update_install_path(&mut self, install_path: String, path_exists: bool) -> (r: Result<(), ConfigError>)
        requires
            old(self).wf(),
        ensures
            final(self).wf(),
            final(self).selected_game == old(self).selected_game,
            final(self).shown_messages == old(self).shown_messages,
            !old(self).games@.contains_key(managed_game_id()) ==> r is Err && r->Err_0 is NotConfigured,
            old(self).games@.contains_key(managed_game_id()) && !path_exists ==> r is Err
                && r->Err_0 is InvalidPath,
            old(self).games@.contains_key(managed_game_id()) && path_exists ==> r is Ok,
            r is Err ==> final(self).games@ == old(self).games@,
            r is Ok ==> old(self).games@.contains_key(managed_game_id()) && path_exists
                && final(self).games@ == old(self).games@.insert(
                managed_game_id(),
                SetupGame { install_path, ..old(self).games@[managed_game_id()] },
            ),
    {
        let id = managed_game();
        if !self.games.contains_key(&id) {
            return Err(ConfigError::NotConfigured);
        }
        if !path_exists {
            return Err(ConfigError::InvalidPath);
        }
        let mut game = match self.games.remove(&id) {
            Some(g) => g,
            None => {
                return Err(ConfigError::NotConfigured);
            },
        };
        game.install_path = install_path;
        self.games.insert(id, game);
        proof {
            assert(self.games@ =~= old(self).games@.insert(
                managed_game_id(),
                SetupGame { install_path, ..old(self).games@[managed_game_id()] },
            ));
        }
        Ok(())
    }

    /// Notes that the message `id` is due to be shown; returns whether to
    /// show it: it applies to this version, and it is new or always shown.
    /// Only a message that applies is noted as shown.
    pub fn record_message(&mut self, id: String, applies: bool, show_always: bool) -> (r: bool)
        requires
            old(self).wf(),
        ensures
            final(self).wf(),
            final(self).games == old(self).games,
            final(self).selected_game == old(self).selected_game,
            id_set(final(self).shown_messages@) == if applies {
                id_set(old(self).shown_messages@).insert(id@)
            } else {
                id_set(old(self).shown_messages@)
            },
            r == (applies && (!id_set(old(self).shown_messages@).contains(id@) || show_always)),
    {
        if !applies {
            return false;
        }
        let mut i: usize = 0;
        let mut seen = false;
        while i < self.shown_messages.len()
            invariant
                i <= self.shown_messages@.len(),
                seen == exists|j: int| 0 <= j < i && self.shown_messages@[j]@ == id@,
            decreases self.shown_messages@.len() - i,
        {
            if same_text(self.shown_messages[i].as_str(), id.as_str()) {
                seen = true;
            }
            i = i + 1;
        }
        let ghost before = self.shown_messages@;
        proof {
            if seen {
                let j = choose|j: int| 0 <= j < before.len() && before[j]@ == id@;
                assert(before.map_values(|s: String| s@)[j] == id@);
            }
            let ids = before.map_values(|s: String| s@);
            if id_set(before).contains(id@) {
                assert(ids.contains(id@));
                let j = choose|j: int| 0 <= j < ids.len() && #[trigger] ids[j] == id@;
                assert(before[j]@ == id@);
            }
        }
        if !seen {
            let ghost k = id@;
            self.shown_messages.push(id);
            proof {
                assert(self.shown_messages@.map_values(|s: String| s@) =~= before.map_values(
                    |s: String| s@,
                ).push(k));
                before.map_values(|s: String| s@).lemma_push_to_set_commute(k);
            }
        } else {
            proof {
                assert(id_set(before).insert(id@) =~= id_set(before));
            }
        }
        !seen || show_always
    }

    /// The directory to open for the name `dir` (`game`, `mods` or
    /// `config`) in the selected game.
    pub fn open_dir(&self, dir: &str) -> (r: OpenTarget)
        requires
            self.wf(),
        ensures
            self.selected_game is None || !self.games@.contains_key(self.selected_game->Some_0@)
                ==> r is NoGame,
            self.selected_game is Some && self.games@.contains_key(self.selected_game->Some_0@)
                ==> {
                let g = self.games@[self.selected_game->Some_0@];
                if dir@ == "game"@ {
                    r is Dir && r->install_path == g.install_path && r->path@ == Seq::<
                        Seq<char>,
                    >::empty()
                } else if dir@ == "mods"@ {
                    r is Dir && r->install_path == g.install_path && r->path@ == seq![
                        crate::paths::loader_dir_name(),
                        crate::paths::plugins_dir_name(),
                    ]
                } else if dir@ == "config"@ {
                    r is Dir && r->install_path == g.install_path && r->path@ == seq![
                        crate::paths::loader_dir_name(),
                        "configs"@,
                    ]
                } else {
                    r is Unknown
                }
            },
    {
        let g = match self.current_game() {
            Some(g) => g,
            None => {
                return OpenTarget::NoGame;
            },
        };
        if same_text(dir, "game") {
            OpenTarget::Dir { install_path: g.install_path.clone(), path: root() }
        } else if same_text(dir, "mods") {
            OpenTarget::Dir { install_path: g.install_path.clone(), path: plugins_dir() }
        } else if same_text(dir, "config") {
            OpenTarget::Dir { install_path: g.install_path.clone(), path: configs_dir() }
        } else {
            OpenTarget::Unknown
        }
    }
}

/// The catalog of games and mods that can be installed: mods for every
/// game, and mods for particular games, each table keyed by mod id.
#[derive(Clone)]
pub struct Catalog {
    pub games: Table<Game>,
    pub mods: Table<Mod>,
    pub game_mods: Table<Table<Mod>>,
}

impl Catalog {
    pub open spec fn wf(&self) -> bool {
        &&& self.games.wf()
        &&& self.mods.wf()
        &&& keyed_by_id(self.mods@)
        &&& self.game_mods.wf()
        &&& forall|g: Seq<char>| #[trigger]
            self.game_mods@.contains_key(g) ==> self.game_mods@[g].wf() && keyed_by_id(
                self.game_mods@[g]@,
            )
    }

    /// The mod `id`: among the mods for every game, else among those of the
    /// game `selected`.
    pub fn get_mod(&self, selected: &Option<String>, id: &String) -> (r: Option<Mod>)
        requires
            self.wf(),
        ensures
            self.mods@.contains_key(id@) ==> r is Some && r->Some_0.same(&self.mods@[id@]),
            !self.mods@.contains_key(id@) ==> match selected {
                Some(g) => if self.game_mods@.contains_key(g@) && self.game_mods@[g@]@.contains_key(
                    id@,
                ) {
                    r is Some && r->Some_0.same(&self.game_mods@[g@]@[id@])
                } else {
                    r is None
                },
                None => r is None,
            },
    {
        match self.mods.get(id) {
            Some(m) => {
                return Some(m.duplicate());
            },
            None => {},
        }
        let g = match selected {
            Some(g) => g,
            None => {
                return None;
            },
        };
        match self.game_mods.get(g) {
            Some(t) => match t.get(id) {
                Some(m) => Some(m.duplicate()),
                None => None,
            },
            None => None,
        }
    }
}

/// A table of `mods` keyed by id; of mods sharing an id, the last counts.
pub fn mods_by_id(mods: Vec<Mod>) -> (r: Table<Mod>)
    ensures
        r.wf(),
        keyed_by_id(r@),
        forall|i: int| 0 <= i < mods@.len() ==> #[trigger] r@.contains_key(mods@[i].id@),
        forall|k: Seq<char>| #[trigger]
            r@.contains_key(k) ==> exists|i: int|
                0 <= i < mods@.len() && mods@[i] == r@[k] && forall|j: int|
                    i < j < mods@.len() ==> mods@[j].id@ != k,
{
    let ghost all = mods@;
    let mut rest = mods;
    let mut r: Table<Mod> = Table::new();
    while rest.len() > 0
        invariant
            r.wf(),
            keyed_by_id(r@),
            rest@.len() <= all.len(),
            rest@ == all.subrange(0, rest@.len() as int),
            forall|i: int| rest@.len() <= i < all.len() ==> #[trigger] r@.contains_key(all[i].id@),
            forall|k: Seq<char>| #[trigger]
                r@.contains_key(k) ==> exists|i: int|
                    rest@.len() <= i < all.len() && all[i] == r@[k] && forall|j: int|
                        i < j < all.len() ==> all[j].id@ != k,
            forall|k: Seq<char>| #[trigger] r@.contains_key(k) <== exists|i: int|
                rest@.len() <= i < all.len() && all[i].id@ == k,
        decreases rest@.len(),
    {
        let m = rest.pop().unwrap();
        let ghost p = rest@.len() as int;
        assert(all[p] == m);
        if !r.contains_key(&m.id) {
            let ghost before = r@;
            let k = m.id.clone();
            r.insert(k, m);
            proof {
                assert forall|kk: Seq<char>| #[trigger] r@.contains_key(kk) implies exists|i: int|
                    p <= i < all.len() && all[i] == r@[kk] && forall|j: int|
                        i < j < all.len() ==> all[j].id@ != kk by {
                    if kk == m.id@ {
                        assert forall|j: int| p < j < all.len() implies all[j].id@ != kk by {
                            if all[j].id@ == kk {
                                assert(before.contains_key(all[j].id@));
                            }
                        }
                    } else {
                        assert(before.contains_key(kk));
                    }
                }
            }
        } else {
            proof {
                assert forall|kk: Seq<char>| #[trigger] r@.contains_key(kk) implies exists|i: int|
                    p <= i < all.len() && all[i] == r@[kk] && forall|j: int|
                        i < j < all.len() ==> all[j].id@ != kk by {
                    let i = choose|i: int|
                        p + 1 <= i < all.len() && all[i] == r@[kk] && forall|j: int|
                            i < j < all.len() ==> all[j].id@ != kk;
                }
            }
        }
        assert(rest@ =~= all.subrange(0, rest@.len() as int));
    }
    r
}

} // verus!
