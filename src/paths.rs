use vstd::prelude::*;

verus! {

/// A location inside a game's installation directory, as the list of names
/// to join onto that directory (empty: the directory itself).
#[derive(Clone, Debug)]
pub struct GamePath {
    pub parts: Vec<String>,
}

impl View for GamePath {
    type V = Seq<Seq<char>>;

    open spec fn view(&self) -> Seq<Seq<char>> {
        self.parts@.map_values(|p: String| p@)
    }
}

pub open spec fn loader_dir_name() -> Seq<char> {
    "BepInEx"@
}

pub open spec fn plugins_dir_name() -> Seq<char> {
    "plugins"@
}

pub open spec fn boot_config_name() -> Seq<char> {
    "doorstop_config.ini"@
}

pub open spec fn injector_name() -> Seq<char> {
    "winhttp.dll"@
}

fn name(s: &str) -> (r: String)
    ensures
        r@ == s@,
{
    String::from_str(s)
}

fn path1(a: String) -> (r: GamePath)
    ensures
        r@ == seq![a@],
{
    let mut parts: Vec<String> = Vec::new();
    parts.push(a);
    let r = GamePath { parts };
    assert(r@ =~= seq![a@]);
    r
}

fn path2(a: String, b: String) -> (r: GamePath)
    ensures
        r@ == seq![a@, b@],
{
    let mut parts: Vec<String> = Vec::new();
    parts.push(a);
    parts.push(b);
    let r = GamePath { parts };
    assert(r@ =~= seq![a@, b@]);
    r
}

fn path3(a: String, b: String, c: String) -> (r: GamePath)
    ensures
        r@ == seq![a@, b@, c@],
{
    let mut parts: Vec<String> = Vec::new();
    parts.push(a);
    parts.push(b);
    parts.push(c);
    let r = GamePath { parts };
    assert(r@ =~= seq![a@, b@, c@]);
    r
}

/// The installation directory itself.
pub fn root() -> (r: GamePath)
    ensures
        r@ == Seq::<Seq<char>>::empty(),
{
    let r = GamePath { parts: Vec::new() };
    assert(r@ =~= Seq::<Seq<char>>::empty());
    r
}

/// A path that a mod's file list names, relative to the installation root.
pub fn relative(file: &String) -> (r: GamePath)
    ensures
        r@ == seq![file@],
{
    path1(file.clone())
}

/// The mod loader's directory.
pub fn loader_dir() -> (r: GamePath)
    ensures
        r@ == seq![loader_dir_name()],
{
    path1(name("BepInEx"))
}

/// The directory that holds the mods.
pub fn plugins_dir() -> (r: GamePath)
    ensures
        r@ == seq![loader_dir_name(), plugins_dir_name()],
{
    path2(name("BepInEx"), name("plugins"))
}

/// The directory of the mods' configuration.
pub fn configs_dir() -> (r: GamePath)
    ensures
        r@ == seq![loader_dir_name(), "configs"@],
{
    path2(name("BepInEx"), name("configs"))
}

/// The loader's `core` directory.
pub fn core_dir() -> (r: GamePath)
    ensures
        r@ == seq![loader_dir_name(), "core"@],
{
    path2(name("BepInEx"), name("core"))
}

/// The loader's `cache` directory.
pub fn loader_cache_dir() -> (r: GamePath)
    ensures
        r@ == seq![loader_dir_name(), "cache"@],
{
    path2(name("BepInEx"), name("cache"))
}

/// The loader's core binary, whose presence marks the loader as installed.
pub fn core_binary() -> (r: GamePath)
    ensures
        r@ == seq![loader_dir_name(), "core"@, "BepInEx.dll"@],
{
    path3(name("BepInEx"), name("core"), name("BepInEx.dll"))
}

/// The bootstrap configuration in the installation root; its presence
/// there means the loader is enabled.
pub fn boot_config() -> (r: GamePath)
    ensures
        r@ == seq![boot_config_name()],
{
    path1(name("doorstop_config.ini"))
}

/// The injector library in the installation root.
pub fn injector() -> (r: GamePath)
    ensures
        r@ == seq![injector_name()],
{
    path1(name("winhttp.dll"))
}

/// Where the bootstrap configuration is kept while the loader is disabled.
pub fn parked_boot_config() -> (r: GamePath)
    ensures
        r@ == seq![loader_dir_name(), boot_config_name()],
{
    path2(name("BepInEx"), name("doorstop_config.ini"))
}

/// Where the injector library is kept while the loader is disabled.
pub fn parked_injector() -> (r: GamePath)
    ensures
        r@ == seq![loader_dir_name(), injector_name()],
{
    path2(name("BepInEx"), name("winhttp.dll"))
}

/// An entry `file` of the plugins directory.
pub fn in_plugins(file: String) -> (r: GamePath)
    ensures
        r@ == seq![loader_dir_name(), plugins_dir_name(), file@],
{
    path3(name("BepInEx"), name("plugins"), file)
}

} // verus!
