use vstd::prelude::*;
use crate::text::{has_prefix, same_text, strip_prefix};

verus! {

/// An operation of the UI's API, named by the path after `/api/`.
#[derive(Clone, Debug)]
pub enum Endpoint {
    FindGameDirectory,
    BrowseDirectory,
    UpdateInstallPath,
    AddGame,
    GetState,
    GetMetadata,
    ToggleModloaderInstalled,
    ToggleModloaderEnabled,
    CheckForUpdates,
    Shutdown,
    GetConfig,
    SetConfig,
    /// `open/<dir>`
    Open(String),
    /// `install_mod/<id>`
    InstallMod(String),
    /// `remove_mod/<id>`
    RemoveMod(String),
    /// `update_mod/<id>`
    UpdateMod(String),
    /// No such operation.
    Invalid,
}

/// The rest of `path` after `prefix`.
pub open spec fn after(path: Seq<char>, prefix: Seq<char>) -> Seq<char> {
    path.subrange(prefix.len() as int, path.len() as int)
}

/// `r` is the operation that `path` names.
pub open spec fn routes(path: Seq<char>, r: Endpoint) -> bool {
    if path == "find_game_directory"@ {
        r is FindGameDirectory
    } else if path == "browse_directory"@ {
        r is BrowseDirectory
    } else if path == "update_install_path"@ {
        r is UpdateInstallPath
    } else if path == "add_game"@ {
        r is AddGame
    } else if path == "state"@ {
        r is GetState
    } else if path == "metadata"@ {
        r is GetMetadata
    } else if path == "toggle_modloader_installed"@ {
        r is ToggleModloaderInstalled
    } else if path == "toggle_modloader_enabled"@ {
        r is ToggleModloaderEnabled
    } else if path == "update"@ {
        r is CheckForUpdates
    } else if path == "shutdown"@ {
        r is Shutdown
    } else if path == "get_config"@ {
        r is GetConfig
    } else if path == "set_config"@ {
        r is SetConfig
    } else if has_prefix(path, "open/"@) {
        r is Open && r->Open_0@ == after(path, "open/"@)
    } else if has_prefix(path, "install_mod/"@) {
        r is InstallMod && r->InstallMod_0@ == after(path, "install_mod/"@)
    } else if has_prefix(path, "remove_mod/"@) {
        r is RemoveMod && r->RemoveMod_0@ == after(path, "remove_mod/"@)
    } else if has_prefix(path, "update_mod/"@) {
        r is UpdateMod && r->UpdateMod_0@ == after(path, "update_mod/"@)
    } else {
        r is Invalid
    }
}

/// The operation that the API path `path` names.
pub fn parse_endpoint(path: &str) -> (r: Endpoint)
    ensures
        routes(path@, r),
{
    if same_text(path, "find_game_directory") {
        Endpoint::FindGameDirectory
    } else if same_text(path, "browse_directory") {
        Endpoint::BrowseDirectory
    } else if same_text(path, "update_install_path") {
        Endpoint::UpdateInstallPath
    } else if same_text(path, "add_game") {
        Endpoint::AddGame
    } else if same_text(path, "state") {
        Endpoint::GetState
    } else if same_text(path, "metadata") {
        Endpoint::GetMetadata
    } else if same_text(path, "toggle_modloader_installed") {
        Endpoint::ToggleModloaderInstalled
    } else if same_text(path, "toggle_modloader_enabled") {
        Endpoint::ToggleModloaderEnabled
    } else if same_text(path, "update") {
        Endpoint::CheckForUpdates
    } else if same_text(path, "shutdown") {
        Endpoint::Shutdown
    } else if same_text(path, "get_config") {
        Endpoint::GetConfig
    } else if same_text(path, "set_config") {
        Endpoint::SetConfig
    } else if let Some(rest) = strip_prefix(path, "open/") {
        Endpoint::Open(rest)
    } else if let Some(rest) = strip_prefix(path, "install_mod/") {
        Endpoint::InstallMod(rest)
    } else if let Some(rest) = strip_prefix(path, "remove_mod/") {
        Endpoint::RemoveMod(rest)
    } else if let Some(rest) = strip_prefix(path, "update_mod/") {
        Endpoint::UpdateMod(rest)
    } else {
        Endpoint::Invalid
    }
}

} // verus!
