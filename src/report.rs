use vstd::prelude::*;
use crate::installer::ModError;
use crate::loader::LoaderError;
use crate::state::ConfigError;
use crate::text::join2;

verus! {

/// The text shown for a mod error.
pub open spec fn mod_error_text(e: ModError) -> Seq<char> {
    match e {
        ModError::AlreadyInstalled => "Mod already installed"@,
        ModError::InvalidDownloadUrl(u) => "Invalid download url: '"@ + u@ + "'"@,
        ModError::UnsupportedFileType(u) => "Unrecognized file type in download URL: "@ + u@
            + "\nValid types are only .zip and .dll"@,
        ModError::DownloadFailed => "Failed to download mod"@,
        ModError::NotInstalled => "Mod is not installed"@,
    }
}

/// The text shown for a configuration error.
pub open spec fn config_error_text(e: ConfigError) -> Seq<char> {
    match e {
        ConfigError::AlreadyConfigured => "Desperados III is already configured"@,
        ConfigError::NotConfigured => "Desperados III is not yet configured"@,
        ConfigError::InvalidPath => "Path is invalid or doesn't exist"@,
        ConfigError::NoMetadata => "No metadata loaded. Can not add new game."@,
        ConfigError::UnknownGame => "No metadata for the game Desperados3 loaded."@,
    }
}

/// The text shown for a loader error.
pub open spec fn loader_error_text(e: LoaderError) -> Seq<char> {
    match e {
        LoaderError::NotInstalled => "Tried to enable Mod Loader but BepInEx is not installed for this game."@,
    }
}

fn text(s: &str) -> (r: String)
    ensures
        r@ == s@,
{
    String::from_str(s)
}

impl ModError {
    /// The text to show the user.
    pub fn message(&self) -> (r: String)
        ensures
            r@ == mod_error_text(*self),
    {
        match self {
            ModError::AlreadyInstalled => text("Mod already installed"),
            ModError::InvalidDownloadUrl(u) => {
                let a = join2("Invalid download url: '", u.as_str());
                join2(a.as_str(), "'")
            },
            ModError::UnsupportedFileType(u) => {
                let a = join2("Unrecognized file type in download URL: ", u.as_str());
                join2(a.as_str(), "\nValid types are only .zip and .dll")
            },
            ModError::DownloadFailed => text("Failed to download mod"),
            ModError::NotInstalled => text("Mod is not installed"),
        }
    }
}

impl ConfigError {
    /// The text to show the user.
    pub fn message(&self) -> (r: String)
        ensures
            r@ == config_error_text(*self),
    {
        match self {
            ConfigError::AlreadyConfigured => text("Desperados III is already configured"),
            ConfigError::NotConfigured => text("Desperados III is not yet configured"),
            ConfigError::InvalidPath => text("Path is invalid or doesn't exist"),
            ConfigError::NoMetadata => text("No metadata loaded. Can not add new game."),
            ConfigError::UnknownGame => text("No metadata for the game Desperados3 loaded."),
        }
    }
}

impl LoaderError {
    /// The text to show the user.
    pub fn message(&self) -> (r: String)
        ensures
            r@ == loader_error_text(*self),
    {
        match self {
            LoaderError::NotInstalled => text(
                "Tried to enable Mod Loader but BepInEx is not installed for this game.",
            ),
        }
    }
}

/// A report headed by `title`: the title, a blank line, then `detail`.
pub open spec fn report_text(title: Seq<char>, detail: Seq<char>) -> Seq<char> {
    title + ":\n\n"@ + detail
}

/// A report headed by `title`: the title, a blank line, then `detail`.
pub fn report(title: &str, detail: &str) -> (r: String)
    ensures
        r@ == report_text(title@, detail@),
{
    let head = join2(title, ":\n\n");
    join2(head.as_str(), detail)
}

/// Results whose failure is shown to the user.
pub trait ErrorExt: Sized {
    type R;

    /// The text of the failure, if this is one.
    spec fn failure_text(&self) -> Option<Seq<char>>;

    /// The value where there is one; else the report, headed by `title`,
    /// to show the user.
    fn unwrap_or_msg(self, title: &str) -> (r: Result<Self::R, String>)
        ensures
            self.failure_text() is None <==> r is Ok,
            self.failure_text() is Some ==> r is Err && r->Err_0@ == report_text(
                title@,
                self.failure_text()->Some_0,
            ),
    ;
}

impl<T> ErrorExt for Result<T, ModError> {
    type R = T;

    open spec fn failure_text(&self) -> Option<Seq<char>> {
        match self {
            Ok(_) => None,
            Err(e) => Some(mod_error_text(*e)),
        }
    }

    fn unwrap_or_msg(self, title: &str) -> (r: Result<T, String>) {
        match self {
            Ok(v) => Ok(v),
            Err(e) => Err(report(title, e.message().as_str())),
        }
    }
}

impl<T> ErrorExt for Result<T, ConfigError> {
    type R = T;

    open spec fn failure_text(&self) -> Option<Seq<char>> {
        match self {
            Ok(_) => None,
            Err(e) => Some(config_error_text(*e)),
        }
    }

    fn unwrap_or_msg(self, title: &str) -> (r: Result<T, String>) {
        match self {
            Ok(v) => Ok(v),
            Err(e) => Err(report(title, e.message().as_str())),
        }
    }
}

impl<T> ErrorExt for Result<T, LoaderError> {
    type R = T;

    open spec fn failure_text(&self) -> Option<Seq<char>> {
        match self {
            Ok(_) => None,
            Err(e) => Some(loader_error_text(*e)),
        }
    }

    fn unwrap_or_msg(self, title: &str) -> (r: Result<T, String>) {
        match self {
            Ok(v) => Ok(v),
            Err(e) => Err(report(title, e.message().as_str())),
        }
    }
}

} // verus!
