//! The store of the loaded configuration.
//!
//! The store holds the configuration that was last loaded with success. A
//! load that fails, for whatever reason, leaves it as it is. Reading the
//! configuration file and watching its directory is the work of the program
//! around this library; the store is told what was read.

use vstd::prelude::*;
use vstd::string::*;

use crate::config::path::{join, path_join};
use crate::config::termsfx_config::{
    load_refusal, loadable, playlist, resolved_rules, TermsfxConfig,
};
use crate::config::termsfx_config_source::{
    CommandRule, TermsfxConfigSource, TermsfxConfigSourceError,
};

verus! {

/// The seconds between two polls of the configuration directory.
pub const WATCH_POLL_SECONDS: u64 = 2;

/// The directory of the configuration file for the home directory `home`.
pub open spec fn config_dir_of(home: Seq<char>) -> Seq<char> {
    path_join(path_join(home, ".config"@), "termsfx"@)
}

/// The configuration file for the home directory `home`.
pub open spec fn config_path_of(home: Seq<char>) -> Seq<char> {
    path_join(config_dir_of(home), "termsfx.json"@)
}

/// The rules in force after an attempt to load `update` over `current`:
/// the rules of `update`, resolved against `base`, if there is an update and
/// it can be loaded, and those of `current` otherwise.
pub open spec fn reloaded(
    current: Seq<CommandRule>,
    update: Option<Seq<CommandRule>>,
    base: Seq<char>,
) -> Seq<CommandRule> {
    match update {
        Some(rules) => if loadable(rules) {
            resolved_rules(rules, base)
        } else {
            current
        },
        None => current,
    }
}

/// What is known of an update: nothing, where the file could not be read or
/// parsed, and its rules otherwise.
pub open spec fn update_view(update: Option<TermsfxConfigSource>) -> Option<Seq<CommandRule>> {
    match update {
        Some(source) => Some(source@),
        None => None,
    }
}

/// Why a load failed.
#[derive(Debug)]
pub enum LoadError {
    /// The configuration file could not be read or parsed.
    Unreadable,
    /// The configuration file was read and then refused.
    Refused(TermsfxConfigSourceError),
}

impl LoadError {
    /// The error in words.
    pub fn message(&self) -> (text: String)
        ensures
            self is Unreadable ==> text@ == "Configuration file could not be read"@,
            self matches LoadError::Refused(TermsfxConfigSourceError::InvalidConfig(message))
                ==> text@ == "Invalid config: "@ + message@,
            self matches LoadError::Refused(TermsfxConfigSourceError::InvalidRegex(_))
                ==> "Invalid regex pattern: "@.is_prefix_of(text@),
    {
        match self {
            LoadError::Unreadable => "Configuration file could not be read".to_owned(),
            LoadError::Refused(error) => error.message(),
        }
    }
}

/// Whether `outcome` is what a load of `update` comes to: success exactly
/// where there is an update that can be loaded; otherwise the error says
/// that nothing was read, or why what was read is refused.
pub open spec fn load_outcome(
    update: Option<TermsfxConfigSource>,
    outcome: Result<(), LoadError>,
) -> bool {
    match outcome {
        Ok(_) => update matches Some(source) && loadable(source@),
        Err(error) => match update {
            None => error is Unreadable,
            Some(source) => {
                &&& !loadable(source@)
                &&& error matches LoadError::Refused(cause)
                &&& load_refusal(source@, cause)
            },
        },
    }
}

/// What happened in the watched directory.
#[derive(Debug, Clone, Copy, PartialEq, Eq, Structural)]
pub enum ChangeKind {
    /// Something unspecified happened.
    Any,
    /// A file was opened, read or closed.
    Access,
    /// A file or directory was created.
    Create,
    /// A file or directory was modified.
    Modify,
    /// A file or directory was removed.
    Remove,
    /// Something else happened.
    Other,
}

/// `dirs::home_dir`: the home directory of the user, if one is known and its
/// path is UTF-8. It is read from the environment, so nothing is promised.
#[verifier::external_body]
fn home_dir() -> (home: Option<String>) {
    match dirs::home_dir() {
        Some(path) => path.into_os_string().into_string().ok(),
        None => None,
    }
}

/// The store of the loaded configuration, with the place of its file.
#[derive(Debug)]
pub struct TermsfxConfigLoader {
    config_dir: String,
    config_path: String,
    config: TermsfxConfig,
}

impl TermsfxConfigLoader {
    /// The rules in force.
    pub closed spec fn rules(&self) -> Seq<CommandRule> {
        self.config@
    }

    /// The directory of the configuration file.
    pub closed spec fn dir(&self) -> Seq<char> {
        self.config_dir@
    }

    /// The configuration file.
    pub closed spec fn path(&self) -> Seq<char> {
        self.config_path@
    }

    /// A store without rules for the user whose home directory is `home`.
    /// The configuration file is `.config/termsfx/termsfx.json` under `home`.
    pub fn with_home(home: &str) -> (loader: Self)
        ensures
            loader.rules() == Seq::<CommandRule>::empty(),
            loader.dir() == config_dir_of(home@),
            loader.path() == config_path_of(home@),
    {
        let config_dir = join(join(home, ".config").as_str(), "termsfx");
        let config_path = join(config_dir.as_str(), "termsfx.json");
        TermsfxConfigLoader { config_dir, config_path, config: TermsfxConfig::default() }
    }

    /// A store without rules for the current user, or nothing where the
    /// user's home directory is not known.
    pub fn new() -> (loader: Option<Self>)
        ensures
            loader matches Some(loader) ==> {
                &&& loader.rules() == Seq::<CommandRule>::empty()
                &&& exists|home: Seq<char>|
                    loader.dir() == config_dir_of(home) && loader.path() == #[trigger] config_path_of(
                        home,
                    )
            },
    {
        match home_dir() {
            Some(home) => {
                let loader = Self::with_home(home.as_str());
                assert(loader.path() == config_path_of(home@));
                Some(loader)
            },
            None => None,
        }
    }

    /// The directory of the configuration file, against which relative audio
    /// paths are resolved.
    pub fn config_dir(&self) -> (dir: &str)
        ensures
            dir@ == self.dir(),
    {
        self.config_dir.as_str()
    }

    /// The configuration file.
    pub fn config_path(&self) -> (path: &str)
        ensures
            path@ == self.path(),
    {
        self.config_path.as_str()
    }

    /// A snapshot of the configuration in force.
    pub fn config(&self) -> (snapshot: TermsfxConfig)
        ensures
            snapshot@ == self.rules(),
    {
        self.config.clone()
    }

    /// Whether the watcher reloads the configuration on a change of `kind`:
    /// it does so on modifications only.
    pub fn triggers_reload(kind: ChangeKind) -> (reload: bool)
        ensures
            reload <==> kind is Modify,
    {
        match kind {
            ChangeKind::Modify => true,
            _ => false,
        }
    }

    /// Checks, compiles and resolves what was read from the configuration
    /// file, without touching the store.
    pub fn load_config(&self, source: TermsfxConfigSource) -> (outcome: Result<
        TermsfxConfig,
        TermsfxConfigSourceError,
    >)
        ensures
            match outcome {
                Ok(config) => loadable(source@) && config@ == resolved_rules(
                    source@,
                    self.dir(),
                ),
                Err(error) => load_refusal(source@, error),
            },
    {
        TermsfxConfig::try_from_source(source, self.config_dir.as_str())
    }

    /// Loads the configuration for the first time, before the directory is
    /// watched. A failure leaves the store as it was, and the daemon must
    /// not start on it.
    pub fn watch(&mut self, initial: Option<TermsfxConfigSource>) -> (outcome: Result<
        (),
        LoadError,
    >)
        ensures
            final(self).rules() == reloaded(old(self).rules(), update_view(initial), old(self).dir()),
            final(self).dir() == old(self).dir(),
            final(self).path() == old(self).path(),
            load_outcome(initial, outcome),
    {
        self.reload(initial)
    }

    /// Takes in what was read from the configuration file after a change.
    ///
    /// An update that can be loaded replaces the rules in force. Where the
    /// file could not be read or parsed (`None`), or is refused, the rules in
    /// force stay, and the error says why.
    pub fn reload(&mut self, update: Option<TermsfxConfigSource>) -> (outcome: Result<
        (),
        LoadError,
    >)
        ensures
            final(self).rules() == reloaded(old(self).rules(), update_view(update), old(self).dir()),
            final(self).dir() == old(self).dir(),
            final(self).path() == old(self).path(),
            load_outcome(update, outcome),
    {
        match update {
            None => Err(LoadError::Unreadable),
            Some(source) => {
                match self.load_config(source) {
                    Ok(config) => {
                        self.config = config;
                        Ok(())
                    },
                    Err(error) => Err(LoadError::Refused(error)),
                }
            },
        }
    }
}

/// A load that fails changes nothing: the rules in force stay, and with
/// them what is played for every command.
pub proof fn lemma_failed_reload_keeps_rules(
    current: Seq<CommandRule>,
    update: Option<Seq<CommandRule>>,
    base: Seq<char>,
    text: Seq<char>,
)
    requires
        update matches Some(rules) ==> !loadable(rules),
    ensures
        reloaded(current, update, base) == current,
        playlist(reloaded(current, update, base), text) == playlist(current, text),
{
}

/// Loading the same update twice leaves the same rules in force as loading
/// it once, and so the same is played for every command.
pub proof fn lemma_reload_is_idempotent(
    current: Seq<CommandRule>,
    update: Option<Seq<CommandRule>>,
    base: Seq<char>,
    text: Seq<char>,
)
    ensures
        reloaded(reloaded(current, update, base), update, base) == reloaded(current, update, base),
        playlist(reloaded(reloaded(current, update, base), update, base), text) == playlist(
            reloaded(current, update, base),
            text,
        ),
{
}

/// What is in force after a good load does not depend on what was in force
/// before.
pub proof fn lemma_good_reload_replaces_rules(
    first: Seq<CommandRule>,
    second: Seq<CommandRule>,
    rules: Seq<CommandRule>,
    base: Seq<char>,
)
    requires
        loadable(rules),
    ensures
        reloaded(first, Some(rules), base) == reloaded(second, Some(rules), base),
        reloaded(first, Some(rules), base) == resolved_rules(rules, base),
{
}

} // verus!
