//! The launcher's own directory and what it holds.

use crate::text::{has_suffix, texts};
use vstd::prelude::*;
use vstd::string::*;

verus! {

/// The packages that are installed and the services that run.
#[derive(Debug, Clone, PartialEq, Eq)]
pub struct AppState {
    pub installed_packages: Vec<String>,
    pub running_services: Vec<String>,
}

impl Default for AppState {
    fn default() -> (r: Self)
        ensures
            r.installed_packages@.len() == 0,
            r.running_services@.len() == 0,
    {
        AppState { installed_packages: Vec::new(), running_services: Vec::new() }
    }
}

/// What has to be set up in the launcher's directory.
#[derive(Debug, Clone, PartialEq, Eq)]
pub struct InitPlan {
    /// The directories to create unless they exist, relative to the
    /// launcher's directory.
    pub directories: Vec<String>,
    /// Whether the state file has to be written, with the empty state.
    pub write_state: bool,
}

/// The launcher's own directory.
#[derive(Debug, Clone, PartialEq, Eq)]
pub struct ConfigManager {
    pub base_path: String,
}

/// Trusted: calls `dirs::home_dir`, which asks the system for the home
/// directory of the current user and has none to give where the system
/// knows of none. Nothing is claimed of the answer. A path that is not
/// Unicode is taken as `Path::to_string_lossy` gives it.
#[verifier::external_body]
fn home_dir() -> (r: Option<String>) {
    match dirs::home_dir() {
        Some(path) => Some(path.to_string_lossy().into_owned()),
        None => None,
    }
}

impl ConfigManager {
    /// The launcher's directory for the current user, if the user has a
    /// home directory: `.fampp` in that directory.
    pub fn new() -> (r: Option<Self>)
        ensures
            r is Some ==> has_suffix(r->Some_0.base_path@, "/.fampp"@),
    {
        match home_dir() {
            Some(home) => {
                let config = ConfigManager::in_home(home.as_str());
                assert(config.base_path@.subrange(
                    config.base_path@.len() - "/.fampp"@.len(),
                    config.base_path@.len() as int,
                ) =~= "/.fampp"@);
                Some(config)
            },
            None => None,
        }
    }

    /// The launcher's directory for the user whose home directory is
    /// `home`.
    pub fn in_home(home: &str) -> (r: Self)
        ensures
            r.base_path@ == home@ + "/.fampp"@,
    {
        let mut base_path = String::from_str(home);
        base_path.append("/.fampp");
        ConfigManager { base_path }
    }

    /// The name of the state file in the launcher's directory.
    pub fn state_file_name() -> (r: &'static str)
        ensures
            r@ == "state.json"@,
    {
        "state.json"
    }

    /// What `init` has to set up: the four directories, and the state file
    /// unless there is one.
    pub fn init(&self, state_file_exists: bool) -> (r: InitPlan)
        ensures
            texts(r.directories@) == seq!["packages"@, "www"@, "data"@, "logs"@],
            r.write_state == !state_file_exists,
    {
        let mut directories: Vec<String> = Vec::new();
        directories.push(String::from_str("packages"));
        directories.push(String::from_str("www"));
        directories.push(String::from_str("data"));
        directories.push(String::from_str("logs"));
        assert(texts(directories@) =~= seq![
            "packages"@,
            "www"@,
            "data"@,
            "logs"@,
        ]);
        InitPlan { directories, write_state: !state_file_exists }
    }

    /// The state to go on with: what the state file held, or the empty
    /// state where the file is missing or cannot be read.
    pub fn load_state(&self, stored: Option<AppState>) -> (r: AppState)
        ensures
            match stored {
                Some(state) => r == state,
                None => r.installed_packages@.len() == 0 && r.running_services@.len() == 0,
            },
    {
        match stored {
            Some(state) => state,
            None => AppState { installed_packages: Vec::new(), running_services: Vec::new() },
        }
    }
}

} // verus!
