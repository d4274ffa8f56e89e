//! The user's settings.

use vstd::prelude::*;
use vstd::string::*;

verus! {

/// The ports that the services prefer.
#[derive(Debug, Clone, Copy, PartialEq, Eq)]
pub struct Ports {
    pub php: u16,
    pub mysql: u16,
}

/// What the user can set: the language of the messages and the ports.
#[derive(Debug, Clone, PartialEq, Eq)]
pub struct AppSettings {
    pub language: String,
    pub ports: Ports,
}

impl AppSettings {
    /// The name of the settings file in the launcher's directory.
    pub fn file_name() -> (r: &'static str)
        ensures
            r@ == "config.toml"@,
    {
        "config.toml"
    }

    /// Whether these are the settings of a fresh installation: English,
    /// the interpreter from port 8000, the database on port 3306.
    pub open spec fn is_default(&self) -> bool {
        &&& self.language@ == "en"@
        &&& self.ports == (Ports { php: 8000, mysql: 3306 })
    }

    /// The settings to go on with, and whether they have to be written to
    /// the settings file: what the file held is kept as it is; where the
    /// file is missing or cannot be read, the defaults are taken and
    /// written.
    pub fn load_or_create(stored: Option<AppSettings>) -> (r: (AppSettings, bool))
        ensures
            match stored {
                Some(settings) => r.0 == settings && !r.1,
                None => r.0.is_default() && r.1,
            },
    {
        match stored {
            Some(settings) => (settings, false),
            None => (
                AppSettings {
                    language: String::from_str("en"),
                    ports: Ports { php: 8000, mysql: 3306 },
                },
                true,
            ),
        }
    }
}

} // verus!
