//! The command line, as plain values.
use vstd::prelude::*;

verus! {

/// The parsed command line.
#[derive(Clone, Debug)]
pub struct Cli {
    /// Words to look up.
    pub words: Vec<String>,
    /// Look up English words.
    pub english: bool,
    /// Look up Japanese words.
    pub japanese: bool,
    /// Prefix of the name of the profile to use.
    pub selector: Option<String>,
    /// Subcommand.
    pub command: Option<Commands>,
    /// Do not print the source URL.
    pub no_url: bool,
    /// The language to look words up in.
    pub lang: Option<String>,
}

/// Subcommands.
#[derive(Clone, Debug)]
pub enum Commands {
    /// Set a configuration value (not implemented).
    Config(Config),
    /// Write the effective configuration to the configuration file.
    Export(Export),
    /// List all profiles.
    Show,
}

/// A configuration key and its new value.
#[derive(Clone, Debug)]
pub struct Config {
    pub key: String,
    pub value: String,
}

/// Options of the export subcommand.
#[derive(Clone, Debug)]
pub struct Export {
    /// The file format to write.
    pub format: Format,
}

/// Configuration file formats.
#[derive(Clone, Copy, Debug, Default, PartialEq, Eq, Structural)]
pub enum Format {
    #[default]
    Json,
    Toml,
    Yaml,
}

impl Cli {
    /// The language requested on the command line: `en` for `--english`,
    /// else `jp` for `--japanese`, else the `--lang` value, if any.
    pub fn get_cli_language(&self) -> (r: Option<&str>)
        ensures
            self.english ==> (r matches Some(l) && l@ == "en"@),
            !self.english && self.japanese ==> (r matches Some(l) && l@ == "jp"@),
            !self.english && !self.japanese ==> match self.lang {
                Some(l) => r matches Some(x) && x@ == l@,
                None => r is None,
            },
    {
        if self.english {
            Some("en")
        } else if self.japanese {
            Some("jp")
        } else {
            match &self.lang {
                Some(l) => Some(l.as_str()),
                None => None,
            }
        }
    }
}

} // verus!
