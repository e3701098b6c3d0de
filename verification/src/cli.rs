//! The server's command line: which configuration file to load.

use vstd::prelude::*;
use crate::text::str_eq;

verus! {

/// What the command line asks of the server.
#[derive(Debug)]
pub enum CliAction {
    /// `--help` or `-h`: print the usage text and exit successfully.
    Help,
    /// `--config <path>` or `-c <path>`: load the configuration from `path`.
    ConfigPath(String),
    /// `--config` or `-c` as the last argument: report the missing path and fail.
    MissingConfigPath,
    /// No option that matters: load `./stash.env` if present, else the environment.
    Default,
}

/// The mathematical form of a [`CliAction`].
pub enum CliModel {
    Help,
    ConfigPath(Seq<char>),
    MissingConfigPath,
    Default,
}

impl CliAction {
    pub open spec fn model(&self) -> CliModel {
        match self {
            CliAction::Help => CliModel::Help,
            CliAction::ConfigPath(p) => CliModel::ConfigPath(p@),
            CliAction::MissingConfigPath => CliModel::MissingConfigPath,
            CliAction::Default => CliModel::Default,
        }
    }
}

pub open spec fn is_help_flag(a: Seq<char>) -> bool {
    a == "--help"@ || a == "-h"@
}

pub open spec fn is_config_flag(a: Seq<char>) -> bool {
    a == "--config"@ || a == "-c"@
}

/// The action decided by the arguments from position `i` on: the first help or
/// config flag wins; a config flag takes the argument after it as its path.
pub open spec fn cli_from(args: Seq<String>, i: int) -> CliModel
    decreases args.len() - i,
{
    if i < 0 || i >= args.len() {
        CliModel::Default
    } else if is_help_flag(args[i]@) {
        CliModel::Help
    } else if is_config_flag(args[i]@) {
        if i + 1 < args.len() {
            CliModel::ConfigPath(args[i + 1]@)
        } else {
            CliModel::MissingConfigPath
        }
    } else {
        cli_from(args, i + 1)
    }
}

/// The action decided by a full argument list, whose first entry is the
/// program's own name.
pub open spec fn cli_action(args: Seq<String>) -> CliModel {
    cli_from(args, 1)
}

/// Reads the command line (program name first) and says what to do.
pub fn parse_cli_args(args: &Vec<String>) -> (r: CliAction)
    ensures
        r.model() == cli_action(args@),
{
    let mut i: usize = 1;
    while i < args.len()
        invariant
            1 <= i,
            cli_from(args@, i as int) == cli_action(args@),
        decreases args.len() - i,
    {
        let a = args[i].as_str();
        if str_eq(a, "--help") || str_eq(a, "-h") {
            return CliAction::Help;
        }
        if str_eq(a, "--config") || str_eq(a, "-c") {
            if i + 1 < args.len() {
                return CliAction::ConfigPath(args[i + 1].clone());
            } else {
                return CliAction::MissingConfigPath;
            }
        }
        i += 1;
    }
    CliAction::Default
}

/// The file read when the command line names none and it exists.
pub const DEFAULT_CONFIG_FILE: &'static str = "stash.env";

/// Where the configuration comes from.
#[derive(Debug, PartialEq)]
pub enum ConfigSource {
    /// An env-format file at this path.
    File(String),
    /// The process environment.
    Environment,
}

/// Where to load the configuration from: the file the command line names;
/// otherwise `./stash.env` when it exists; otherwise the environment.
pub fn config_source(cli_path: Option<String>, default_file_exists: bool) -> (r: ConfigSource)
    ensures
        match cli_path {
            Some(p) => r == ConfigSource::File(p),
            None => if default_file_exists {
                r matches ConfigSource::File(p) && p@ == DEFAULT_CONFIG_FILE@
            } else {
                r == ConfigSource::Environment
            },
        },
{
    match cli_path {
        Some(p) => ConfigSource::File(p),
        None => if default_file_exists {
            ConfigSource::File(crate::text::owned(DEFAULT_CONFIG_FILE))
        } else {
            ConfigSource::Environment
        },
    }
}

} // verus!
