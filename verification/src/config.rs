//! Startup resolution: from the data directory, the optional network flag
//! and the outcome of reading the per-network configuration file, decide
//! which lifecycle mode the process starts in.
//!
//! The filesystem reads themselves happen at the process edge; their
//! results are handed in as plain values, so resolution is a pure function
//! and resolving twice over unchanged inputs yields the same decision.

use vstd::prelude::*;
use vstd::string::StringExecFns;

use crate::args::Arg;
use crate::network::Network;

verus! {

/// The application settings read from the per-network configuration file,
/// reduced to the values the lifecycle core consumes.
#[derive(Debug, PartialEq, Eq)]
pub struct AppConfig {
    /// Path of the companion daemon configuration file.
    pub daemon_config_path: String,
    /// Requested log level, if the file names one.
    pub log_level: Option<String>,
    /// Debug switch, if the file sets one.
    pub debug: Option<bool>,
}

impl Clone for AppConfig {
    fn clone(&self) -> (r: Self)
        ensures
            r == *self,
    {
        AppConfig {
            daemon_config_path: self.daemon_config_path.clone(),
            log_level: match &self.log_level {
                Some(s) => Some(s.clone()),
                None => None,
            },
            debug: self.debug,
        }
    }
}

/// The outcome of reading and parsing a configuration file, handed in by
/// the process edge that performs the read.
#[derive(Debug, PartialEq, Eq)]
pub enum ConfigFileRead {
    /// The file exists and parses to these settings.
    Parsed(AppConfig),
    /// The file does not exist.
    NotFound,
    /// The file exists but could not be read or parsed.
    ReadFailed,
}

/// The outcome of reading the companion daemon configuration file, the
/// one named by [`AppConfig::daemon_config_path`].  Its contents are
/// consumed by the daemon connection at the process edge; the lifecycle
/// core needs only whether the file could be read and parsed.
#[derive(Clone, Copy, Debug, PartialEq, Eq, Structural)]
pub enum DaemonConfigRead {
    /// The file was read and parsed.
    Loaded,
    /// The file is absent, unreadable or malformed.
    Failed,
}

/// Why startup resolution failed.
#[derive(Clone, Copy, Debug, PartialEq, Eq, Structural)]
pub enum ConfigError {
    /// The per-network configuration file exists but could not be read or
    /// parsed; this is fatal at startup.
    ReadFailed,
}

/// The resolved startup decision: exactly one mode to start in.
#[derive(Debug, PartialEq, Eq)]
pub enum Config {
    /// Start the loader with these settings.  The data directory is
    /// optional because the process can run from a configuration file
    /// path alone.
    Run(Option<String>, AppConfig),
    /// Let the user pick among the wallets found under the data directory.
    Launcher(String),
    /// Create a wallet for this network under the data directory.
    Install(String, Network),
}

/// What resolution decides for every combination of inputs:
/// - a network was requested: run it if its configuration file parses,
///   install it if the file is absent, fail on any other read error;
/// - no network requested and no data directory yet: install on the
///   default network;
/// - no network requested and the data directory exists: launch the picker.
pub open spec fn resolve_spec(
    datadir_path: String,
    network: Option<Network>,
    datadir_exists: bool,
    config_file: ConfigFileRead,
) -> Result<Config, ConfigError> {
    match network {
        Some(n) => match config_file {
            ConfigFileRead::Parsed(cfg) => Ok(Config::Run(Some(datadir_path), cfg)),
            ConfigFileRead::NotFound => Ok(Config::Install(datadir_path, n)),
            ConfigFileRead::ReadFailed => Err(ConfigError::ReadFailed),
        },
        None => if !datadir_exists {
            Ok(Config::Install(datadir_path, Network::Bitcoin))
        } else {
            Ok(Config::Launcher(datadir_path))
        },
    }
}

impl Config {
    /// Resolves the startup decision.  `datadir_exists` reports whether the
    /// data directory is present on disk, and `config_file` is the outcome
    /// of reading the per-network configuration file (consulted only when a
    /// network was requested).
    pub fn new(
        datadir_path: String,
        network: Option<Network>,
        datadir_exists: bool,
        config_file: ConfigFileRead,
    ) -> (r: Result<Config, ConfigError>)
        ensures
            r == resolve_spec(datadir_path, network, datadir_exists, config_file),
    {
        match network {
            Some(n) => match config_file {
                ConfigFileRead::Parsed(cfg) => Ok(Config::Run(Some(datadir_path), cfg)),
                ConfigFileRead::NotFound => Ok(Config::Install(datadir_path, n)),
                ConfigFileRead::ReadFailed => Err(ConfigError::ReadFailed),
            },
            None => if !datadir_exists {
                Ok(Config::Install(datadir_path, Network::Bitcoin))
            } else {
                Ok(Config::Launcher(datadir_path))
            },
        }
    }
}

/// Law: resolution is total and deterministic.  For every combination of
/// inputs it yields exactly one of the three startup decisions or fails,
/// and resolving a second time over unchanged inputs yields the very same
/// decision.
pub proof fn lemma_resolution_deterministic(
    datadir_path: String,
    network: Option<Network>,
    datadir_exists: bool,
    first: ConfigFileRead,
    second: ConfigFileRead,
)
    requires
        first == second,
    ensures
        resolve_spec(datadir_path, network, datadir_exists, first) == resolve_spec(
            datadir_path,
            network,
            datadir_exists,
            second,
        ),
        (match resolve_spec(datadir_path, network, datadir_exists, first) {
            Ok(c) => (c is Run || c is Launcher || c is Install),
            Err(e) => e == ConfigError::ReadFailed && network is Some && first is ReadFailed,
        }),
        network is None ==> resolve_spec(datadir_path, network, datadir_exists, first) is Ok,
{
}

/// The path of the per-network application configuration file:
/// `<datadir>/<network name>/gui.toml`.
pub open spec fn config_file_path_spec(datadir: Seq<char>, network: Network) -> Seq<char> {
    datadir + "/"@ + network.name_spec() + "/"@ + "gui.toml"@
}

/// Builds the path of the per-network application configuration file.
pub fn config_file_path(datadir_path: &str, network: Network) -> (r: String)
    ensures
        r@ == config_file_path_spec(datadir_path@, network),
{
    let mut p = datadir_path.to_owned();
    p.append("/");
    let name = network.name();
    p.append(name.as_str());
    p.append("/");
    p.append("gui.toml");
    p
}

/// Why a parsed command line was rejected as a whole.
#[derive(Clone, Copy, Debug, PartialEq, Eq, Structural)]
pub enum PlanError {
    /// The recognized arguments form no accepted combination.
    UnknownArgsCombination,
}

/// Where startup inputs come from, as decided by the command line alone:
/// the platform's default data directory, an explicit configuration file
/// (which overrides any directory-based resolution), or an explicit data
/// directory — the latter two with an optional network selection.
#[derive(Debug, PartialEq, Eq)]
pub enum StartupPlan {
    DefaultDatadir(Option<Network>),
    ConfigFile(String),
    Datadir(String, Option<Network>),
}

/// Which plan each accepted argument combination yields.  A data directory
/// and a network flag combine in either order to the same plan; every other
/// combination of two or more arguments is rejected.
pub open spec fn plan_spec(args: Seq<Arg>) -> Result<StartupPlan, PlanError> {
    if args.len() == 0 {
        Ok(StartupPlan::DefaultDatadir(None))
    } else if args.len() == 1 {
        match args[0] {
            Arg::ConfigPath(p) => Ok(StartupPlan::ConfigFile(p)),
            Arg::DatadirPath(d) => Ok(StartupPlan::Datadir(d, None)),
            Arg::Network(n) => Ok(StartupPlan::DefaultDatadir(Some(n))),
        }
    } else if args.len() == 2 {
        match (args[0], args[1]) {
            (Arg::DatadirPath(d), Arg::Network(n)) => Ok(StartupPlan::Datadir(d, Some(n))),
            (Arg::Network(n), Arg::DatadirPath(d)) => Ok(StartupPlan::Datadir(d, Some(n))),
            _ => Err(PlanError::UnknownArgsCombination),
        }
    } else {
        Err(PlanError::UnknownArgsCombination)
    }
}

/// Turns the recognized arguments into a startup plan, rejecting every
/// combination the process does not accept.
pub fn startup_plan(args: &Vec<Arg>) -> (r: Result<StartupPlan, PlanError>)
    ensures
        r == plan_spec(args@),
{
    if args.len() == 0 {
        Ok(StartupPlan::DefaultDatadir(None))
    } else if args.len() == 1 {
        match &args[0] {
            Arg::ConfigPath(p) => Ok(StartupPlan::ConfigFile(p.clone())),
            Arg::DatadirPath(d) => Ok(StartupPlan::Datadir(d.clone(), None)),
            Arg::Network(n) => Ok(StartupPlan::DefaultDatadir(Some(*n))),
        }
    } else if args.len() == 2 {
        match (&args[0], &args[1]) {
            (Arg::DatadirPath(d), Arg::Network(n)) => Ok(
                StartupPlan::Datadir(d.clone(), Some(*n)),
            ),
            (Arg::Network(n), Arg::DatadirPath(d)) => Ok(
                StartupPlan::Datadir(d.clone(), Some(*n)),
            ),
            _ => Err(PlanError::UnknownArgsCombination),
        }
    } else {
        Err(PlanError::UnknownArgsCombination)
    }
}

/// Law: a data directory and a network flag are order-independent — the two
/// spellings of the command line plan the same startup.
pub proof fn lemma_plan_order_independent(d: String, n: Network)
    ensures
        plan_spec(seq![Arg::DatadirPath(d), Arg::Network(n)]) == plan_spec(
            seq![Arg::Network(n), Arg::DatadirPath(d)],
        ),
{
}

/// The requested log level: an explicit `log_level` setting wins, else the
/// `debug` switch raises the level, else the default applies.
#[derive(Clone, Copy, Debug, PartialEq, Eq, Structural)]
pub enum LogLevel {
    Info,
    Debug,
    Trace,
}

/// Why the settings name no usable log level.
#[derive(Clone, Copy, Debug, PartialEq, Eq, Structural)]
pub enum LogLevelError {
    /// The `log_level` setting is none of `info`, `debug`, `trace`.
    UnknownLogLevel,
}

/// Which log level the settings call for.
pub open spec fn log_level_spec(
    log_level: Option<Seq<char>>,
    debug: Option<bool>,
) -> Result<LogLevel, LogLevelError> {
    match log_level {
        Some(level) => if level == "info"@ {
            Ok(LogLevel::Info)
        } else if level == "debug"@ {
            Ok(LogLevel::Debug)
        } else if level == "trace"@ {
            Ok(LogLevel::Trace)
        } else {
            Err(LogLevelError::UnknownLogLevel)
        },
        None => if debug == Some(true) {
            Ok(LogLevel::Debug)
        } else {
            Ok(LogLevel::Info)
        },
    }
}

/// Reads the log level out of the settings.
pub fn log_level_from_config(config: &AppConfig) -> (r: Result<LogLevel, LogLevelError>)
    ensures
        r == log_level_spec(
            (match config.log_level {
                Some(s) => Some(s@),
                None => None,
            }),
            config.debug,
        ),
{
    match &config.log_level {
        Some(level) => if crate::text::str_eq(level.as_str(), "info") {
            Ok(LogLevel::Info)
        } else if crate::text::str_eq(level.as_str(), "debug") {
            Ok(LogLevel::Debug)
        } else if crate::text::str_eq(level.as_str(), "trace") {
            Ok(LogLevel::Trace)
        } else {
            Err(LogLevelError::UnknownLogLevel)
        },
        None => match config.debug {
            Some(true) => Ok(LogLevel::Debug),
            _ => Ok(LogLevel::Info),
        },
    }
}

} // verus!
