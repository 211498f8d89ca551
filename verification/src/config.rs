use vstd::prelude::*;

use crate::cycle::CyclePolicy;

verus! {

/// The path that `std::path::Path::join` makes of `base` and `part`.
pub uninterp spec fn joined_path(base: Seq<char>, part: Seq<char>) -> Seq<char>;

/// Calls `std::path::Path::join` on UTF-8 paths. Trusted: the result is `joined_path` of the
/// two paths; how the separator is placed, and that an absolute `part` replaces `base`, is
/// left to std. Joining UTF-8 paths gives a UTF-8 path, so the conversion back to a `String`
/// loses nothing.
#[verifier::external_body]
pub(crate) fn join_path(base: &str, part: &str) -> (r: String)
    ensures
        r@ == joined_path(base@, part@),
{
    std::path::Path::new(base).join(part).to_string_lossy().into_owned()
}

/// Where Drydock's API is served.
#[derive(Debug, Clone)]
pub struct DrydockConfig {
    pub api_url: String,
}

impl Default for DrydockConfig {
    fn default() -> (c: Self)
        ensures
            c.api_url@ == "http://localhost:3000"@,
    {
        DrydockConfig { api_url: "http://localhost:3000".to_owned() }
    }
}

/// Where notifications go.
#[derive(Debug, Clone)]
pub struct NotificationsConfig {
    pub telegram_target: Option<String>,
}

impl Default for NotificationsConfig {
    fn default() -> (c: Self)
        ensures
            c.telegram_target is None,
    {
        NotificationsConfig { telegram_target: None }
    }
}

/// The limits of a check cycle.
#[derive(Debug, Clone, Copy, PartialEq, Eq, Structural)]
pub struct LimitsConfig {
    pub max_retries: u32,
    pub stale_cycles: u32,
    pub log_max_rows: u32,
}

impl Default for LimitsConfig {
    fn default() -> (c: Self)
        ensures
            c.max_retries == 6,
            c.stale_cycles == 3,
            c.log_max_rows == 5000,
    {
        LimitsConfig { max_retries: 6, stale_cycles: 3, log_max_rows: 5000 }
    }
}

/// Where the `acpx` session files are.
#[derive(Debug, Clone)]
pub struct PathsConfig {
    pub acpx_sessions: String,
}

/// The default sessions directory: `.acpx/sessions` under the home directory, or under `~`
/// when no home directory is known.
pub open spec fn default_acpx_sessions(home: Option<Seq<char>>) -> Seq<char> {
    let home = match home {
        Some(h) => h,
        None => "~"@,
    };
    joined_path(joined_path(home, ".acpx"@), "sessions"@)
}

impl PathsConfig {
    /// The default paths for the given home directory (the caller reads it from `$HOME`).
    pub fn for_home(home: Option<&str>) -> (c: PathsConfig)
        ensures
            c.acpx_sessions@ == default_acpx_sessions(
                match home {
                    Some(h) => Some(h@),
                    None => None,
                },
            ),
    {
        let base = match home {
            Some(h) => h,
            None => "~",
        };
        let dot_acpx = join_path(base, ".acpx");
        PathsConfig { acpx_sessions: join_path(dot_acpx.as_str(), "sessions") }
    }
}

/// The configuration file's contents, every section defaulted when it is absent.
#[derive(Debug, Clone)]
pub struct Config {
    pub drydock: DrydockConfig,
    pub notifications: NotificationsConfig,
    pub limits: LimitsConfig,
    pub paths: PathsConfig,
}

impl Config {
    /// The configuration used when there is no configuration file, for the given home
    /// directory.
    pub fn default_for_home(home: Option<&str>) -> (c: Config)
        ensures
            c.drydock.api_url@ == "http://localhost:3000"@,
            c.notifications.telegram_target is None,
            c.limits.max_retries == 6,
            c.limits.stale_cycles == 3,
            c.limits.log_max_rows == 5000,
            c.paths.acpx_sessions@ == default_acpx_sessions(
                match home {
                    Some(h) => Some(h@),
                    None => None,
                },
            ),
    {
        Config {
            drydock: DrydockConfig::default(),
            notifications: NotificationsConfig::default(),
            limits: LimitsConfig::default(),
            paths: PathsConfig::for_home(home),
        }
    }
}

/// The files and directories of a `dogwatch` installation.
#[derive(Debug, Clone)]
pub struct RuntimePaths {
    pub config_file: String,
    pub data_dir: String,
    pub database_file: String,
    pub pause_file: String,
}

impl RuntimePaths {
    /// The paths under the XDG configuration and data homes: `dogwatch/config.toml` under
    /// the first, and the `dogwatch` data directory, with `dogwatch.db` and `paused` in it,
    /// under the second.
    pub fn from_homes(home_dir: &str, config_home: &str, data_home: &str) -> (p: RuntimePaths)
        ensures
            p.config_file@ == joined_path(joined_path(config_home@, "dogwatch"@), "config.toml"@),
            p.data_dir@ == joined_path(data_home@, "dogwatch"@),
            p.database_file@ == joined_path(joined_path(data_home@, "dogwatch"@), "dogwatch.db"@),
            p.pause_file@ == joined_path(joined_path(data_home@, "dogwatch"@), "paused"@),
    {
        let config_dir = join_path(config_home, "dogwatch");
        let data_dir = join_path(data_home, "dogwatch");
        RuntimePaths {
            config_file: join_path(config_dir.as_str(), "config.toml"),
            database_file: join_path(data_dir.as_str(), "dogwatch.db"),
            pause_file: join_path(data_dir.as_str(), "paused"),
            data_dir,
        }
    }
}

/// Why the runtime paths could not be found.
#[derive(Debug, Clone, Copy, PartialEq, Eq, Structural)]
pub enum ConfigError {
    /// `HOME` is not set.
    HomeNotSet,
}

impl ConfigError {
    pub fn message(self) -> (s: &'static str)
        ensures
            s@ == "HOME is not set; cannot resolve XDG paths"@,
    {
        "HOME is not set; cannot resolve XDG paths"
    }
}

/// The XDG home of one kind: the directory its variable names, or the fallback below the
/// home directory.
pub open spec fn xdg_home(variable: Option<Seq<char>>, home: Seq<char>, fallback: Seq<char>) -> Seq<char> {
    match variable {
        Some(dir) => dir,
        None => joined_path(home, fallback),
    }
}

impl RuntimePaths {
    /// The runtime paths from the environment's `HOME`, `XDG_CONFIG_HOME` and
    /// `XDG_DATA_HOME` (as the caller read them): the XDG homes default to `.config` and
    /// `.local/share` below the home directory, which must be set.
    pub fn discover(home: Option<&str>, xdg_config_home: Option<&str>, xdg_data_home: Option<&str>) -> (r: Result<RuntimePaths, ConfigError>)
        ensures
            r is Err <==> home is None,
            r matches Ok(p) ==> ({
                let h = home->0@;
                let config_home = xdg_home(match xdg_config_home { Some(d) => Some(d@), None => None }, h, ".config"@);
                let data_home = xdg_home(match xdg_data_home { Some(d) => Some(d@), None => None }, h, ".local/share"@);
                &&& p.config_file@ == joined_path(joined_path(config_home, "dogwatch"@), "config.toml"@)
                &&& p.data_dir@ == joined_path(data_home, "dogwatch"@)
                &&& p.database_file@ == joined_path(joined_path(data_home, "dogwatch"@), "dogwatch.db"@)
                &&& p.pause_file@ == joined_path(joined_path(data_home, "dogwatch"@), "paused"@)
            }),
    {
        let home = match home {
            Some(h) => h,
            None => return Err(ConfigError::HomeNotSet),
        };
        let config_home = match xdg_config_home {
            Some(d) => d.to_owned(),
            None => join_path(home, ".config"),
        };
        let data_home = match xdg_data_home {
            Some(d) => d.to_owned(),
            None => join_path(home, ".local/share"),
        };
        Ok(RuntimePaths::from_homes(home, config_home.as_str(), data_home.as_str()))
    }
}

/// A configuration together with the paths it was found under.
#[derive(Debug, Clone)]
pub struct LoadedConfig {
    pub config: Config,
    pub paths: RuntimePaths,
}

impl LoadedConfig {
    /// The limits and dry-run flag that a check cycle runs under.
    pub fn cycle_policy(&self, dry_run: bool) -> (p: CyclePolicy)
        ensures
            p.max_retries == self.config.limits.max_retries,
            p.stale_cycles == self.config.limits.stale_cycles,
            p.dry_run == dry_run,
    {
        CyclePolicy {
            max_retries: self.config.limits.max_retries,
            stale_cycles: self.config.limits.stale_cycles,
            dry_run,
        }
    }
}

/// A path as `status` prints it.
pub fn config_display_path(path: &str) -> (s: String)
    ensures
        s@ == path@,
{
    path.to_owned()
}

} // verus!
