//! Configuration of the command line tool.
//!
//! Sources, highest priority first: environment variables, the project's
//! `.auxin/config.toml`, the user's `~/.auxin/config.toml`, and the defaults.
//! Reading the files and the environment is the caller's part; this module
//! holds the settings, their defaults, and how sources combine.
use vstd::prelude::*;
use crate::text::{chars_are, chars_of, join_path, lowercase, parse_u32, parse_u32_spec, path_join, to_lowercase_chars};

verus! {

/// Color output mode.
#[derive(Debug, Clone, Copy, PartialEq, Eq, Structural)]
pub enum ColorMode {
    Auto,
    Always,
    Never,
}

impl Default for ColorMode {
    fn default() -> (m: Self)
        ensures
            m == ColorMode::Auto,
    {
        ColorMode::Auto
    }
}

/// Supported project types.
#[derive(Debug, Clone, Copy, PartialEq, Eq, Structural)]
pub enum ProjectType {
    /// Auto-detect based on file extensions.
    Auto,
    /// Logic Pro projects (.logicx).
    LogicPro,
    /// SketchUp projects (.skp).
    SketchUp,
    /// Blender projects (.blend).
    Blender,
}

impl Default for ProjectType {
    fn default() -> (t: Self)
        ensures
            t == ProjectType::Auto,
    {
        ProjectType::Auto
    }
}

/// The project type named by a lowercase string.
pub open spec fn project_type_of_name(s: Seq<char>) -> Option<ProjectType> {
    if s == "auto"@ {
        Some(ProjectType::Auto)
    } else if s == "logicpro"@ || s == "logic-pro"@ || s == "logic"@ {
        Some(ProjectType::LogicPro)
    } else if s == "sketchup"@ || s == "sketch-up"@ || s == "skp"@ {
        Some(ProjectType::SketchUp)
    } else if s == "blender"@ || s == "blend"@ {
        Some(ProjectType::Blender)
    } else {
        None
    }
}

impl ProjectType {
    /// The project type named by a lowercase string.
    pub fn from_lowercase_name(s: &[char]) -> (t: Option<Self>)
        ensures
            t == project_type_of_name(s@),
    {
        if chars_are(s, "auto") {
            Some(ProjectType::Auto)
        } else if chars_are(s, "logicpro") || chars_are(s, "logic-pro") || chars_are(s, "logic") {
            Some(ProjectType::LogicPro)
        } else if chars_are(s, "sketchup") || chars_are(s, "sketch-up") || chars_are(s, "skp") {
            Some(ProjectType::SketchUp)
        } else if chars_are(s, "blender") || chars_are(s, "blend") {
            Some(ProjectType::Blender)
        } else {
            None
        }
    }

    /// The project type named by a string, ignoring case.
    pub fn from_str(s: &str) -> (t: Option<Self>)
        ensures
            t == project_type_of_name(lowercase(s@)),
    {
        let lower = to_lowercase_chars(s);
        Self::from_lowercase_name(&lower)
    }

    /// Human-readable name.
    pub fn name(&self) -> (n: &'static str)
        ensures
            n@ == match *self {
                ProjectType::Auto => "Auto-detect"@,
                ProjectType::LogicPro => "Logic Pro"@,
                ProjectType::SketchUp => "SketchUp"@,
                ProjectType::Blender => "Blender"@,
            },
    {
        match self {
            ProjectType::Auto => "Auto-detect",
            ProjectType::LogicPro => "Logic Pro",
            ProjectType::SketchUp => "SketchUp",
            ProjectType::Blender => "Blender",
        }
    }
}

/// Default settings for common options.
#[derive(Debug, Clone)]
pub struct DefaultsConfig {
    /// Verbose output by default.
    pub verbose: bool,
    /// Color output mode.
    pub color: ColorMode,
}

impl Default for DefaultsConfig {
    fn default() -> (c: Self)
        ensures
            !c.verbose,
            c.color == ColorMode::Auto,
    {
        DefaultsConfig { verbose: false, color: ColorMode::Auto }
    }
}

/// Lock operation configuration.
#[derive(Debug, Clone)]
pub struct LockConfig {
    /// Default lock timeout in hours.
    pub timeout_hours: u32,
    /// Renew locks automatically before they expire.
    pub auto_renew: bool,
    /// Minutes before expiration to renew.
    pub renew_before_minutes: u32,
}

impl Default for LockConfig {
    fn default() -> (c: Self)
        ensures
            c.timeout_hours == 4,
            !c.auto_renew,
            c.renew_before_minutes == 30,
    {
        LockConfig { timeout_hours: 4, auto_renew: false, renew_before_minutes: 30 }
    }
}

/// Network operation configuration.
#[derive(Debug, Clone)]
pub struct NetworkConfig {
    /// Maximum number of retries for network operations.
    pub max_retries: u32,
    /// Initial backoff delay in milliseconds.
    pub initial_backoff_ms: u64,
    /// Maximum backoff delay in milliseconds.
    pub max_backoff_ms: u64,
    /// Connectivity check interval in seconds.
    pub connectivity_check_interval_s: u64,
    /// Timeout of connectivity checks in seconds.
    pub connectivity_check_timeout_s: u64,
}

impl Default for NetworkConfig {
    fn default() -> (c: Self)
        ensures
            c.max_retries == 5,
            c.initial_backoff_ms == 1000,
            c.max_backoff_ms == 15000,
            c.connectivity_check_interval_s == 30,
            c.connectivity_check_timeout_s == 5,
    {
        NetworkConfig {
            max_retries: 5,
            initial_backoff_ms: 1000,
            max_backoff_ms: 15000,
            connectivity_check_interval_s: 30,
            connectivity_check_timeout_s: 5,
        }
    }
}

/// Offline queue configuration.
#[derive(Debug, Clone)]
pub struct QueueConfig {
    /// Sync the queue automatically when online.
    pub auto_sync: bool,
    /// Directory of the queue files.
    pub queue_dir: String,
    /// Maximum number of queue entries to keep.
    pub max_entries: usize,
    /// Clean up completed entries after this many days.
    pub cleanup_after_days: u32,
}

impl Default for QueueConfig {
    fn default() -> (c: Self)
        ensures
            c.auto_sync,
            c.queue_dir@ == "~/.auxin/queue"@,
            c.max_entries == 1000,
            c.cleanup_after_days == 7,
    {
        QueueConfig {
            auto_sync: true,
            queue_dir: "~/.auxin/queue".to_owned(),
            max_entries: 1000,
            cleanup_after_days: 7,
        }
    }
}

/// UI configuration.
#[derive(Debug, Clone)]
pub struct UiConfig {
    /// Show progress bars and spinners.
    pub progress: bool,
    /// Use emoji in output.
    pub emoji: bool,
    /// Terminal width (0 = detect).
    pub terminal_width: usize,
}

impl Default for UiConfig {
    fn default() -> (c: Self)
        ensures
            c.progress,
            c.emoji,
            c.terminal_width == 0,
    {
        UiConfig { progress: true, emoji: true, terminal_width: 0 }
    }
}

/// Project type configuration.
#[derive(Debug, Clone)]
pub struct ProjectConfig {
    /// Project type (detected if `Auto`).
    pub project_type: ProjectType,
}

impl Default for ProjectConfig {
    fn default() -> (c: Self)
        ensures
            c.project_type == ProjectType::Auto,
    {
        ProjectConfig { project_type: ProjectType::Auto }
    }
}

/// Configuration of the command line tool.
#[derive(Debug, Clone)]
pub struct Config {
    pub defaults: DefaultsConfig,
    pub lock: LockConfig,
    pub network: NetworkConfig,
    pub queue: QueueConfig,
    pub ui: UiConfig,
    pub project: ProjectConfig,
}

/// The values of the configuration's environment variables, each `None`
/// when the variable is not set.
#[derive(Debug, Clone)]
pub struct EnvValues {
    /// `AUXIN_VERBOSE`.
    pub verbose: Option<String>,
    /// `AUXIN_COLOR`.
    pub color: Option<String>,
    /// `AUXIN_LOCK_TIMEOUT`.
    pub lock_timeout: Option<String>,
    /// `AUXIN_MAX_RETRIES`.
    pub max_retries: Option<String>,
    /// `AUXIN_QUEUE_DIR`.
    pub queue_dir: Option<String>,
    /// `AUXIN_PROJECT_TYPE`.
    pub project_type: Option<String>,
}

/// What `bool::from_str` gives: `true` and `false`, spelled exactly.
pub open spec fn parse_bool_spec(s: Seq<char>) -> Option<bool> {
    if s == "true"@ {
        Some(true)
    } else if s == "false"@ {
        Some(false)
    } else {
        None
    }
}

/// The color mode named by a lowercase string; anything but `always` and
/// `never` is `Auto`.
pub open spec fn color_of_name(s: Seq<char>) -> ColorMode {
    if s == "always"@ {
        ColorMode::Always
    } else if s == "never"@ {
        ColorMode::Never
    } else {
        ColorMode::Auto
    }
}

/// Parses a boolean as `str::parse::<bool>` does.
pub fn parse_bool(s: &str) -> (r: Option<bool>)
    ensures
        r == parse_bool_spec(s@),
{
    let c = chars_of(s);
    if chars_are(&c, "true") {
        Some(true)
    } else if chars_are(&c, "false") {
        Some(false)
    } else {
        None
    }
}

/// The color mode named by a string, ignoring case.
pub fn color_from_name(s: &str) -> (m: ColorMode)
    ensures
        m == color_of_name(lowercase(s@)),
{
    let c = to_lowercase_chars(s);
    if chars_are(&c, "always") {
        ColorMode::Always
    } else if chars_are(&c, "never") {
        ColorMode::Never
    } else {
        ColorMode::Auto
    }
}

/// The default settings.
pub open spec fn is_default_config(c: Config) -> bool {
    &&& !c.defaults.verbose
    &&& c.defaults.color == ColorMode::Auto
    &&& c.lock.timeout_hours == 4
    &&& !c.lock.auto_renew
    &&& c.lock.renew_before_minutes == 30
    &&& c.network.max_retries == 5
    &&& c.network.initial_backoff_ms == 1000
    &&& c.network.max_backoff_ms == 15000
    &&& c.network.connectivity_check_interval_s == 30
    &&& c.network.connectivity_check_timeout_s == 5
    &&& c.queue.auto_sync
    &&& c.queue.queue_dir@ == "~/.auxin/queue"@
    &&& c.queue.max_entries == 1000
    &&& c.queue.cleanup_after_days == 7
    &&& c.ui.progress
    &&& c.ui.emoji
    &&& c.ui.terminal_width == 0
    &&& c.project.project_type == ProjectType::Auto
}

/// `c` is `config` with the environment's values applied:
/// `AUXIN_VERBOSE` (a boolean), `AUXIN_COLOR` (`always`, `never`, anything
/// else `auto`, ignoring case), `AUXIN_LOCK_TIMEOUT` and `AUXIN_MAX_RETRIES`
/// (numbers), `AUXIN_QUEUE_DIR` (any text) and `AUXIN_PROJECT_TYPE` (a
/// project type name). A value that does not parse leaves the setting as it
/// was; every other setting stays.
pub open spec fn env_applied(config: Config, env: EnvValues, c: Config) -> bool {
    &&& c.defaults.verbose == match env.verbose {
        Some(v) => match parse_bool_spec(v@) {
            Some(b) => b,
            None => config.defaults.verbose,
        },
        None => config.defaults.verbose,
    }
    &&& c.defaults.color == match env.color {
        Some(v) => color_of_name(lowercase(v@)),
        None => config.defaults.color,
    }
    &&& c.lock.timeout_hours == match env.lock_timeout {
        Some(v) => match parse_u32_spec(v@) {
            Some(n) => n,
            None => config.lock.timeout_hours,
        },
        None => config.lock.timeout_hours,
    }
    &&& c.network.max_retries == match env.max_retries {
        Some(v) => match parse_u32_spec(v@) {
            Some(n) => n,
            None => config.network.max_retries,
        },
        None => config.network.max_retries,
    }
    &&& c.queue.queue_dir@ == match env.queue_dir {
        Some(v) => v@,
        None => config.queue.queue_dir@,
    }
    &&& c.project.project_type == match env.project_type {
        Some(v) => match project_type_of_name(lowercase(v@)) {
            Some(t) => t,
            None => config.project.project_type,
        },
        None => config.project.project_type,
    }
    &&& c.lock.auto_renew == config.lock.auto_renew
    &&& c.lock.renew_before_minutes == config.lock.renew_before_minutes
    &&& c.network.initial_backoff_ms == config.network.initial_backoff_ms
    &&& c.network.max_backoff_ms == config.network.max_backoff_ms
    &&& c.network.connectivity_check_interval_s == config.network.connectivity_check_interval_s
    &&& c.network.connectivity_check_timeout_s == config.network.connectivity_check_timeout_s
    &&& c.queue.auto_sync == config.queue.auto_sync
    &&& c.queue.max_entries == config.queue.max_entries
    &&& c.queue.cleanup_after_days == config.queue.cleanup_after_days
    &&& c.ui == config.ui
}

impl Default for Config {
    fn default() -> (c: Self)
        ensures
            is_default_config(c),
    {
        Config {
            defaults: DefaultsConfig::default(),
            lock: LockConfig::default(),
            network: NetworkConfig::default(),
            queue: QueueConfig::default(),
            ui: UiConfig::default(),
            project: ProjectConfig::default(),
        }
    }
}

/// `overlay`'s value of a setting when it differs from the setting's
/// default `d`, otherwise `base`'s.
pub open spec fn pick<T>(base: T, overlay: T, d: T) -> T {
    if overlay != d {
        overlay
    } else {
        base
    }
}

/// The general settings merged.
pub open spec fn merged_defaults(base: DefaultsConfig, overlay: DefaultsConfig) -> DefaultsConfig {
    DefaultsConfig {
        verbose: pick(base.verbose, overlay.verbose, false),
        color: pick(base.color, overlay.color, ColorMode::Auto),
    }
}

/// The lock settings merged.
pub open spec fn merged_lock(base: LockConfig, overlay: LockConfig) -> LockConfig {
    LockConfig {
        timeout_hours: pick(base.timeout_hours, overlay.timeout_hours, 4),
        auto_renew: pick(base.auto_renew, overlay.auto_renew, false),
        renew_before_minutes: pick(base.renew_before_minutes, overlay.renew_before_minutes, 30),
    }
}

/// The network settings merged.
pub open spec fn merged_network(base: NetworkConfig, overlay: NetworkConfig) -> NetworkConfig {
    NetworkConfig {
        max_retries: pick(base.max_retries, overlay.max_retries, 5),
        initial_backoff_ms: pick(base.initial_backoff_ms, overlay.initial_backoff_ms, 1000),
        max_backoff_ms: pick(base.max_backoff_ms, overlay.max_backoff_ms, 15000),
        connectivity_check_interval_s: pick(
            base.connectivity_check_interval_s,
            overlay.connectivity_check_interval_s,
            30,
        ),
        connectivity_check_timeout_s: pick(base.connectivity_check_timeout_s, overlay.connectivity_check_timeout_s, 5),
    }
}

/// The queue settings merged.
pub open spec fn merged_queue(base: QueueConfig, overlay: QueueConfig) -> QueueConfig {
    QueueConfig {
        auto_sync: pick(base.auto_sync, overlay.auto_sync, true),
        queue_dir: if overlay.queue_dir@ != "~/.auxin/queue"@ {
            overlay.queue_dir
        } else {
            base.queue_dir
        },
        max_entries: pick(base.max_entries, overlay.max_entries, 1000),
        cleanup_after_days: pick(base.cleanup_after_days, overlay.cleanup_after_days, 7),
    }
}

/// The display settings merged.
pub open spec fn merged_ui(base: UiConfig, overlay: UiConfig) -> UiConfig {
    UiConfig {
        progress: pick(base.progress, overlay.progress, true),
        emoji: pick(base.emoji, overlay.emoji, true),
        terminal_width: pick(base.terminal_width, overlay.terminal_width, 0),
    }
}

/// `base` with every setting of `overlay` that differs from its default.
pub open spec fn merged(base: Config, overlay: Config) -> Config {
    Config {
        defaults: merged_defaults(base.defaults, overlay.defaults),
        lock: merged_lock(base.lock, overlay.lock),
        network: merged_network(base.network, overlay.network),
        queue: merged_queue(base.queue, overlay.queue),
        ui: merged_ui(base.ui, overlay.ui),
        project: ProjectConfig {
            project_type: pick(base.project.project_type, overlay.project.project_type, ProjectType::Auto),
        },
    }
}

fn merge_defaults(base: DefaultsConfig, overlay: DefaultsConfig) -> (c: DefaultsConfig)
    ensures
        c == merged_defaults(base, overlay),
{
    DefaultsConfig {
        verbose: if overlay.verbose { true } else { base.verbose },
        color: if overlay.color != ColorMode::Auto { overlay.color } else { base.color },
    }
}

fn merge_lock(base: LockConfig, overlay: LockConfig) -> (c: LockConfig)
    ensures
        c == merged_lock(base, overlay),
{
    LockConfig {
        timeout_hours: if overlay.timeout_hours != 4 { overlay.timeout_hours } else { base.timeout_hours },
        auto_renew: if overlay.auto_renew { true } else { base.auto_renew },
        renew_before_minutes: if overlay.renew_before_minutes != 30 {
            overlay.renew_before_minutes
        } else {
            base.renew_before_minutes
        },
    }
}

fn merge_network(base: NetworkConfig, overlay: NetworkConfig) -> (c: NetworkConfig)
    ensures
        c == merged_network(base, overlay),
{
    NetworkConfig {
        max_retries: if overlay.max_retries != 5 { overlay.max_retries } else { base.max_retries },
        initial_backoff_ms: if overlay.initial_backoff_ms != 1000 {
            overlay.initial_backoff_ms
        } else {
            base.initial_backoff_ms
        },
        max_backoff_ms: if overlay.max_backoff_ms != 15000 { overlay.max_backoff_ms } else { base.max_backoff_ms },
        connectivity_check_interval_s: if overlay.connectivity_check_interval_s != 30 {
            overlay.connectivity_check_interval_s
        } else {
            base.connectivity_check_interval_s
        },
        connectivity_check_timeout_s: if overlay.connectivity_check_timeout_s != 5 {
            overlay.connectivity_check_timeout_s
        } else {
            base.connectivity_check_timeout_s
        },
    }
}

fn merge_queue(base: QueueConfig, overlay: QueueConfig) -> (c: QueueConfig)
    ensures
        c == merged_queue(base, overlay),
{
    let dir = chars_of(overlay.queue_dir.as_str());
    let is_default_dir = chars_are(&dir, "~/.auxin/queue");
    QueueConfig {
        auto_sync: if !overlay.auto_sync { false } else { base.auto_sync },
        queue_dir: if !is_default_dir { overlay.queue_dir } else { base.queue_dir },
        max_entries: if overlay.max_entries != 1000 { overlay.max_entries } else { base.max_entries },
        cleanup_after_days: if overlay.cleanup_after_days != 7 {
            overlay.cleanup_after_days
        } else {
            base.cleanup_after_days
        },
    }
}

fn merge_ui(base: UiConfig, overlay: UiConfig) -> (c: UiConfig)
    ensures
        c == merged_ui(base, overlay),
{
    UiConfig {
        progress: if !overlay.progress { false } else { base.progress },
        emoji: if !overlay.emoji { false } else { base.emoji },
        terminal_width: if overlay.terminal_width != 0 { overlay.terminal_width } else { base.terminal_width },
    }
}

/// The defaults, merged with the user's file and then the project's file
/// where there are such files.
pub open spec fn layered(d: Config, user: Option<Config>, project: Option<Config>) -> Config {
    let with_user = match user {
        Some(u) => merged(d, u),
        None => d,
    };
    match project {
        Some(p) => merged(with_user, p),
        None => with_user,
    }
}

impl Config {
    /// Merges two configurations: each setting of `overlay` that differs
    /// from its default replaces the one of `base` (see [`merged`]).
    pub fn merge(base: Config, overlay: Config) -> (c: Config)
        ensures
            c == merged(base, overlay),
    {
        Config {
            defaults: merge_defaults(base.defaults, overlay.defaults),
            lock: merge_lock(base.lock, overlay.lock),
            network: merge_network(base.network, overlay.network),
            queue: merge_queue(base.queue, overlay.queue),
            ui: merge_ui(base.ui, overlay.ui),
            project: ProjectConfig {
                project_type: if overlay.project.project_type != ProjectType::Auto {
                    overlay.project.project_type
                } else {
                    base.project.project_type
                },
            },
        }
    }

    /// Applies the environment's values (see [`env_applied`]).
    pub fn apply_env_values(config: Config, env: &EnvValues) -> (c: Config)
        ensures
            env_applied(config, *env, c),
    {
        let mut c = config;
        match &env.verbose {
            Some(v) => match parse_bool(v.as_str()) {
                Some(b) => { c.defaults.verbose = b; },
                None => {},
            },
            None => {},
        }
        match &env.color {
            Some(v) => { c.defaults.color = color_from_name(v.as_str()); },
            None => {},
        }
        match &env.lock_timeout {
            Some(v) => {
                let ch = chars_of(v.as_str());
                match parse_u32(&ch) {
                    Some(n) => { c.lock.timeout_hours = n; },
                    None => {},
                }
            },
            None => {},
        }
        match &env.max_retries {
            Some(v) => {
                let ch = chars_of(v.as_str());
                match parse_u32(&ch) {
                    Some(n) => { c.network.max_retries = n; },
                    None => {},
                }
            },
            None => {},
        }
        match &env.queue_dir {
            Some(v) => { c.queue.queue_dir = v.clone(); },
            None => {},
        }
        match &env.project_type {
            Some(v) => match ProjectType::from_str(v.as_str()) {
                Some(t) => { c.project.project_type = t; },
                None => {},
            },
            None => {},
        }
        c
    }
}

/// `dirs::home_dir`: the home directory of the current user, as text (with
/// any bytes that are not UTF-8 replaced). It depends on the environment,
/// so nothing is stated of it.
#[verifier::external_body]
pub(crate) fn home_dir() -> Option<String> {
    dirs::home_dir().map(|p| p.to_string_lossy().into_owned())
}

/// The configuration file kept under `dir`: `<dir>/.auxin/config.toml`.
pub open spec fn config_file_under(dir: Seq<char>) -> Seq<char> {
    path_join(path_join(dir, ".auxin"@), "config.toml"@)
}

impl Config {
    /// The configuration file kept under `dir` (the home directory for the
    /// user's file, the current directory for the project's).
    pub fn config_path_under(dir: &str) -> (p: String)
        ensures
            p@ == config_file_under(dir@),
    {
        let a = join_path(dir, ".auxin");
        join_path(a.as_str(), "config.toml")
    }

    /// The project's configuration file, `.auxin/config.toml` under the
    /// current directory, when the current directory is known.
    pub fn project_config_path(cwd: Option<&str>) -> (p: Option<String>)
        ensures
            match cwd {
                Some(c) => p matches Some(f) && f@ == config_file_under(c@),
                None => p is None,
            },
    {
        match cwd {
            Some(c) => Some(Self::config_path_under(c)),
            None => None,
        }
    }

    /// The user's configuration file, `~/.auxin/config.toml`, when there is
    /// a home directory.
    pub fn user_config_path() -> (p: Option<String>)
        ensures
            p matches Some(f) ==> exists|home: Seq<char>| f@ == config_file_under(home),
    {
        match home_dir() {
            Some(h) => Some(Self::config_path_under(h.as_str())),
            None => None,
        }
    }

    /// The configuration from all sources: the defaults, merged with the
    /// user's file when there is one, then with the project's file when there
    /// is one (see [`merged`]), with the environment's values applied last.
    pub fn load(user: Option<Config>, project: Option<Config>, env: &EnvValues) -> (c: Config)
        ensures
            exists|d: Config| is_default_config(d) && env_applied(layered(d, user, project), *env, c),
    {
        let mut config = Config::default();
        match user {
            Some(u) => { config = Self::merge(config, u); },
            None => {},
        }
        match project {
            Some(p) => { config = Self::merge(config, p); },
            None => {},
        }
        Self::apply_env_values(config, env)
    }
}

} // verus!
