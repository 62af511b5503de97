use vstd::prelude::*;

verus! {

/// Whether the interface follows the system's light/dark choice or is fixed.
#[derive(Clone, Copy, Debug, PartialEq, Eq, Structural)]
pub enum ThemeMode {
    System,
    Light,
    Dark,
}

impl Default for ThemeMode {
    fn default() -> (m: Self)
        ensures
            m == ThemeMode::System,
    {
        ThemeMode::System
    }
}

/// The theme mode that was chosen explicitly, if any.
#[derive(Clone, Copy, Debug, PartialEq, Eq, Structural)]
pub struct ThemeSettings {
    pub mode: ThemeMode,
}

/// The theme mode currently asked for: the explicit choice, or `System` when
/// none was made.
pub open spec fn current_theme_mode(settings: Option<ThemeSettings>) -> ThemeMode {
    match settings {
        Some(s) => s.mode,
        None => ThemeMode::System,
    }
}

/// The current requested theme mode; `System` when no mode was set explicitly.
pub fn theme_mode(settings: Option<&ThemeSettings>) -> (m: ThemeMode)
    ensures
        m == current_theme_mode(
            match settings {
                Some(s) => Some(*s),
                None => None,
            },
        ),
{
    match settings {
        Some(s) => s.mode,
        None => ThemeMode::System,
    }
}

/// What the interface's theme must do once a mode is chosen.
#[derive(Clone, Copy, Debug, PartialEq, Eq, Structural)]
pub enum ThemeAppearance {
    /// Follow the system's light/dark appearance.
    FollowSystem,
    /// Switch to the light theme.
    Light,
    /// Switch to the dark theme.
    Dark,
}

/// The appearance that a theme mode calls for.
pub open spec fn appearance_for(mode: ThemeMode) -> ThemeAppearance {
    match mode {
        ThemeMode::System => ThemeAppearance::FollowSystem,
        ThemeMode::Light => ThemeAppearance::Light,
        ThemeMode::Dark => ThemeAppearance::Dark,
    }
}

/// Records `mode` as the chosen theme mode and returns what the interface's
/// theme must then do (after which every window is repainted).
pub fn set_theme_mode(mode: ThemeMode, settings: &mut Option<ThemeSettings>) -> (a: ThemeAppearance)
    ensures
        *final(settings) == Some(ThemeSettings { mode }),
        a == appearance_for(mode),
{
    match settings {
        Some(s) => {
            s.mode = mode;
        },
        None => {
            *settings = Some(ThemeSettings { mode });
        },
    }
    match mode {
        ThemeMode::System => ThemeAppearance::FollowSystem,
        ThemeMode::Light => ThemeAppearance::Light,
        ThemeMode::Dark => ThemeAppearance::Dark,
    }
}

/// The theme mode read after a mode was set is the mode that was set.
pub proof fn lemma_theme_mode_reads_back(mode: ThemeMode)
    ensures
        current_theme_mode(Some(ThemeSettings { mode })) == mode,
{
}

/// Only the System mode follows the system's appearance; Light and Dark each
/// ask for the theme of their own name.
pub proof fn lemma_theme_appearance_follows_mode(mode: ThemeMode)
    ensures
        (appearance_for(mode) == ThemeAppearance::FollowSystem) <==> (mode == ThemeMode::System),
        (appearance_for(mode) == ThemeAppearance::Light) <==> (mode == ThemeMode::Light),
        (appearance_for(mode) == ThemeAppearance::Dark) <==> (mode == ThemeMode::Dark),
{
}

/// The languages the interface is translated into.
#[derive(Clone, Copy, Debug, PartialEq, Eq, Structural)]
pub enum Language {
    English,
    ZhCn,
}

impl Default for Language {
    fn default() -> (l: Self)
        ensures
            l == Language::English,
    {
        Language::English
    }
}

/// The locale name of a language.
pub open spec fn locale_of(language: Language) -> Seq<char> {
    match language {
        Language::English => "en"@,
        Language::ZhCn => "zh-CN"@,
    }
}

impl Language {
    /// The locale name used to look up translations: "en" or "zh-CN".
    pub fn locale(self) -> (s: &'static str)
        ensures
            s@ == locale_of(self),
    {
        match self {
            Language::English => "en",
            Language::ZhCn => "zh-CN",
        }
    }
}

/// The language that was chosen explicitly, if any.
#[derive(Clone, Copy, Debug, PartialEq, Eq, Structural)]
pub struct LanguageSettings {
    pub language: Language,
}

/// Records `language` as the chosen language and returns the locale to make
/// active (after which the menus are rebuilt, once the application state
/// exists, and every window is repainted).
pub fn set_language(language: Language, settings: &mut Option<LanguageSettings>) -> (locale:
    &'static str)
    ensures
        *final(settings) == Some(LanguageSettings { language }),
        locale@ == locale_of(language),
{
    match settings {
        Some(s) => {
            s.language = language;
        },
        None => {
            *settings = Some(LanguageSettings { language });
        },
    }
    language.locale()
}

/// The language after making sure that one is chosen: the one already chosen,
/// else `default_language`.
pub open spec fn ensured_language(settings: Option<LanguageSettings>, default_language: Language) -> Language {
    match settings {
        Some(s) => s.language,
        None => default_language,
    }
}

/// Makes sure a language is chosen, choosing `default_language` when none is
/// yet, and returns the chosen language (whose locale is then made active).
pub fn ensure_language_state_with_default(
    default_language: Language,
    settings: &mut Option<LanguageSettings>,
) -> (language: Language)
    ensures
        language == ensured_language(*old(settings), default_language),
        *final(settings) == Some(LanguageSettings { language }),
{
    match settings {
        Some(s) => s.language,
        None => {
            *settings = Some(LanguageSettings { language: default_language });
            default_language
        },
    }
}

/// Once a language is set, making sure of a language keeps it, whatever the default.
pub proof fn lemma_ensure_keeps_set_language(language: Language, default_language: Language)
    ensures
        ensured_language(Some(LanguageSettings { language }), default_language) == language,
{
}

/// With no language chosen yet, the default is the one chosen; once one is
/// chosen, the default plays no part.
pub proof fn lemma_ensure_language_uses_default(
    settings: Option<LanguageSettings>,
    default_language: Language,
    other_default: Language,
)
    ensures
        settings is None ==> ensured_language(settings, default_language) == default_language,
        settings is Some ==> ensured_language(settings, default_language) == ensured_language(
            settings,
            other_default,
        ),
        settings is Some ==> ensured_language(settings, default_language) == settings->0.language,
{
}

/// Making sure of a language twice chooses the same language as doing it once.
pub proof fn lemma_ensure_language_idempotent(
    settings: Option<LanguageSettings>,
    first_default: Language,
    second_default: Language,
)
    ensures
        ensured_language(
            Some(LanguageSettings { language: ensured_language(settings, first_default) }),
            second_default,
        ) == ensured_language(settings, first_default),
{
}

/// Appearance settings: theme mode, language, and the names of the chosen
/// light and dark themes (`None` means the registry's default).
#[derive(Clone, Debug)]
pub struct AppearanceSettings {
    pub theme: ThemeMode,
    pub language: Language,
    pub light_theme: Option<String>,
    pub dark_theme: Option<String>,
}

impl Default for AppearanceSettings {
    fn default() -> (s: Self)
        ensures
            s.theme == ThemeMode::System,
            s.language == Language::English,
            s.light_theme is None,
            s.dark_theme is None,
    {
        AppearanceSettings {
            theme: ThemeMode::System,
            language: Language::English,
            light_theme: None,
            dark_theme: None,
        }
    }
}

/// How much to log.
#[derive(Clone, Copy, Debug, PartialEq, Eq, Structural)]
pub enum LogLevel {
    /// Follow the environment if it says; otherwise the logger's default.
    Default,
    Error,
    Warn,
    Info,
    Debug,
    Trace,
    Off,
}

impl Default for LogLevel {
    fn default() -> (l: Self)
        ensures
            l == LogLevel::Default,
    {
        LogLevel::Default
    }
}

#[verifier::external_type_specification]
#[verifier::external_body]
pub struct ExLevelFilter(log::LevelFilter);

/// The filter at position `index` of `log::LevelFilter::iter()`, which walks
/// the filters from the least to the most verbose.
pub uninterp spec fn level_filter_at(index: nat) -> log::LevelFilter;

/// `log::LevelFilter::iter`: takes the filter at position `index` of the
/// iteration, of which there are six (Off, Error, Warn, Info, Debug, Trace in
/// that order); the contract names the result `level_filter_at(index)` and
/// states that the six positions give six different filters.
#[verifier::external_body]
fn level_filter_at_index(index: usize) -> (f: log::LevelFilter)
    requires
        index < 6,
    ensures
        f == level_filter_at(index as nat),
        forall|j: nat| j < 6 && j != index ==> #[trigger] level_filter_at(j) != f,
{
    log::LevelFilter::iter().nth(index).unwrap()
}

/// The position, in the least-to-most-verbose order of log filters (Off,
/// Error, Warn, Info, Debug, Trace), of the filter that a level stands for;
/// `Default` stands for Error.
pub open spec fn level_filter_index(level: LogLevel) -> nat {
    match level {
        LogLevel::Off => 0,
        LogLevel::Default => 1,
        LogLevel::Error => 1,
        LogLevel::Warn => 2,
        LogLevel::Info => 3,
        LogLevel::Debug => 4,
        LogLevel::Trace => 5,
    }
}

impl LogLevel {
    /// The position of this level's filter in the least-to-most-verbose order.
    pub fn filter_index(self) -> (i: usize)
        ensures
            i == level_filter_index(self),
    {
        match self {
            LogLevel::Off => 0,
            LogLevel::Default => 1,
            LogLevel::Error => 1,
            LogLevel::Warn => 2,
            LogLevel::Info => 3,
            LogLevel::Debug => 4,
            LogLevel::Trace => 5,
        }
    }

    /// The logger filter for this level; `Default` filters at Error.
    pub fn to_level_filter(self) -> (f: log::LevelFilter)
        ensures
            f == level_filter_at(level_filter_index(self)),
            forall|other: LogLevel|
                level_filter_index(other) != level_filter_index(self) ==> #[trigger] level_filter_at(
                    level_filter_index(other),
                ) != f,
    {
        level_filter_at_index(self.filter_index())
    }
}

/// Levels map to filter positions in the order of their verbosity, and two
/// levels share a filter only when they are `Default` and `Error`: the
/// position of a level's filter is its rank Off < Error < Warn < Info < Debug
/// < Trace, and (by `to_level_filter`) different positions give different filters.
pub proof fn lemma_level_filter_index_order(a: LogLevel, b: LogLevel)
    ensures
        level_filter_index(a) < 6,
        level_filter_index(LogLevel::Default) == level_filter_index(LogLevel::Error),
        level_filter_index(a) == level_filter_index(b) <==> (a == b || (a == LogLevel::Default && b
            == LogLevel::Error) || (a == LogLevel::Error && b == LogLevel::Default)),
        level_filter_index(LogLevel::Off) < level_filter_index(LogLevel::Error) < level_filter_index(
            LogLevel::Warn,
        ) < level_filter_index(LogLevel::Info) < level_filter_index(LogLevel::Debug)
            < level_filter_index(LogLevel::Trace),
{
}

/// Logging settings: the level, and an optional log file path (relative paths
/// are taken from the directory that holds the settings file).
#[derive(Clone, Debug)]
pub struct LoggingSettings {
    pub level: LogLevel,
    pub path: Option<String>,
}

impl Default for LoggingSettings {
    fn default() -> (s: Self)
        ensures
            s.level == LogLevel::Default,
            s.path is None,
    {
        LoggingSettings { level: LogLevel::Default, path: None }
    }
}

/// Interface settings: the settings page that was open last, by its
/// navigation id.
#[derive(Clone, Debug)]
pub struct UiSettings {
    pub last_settings_page: Option<String>,
}

impl Default for UiSettings {
    fn default() -> (s: Self)
        ensures
            s.last_settings_page is None,
    {
        UiSettings { last_settings_page: None }
    }
}

/// Idle time before the screen locks when nothing else was chosen, in seconds.
pub const DEFAULT_LOCK_TIMEOUT_SECS: u64 = 300;

/// Lock screen settings: whether the lock screen is on, and the idle time in
/// seconds before it locks (`0` never locks by itself).
#[derive(Clone, Copy, Debug, PartialEq, Eq, Structural)]
pub struct LockScreenSettings {
    pub enabled: bool,
    pub timeout_secs: u64,
}

impl Default for LockScreenSettings {
    fn default() -> (s: Self)
        ensures
            s.enabled,
            s.timeout_secs == DEFAULT_LOCK_TIMEOUT_SECS,
    {
        LockScreenSettings { enabled: true, timeout_secs: DEFAULT_LOCK_TIMEOUT_SECS }
    }
}

/// The terminal emulation backend for new terminals.
#[derive(Clone, Copy, Debug, PartialEq, Eq, Structural)]
pub enum TerminalBackend {
    Alacritty,
    Wezterm,
}

impl Default for TerminalBackend {
    fn default() -> (b: Self)
        ensures
            b == TerminalBackend::Alacritty,
    {
        TerminalBackend::Alacritty
    }
}

} // verus!
