use termua::paths::{override_settings_json_path, settings_dir_path, settings_json_path};
use termua::settings::{
    ensure_language_state_with_default, set_language, set_theme_mode, theme_mode, AppearanceSettings, Language,
    LanguageSettings, LockScreenSettings, LogLevel, LoggingSettings, TerminalBackend, ThemeAppearance, ThemeMode,
    ThemeSettings, UiSettings,
};

#[test]
fn locales() {
    assert_eq!(Language::English.locale(), "en");
    assert_eq!(Language::ZhCn.locale(), "zh-CN");
}

#[test]
fn level_filters() {
    assert_eq!(LogLevel::Default.to_level_filter(), log::LevelFilter::Error);
    assert_eq!(LogLevel::Error.to_level_filter(), log::LevelFilter::Error);
    assert_eq!(LogLevel::Warn.to_level_filter(), log::LevelFilter::Warn);
    assert_eq!(LogLevel::Info.to_level_filter(), log::LevelFilter::Info);
    assert_eq!(LogLevel::Debug.to_level_filter(), log::LevelFilter::Debug);
    assert_eq!(LogLevel::Trace.to_level_filter(), log::LevelFilter::Trace);
    assert_eq!(LogLevel::Off.to_level_filter(), log::LevelFilter::Off);
}

#[test]
fn theme_mode_defaults_to_system() {
    assert_eq!(theme_mode(None), ThemeMode::System);
    assert_eq!(theme_mode(Some(&ThemeSettings { mode: ThemeMode::Dark })), ThemeMode::Dark);
}

#[test]
fn set_theme_mode_reads_back() {
    let mut settings = None;
    assert_eq!(set_theme_mode(ThemeMode::Light, &mut settings), ThemeAppearance::Light);
    assert_eq!(theme_mode(settings.as_ref()), ThemeMode::Light);
    assert_eq!(set_theme_mode(ThemeMode::System, &mut settings), ThemeAppearance::FollowSystem);
    assert_eq!(theme_mode(settings.as_ref()), ThemeMode::System);
    assert_eq!(set_theme_mode(ThemeMode::Dark, &mut settings), ThemeAppearance::Dark);
    assert_eq!(settings, Some(ThemeSettings { mode: ThemeMode::Dark }));
}

#[test]
fn language_state() {
    let mut settings = None;
    assert_eq!(ensure_language_state_with_default(Language::ZhCn, &mut settings), Language::ZhCn);
    assert_eq!(ensure_language_state_with_default(Language::English, &mut settings), Language::ZhCn);
    assert_eq!(set_language(Language::English, &mut settings), "en");
    assert_eq!(settings, Some(LanguageSettings { language: Language::English }));
    assert_eq!(ensure_language_state_with_default(Language::ZhCn, &mut settings), Language::English);
}

#[test]
fn section_defaults() {
    let a = AppearanceSettings::default();
    assert_eq!(a.theme, ThemeMode::System);
    assert_eq!(a.language, Language::English);
    assert!(a.light_theme.is_none() && a.dark_theme.is_none());
    let l = LoggingSettings::default();
    assert_eq!(l.level, LogLevel::Default);
    assert!(l.path.is_none());
    assert!(UiSettings::default().last_settings_page.is_none());
    let lock = LockScreenSettings::default();
    assert!(lock.enabled);
    assert_eq!(lock.timeout_secs, 300);
    assert_eq!(TerminalBackend::default(), TerminalBackend::Alacritty);
    assert_eq!(ThemeMode::default(), ThemeMode::System);
    assert_eq!(Language::default(), Language::English);
    assert_eq!(LogLevel::default(), LogLevel::Default);
}

#[test]
fn settings_paths() {
    assert_eq!(settings_dir_path("/home/u"), "/home/u/app_data");
    assert_eq!(settings_json_path("/home/u/app_data"), "/home/u/app_data/settings.json");
    assert_eq!(settings_json_path("/home/u/app_data/"), "/home/u/app_data/settings.json");
    assert_eq!(settings_json_path(""), "settings.json");
}

#[test]
fn path_override_restores_in_order() {
    let mut slot: Option<String> = None;
    let outer = override_settings_json_path(&mut slot, "/tmp/a.json".to_string());
    assert_eq!(slot.as_deref(), Some("/tmp/a.json"));
    let inner = override_settings_json_path(&mut slot, "/tmp/b.json".to_string());
    assert_eq!(slot.as_deref(), Some("/tmp/b.json"));
    inner.restore(&mut slot);
    assert_eq!(slot.as_deref(), Some("/tmp/a.json"));
    outer.restore(&mut slot);
    assert_eq!(slot, None);
}
