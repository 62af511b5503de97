use std::collections::HashMap;

use termua::font_features::{font_features_without_calt, set_calt_font_feature, FontFeatures};
use termua::keybindings::{
    all_terminal_actions, apply_terminal_binding, default_keystrokes, normalize_override, AppliedTerminalKeybindings,
    KeyBindingStep, TerminalAction, TerminalKeyBindings,
};
use termua::settings::TerminalBackend;
use termua::terminal_settings::{SettingsFile, SettingsFilePatch, TermSettings, TerminalSettings, TerminalSettingsPatch};

fn ff(v: &[(&str, u32)]) -> FontFeatures {
    FontFeatures { features: v.iter().map(|(t, x)| (t.to_string(), *x)).collect() }
}

fn pairs(f: &FontFeatures) -> Vec<(&str, u32)> {
    f.features.iter().map(|(t, x)| (t.as_str(), *x)).collect()
}

#[test]
fn calt_added_when_missing() {
    let f = set_calt_font_feature(&ff(&[("liga", 1)]), true);
    assert_eq!(pairs(&f), vec![("liga", 1), ("calt", 1)]);
    assert_eq!(f.is_calt_enabled(), Some(true));
}

#[test]
fn first_calt_replaced() {
    let f = set_calt_font_feature(&ff(&[("calt", 1), ("ss01", 1), ("calt", 1)]), false);
    assert_eq!(pairs(&f), vec![("calt", 0), ("ss01", 1), ("calt", 1)]);
    assert_eq!(f.is_calt_enabled(), Some(false));
    assert_eq!(ff(&[]).is_calt_enabled(), None);
    assert_eq!(ff(&[("calt", 2)]).is_calt_enabled(), Some(false));
}

#[test]
fn calt_removed() {
    let f = font_features_without_calt(&ff(&[("calt", 1), ("ss01", 1), ("calt", 0), ("zero", 1)]));
    assert_eq!(pairs(&f), vec![("ss01", 1), ("zero", 1)]);
}

#[test]
fn default_keystrokes_per_platform() {
    assert_eq!(default_keystrokes(TerminalAction::Copy, false), vec!["ctrl-shift-c"]);
    assert_eq!(default_keystrokes(TerminalAction::Copy, true), vec!["cmd-c"]);
    assert_eq!(default_keystrokes(TerminalAction::IncreaseFontSize, false), vec!["ctrl-+", "ctrl-="]);
    assert_eq!(default_keystrokes(TerminalAction::SearchNext, false), vec!["ctrl-g"]);
    assert_eq!(default_keystrokes(TerminalAction::ResetFontSize, true), vec!["cmd-0"]);
    assert_eq!(all_terminal_actions().len(), 10);
}

#[test]
fn overrides_normalized() {
    assert_eq!(normalize_override(Some("  ctrl-k \t")), Some("ctrl-k".to_string()));
    assert_eq!(normalize_override(Some("   ")), None);
    assert_eq!(normalize_override(Some("")), None);
    assert_eq!(normalize_override(None), None);
}

fn step_text(steps: &[KeyBindingStep]) -> Vec<String> {
    steps
        .iter()
        .map(|s| match s {
            KeyBindingStep::DisableKeys(k) => format!("off {k}"),
            KeyBindingStep::BindOverride(k) => format!("user {k}"),
            KeyBindingStep::BindDefault(k) => format!("default {k}"),
        })
        .collect()
}

#[test]
fn override_set_changed_and_cleared() {
    let defaults = ["ctrl-+", "ctrl-="];
    let mut prev: Option<String> = None;
    let steps = apply_terminal_binding(&mut prev, &defaults, Some("alt-=".into()), true);
    assert_eq!(step_text(&steps), vec!["off ctrl-+", "off ctrl-=", "user alt-="]);
    assert_eq!(prev.as_deref(), Some("alt-="));

    let steps = apply_terminal_binding(&mut prev, &defaults, Some("alt-=".into()), true);
    assert!(steps.is_empty());

    let steps = apply_terminal_binding(&mut prev, &defaults, Some("alt-+".into()), true);
    assert_eq!(step_text(&steps), vec!["off alt-=", "off ctrl-+", "off ctrl-=", "user alt-+"]);

    let steps = apply_terminal_binding(&mut prev, &defaults, None, true);
    assert_eq!(step_text(&steps), vec!["off alt-+", "default ctrl-+", "default ctrl-="]);
    assert_eq!(prev, None);

    let steps = apply_terminal_binding(&mut prev, &defaults, None, true);
    assert!(steps.is_empty());
}

#[test]
fn unparsable_override_kept_out() {
    let mut prev: Option<String> = Some("ctrl-x".into());
    let steps = apply_terminal_binding(&mut prev, &["ctrl-shift-c"], Some("???".into()), false);
    assert!(steps.is_empty());
    assert_eq!(prev.as_deref(), Some("ctrl-x"));
}

#[test]
fn applied_keybindings_per_action() {
    let mut applied = AppliedTerminalKeybindings::default();
    let mut kb = TerminalKeyBindings::default();
    kb.paste = Some(" ctrl-v ".into());
    let next = normalize_override(kb.override_for(TerminalAction::Paste));
    let steps = applied.apply(TerminalAction::Paste, &default_keystrokes(TerminalAction::Paste, false), next, true);
    assert_eq!(step_text(&steps), vec!["off ctrl-shift-v", "user ctrl-v"]);
    assert_eq!(applied.paste.as_deref(), Some("ctrl-v"));
    assert!(applied.copy.is_none());
    assert_eq!(kb.override_for(TerminalAction::Copy), None);
}

fn base() -> TermSettings<char, u8> {
    TermSettings {
        font_family: "Mono".into(),
        font_fallbacks: None,
        font_features: ff(&[("ss01", 1)]),
        env: HashMap::new(),
        cursor_shape: None,
        blinking: 1,
        option_as_meta: false,
        copy_on_select: false,
        sftp_upload_max_concurrency: 4,
        show_scrollbar: true,
        show_line_numbers: false,
        suggestions_enabled: true,
        suggestions_max_items: 8,
    }
}

fn empty_patch() -> TerminalSettingsPatch<u8, char, u8> {
    TerminalSettingsPatch {
        default_backend: None,
        ssh_backend: None,
        ligatures: None,
        font_family: None,
        font_fallbacks: None,
        font_features: None,
        env: None,
        cursor_shape: None,
        blinking: None,
        option_as_meta: None,
        copy_on_select: None,
        sftp_upload_max_concurrency: None,
        show_scrollbar: None,
        show_line_numbers: None,
        suggestions_enabled: None,
        suggestions_max_items: None,
    }
}

#[test]
fn terminal_defaults_turn_ligatures_on() {
    let t = TerminalSettings::new(base(), 0u8);
    assert!(t.ligatures_enabled());
    assert_eq!(t.default_backend, TerminalBackend::Alacritty);
    assert_eq!(pairs(&t.settings.font_features), vec![("ss01", 1), ("calt", 1)]);
}

#[test]
fn ligatures_switch() {
    let mut t = TerminalSettings::new(base(), 0u8);
    t.set_ligatures_enabled(false);
    assert!(!t.ligatures_enabled());
    assert_eq!(pairs(&t.settings.font_features), vec![("ss01", 1), ("calt", 0)]);
    t.set_ligatures_enabled(true);
    assert!(t.ligatures_enabled());
}

#[test]
fn extra_font_features_leave_out_calt() {
    let t = TerminalSettings::new(base(), 0u8);
    assert_eq!(pairs(&t.extra_font_features().unwrap()), vec![("ss01", 1)]);
    let mut b = base();
    b.font_features = ff(&[]);
    let t = TerminalSettings::new(b, 0u8);
    assert!(t.extra_font_features().is_none());
}

#[test]
fn empty_patch_changes_nothing() {
    let mut s = base();
    empty_patch().apply_to(&mut s);
    assert_eq!(s.font_family, "Mono");
    assert_eq!(s.sftp_upload_max_concurrency, 4);
    assert_eq!(pairs(&s.font_features), vec![("ss01", 1)]);
    assert!(s.show_scrollbar && !s.show_line_numbers && s.suggestions_enabled);
    assert_eq!(s.cursor_shape, None);
    assert_eq!(s.blinking, 1);
}

#[test]
fn patch_sets_cursor_and_blinking() {
    let mut p = empty_patch();
    p.cursor_shape = Some(Some('b'));
    p.blinking = Some(2);
    let mut s = base();
    p.apply_to(&mut s);
    assert_eq!(s.cursor_shape, Some('b'));
    assert_eq!(s.blinking, 2);
    p.cursor_shape = Some(None);
    p.blinking = None;
    p.apply_to(&mut s);
    assert_eq!(s.cursor_shape, None);
    assert_eq!(s.blinking, 2);
}

#[test]
fn patch_fields_replace_and_clamp() {
    let mut p = empty_patch();
    p.font_family = Some("Fira".into());
    p.font_fallbacks = Some(Some(vec!["Noto".into()]));
    p.font_features = Some(ff(&[("zero", 1), ("calt", 1)]));
    p.ligatures = Some(false);
    let mut env = HashMap::new();
    env.insert("TERM".to_string(), "xterm".to_string());
    p.env = Some(env);
    p.option_as_meta = Some(true);
    p.copy_on_select = Some(true);
    p.sftp_upload_max_concurrency = Some(99);
    p.show_scrollbar = Some(false);
    p.show_line_numbers = Some(true);
    p.suggestions_enabled = Some(false);
    p.suggestions_max_items = Some(3);
    let mut s = base();
    p.apply_to(&mut s);
    assert_eq!(s.font_family, "Fira");
    assert_eq!(s.font_fallbacks, Some(vec!["Noto".to_string()]));
    assert_eq!(pairs(&s.font_features), vec![("zero", 1), ("calt", 0)]);
    assert_eq!(s.env.get("TERM").map(|v| v.as_str()), Some("xterm"));
    assert!(s.option_as_meta && s.copy_on_select && !s.show_scrollbar && s.show_line_numbers && !s.suggestions_enabled);
    assert_eq!(s.suggestions_max_items, 3);
    assert_eq!(s.sftp_upload_max_concurrency, 15);

    let mut q = empty_patch();
    q.sftp_upload_max_concurrency = Some(0);
    q.apply_to(&mut s);
    assert_eq!(s.sftp_upload_max_concurrency, 2);
    q.sftp_upload_max_concurrency = Some(7);
    q.apply_to(&mut s);
    assert_eq!(s.sftp_upload_max_concurrency, 7);
}

#[test]
fn patch_twice_same_as_once() {
    let mut p = empty_patch();
    p.ligatures = Some(true);
    p.sftp_upload_max_concurrency = Some(1);
    let mut once = base();
    p.apply_to(&mut once);
    let mut twice = base();
    p.apply_to(&mut twice);
    p.apply_to(&mut twice);
    assert_eq!(pairs(&once.font_features), pairs(&twice.font_features));
    assert_eq!(once.sftp_upload_max_concurrency, twice.sftp_upload_max_concurrency);
}

#[test]
fn settings_file_from_patch() {
    let mut t = empty_patch();
    t.default_backend = Some(TerminalBackend::Wezterm);
    t.ssh_backend = Some(3u8);
    t.ligatures = Some(false);
    let patch = SettingsFilePatch {
        appearance: Default::default(),
        logging: Default::default(),
        ui: Default::default(),
        lock_screen: Default::default(),
        terminal: t,
        terminal_keybindings: Default::default(),
    };
    let f = SettingsFile::from_patch(patch, TerminalSettings::new(base(), 0u8));
    assert_eq!(f.terminal.default_backend, TerminalBackend::Wezterm);
    assert_eq!(f.terminal.ssh_backend, 3);
    assert!(!f.terminal.ligatures_enabled());
    assert!(f.lock_screen.enabled);

    let g = SettingsFile::from_patch(
        SettingsFilePatch {
            appearance: Default::default(),
            logging: Default::default(),
            ui: Default::default(),
            lock_screen: Default::default(),
            terminal: empty_patch(),
            terminal_keybindings: Default::default(),
        },
        TerminalSettings::new(base(), 5u8),
    );
    assert_eq!(g.terminal.default_backend, TerminalBackend::Alacritty);
    assert_eq!(g.terminal.ssh_backend, 5);
    assert!(g.terminal.ligatures_enabled());
}
