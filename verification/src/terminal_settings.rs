use std::collections::HashMap;
use vstd::prelude::*;

use crate::font_features::{
    calt_enabled, copy_features, font_features_without_calt, lemma_with_calt_enabled,
    lemma_without_calt_idempotent, lemma_without_calt_ignores_switch,
    lemma_with_calt_last_wins, set_calt_font_feature, with_calt, without_calt, FeatureEntry,
    FontFeatures,
};
use crate::keybindings::TerminalKeyBindings;
use crate::settings::{AppearanceSettings, LockScreenSettings, LoggingSettings, TerminalBackend, UiSettings};
use crate::terminal_panel::string_views;

verus! {

/// The fewest SFTP uploads that may run at once.
pub const MIN_SFTP_UPLOAD_CONCURRENCY: usize = 2;

/// The most SFTP uploads that may run at once.
pub const MAX_SFTP_UPLOAD_CONCURRENCY: usize = 15;

/// `n` brought into the allowed range of concurrent SFTP uploads.
pub open spec fn clamp_concurrency(n: usize) -> usize {
    if n < MIN_SFTP_UPLOAD_CONCURRENCY {
        MIN_SFTP_UPLOAD_CONCURRENCY
    } else if n > MAX_SFTP_UPLOAD_CONCURRENCY {
        MAX_SFTP_UPLOAD_CONCURRENCY
    } else {
        n
    }
}

/// The terminal's own settings, as far as the settings file can change them
/// with plain values: font family, fallback fonts and features, the
/// environment of new shells, the cursor shape (`C`, `None` for the
/// terminal's own choice) and blinking (`K`) as the terminal crate's types
/// carried through, and the switches and limits of the terminal view.
#[derive(Debug)]
pub struct TermSettings<C, K> {
    pub font_family: String,
    pub font_fallbacks: Option<Vec<String>>,
    pub font_features: FontFeatures,
    pub env: HashMap<String, String>,
    pub cursor_shape: Option<C>,
    pub blinking: K,
    pub option_as_meta: bool,
    pub copy_on_select: bool,
    pub sftp_upload_max_concurrency: usize,
    pub show_scrollbar: bool,
    pub show_line_numbers: bool,
    pub suggestions_enabled: bool,
    pub suggestions_max_items: usize,
}

/// The terminal's settings as seen in contracts.
pub struct TermSettingsView<C, K> {
    pub font_family: Seq<char>,
    pub font_fallbacks: Option<Seq<Seq<char>>>,
    pub font_features: Seq<FeatureEntry>,
    pub env: Map<String, String>,
    pub cursor_shape: Option<C>,
    pub blinking: K,
    pub option_as_meta: bool,
    pub copy_on_select: bool,
    pub sftp_upload_max_concurrency: usize,
    pub show_scrollbar: bool,
    pub show_line_numbers: bool,
    pub suggestions_enabled: bool,
    pub suggestions_max_items: usize,
}

/// The view of an optional list of font names.
pub open spec fn fallbacks_view(f: Option<Vec<String>>) -> Option<Seq<Seq<char>>> {
    match f {
        Some(v) => Some(string_views(v@)),
        None => None,
    }
}

impl<C, K> View for TermSettings<C, K> {
    type V = TermSettingsView<C, K>;

    open spec fn view(&self) -> TermSettingsView<C, K> {
        TermSettingsView {
            font_family: self.font_family@,
            font_fallbacks: fallbacks_view(self.font_fallbacks),
            font_features: self.font_features@,
            env: self.env@,
            cursor_shape: self.cursor_shape,
            blinking: self.blinking,
            option_as_meta: self.option_as_meta,
            copy_on_select: self.copy_on_select,
            sftp_upload_max_concurrency: self.sftp_upload_max_concurrency,
            show_scrollbar: self.show_scrollbar,
            show_line_numbers: self.show_line_numbers,
            suggestions_enabled: self.suggestions_enabled,
            suggestions_max_items: self.suggestions_max_items,
        }
    }
}

/// Terminal settings as a settings file may give them: each field that is
/// present replaces the current value. `B` is the SSH backend type of the
/// terminal crate, carried through.
#[derive(Debug)]
pub struct TerminalSettingsPatch<B, C, K> {
    pub default_backend: Option<TerminalBackend>,
    pub ssh_backend: Option<B>,
    pub ligatures: Option<bool>,
    pub font_family: Option<String>,
    pub font_fallbacks: Option<Option<Vec<String>>>,
    pub font_features: Option<FontFeatures>,
    pub env: Option<HashMap<String, String>>,
    pub cursor_shape: Option<Option<C>>,
    pub blinking: Option<K>,
    pub option_as_meta: Option<bool>,
    pub copy_on_select: Option<bool>,
    pub sftp_upload_max_concurrency: Option<usize>,
    pub show_scrollbar: Option<bool>,
    pub show_line_numbers: Option<bool>,
    pub suggestions_enabled: Option<bool>,
    pub suggestions_max_items: Option<usize>,
}

/// `o`'s value when present, else `d`.
pub open spec fn or_keep<T>(o: Option<T>, d: T) -> T {
    match o {
        Some(v) => v,
        None => d,
    }
}

impl<B, C: Copy, K: Copy> TerminalSettingsPatch<B, C, K> {
    /// A patch that gives no field.
    pub open spec fn gives_nothing(self) -> bool {
        &&& self.default_backend is None
        &&& self.ssh_backend is None
        &&& self.ligatures is None
        &&& self.font_family is None
        &&& self.font_fallbacks is None
        &&& self.font_features is None
        &&& self.env is None
        &&& self.cursor_shape is None
        &&& self.blinking is None
        &&& self.option_as_meta is None
        &&& self.copy_on_select is None
        &&& self.sftp_upload_max_concurrency is None
        &&& self.show_scrollbar is None
        &&& self.show_line_numbers is None
        &&& self.suggestions_enabled is None
        &&& self.suggestions_max_items is None
    }

    /// The font features after the patch: the patch's features when given,
    /// then with ligatures switched as the patch says.
    pub open spec fn patched_features(self, current: Seq<FeatureEntry>) -> Seq<FeatureEntry> {
        let features = match self.font_features {
            Some(f) => f@,
            None => current,
        };
        match self.ligatures {
            Some(l) => with_calt(features, l),
            None => features,
        }
    }

    /// The terminal settings after the patch is applied to `s`: each field the
    /// patch gives replaces the current one, the upload concurrency brought
    /// into its allowed range.
    pub open spec fn applied(self, s: TermSettingsView<C, K>) -> TermSettingsView<C, K> {
        TermSettingsView {
            font_family: match self.font_family {
                Some(v) => v@,
                None => s.font_family,
            },
            font_fallbacks: match self.font_fallbacks {
                Some(v) => fallbacks_view(v),
                None => s.font_fallbacks,
            },
            font_features: self.patched_features(s.font_features),
            env: match self.env {
                Some(e) => e@,
                None => s.env,
            },
            cursor_shape: or_keep(self.cursor_shape, s.cursor_shape),
            blinking: or_keep(self.blinking, s.blinking),
            option_as_meta: or_keep(self.option_as_meta, s.option_as_meta),
            copy_on_select: or_keep(self.copy_on_select, s.copy_on_select),
            sftp_upload_max_concurrency: match self.sftp_upload_max_concurrency {
                Some(v) => clamp_concurrency(v),
                None => s.sftp_upload_max_concurrency,
            },
            show_scrollbar: or_keep(self.show_scrollbar, s.show_scrollbar),
            show_line_numbers: or_keep(self.show_line_numbers, s.show_line_numbers),
            suggestions_enabled: or_keep(self.suggestions_enabled, s.suggestions_enabled),
            suggestions_max_items: or_keep(self.suggestions_max_items, s.suggestions_max_items),
        }
    }

    /// Applies the patch to `settings`: every field it gives replaces the
    /// current value, ligatures are switched after the font features are
    /// replaced, and the upload concurrency is kept within its range even
    /// when the settings file was edited by hand.
    pub fn apply_to(&self, settings: &mut TermSettings<C, K>)
        ensures
            final(settings)@ == self.applied(old(settings)@),
    {
        self.apply_font_settings(settings);
        self.apply_behavior_settings(settings);
    }

    fn apply_font_settings(&self, settings: &mut TermSettings<C, K>)
        ensures
            final(settings)@ == (TermSettingsView {
                font_family: self.applied(old(settings)@).font_family,
                font_fallbacks: self.applied(old(settings)@).font_fallbacks,
                font_features: self.applied(old(settings)@).font_features,
                ..old(settings)@
            }),
    {
        if let Some(v) = &self.font_family {
            settings.font_family = v.clone();
        }
        if let Some(v) = &self.font_fallbacks {
            settings.font_fallbacks = match v {
                Some(list) => Some(copy_strings(list)),
                None => None,
            };
        }
        if let Some(v) = &self.font_features {
            settings.font_features = FontFeatures { features: copy_features(&v.features) };
        }
        if let Some(v) = self.ligatures {
            settings.font_features = set_calt_font_feature(&settings.font_features, v);
        }
    }

    fn apply_behavior_settings(&self, settings: &mut TermSettings<C, K>)
        ensures
            final(settings)@ == (TermSettingsView {
                font_family: old(settings)@.font_family,
                font_fallbacks: old(settings)@.font_fallbacks,
                font_features: old(settings)@.font_features,
                ..self.applied(old(settings)@)
            }),
    {
        if let Some(v) = &self.env {
            settings.env = v.clone();
        }
        if let Some(v) = self.cursor_shape {
            settings.cursor_shape = v;
        }
        if let Some(v) = self.blinking {
            settings.blinking = v;
        }
        settings.option_as_meta = match self.option_as_meta {
            Some(v) => v,
            None => settings.option_as_meta,
        };
        settings.copy_on_select = match self.copy_on_select {
            Some(v) => v,
            None => settings.copy_on_select,
        };
        if let Some(v) = self.sftp_upload_max_concurrency {
            settings.sftp_upload_max_concurrency = if v < MIN_SFTP_UPLOAD_CONCURRENCY {
                MIN_SFTP_UPLOAD_CONCURRENCY
            } else if v > MAX_SFTP_UPLOAD_CONCURRENCY {
                MAX_SFTP_UPLOAD_CONCURRENCY
            } else {
                v
            };
        }
        settings.show_scrollbar = match self.show_scrollbar {
            Some(v) => v,
            None => settings.show_scrollbar,
        };
        settings.show_line_numbers = match self.show_line_numbers {
            Some(v) => v,
            None => settings.show_line_numbers,
        };
        settings.suggestions_enabled = match self.suggestions_enabled {
            Some(v) => v,
            None => settings.suggestions_enabled,
        };
        settings.suggestions_max_items = match self.suggestions_max_items {
            Some(v) => v,
            None => settings.suggestions_max_items,
        };
    }
}

fn copy_strings(v: &Vec<String>) -> (r: Vec<String>)
    ensures
        string_views(r@) == string_views(v@),
{
    let mut r: Vec<String> = Vec::new();
    let n = v.len();
    let mut i: usize = 0;
    while i < n
        invariant
            n == v@.len(),
            0 <= i <= n,
            string_views(r@) =~= string_views(v@.subrange(0, i as int)),
        decreases n - i,
    {
        let ghost before = r@;
        r.push(v[i].clone());
        proof {
            assert(string_views(r@) =~= string_views(before).push(v@[i as int]@));
            assert(string_views(v@.subrange(0, i + 1)) =~= string_views(v@.subrange(0, i as int)).push(
                v@[i as int]@,
            ));
        }
        i = i + 1;
    }
    proof {
        assert(v@.subrange(0, n as int) =~= v@);
    }
    r
}

/// A patch that gives nothing leaves the settings as they were.
pub proof fn lemma_empty_patch_keeps_settings<B, C: Copy, K: Copy>(patch: TerminalSettingsPatch<B, C, K>, s: TermSettingsView<C, K>)
    requires
        patch.gives_nothing(),
    ensures
        patch.applied(s) == s,
{
}

/// Applying a patch a second time changes nothing more.
pub proof fn lemma_apply_idempotent<B, C: Copy, K: Copy>(patch: TerminalSettingsPatch<B, C, K>, s: TermSettingsView<C, K>)
    ensures
        patch.applied(patch.applied(s)) == patch.applied(s),
{
    match patch.ligatures {
        Some(l) => {
            let features = match patch.font_features {
                Some(f) => f@,
                None => s.font_features,
            };
            lemma_with_calt_last_wins(features, l, l);
        },
        None => {},
    }
}

/// The font features after a patch: a given feature list replaces the
/// current one whether or not ligatures are given; given ligatures then
/// switch `calt` on that list; without either, the features are kept.
pub proof fn lemma_patch_font_features<B, C: Copy, K: Copy>(patch: TerminalSettingsPatch<B, C, K>, s: TermSettingsView<C, K>)
    ensures
        patch.font_features is Some && patch.ligatures is None ==> patch.applied(s).font_features
            == patch.font_features->0@,
        patch.font_features is Some && patch.ligatures is Some ==> patch.applied(s).font_features
            == with_calt(patch.font_features->0@, patch.ligatures->0),
        patch.font_features is None && patch.ligatures is Some ==> patch.applied(s).font_features
            == with_calt(s.font_features, patch.ligatures->0),
        patch.font_features is None && patch.ligatures is None ==> patch.applied(s).font_features
            == s.font_features,
{
}

/// Every other field a patch gives is the field's new value, and every field
/// it does not give keeps its value.
pub proof fn lemma_patch_fields<B, C: Copy, K: Copy>(patch: TerminalSettingsPatch<B, C, K>, s: TermSettingsView<C, K>)
    ensures
        patch.font_family is Some ==> patch.applied(s).font_family == patch.font_family->0@,
        patch.font_family is None ==> patch.applied(s).font_family == s.font_family,
        patch.font_fallbacks is Some ==> patch.applied(s).font_fallbacks == fallbacks_view(
            patch.font_fallbacks->0,
        ),
        patch.font_fallbacks is None ==> patch.applied(s).font_fallbacks == s.font_fallbacks,
        patch.env is Some ==> patch.applied(s).env == patch.env->0@,
        patch.env is None ==> patch.applied(s).env == s.env,
        patch.cursor_shape is Some ==> patch.applied(s).cursor_shape == patch.cursor_shape->0,
        patch.cursor_shape is None ==> patch.applied(s).cursor_shape == s.cursor_shape,
        patch.blinking is Some ==> patch.applied(s).blinking == patch.blinking->0,
        patch.blinking is None ==> patch.applied(s).blinking == s.blinking,
        patch.option_as_meta is Some ==> patch.applied(s).option_as_meta == patch.option_as_meta->0,
        patch.option_as_meta is None ==> patch.applied(s).option_as_meta == s.option_as_meta,
        patch.copy_on_select is Some ==> patch.applied(s).copy_on_select == patch.copy_on_select->0,
        patch.copy_on_select is None ==> patch.applied(s).copy_on_select == s.copy_on_select,
        patch.sftp_upload_max_concurrency is Some && MIN_SFTP_UPLOAD_CONCURRENCY
            <= patch.sftp_upload_max_concurrency->0 <= MAX_SFTP_UPLOAD_CONCURRENCY
            ==> patch.applied(s).sftp_upload_max_concurrency == patch.sftp_upload_max_concurrency->0,
        patch.sftp_upload_max_concurrency is Some && patch.sftp_upload_max_concurrency->0
            < MIN_SFTP_UPLOAD_CONCURRENCY ==> patch.applied(s).sftp_upload_max_concurrency
            == MIN_SFTP_UPLOAD_CONCURRENCY,
        patch.sftp_upload_max_concurrency is Some && patch.sftp_upload_max_concurrency->0
            > MAX_SFTP_UPLOAD_CONCURRENCY ==> patch.applied(s).sftp_upload_max_concurrency
            == MAX_SFTP_UPLOAD_CONCURRENCY,
        patch.sftp_upload_max_concurrency is None ==> patch.applied(s).sftp_upload_max_concurrency
            == s.sftp_upload_max_concurrency,
        patch.show_scrollbar is Some ==> patch.applied(s).show_scrollbar == patch.show_scrollbar->0,
        patch.show_scrollbar is None ==> patch.applied(s).show_scrollbar == s.show_scrollbar,
        patch.show_line_numbers is Some ==> patch.applied(s).show_line_numbers
            == patch.show_line_numbers->0,
        patch.show_line_numbers is None ==> patch.applied(s).show_line_numbers == s.show_line_numbers,
        patch.suggestions_enabled is Some ==> patch.applied(s).suggestions_enabled
            == patch.suggestions_enabled->0,
        patch.suggestions_enabled is None ==> patch.applied(s).suggestions_enabled
            == s.suggestions_enabled,
        patch.suggestions_max_items is Some ==> patch.applied(s).suggestions_max_items
            == patch.suggestions_max_items->0,
        patch.suggestions_max_items is None ==> patch.applied(s).suggestions_max_items
            == s.suggestions_max_items,
{
}

/// A patch that sets ligatures leaves them reported exactly as it set them,
/// and the upload concurrency always stays within its allowed range once a
/// patch gives it.
pub proof fn lemma_patch_ligatures_and_concurrency<B, C: Copy, K: Copy>(patch: TerminalSettingsPatch<B, C, K>, s: TermSettingsView<C, K>)
    ensures
        patch.ligatures is Some ==> calt_enabled(patch.applied(s).font_features) == patch.ligatures,
        patch.sftp_upload_max_concurrency is Some ==> MIN_SFTP_UPLOAD_CONCURRENCY
            <= patch.applied(s).sftp_upload_max_concurrency <= MAX_SFTP_UPLOAD_CONCURRENCY,
{
    match patch.ligatures {
        Some(l) => {
            let features = match patch.font_features {
                Some(f) => f@,
                None => s.font_features,
            };
            lemma_with_calt_enabled(features, l);
        },
        None => {},
    }
}

/// The terminal settings of the settings file: the terminal's own settings,
/// the backend for new terminals, and the SSH backend (`B`, the SSH backend
/// type of the terminal crate).
#[derive(Debug)]
pub struct TerminalSettings<B, C, K> {
    pub settings: TermSettings<C, K>,
    pub default_backend: TerminalBackend,
    pub ssh_backend: B,
}

impl<B: Copy, C: Copy, K: Copy> TerminalSettings<B, C, K> {
    /// The default terminal settings built on the terminal's own defaults
    /// `base` and the default SSH backend: ligatures on, Alacritty for new
    /// terminals.
    pub fn new(base: TermSettings<C, K>, ssh_backend: B) -> (t: Self)
        ensures
            t.settings@ == (TermSettingsView { font_features: with_calt(base@.font_features, true), ..base@ }),
            t.default_backend == TerminalBackend::Alacritty,
            t.ssh_backend == ssh_backend,
    {
        let mut settings = base;
        settings.font_features = set_calt_font_feature(&settings.font_features, true);
        TerminalSettings { settings, default_backend: TerminalBackend::Alacritty, ssh_backend }
    }

    /// Whether ligatures are on: the first `calt` feature has the value 1.
    pub fn ligatures_enabled(&self) -> (b: bool)
        ensures
            b == (calt_enabled(self.settings@.font_features) == Some(true)),
    {
        match self.settings.font_features.is_calt_enabled() {
            Some(v) => v,
            None => false,
        }
    }

    /// Switches ligatures on or off and leaves everything else alone.
    pub fn set_ligatures_enabled(&mut self, enabled: bool)
        ensures
            final(self).settings@ == (TermSettingsView {
                font_features: with_calt(old(self).settings@.font_features, enabled),
                ..old(self).settings@
            }),
            final(self).default_backend == old(self).default_backend,
            final(self).ssh_backend == old(self).ssh_backend,
    {
        self.settings.font_features = set_calt_font_feature(&self.settings.font_features, enabled);
    }

    /// The font features a settings file records beside the ligature switch:
    /// the features other than `calt`, or nothing when there are none.
    pub fn extra_font_features(&self) -> (f: Option<FontFeatures>)
        ensures
            match f {
                Some(v) => v@ == without_calt(self.settings@.font_features) && v@.len() > 0,
                None => without_calt(self.settings@.font_features).len() == 0,
            },
    {
        let extra = font_features_without_calt(&self.settings.font_features);
        if extra.features.len() == 0 {
            None
        } else {
            Some(extra)
        }
    }

    /// The terminal settings that a settings file describes: `defaults`
    /// with the patch applied, and the backends the patch gives, if any.
    pub fn from_patch(defaults: Self, patch: &TerminalSettingsPatch<B, C, K>) -> (t: Self)
        ensures
            t.settings@ == patch.applied(defaults.settings@),
            t.default_backend == or_keep(patch.default_backend, defaults.default_backend),
            t.ssh_backend == or_keep(patch.ssh_backend, defaults.ssh_backend),
    {
        let mut terminal = defaults;
        patch.apply_to(&mut terminal.settings);
        if let Some(b) = patch.default_backend {
            terminal.default_backend = b;
        }
        if let Some(b) = patch.ssh_backend {
            terminal.ssh_backend = b;
        }
        terminal
    }
}

/// After switching ligatures, they are reported as switched that way.
pub proof fn lemma_ligatures_read_back<C, K>(s: TermSettingsView<C, K>, enabled: bool)
    ensures
        (calt_enabled(with_calt(s.font_features, enabled)) == Some(true)) == enabled,
{
    lemma_with_calt_enabled(s.font_features, enabled);
}

/// The font features that reading back saved terminal settings yields: the
/// saved features other than `calt` (or `defaults` when none were saved, since
/// an empty list is left out of the file), with ligatures switched as saved.
pub open spec fn features_read_back(features: Seq<FeatureEntry>, defaults: Seq<FeatureEntry>) -> Seq<FeatureEntry> {
    let extra = without_calt(features);
    let ligatures = calt_enabled(features) == Some(true);
    with_calt(if extra.len() > 0 { extra } else { defaults }, ligatures)
}

/// Saving terminal settings and reading them back keeps whether ligatures are
/// on, and, when other features were saved, every feature other than `calt`
/// in its order.
pub proof fn lemma_font_features_round_trip(features: Seq<FeatureEntry>, defaults: Seq<FeatureEntry>)
    ensures
        (calt_enabled(features_read_back(features, defaults)) == Some(true)) == (calt_enabled(features)
            == Some(true)),
        without_calt(features).len() > 0 ==> without_calt(features_read_back(features, defaults))
            == without_calt(features),
{
    let extra = without_calt(features);
    let ligatures = calt_enabled(features) == Some(true);
    let base = if extra.len() > 0 {
        extra
    } else {
        defaults
    };
    lemma_with_calt_enabled(base, ligatures);
    lemma_without_calt_ignores_switch(base, ligatures);
    lemma_without_calt_idempotent(features);
}

/// The whole settings file.
#[derive(Debug)]
pub struct SettingsFile<B, C, K> {
    pub appearance: AppearanceSettings,
    pub terminal: TerminalSettings<B, C, K>,
    pub terminal_keybindings: TerminalKeyBindings,
    pub logging: LoggingSettings,
    pub ui: UiSettings,
    pub lock_screen: LockScreenSettings,
}

/// A settings file as read: every section that the file lacks holds its
/// defaults, and the terminal section is a patch on the terminal defaults.
#[derive(Debug)]
pub struct SettingsFilePatch<B, C, K> {
    pub appearance: AppearanceSettings,
    pub logging: LoggingSettings,
    pub ui: UiSettings,
    pub lock_screen: LockScreenSettings,
    pub terminal: TerminalSettingsPatch<B, C, K>,
    pub terminal_keybindings: TerminalKeyBindings,
}

impl<B: Copy, C: Copy, K: Copy> SettingsFile<B, C, K> {
    /// The settings that a read settings file stands for: its sections as
    /// read, and its terminal patch applied to `terminal_defaults`.
    pub fn from_patch(patch: SettingsFilePatch<B, C, K>, terminal_defaults: TerminalSettings<B, C, K>) -> (f:
        Self)
        ensures
            f.terminal.settings@ == patch.terminal.applied(terminal_defaults.settings@),
            f.terminal.default_backend == or_keep(
                patch.terminal.default_backend,
                terminal_defaults.default_backend,
            ),
            f.terminal.ssh_backend == or_keep(patch.terminal.ssh_backend, terminal_defaults.ssh_backend),
            f.appearance == patch.appearance,
            f.terminal_keybindings == patch.terminal_keybindings,
            f.logging == patch.logging,
            f.ui == patch.ui,
            f.lock_screen == patch.lock_screen,
    {
        let terminal = TerminalSettings::from_patch(terminal_defaults, &patch.terminal);
        SettingsFile {
            appearance: patch.appearance,
            terminal,
            terminal_keybindings: patch.terminal_keybindings,
            logging: patch.logging,
            ui: patch.ui,
            lock_screen: patch.lock_screen,
        }
    }
}

} // verus!
