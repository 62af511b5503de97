use vstd::prelude::*;

use crate::text::{
    is_blank, is_blank_str, is_white_space, lemma_trimmed_empty_iff_blank, lemma_trimmed_shape, same_text,
    trim, trimmed,
};

verus! {

/// The terminal actions whose keystrokes the user can override.
#[derive(Clone, Copy, Debug, PartialEq, Eq, Structural)]
pub enum TerminalAction {
    Copy,
    Paste,
    SelectAll,
    Clear,
    Search,
    SearchNext,
    SearchPrevious,
    IncreaseFontSize,
    DecreaseFontSize,
    ResetFontSize,
}

/// Every overridable terminal action, in the order they are applied.
pub fn all_terminal_actions() -> (v: Vec<TerminalAction>)
    ensures
        v@ == seq![
            TerminalAction::Copy,
            TerminalAction::Paste,
            TerminalAction::SelectAll,
            TerminalAction::Clear,
            TerminalAction::Search,
            TerminalAction::SearchNext,
            TerminalAction::SearchPrevious,
            TerminalAction::IncreaseFontSize,
            TerminalAction::DecreaseFontSize,
            TerminalAction::ResetFontSize,
        ],
{
    let v = vec![
        TerminalAction::Copy,
        TerminalAction::Paste,
        TerminalAction::SelectAll,
        TerminalAction::Clear,
        TerminalAction::Search,
        TerminalAction::SearchNext,
        TerminalAction::SearchPrevious,
        TerminalAction::IncreaseFontSize,
        TerminalAction::DecreaseFontSize,
        TerminalAction::ResetFontSize,
    ];
    assert(v@ =~= seq![
        TerminalAction::Copy,
        TerminalAction::Paste,
        TerminalAction::SelectAll,
        TerminalAction::Clear,
        TerminalAction::Search,
        TerminalAction::SearchNext,
        TerminalAction::SearchPrevious,
        TerminalAction::IncreaseFontSize,
        TerminalAction::DecreaseFontSize,
        TerminalAction::ResetFontSize,
    ]);
    v
}

/// The views of a list of string slices.
pub open spec fn str_views(v: Seq<&str>) -> Seq<Seq<char>> {
    v.map_values(|s: &str| s@)
}

/// The keystrokes bound to an action when the user has not overridden it, on
/// macOS or on the other platforms (scoped to the terminal).
pub open spec fn default_keystroke_list(action: TerminalAction, macos: bool) -> Seq<Seq<char>> {
    match action {
        TerminalAction::Copy => if macos { seq!["cmd-c"@] } else { seq!["ctrl-shift-c"@] },
        TerminalAction::Paste => if macos { seq!["cmd-v"@] } else { seq!["ctrl-shift-v"@] },
        TerminalAction::SelectAll => if macos { seq!["cmd-a"@] } else { seq!["ctrl-shift-a"@] },
        TerminalAction::Clear => if macos { seq!["cmd-k"@] } else { seq!["ctrl-shift-k"@] },
        TerminalAction::Search => if macos { seq!["cmd-f"@] } else { seq!["ctrl-shift-f"@] },
        TerminalAction::SearchNext => if macos { seq!["cmd-g"@] } else { seq!["ctrl-g"@] },
        TerminalAction::SearchPrevious => if macos {
            seq!["cmd-shift-g"@]
        } else {
            seq!["ctrl-shift-g"@]
        },
        TerminalAction::IncreaseFontSize => if macos {
            seq!["cmd-+"@, "cmd-="@]
        } else {
            seq!["ctrl-+"@, "ctrl-="@]
        },
        TerminalAction::DecreaseFontSize => if macos { seq!["cmd--"@] } else { seq!["ctrl--"@] },
        TerminalAction::ResetFontSize => if macos { seq!["cmd-0"@] } else { seq!["ctrl-0"@] },
    }
}

/// The default keystrokes of `action` on macOS (`macos`) or on the other platforms.
pub fn default_keystrokes(action: TerminalAction, macos: bool) -> (v: Vec<&'static str>)
    ensures
        str_views(v@) == default_keystroke_list(action, macos),
{
    let v: Vec<&'static str> = match action {
        TerminalAction::Copy => if macos { vec!["cmd-c"] } else { vec!["ctrl-shift-c"] },
        TerminalAction::Paste => if macos { vec!["cmd-v"] } else { vec!["ctrl-shift-v"] },
        TerminalAction::SelectAll => if macos { vec!["cmd-a"] } else { vec!["ctrl-shift-a"] },
        TerminalAction::Clear => if macos { vec!["cmd-k"] } else { vec!["ctrl-shift-k"] },
        TerminalAction::Search => if macos { vec!["cmd-f"] } else { vec!["ctrl-shift-f"] },
        TerminalAction::SearchNext => if macos { vec!["cmd-g"] } else { vec!["ctrl-g"] },
        TerminalAction::SearchPrevious => if macos {
            vec!["cmd-shift-g"]
        } else {
            vec!["ctrl-shift-g"]
        },
        TerminalAction::IncreaseFontSize => if macos {
            vec!["cmd-+", "cmd-="]
        } else {
            vec!["ctrl-+", "ctrl-="]
        },
        TerminalAction::DecreaseFontSize => if macos { vec!["cmd--"] } else { vec!["ctrl--"] },
        TerminalAction::ResetFontSize => if macos { vec!["cmd-0"] } else { vec!["ctrl-0"] },
    };
    assert(str_views(v@) =~= default_keystroke_list(action, macos));
    v
}

/// The user's keystroke overrides for terminal actions; `None` keeps the defaults.
#[derive(Clone, Debug)]
pub struct TerminalKeyBindings {
    pub copy: Option<String>,
    pub paste: Option<String>,
    pub select_all: Option<String>,
    pub clear: Option<String>,
    pub search: Option<String>,
    pub search_next: Option<String>,
    pub search_previous: Option<String>,
    pub increase_font_size: Option<String>,
    pub decrease_font_size: Option<String>,
    pub reset_font_size: Option<String>,
}

/// The view of an optional string.
pub open spec fn opt_view(o: Option<String>) -> Option<Seq<char>> {
    match o {
        Some(s) => Some(s@),
        None => None,
    }
}

impl Default for TerminalKeyBindings {
    fn default() -> (k: Self)
        ensures
            k.copy is None && k.paste is None && k.select_all is None && k.clear is None
                && k.search is None && k.search_next is None && k.search_previous is None
                && k.increase_font_size is None && k.decrease_font_size is None
                && k.reset_font_size is None,
    {
        TerminalKeyBindings {
            copy: None,
            paste: None,
            select_all: None,
            clear: None,
            search: None,
            search_next: None,
            search_previous: None,
            increase_font_size: None,
            decrease_font_size: None,
            reset_font_size: None,
        }
    }
}

impl TerminalKeyBindings {
    /// The override for one action, as the user wrote it.
    pub open spec fn override_of(self, action: TerminalAction) -> Option<String> {
        match action {
            TerminalAction::Copy => self.copy,
            TerminalAction::Paste => self.paste,
            TerminalAction::SelectAll => self.select_all,
            TerminalAction::Clear => self.clear,
            TerminalAction::Search => self.search,
            TerminalAction::SearchNext => self.search_next,
            TerminalAction::SearchPrevious => self.search_previous,
            TerminalAction::IncreaseFontSize => self.increase_font_size,
            TerminalAction::DecreaseFontSize => self.decrease_font_size,
            TerminalAction::ResetFontSize => self.reset_font_size,
        }
    }

    /// The override the user wrote for `action`, if any.
    pub fn override_for(&self, action: TerminalAction) -> (o: Option<&str>)
        ensures
            match o {
                Some(s) => self.override_of(action) is Some && s@ == self.override_of(action)->0@,
                None => self.override_of(action) is None,
            },
    {
        let field = match action {
            TerminalAction::Copy => &self.copy,
            TerminalAction::Paste => &self.paste,
            TerminalAction::SelectAll => &self.select_all,
            TerminalAction::Clear => &self.clear,
            TerminalAction::Search => &self.search,
            TerminalAction::SearchNext => &self.search_next,
            TerminalAction::SearchPrevious => &self.search_previous,
            TerminalAction::IncreaseFontSize => &self.increase_font_size,
            TerminalAction::DecreaseFontSize => &self.decrease_font_size,
            TerminalAction::ResetFontSize => &self.reset_font_size,
        };
        match field {
            Some(s) => Some(s.as_str()),
            None => None,
        }
    }
}

/// An override as it takes effect: trimmed, and `None` when missing or blank.
pub open spec fn normalized_override(o: Option<Seq<char>>) -> Option<Seq<char>> {
    match o {
        Some(s) => if is_blank(s) {
            None
        } else {
            Some(trimmed(s))
        },
        None => None,
    }
}

/// Trims an override and drops it when it is missing or blank.
pub fn normalize_override(override_keystrokes: Option<&str>) -> (o: Option<String>)
    ensures
        opt_view(o) == normalized_override(
            match override_keystrokes {
                Some(s) => Some(s@),
                None => None,
            },
        ),
{
    match override_keystrokes {
        Some(s) => {
            if is_blank_str(s) {
                None
            } else {
                Some(String::from_str(trim(s)))
            }
        },
        None => None,
    }
}

/// An override that is missing or blank takes no effect; any other takes
/// effect as the user wrote it with the white space around it cut: a
/// non-empty part of what was written, neither starting nor ending with
/// white space, with only white space cut before and after it.
pub proof fn lemma_normalized_override_trims(o: Option<Seq<char>>)
    ensures
        normalized_override(o) is None <==> (o is None || is_blank(o->0)),
        normalized_override(o) is Some ==> {
            let s = o->0;
            let t = normalized_override(o)->0;
            &&& t.len() > 0
            &&& !is_white_space(t[0])
            &&& !is_white_space(t.last())
            &&& exists|a: int, b: int|
                0 <= a <= b <= s.len() && t == s.subrange(a, b) && (forall|i: int|
                    0 <= i < a ==> is_white_space(#[trigger] s[i])) && (forall|i: int|
                    b <= i < s.len() ==> is_white_space(#[trigger] s[i]))
        },
{
    if o is Some {
        lemma_trimmed_empty_iff_blank(o->0);
        lemma_trimmed_shape(o->0);
    }
}

/// One change to the terminal's keymap. The keymap only grows: later
/// bindings take precedence over earlier ones.
#[derive(Clone, Debug)]
pub enum KeyBindingStep {
    /// Bind these keystrokes to no action.
    DisableKeys(String),
    /// Bind the user's keystrokes (which parse) to the action.
    BindOverride(String),
    /// Bind these default keystrokes to the action again.
    BindDefault(String),
}

/// A keymap change as seen in contracts.
pub enum StepView {
    DisableKeys(Seq<char>),
    BindOverride(Seq<char>),
    BindDefault(Seq<char>),
}

/// The view of a keymap change.
pub open spec fn step_view(step: KeyBindingStep) -> StepView {
    match step {
        KeyBindingStep::DisableKeys(s) => StepView::DisableKeys(s@),
        KeyBindingStep::BindOverride(s) => StepView::BindOverride(s@),
        KeyBindingStep::BindDefault(s) => StepView::BindDefault(s@),
    }
}

/// The views of a list of keymap changes.
pub open spec fn step_views(steps: Seq<KeyBindingStep>) -> Seq<StepView> {
    steps.map_values(|s: KeyBindingStep| step_view(s))
}

/// The keymap changes that move an action from the override `previous` (the
/// one in effect) to the override `next` (already normalized), whose
/// keystrokes parse when `next_parses`. Nothing changes when the override is
/// the same, or when a new override does not parse. Otherwise the previous
/// override is disabled; then a new override disables the defaults and binds
/// its keystrokes, while clearing the override binds the defaults again.
pub open spec fn binding_steps(
    previous: Option<Seq<char>>,
    defaults: Seq<Seq<char>>,
    next: Option<Seq<char>>,
    next_parses: bool,
) -> Seq<StepView> {
    if previous == next || (next is Some && !next_parses) {
        Seq::empty()
    } else {
        let disable_previous = match previous {
            Some(p) => seq![StepView::DisableKeys(p)],
            None => Seq::empty(),
        };
        match next {
            Some(o) => disable_previous + defaults.map_values(|k: Seq<char>| StepView::DisableKeys(k))
                + seq![StepView::BindOverride(o)],
            None => disable_previous + defaults.map_values(|k: Seq<char>| StepView::BindDefault(k)),
        }
    }
}

/// The override in effect after a change: `next`, unless it does not parse.
pub open spec fn override_after(previous: Option<Seq<char>>, next: Option<Seq<char>>, next_parses: bool) -> Option<Seq<char>> {
    if previous == next || (next is Some && !next_parses) {
        previous
    } else {
        next
    }
}

fn same_override(a: &Option<String>, b: &Option<String>) -> (r: bool)
    ensures
        r == (opt_view(*a) == opt_view(*b)),
{
    match a {
        Some(x) => match b {
            Some(y) => same_text(x.as_str(), y.as_str()),
            None => false,
        },
        None => b.is_none(),
    }
}

/// Moves one action's binding from the override in effect to `next_override`
/// (normalized by `normalize_override`; `next_override_parses` tells whether
/// its keystrokes parse as a key binding) and returns the keymap changes to
/// make, in order.
pub fn apply_terminal_binding(
    previous_override: &mut Option<String>,
    default_keystrokes: &[&str],
    next_override: Option<String>,
    next_override_parses: bool,
) -> (steps: Vec<KeyBindingStep>)
    ensures
        step_views(steps@) == binding_steps(
            opt_view(*old(previous_override)),
            str_views(default_keystrokes@),
            opt_view(next_override),
            next_override_parses,
        ),
        opt_view(*final(previous_override)) == override_after(
            opt_view(*old(previous_override)),
            opt_view(next_override),
            next_override_parses,
        ),
{
    let mut steps: Vec<KeyBindingStep> = Vec::new();
    if same_override(previous_override, &next_override) {
        assert(step_views(steps@) =~= Seq::empty());
        return steps;
    }
    if next_override.is_some() && !next_override_parses {
        assert(step_views(steps@) =~= Seq::empty());
        return steps;
    }
    let ghost prev_view = opt_view(*previous_override);
    let ghost defaults = str_views(default_keystrokes@);
    match previous_override {
        Some(p) => {
            steps.push(KeyBindingStep::DisableKeys(p.clone()));
        },
        None => {},
    }
    let ghost head = step_views(steps@);
    assert(head =~= match prev_view {
        Some(p) => seq![StepView::DisableKeys(p)],
        None => Seq::<StepView>::empty(),
    });
    let n = default_keystrokes.len();
    let mut i: usize = 0;
    let disabling = next_override.is_some();
    while i < n
        invariant
            n == default_keystrokes@.len(),
            defaults == str_views(default_keystrokes@),
            0 <= i <= n,
            disabling == next_override is Some,
            step_views(steps@) =~= head + (if disabling {
                defaults.subrange(0, i as int).map_values(|k: Seq<char>| StepView::DisableKeys(k))
            } else {
                defaults.subrange(0, i as int).map_values(|k: Seq<char>| StepView::BindDefault(k))
            }),
        decreases n - i,
    {
        let k = String::from_str(default_keystrokes[i]);
        let ghost before = step_views(steps@);
        if disabling {
            steps.push(KeyBindingStep::DisableKeys(k));
        } else {
            steps.push(KeyBindingStep::BindDefault(k));
        }
        proof {
            assert(defaults.subrange(0, i + 1) =~= defaults.subrange(0, i as int).push(
                default_keystrokes@[i as int]@,
            ));
            assert(step_views(steps@) =~= before.push(step_view(steps@[i as int + head.len()])));
        }
        i = i + 1;
    }
    proof {
        assert(defaults.subrange(0, n as int) =~= defaults);
    }
    match &next_override {
        Some(o) => {
            let ghost before = step_views(steps@);
            steps.push(KeyBindingStep::BindOverride(o.clone()));
            assert(step_views(steps@) =~= before.push(StepView::BindOverride(o@)));
        },
        None => {},
    }
    *previous_override = next_override;
    steps
}

/// When the override changes to one that can take effect, the changes come
/// in this order: the previous override (if any) is disabled first; then each
/// default keystroke is handled once, in order, disabled for a new override
/// or bound again when the override is cleared; last, a new override is bound.
pub proof fn lemma_binding_steps_order(
    previous: Option<Seq<char>>,
    defaults: Seq<Seq<char>>,
    next: Option<Seq<char>>,
    next_parses: bool,
)
    requires
        previous != next,
        next is None || next_parses,
    ensures
        binding_steps(previous, defaults, next, next_parses).len() == (if previous is Some {
            1int
        } else {
            0int
        }) + defaults.len() + (if next is Some {
            1int
        } else {
            0int
        }),
        previous is Some ==> binding_steps(previous, defaults, next, next_parses)[0]
            == StepView::DisableKeys(previous->0),
        previous is Some ==> forall|i: int|
            0 <= i < defaults.len() ==> binding_steps(previous, defaults, next, next_parses)[1 + i] == (
            if next is Some {
                StepView::DisableKeys(#[trigger] defaults[i])
            } else {
                StepView::BindDefault(defaults[i])
            }),
        previous is None ==> forall|i: int|
            0 <= i < defaults.len() ==> binding_steps(previous, defaults, next, next_parses)[i] == (
            if next is Some {
                StepView::DisableKeys(#[trigger] defaults[i])
            } else {
                StepView::BindDefault(defaults[i])
            }),
        next is Some ==> binding_steps(previous, defaults, next, next_parses).last()
            == StepView::BindOverride(next->0),
        override_after(previous, next, next_parses) == next,
{
}

/// Applying the override that is already in effect changes nothing: the
/// keymap does not grow when the settings are applied again.
pub proof fn lemma_reapplying_changes_nothing(
    previous: Option<Seq<char>>,
    defaults: Seq<Seq<char>>,
    next: Option<Seq<char>>,
    next_parses: bool,
    again_parses: bool,
)
    ensures
        binding_steps(override_after(previous, next, next_parses), defaults, next, again_parses)
            == Seq::<StepView>::empty() || (next is Some && !next_parses),
        override_after(override_after(previous, next, next_parses), next, again_parses) == (if next
            is Some && !next_parses {
            override_after(previous, next, again_parses)
        } else {
            next
        }),
{
}

/// An override whose keystrokes do not parse leaves the binding as it was.
pub proof fn lemma_unparsable_override_keeps_binding(
    previous: Option<Seq<char>>,
    defaults: Seq<Seq<char>>,
    next: Seq<char>,
)
    ensures
        binding_steps(previous, defaults, Some(next), false) == Seq::<StepView>::empty(),
        override_after(previous, Some(next), false) == previous,
{
}

/// Each action reads the override of its own name: changing one action's
/// field changes what that action reads to the new value, and nothing that
/// any other action reads.
pub proof fn lemma_each_action_reads_its_own_override(k: TerminalKeyBindings, v: Option<String>)
    ensures
        (TerminalKeyBindings { copy: v, ..k }).override_of(TerminalAction::Copy) == v,
        forall|a: TerminalAction| a != TerminalAction::Copy ==> #[trigger] (TerminalKeyBindings { copy: v, ..k }).override_of(a) == k.override_of(a),
        (TerminalKeyBindings { paste: v, ..k }).override_of(TerminalAction::Paste) == v,
        forall|a: TerminalAction| a != TerminalAction::Paste ==> #[trigger] (TerminalKeyBindings { paste: v, ..k }).override_of(a) == k.override_of(a),
        (TerminalKeyBindings { select_all: v, ..k }).override_of(TerminalAction::SelectAll) == v,
        forall|a: TerminalAction| a != TerminalAction::SelectAll ==> #[trigger] (TerminalKeyBindings { select_all: v, ..k }).override_of(a) == k.override_of(a),
        (TerminalKeyBindings { clear: v, ..k }).override_of(TerminalAction::Clear) == v,
        forall|a: TerminalAction| a != TerminalAction::Clear ==> #[trigger] (TerminalKeyBindings { clear: v, ..k }).override_of(a) == k.override_of(a),
        (TerminalKeyBindings { search: v, ..k }).override_of(TerminalAction::Search) == v,
        forall|a: TerminalAction| a != TerminalAction::Search ==> #[trigger] (TerminalKeyBindings { search: v, ..k }).override_of(a) == k.override_of(a),
        (TerminalKeyBindings { search_next: v, ..k }).override_of(TerminalAction::SearchNext) == v,
        forall|a: TerminalAction| a != TerminalAction::SearchNext ==> #[trigger] (TerminalKeyBindings { search_next: v, ..k }).override_of(a) == k.override_of(a),
        (TerminalKeyBindings { search_previous: v, ..k }).override_of(TerminalAction::SearchPrevious) == v,
        forall|a: TerminalAction| a != TerminalAction::SearchPrevious ==> #[trigger] (TerminalKeyBindings { search_previous: v, ..k }).override_of(a) == k.override_of(a),
        (TerminalKeyBindings { increase_font_size: v, ..k }).override_of(TerminalAction::IncreaseFontSize) == v,
        forall|a: TerminalAction| a != TerminalAction::IncreaseFontSize ==> #[trigger] (TerminalKeyBindings { increase_font_size: v, ..k }).override_of(a) == k.override_of(a),
        (TerminalKeyBindings { decrease_font_size: v, ..k }).override_of(TerminalAction::DecreaseFontSize) == v,
        forall|a: TerminalAction| a != TerminalAction::DecreaseFontSize ==> #[trigger] (TerminalKeyBindings { decrease_font_size: v, ..k }).override_of(a) == k.override_of(a),
        (TerminalKeyBindings { reset_font_size: v, ..k }).override_of(TerminalAction::ResetFontSize) == v,
        forall|a: TerminalAction| a != TerminalAction::ResetFontSize ==> #[trigger] (TerminalKeyBindings { reset_font_size: v, ..k }).override_of(a) == k.override_of(a),
{
}

/// The overrides in effect for each action.
#[derive(Clone, Debug)]
pub struct AppliedTerminalKeybindings {
    pub copy: Option<String>,
    pub paste: Option<String>,
    pub select_all: Option<String>,
    pub clear: Option<String>,
    pub search: Option<String>,
    pub search_next: Option<String>,
    pub search_previous: Option<String>,
    pub increase_font_size: Option<String>,
    pub decrease_font_size: Option<String>,
    pub reset_font_size: Option<String>,
}

impl Default for AppliedTerminalKeybindings {
    fn default() -> (k: Self)
        ensures
            k.copy is None && k.paste is None && k.select_all is None && k.clear is None
                && k.search is None && k.search_next is None && k.search_previous is None
                && k.increase_font_size is None && k.decrease_font_size is None
                && k.reset_font_size is None,
    {
        AppliedTerminalKeybindings {
            copy: None,
            paste: None,
            select_all: None,
            clear: None,
            search: None,
            search_next: None,
            search_previous: None,
            increase_font_size: None,
            decrease_font_size: None,
            reset_font_size: None,
        }
    }
}

impl AppliedTerminalKeybindings {
    /// The override in effect for one action.
    pub open spec fn applied_of(self, action: TerminalAction) -> Option<String> {
        match action {
            TerminalAction::Copy => self.copy,
            TerminalAction::Paste => self.paste,
            TerminalAction::SelectAll => self.select_all,
            TerminalAction::Clear => self.clear,
            TerminalAction::Search => self.search,
            TerminalAction::SearchNext => self.search_next,
            TerminalAction::SearchPrevious => self.search_previous,
            TerminalAction::IncreaseFontSize => self.increase_font_size,
            TerminalAction::DecreaseFontSize => self.decrease_font_size,
            TerminalAction::ResetFontSize => self.reset_font_size,
        }
    }

    /// Moves `action` to `next_override` as `apply_terminal_binding` does and
    /// returns the keymap changes; the other actions keep their overrides.
    pub fn apply(
        &mut self,
        action: TerminalAction,
        default_keystrokes: &[&str],
        next_override: Option<String>,
        next_override_parses: bool,
    ) -> (steps: Vec<KeyBindingStep>)
        ensures
            step_views(steps@) == binding_steps(
                opt_view(old(self).applied_of(action)),
                str_views(default_keystrokes@),
                opt_view(next_override),
                next_override_parses,
            ),
            opt_view(final(self).applied_of(action)) == override_after(
                opt_view(old(self).applied_of(action)),
                opt_view(next_override),
                next_override_parses,
            ),
            forall|other: TerminalAction|
                other != action ==> #[trigger] final(self).applied_of(other) == old(self).applied_of(other),
    {
        match action {
            TerminalAction::Copy => apply_terminal_binding(&mut self.copy, default_keystrokes, next_override, next_override_parses),
            TerminalAction::Paste => apply_terminal_binding(&mut self.paste, default_keystrokes, next_override, next_override_parses),
            TerminalAction::SelectAll => apply_terminal_binding(&mut self.select_all, default_keystrokes, next_override, next_override_parses),
            TerminalAction::Clear => apply_terminal_binding(&mut self.clear, default_keystrokes, next_override, next_override_parses),
            TerminalAction::Search => apply_terminal_binding(&mut self.search, default_keystrokes, next_override, next_override_parses),
            TerminalAction::SearchNext => apply_terminal_binding(&mut self.search_next, default_keystrokes, next_override, next_override_parses),
            TerminalAction::SearchPrevious => apply_terminal_binding(&mut self.search_previous, default_keystrokes, next_override, next_override_parses),
            TerminalAction::IncreaseFontSize => apply_terminal_binding(&mut self.increase_font_size, default_keystrokes, next_override, next_override_parses),
            TerminalAction::DecreaseFontSize => apply_terminal_binding(&mut self.decrease_font_size, default_keystrokes, next_override, next_override_parses),
            TerminalAction::ResetFontSize => apply_terminal_binding(&mut self.reset_font_size, default_keystrokes, next_override, next_override_parses),
        }
    }
}

/// Each action keeps its applied override in the field of its own name:
/// changing one field changes what that action holds, and nothing that any
/// other action holds.
pub proof fn lemma_each_action_keeps_its_own_applied_override(k: AppliedTerminalKeybindings, v: Option<String>)
    ensures
        (AppliedTerminalKeybindings { copy: v, ..k }).applied_of(TerminalAction::Copy) == v,
        forall|a: TerminalAction| a != TerminalAction::Copy ==> #[trigger] (AppliedTerminalKeybindings { copy: v, ..k }).applied_of(a) == k.applied_of(a),
        (AppliedTerminalKeybindings { paste: v, ..k }).applied_of(TerminalAction::Paste) == v,
        forall|a: TerminalAction| a != TerminalAction::Paste ==> #[trigger] (AppliedTerminalKeybindings { paste: v, ..k }).applied_of(a) == k.applied_of(a),
        (AppliedTerminalKeybindings { select_all: v, ..k }).applied_of(TerminalAction::SelectAll) == v,
        forall|a: TerminalAction| a != TerminalAction::SelectAll ==> #[trigger] (AppliedTerminalKeybindings { select_all: v, ..k }).applied_of(a) == k.applied_of(a),
        (AppliedTerminalKeybindings { clear: v, ..k }).applied_of(TerminalAction::Clear) == v,
        forall|a: TerminalAction| a != TerminalAction::Clear ==> #[trigger] (AppliedTerminalKeybindings { clear: v, ..k }).applied_of(a) == k.applied_of(a),
        (AppliedTerminalKeybindings { search: v, ..k }).applied_of(TerminalAction::Search) == v,
        forall|a: TerminalAction| a != TerminalAction::Search ==> #[trigger] (AppliedTerminalKeybindings { search: v, ..k }).applied_of(a) == k.applied_of(a),
        (AppliedTerminalKeybindings { search_next: v, ..k }).applied_of(TerminalAction::SearchNext) == v,
        forall|a: TerminalAction| a != TerminalAction::SearchNext ==> #[trigger] (AppliedTerminalKeybindings { search_next: v, ..k }).applied_of(a) == k.applied_of(a),
        (AppliedTerminalKeybindings { search_previous: v, ..k }).applied_of(TerminalAction::SearchPrevious) == v,
        forall|a: TerminalAction| a != TerminalAction::SearchPrevious ==> #[trigger] (AppliedTerminalKeybindings { search_previous: v, ..k }).applied_of(a) == k.applied_of(a),
        (AppliedTerminalKeybindings { increase_font_size: v, ..k }).applied_of(TerminalAction::IncreaseFontSize) == v,
        forall|a: TerminalAction| a != TerminalAction::IncreaseFontSize ==> #[trigger] (AppliedTerminalKeybindings { increase_font_size: v, ..k }).applied_of(a) == k.applied_of(a),
        (AppliedTerminalKeybindings { decrease_font_size: v, ..k }).applied_of(TerminalAction::DecreaseFontSize) == v,
        forall|a: TerminalAction| a != TerminalAction::DecreaseFontSize ==> #[trigger] (AppliedTerminalKeybindings { decrease_font_size: v, ..k }).applied_of(a) == k.applied_of(a),
        (AppliedTerminalKeybindings { reset_font_size: v, ..k }).applied_of(TerminalAction::ResetFontSize) == v,
        forall|a: TerminalAction| a != TerminalAction::ResetFontSize ==> #[trigger] (AppliedTerminalKeybindings { reset_font_size: v, ..k }).applied_of(a) == k.applied_of(a),
{
}

} // verus!
