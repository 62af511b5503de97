use std::collections::HashMap;
use vstd::prelude::*;

use crate::app_state::{queue_after, PendingCommand, TermuaAppState, TerminalType};
use crate::right_sidebar::{RightSidebarState, RightSidebarTab};

verus! {

/// The command that the "new local terminal" action queues: a WezTerm
/// terminal with no extra environment.
pub open spec fn local_terminal_command<O>(cmd: PendingCommand<O>) -> bool {
    match cmd {
        PendingCommand::OpenLocalTerminal { backend_type, env } => backend_type
            == TerminalType::WezTerm && env@.len() == 0,
        _ => false,
    }
}

/// The "new local terminal" action: once the main window exists, queues a
/// local WezTerm terminal and returns `true` (the windows must then be
/// refreshed); before that, leaves the state alone and returns `false`.
pub fn new_local_terminal<W, O>(state: &mut TermuaAppState<W, O>) -> (queued: bool)
    ensures
        queued == old(state).main_window is Some,
        !queued ==> final(state).pending_commands@ == old(state).pending_commands@,
        queued ==> exists|cmd: PendingCommand<O>|
            local_terminal_command(cmd) && final(state).pending_commands@ == queue_after(
                old(state).pending_commands@,
                cmd,
            ),
        final(state).main_window == old(state).main_window,
        final(state).settings_window == old(state).settings_window,
        final(state).multi_exec_enabled == old(state).multi_exec_enabled,
        final(state).sessions_sidebar_visible == old(state).sessions_sidebar_visible,
        final(state).sessions_sidebar_width == old(state).sessions_sidebar_width,
{
    if state.main_window.is_none() {
        return false;
    }
    let cmd = PendingCommand::OpenLocalTerminal {
        backend_type: TerminalType::WezTerm,
        env: HashMap::new(),
    };
    let ghost g = cmd;
    state.pending_command(cmd);
    assert(local_terminal_command(g));
    true
}

/// The "toggle sessions sidebar" action: flips whether the sessions sidebar
/// is shown and leaves everything else alone.
pub fn toggle_sessions_sidebar<W, O>(state: &mut TermuaAppState<W, O>)
    ensures
        final(state).sessions_sidebar_visible == !old(state).sessions_sidebar_visible,
        final(state).pending_commands@ == old(state).pending_commands@,
        final(state).main_window == old(state).main_window,
        final(state).settings_window == old(state).settings_window,
        final(state).multi_exec_enabled == old(state).multi_exec_enabled,
        final(state).sessions_sidebar_width == old(state).sessions_sidebar_width,
{
    state.sessions_sidebar_visible = !state.sessions_sidebar_visible;
}

/// The "toggle messages sidebar" action: creates the right-hand sidebar state
/// with its defaults when there is none yet, then asks it for the
/// notifications tab.
pub fn toggle_messages_sidebar(sidebar: &mut Option<RightSidebarState>)
    ensures
        *final(sidebar) == Some(
            match *old(sidebar) {
                Some(s) => s,
                None => RightSidebarState::default_state(),
            }.toggled(RightSidebarTab::Notifications),
        ),
{
    let mut state = match sidebar {
        Some(s) => *s,
        None => RightSidebarState::default(),
    };
    state.toggle_tab(RightSidebarTab::Notifications);
    *sidebar = Some(state);
}

/// The application actions that have menu entries or shortcuts.
#[derive(Clone, Copy, Debug, PartialEq, Eq, Structural)]
pub enum MenuAction {
    Quit,
    OpenNewSession,
    NewLocalTerminal,
    NewWindow,
    OpenSettings,
    ToggleAssistantSidebar,
    ToggleMessagesSidebar,
}

/// The application-wide shortcuts, as (keystrokes, action) pairs, on macOS or
/// on the other platforms.
pub open spec fn menu_shortcut_list(macos: bool) -> Seq<(Seq<char>, MenuAction)> {
    if macos {
        seq![
            ("cmd-shift-n"@, MenuAction::OpenNewSession),
            ("cmd-n"@, MenuAction::NewLocalTerminal),
            ("cmd-q"@, MenuAction::Quit),
            ("cmd-,"@, MenuAction::OpenSettings),
            ("cmd-shift-a"@, MenuAction::ToggleAssistantSidebar),
            ("cmd-shift-m"@, MenuAction::ToggleMessagesSidebar),
        ]
    } else {
        seq![
            ("ctrl-shift-n"@, MenuAction::OpenNewSession),
            ("ctrl-n"@, MenuAction::NewLocalTerminal),
            ("ctrl-q"@, MenuAction::Quit),
            ("ctrl-,"@, MenuAction::OpenSettings),
            ("ctrl-shift-m"@, MenuAction::ToggleMessagesSidebar),
        ]
    }
}

/// Every platform's shortcut table binds each action at most once and each
/// keystroke to one action; it gives a shortcut to new sessions, new local
/// terminals, quitting, the settings and the messages sidebar, never to a new
/// window, and to the assistant sidebar on macOS alone. On both platforms an
/// action's keystrokes differ only in the modifier: `cmd` on macOS where the
/// other platforms have `ctrl`.
pub proof fn lemma_menu_shortcuts_bind_each_action_once(macos: bool, a: MenuAction)
    ensures
        forall|i: int, j: int|
            0 <= i < j < menu_shortcut_list(macos).len() ==> (#[trigger] menu_shortcut_list(macos)[i]).1
                != (#[trigger] menu_shortcut_list(macos)[j]).1 && menu_shortcut_list(macos)[i].0
                != menu_shortcut_list(macos)[j].0,
        (exists|i: int|
            0 <= i < menu_shortcut_list(macos).len() && (#[trigger] menu_shortcut_list(macos)[i]).1
                == a) <==> (a != MenuAction::NewWindow && (a != MenuAction::ToggleAssistantSidebar
            || macos)),
        forall|i: int, j: int|
            0 <= i < menu_shortcut_list(false).len() && 0 <= j < menu_shortcut_list(true).len()
                && (#[trigger] menu_shortcut_list(false)[i]).1 == (#[trigger] menu_shortcut_list(
                true,
            )[j]).1 ==> menu_shortcut_list(false)[i].0 == "ctrl"@ + menu_shortcut_list(
                true,
            )[j].0.skip(3) && menu_shortcut_list(true)[j].0.take(3) == "cmd"@,
{
    reveal_strlit("cmd-shift-n");
    reveal_strlit("cmd-n");
    reveal_strlit("cmd-q");
    reveal_strlit("cmd-,");
    reveal_strlit("cmd-shift-a");
    reveal_strlit("cmd-shift-m");
    reveal_strlit("ctrl-shift-n");
    reveal_strlit("ctrl-n");
    reveal_strlit("ctrl-q");
    reveal_strlit("ctrl-,");
    reveal_strlit("ctrl-shift-m");
    reveal_strlit("ctrl");
    reveal_strlit("cmd");
    let l = menu_shortcut_list(macos);
    let o = menu_shortcut_list(false);
    let m = menu_shortcut_list(true);
    assert(o[0].0 == "ctrl"@ + m[0].0.skip(3));
    assert(o[1].0 == "ctrl"@ + m[1].0.skip(3));
    assert(o[2].0 == "ctrl"@ + m[2].0.skip(3));
    assert(o[3].0 == "ctrl"@ + m[3].0.skip(3));
    assert(o[4].0 == "ctrl"@ + m[5].0.skip(3));
    assert(m[0].0.take(3) == "cmd"@);
    assert(m[1].0.take(3) == "cmd"@);
    assert(m[2].0.take(3) == "cmd"@);
    assert(m[3].0.take(3) == "cmd"@);
    assert(m[5].0.take(3) == "cmd"@);
    assert(m[0].0.len() == 11 && m[4].0.len() == 11 && m[5].0.len() == 11);
    assert(m[1].0.len() == 5 && m[2].0.len() == 5 && m[3].0.len() == 5);
    assert(m[1].0[4] == 'n' && m[2].0[4] == 'q' && m[3].0[4] == ',');
    assert(m[0].0[10] == 'n' && m[4].0[10] == 'a' && m[5].0[10] == 'm');
    assert(o[0].0.len() == 12 && o[4].0.len() == 12);
    assert(o[1].0.len() == 6 && o[2].0.len() == 6 && o[3].0.len() == 6);
    assert(o[1].0[5] == 'n' && o[2].0[5] == 'q' && o[3].0[5] == ',');
    assert(o[0].0[11] == 'n' && o[4].0[11] == 'm');
    assert forall|i: int, j: int| 0 <= i < j < l.len() implies (#[trigger] l[i]).1 != (#[trigger] l[j]).1
        && l[i].0 != l[j].0 by {
        if l[i].0 == l[j].0 {
            if macos {
                if l[i].0.len() == 5 {
                    assert(l[i].0[4] == l[j].0[4]);
                } else {
                    assert(l[i].0[10] == l[j].0[10]);
                }
            } else {
                if l[i].0.len() == 6 {
                    assert(l[i].0[5] == l[j].0[5]);
                } else {
                    assert(l[i].0[11] == l[j].0[11]);
                }
            }
        }
    }
    if a != MenuAction::NewWindow && (a != MenuAction::ToggleAssistantSidebar || macos) {
        if macos {
            match a {
                MenuAction::OpenNewSession => assert(l[0].1 == a),
                MenuAction::NewLocalTerminal => assert(l[1].1 == a),
                MenuAction::Quit => assert(l[2].1 == a),
                MenuAction::OpenSettings => assert(l[3].1 == a),
                MenuAction::ToggleAssistantSidebar => assert(l[4].1 == a),
                MenuAction::ToggleMessagesSidebar => assert(l[5].1 == a),
                MenuAction::NewWindow => {},
            }
        } else {
            match a {
                MenuAction::OpenNewSession => assert(l[0].1 == a),
                MenuAction::NewLocalTerminal => assert(l[1].1 == a),
                MenuAction::Quit => assert(l[2].1 == a),
                MenuAction::OpenSettings => assert(l[3].1 == a),
                MenuAction::ToggleMessagesSidebar => assert(l[4].1 == a),
                _ => {},
            }
        }
    }
}

/// The views of (keystrokes, action) pairs.
pub open spec fn shortcut_views(v: Seq<(&str, MenuAction)>) -> Seq<(Seq<char>, MenuAction)> {
    v.map_values(|p: (&str, MenuAction)| (p.0@, p.1))
}

/// The application-wide shortcuts to bind (no key context), on macOS
/// (`macos`) or on the other platforms.
pub fn bind_menu_shortcuts(macos: bool) -> (v: Vec<(&'static str, MenuAction)>)
    ensures
        shortcut_views(v@) == menu_shortcut_list(macos),
{
    let v: Vec<(&'static str, MenuAction)> = if macos {
        vec![
            ("cmd-shift-n", MenuAction::OpenNewSession),
            ("cmd-n", MenuAction::NewLocalTerminal),
            ("cmd-q", MenuAction::Quit),
            ("cmd-,", MenuAction::OpenSettings),
            ("cmd-shift-a", MenuAction::ToggleAssistantSidebar),
            ("cmd-shift-m", MenuAction::ToggleMessagesSidebar),
        ]
    } else {
        vec![
            ("ctrl-shift-n", MenuAction::OpenNewSession),
            ("ctrl-n", MenuAction::NewLocalTerminal),
            ("ctrl-q", MenuAction::Quit),
            ("ctrl-,", MenuAction::OpenSettings),
            ("ctrl-shift-m", MenuAction::ToggleMessagesSidebar),
        ]
    };
    assert(shortcut_views(v@) =~= menu_shortcut_list(macos));
    v
}

/// An entry of a menu: an action under a translated label (by its key), or a
/// separator.
#[derive(Clone, Copy, Debug)]
pub enum MenuEntry {
    Action { label_key: &'static str, action: MenuAction },
    Separator,
}

/// A menu: its translated name (by its key) and its entries.
#[derive(Clone, Debug)]
pub struct MenuLayout {
    pub name_key: &'static str,
    pub items: Vec<MenuEntry>,
}

/// An entry as seen in contracts.
pub enum EntryView {
    Action(Seq<char>, MenuAction),
    Separator,
}

/// The view of a menu entry.
pub open spec fn entry_view(e: MenuEntry) -> EntryView {
    match e {
        MenuEntry::Action { label_key, action } => EntryView::Action(label_key@, action),
        MenuEntry::Separator => EntryView::Separator,
    }
}

/// The view of a menu: its name key and its entries.
pub open spec fn menu_view(m: MenuLayout) -> (Seq<char>, Seq<EntryView>) {
    (m.name_key@, m.items@.map_values(|e: MenuEntry| entry_view(e)))
}

/// The application menus: the application menu (settings, a separator, quit)
/// first, then the session menu (new session, new window, a separator).
pub open spec fn menu_layout_spec() -> Seq<(Seq<char>, Seq<EntryView>)> {
    seq![
        ("Menu.App.Name"@, seq![
            EntryView::Action("Menu.App.OpenSettings"@, MenuAction::OpenSettings),
            EntryView::Separator,
            EntryView::Action("Menu.App.Quit"@, MenuAction::Quit),
        ]),
        ("Menu.Session.Name"@, seq![
            EntryView::Action("Menu.Session.NewSession"@, MenuAction::OpenNewSession),
            EntryView::Action("Menu.Session.NewWindow"@, MenuAction::NewWindow),
            EntryView::Separator,
        ]),
    ]
}

/// The application menus, with their labels as translation keys; the first
/// menu is the application menu. Whether multi-exec is on does not change them.
pub fn build_menus(multi_exec_enabled: bool) -> (menus: Vec<MenuLayout>)
    ensures
        menus@.map_values(|m: MenuLayout| menu_view(m)) == menu_layout_spec(),
{
    let app_items = vec![
        MenuEntry::Action { label_key: "Menu.App.OpenSettings", action: MenuAction::OpenSettings },
        MenuEntry::Separator,
        MenuEntry::Action { label_key: "Menu.App.Quit", action: MenuAction::Quit },
    ];
    let session_items = vec![
        MenuEntry::Action { label_key: "Menu.Session.NewSession", action: MenuAction::OpenNewSession },
        MenuEntry::Action { label_key: "Menu.Session.NewWindow", action: MenuAction::NewWindow },
        MenuEntry::Separator,
    ];
    assert(app_items@.map_values(|e: MenuEntry| entry_view(e)) =~= menu_layout_spec()[0].1);
    assert(session_items@.map_values(|e: MenuEntry| entry_view(e)) =~= menu_layout_spec()[1].1);
    let menus = vec![
        MenuLayout { name_key: "Menu.App.Name", items: app_items },
        MenuLayout { name_key: "Menu.Session.Name", items: session_items },
    ];
    assert(menus@.map_values(|m: MenuLayout| menu_view(m)) =~= menu_layout_spec());
    menus
}

/// Where a quit request can be handed.
#[derive(Clone, Copy, Debug, PartialEq, Eq, Structural)]
pub enum QuitTarget {
    /// The active window, when it is a Termua window (it asks before closing).
    ActiveWindow,
    /// The main window (it asks before closing).
    MainWindow,
    /// The application itself, which quits at once.
    Application,
}

/// The targets a quit request is handed to, in order, until one takes it.
pub open spec fn quit_target_list(has_active_window: bool, has_main_window: bool) -> Seq<QuitTarget> {
    (if has_active_window {
        seq![QuitTarget::ActiveWindow]
    } else {
        Seq::empty()
    }) + (if has_main_window {
        seq![QuitTarget::MainWindow]
    } else {
        Seq::empty()
    }) + seq![QuitTarget::Application]
}

/// The quit action: hand the request to the active window when there is
/// one, else (or when it does not take it) to the main window when there is
/// one, and else quit the application. The targets are returned in that
/// order; the application always takes the request.
pub fn quit_targets(has_active_window: bool, has_main_window: bool) -> (v: Vec<QuitTarget>)
    ensures
        v@ == quit_target_list(has_active_window, has_main_window),
{
    let mut v: Vec<QuitTarget> = Vec::new();
    if has_active_window {
        v.push(QuitTarget::ActiveWindow);
    }
    if has_main_window {
        v.push(QuitTarget::MainWindow);
    }
    v.push(QuitTarget::Application);
    assert(v@ =~= quit_target_list(has_active_window, has_main_window));
    v
}

} // verus!
