use std::collections::HashMap;

use termua::app_state::{PendingCommand, SerialFlowControl, SerialParams, SerialParity, SerialStopBits, TermuaAppState, TerminalType};
use termua::menu::{new_local_terminal, toggle_messages_sidebar, toggle_sessions_sidebar};
use termua::right_sidebar::{RightSidebarState, RightSidebarTab};

type State = TermuaAppState<u32, ()>;

fn serial(name: &str) -> PendingCommand<()> {
    PendingCommand::OpenSerialTerminal {
        backend_type: TerminalType::Alacritty,
        params: SerialParams {
            name: name.to_string(),
            port: "/dev/ttyUSB0".to_string(),
            baud: 115200,
            data_bits: 8,
            parity: SerialParity::NoParity,
            stop_bits: SerialStopBits::One,
            flow_control: SerialFlowControl::NoFlowControl,
        },
        session_id: Some(7),
    }
}

fn is_reload(c: &PendingCommand<()>) -> bool {
    matches!(c, PendingCommand::ReloadSessionsSidebar)
}

#[test]
fn sidebar_default_is_hidden_on_notifications() {
    let s = RightSidebarState::default();
    assert!(!s.visible);
    assert_eq!(s.width, 360);
    assert_eq!(s.active_tab, RightSidebarTab::Notifications);
}

#[test]
fn sidebar_toggle_shows_then_hides() {
    let mut s = RightSidebarState::default();
    s.toggle_tab(RightSidebarTab::Notifications);
    assert!(s.visible);
    assert_eq!(s.active_tab, RightSidebarTab::Notifications);
    s.toggle_tab(RightSidebarTab::Notifications);
    assert!(!s.visible);
    assert_eq!(s, RightSidebarState::default());
}

#[test]
fn sidebar_toggle_keeps_width() {
    let mut s = RightSidebarState { visible: true, width: 512, active_tab: RightSidebarTab::Notifications };
    s.toggle_tab(RightSidebarTab::Notifications);
    assert_eq!(s.width, 512);
    assert!(!s.visible);
}

#[test]
fn app_state_defaults() {
    let s = State::default();
    assert!(s.main_window.is_none());
    assert!(s.settings_window.is_none());
    assert!(!s.multi_exec_enabled);
    assert!(s.sessions_sidebar_visible);
    assert_eq!(s.sessions_sidebar_width, 280);
    assert!(s.pending_commands.is_empty());
}

#[test]
fn reloads_coalesce() {
    let mut s = State::default();
    s.pending_command(PendingCommand::ReloadSessionsSidebar);
    s.pending_command(serial("a"));
    s.pending_command(PendingCommand::ReloadSessionsSidebar);
    s.pending_command(PendingCommand::ReloadSessionsSidebar);
    assert_eq!(s.pending_commands.len(), 2);
    assert!(is_reload(&s.pending_commands[0]));
    assert!(!is_reload(&s.pending_commands[1]));
}

#[test]
fn other_commands_never_coalesce() {
    let mut s = State::default();
    s.pending_command(serial("a"));
    s.pending_command(serial("a"));
    s.pending_command(PendingCommand::OpenLocalTerminal { backend_type: TerminalType::WezTerm, env: HashMap::new() });
    s.pending_command(PendingCommand::OpenLocalTerminal { backend_type: TerminalType::WezTerm, env: HashMap::new() });
    assert_eq!(s.pending_commands.len(), 4);
}

#[test]
fn coalesces_with_only_reloads() {
    let r: PendingCommand<()> = PendingCommand::ReloadSessionsSidebar;
    assert!(r.coalesces_with(&PendingCommand::ReloadSessionsSidebar));
    assert!(!r.coalesces_with(&serial("x")));
    assert!(!serial("x").coalesces_with(&r));
    assert!(!serial("x").coalesces_with(&serial("x")));
}

#[test]
fn new_local_terminal_waits_for_main_window() {
    let mut s = State::default();
    assert!(!new_local_terminal(&mut s));
    assert!(s.pending_commands.is_empty());
    s.main_window = Some(1);
    assert!(new_local_terminal(&mut s));
    assert_eq!(s.pending_commands.len(), 1);
    match &s.pending_commands[0] {
        PendingCommand::OpenLocalTerminal { backend_type, env } => {
            assert_eq!(*backend_type, TerminalType::WezTerm);
            assert!(env.is_empty());
        }
        _ => panic!("expected a local terminal"),
    }
}

#[test]
fn sessions_sidebar_toggles() {
    let mut s = State::default();
    toggle_sessions_sidebar(&mut s);
    assert!(!s.sessions_sidebar_visible);
    toggle_sessions_sidebar(&mut s);
    assert!(s.sessions_sidebar_visible);
}

#[test]
fn messages_sidebar_created_and_toggled() {
    let mut sidebar: Option<RightSidebarState> = None;
    toggle_messages_sidebar(&mut sidebar);
    let s = sidebar.unwrap();
    assert!(s.visible);
    assert_eq!(s.width, 360);
    toggle_messages_sidebar(&mut sidebar);
    assert!(!sidebar.unwrap().visible);
}

use termua::menu::{bind_menu_shortcuts, build_menus, MenuAction, MenuEntry};

#[test]
fn menu_shortcuts_per_platform() {
    let other = bind_menu_shortcuts(false);
    assert_eq!(other.len(), 5);
    assert_eq!(other[0], ("ctrl-shift-n", MenuAction::OpenNewSession));
    assert_eq!(other[4], ("ctrl-shift-m", MenuAction::ToggleMessagesSidebar));
    let mac = bind_menu_shortcuts(true);
    assert_eq!(mac.len(), 6);
    assert_eq!(mac[3], ("cmd-,", MenuAction::OpenSettings));
    assert_eq!(mac[4], ("cmd-shift-a", MenuAction::ToggleAssistantSidebar));
}

#[test]
fn menus_layout() {
    for multi in [false, true] {
        let menus = build_menus(multi);
        assert_eq!(menus.len(), 2);
        assert_eq!(menus[0].name_key, "Menu.App.Name");
        assert_eq!(menus[0].items.len(), 3);
        assert!(matches!(menus[0].items[1], MenuEntry::Separator));
        assert!(matches!(menus[0].items[2], MenuEntry::Action { label_key: "Menu.App.Quit", action: MenuAction::Quit }));
        assert_eq!(menus[1].name_key, "Menu.Session.Name");
        assert!(matches!(menus[1].items[1], MenuEntry::Action { label_key: "Menu.Session.NewWindow", action: MenuAction::NewWindow }));
        assert!(matches!(menus[1].items[2], MenuEntry::Separator));
    }
}

use termua::menu::{quit_targets, QuitTarget};

#[test]
fn quit_falls_back_in_order() {
    assert_eq!(quit_targets(true, true), vec![QuitTarget::ActiveWindow, QuitTarget::MainWindow, QuitTarget::Application]);
    assert_eq!(quit_targets(false, true), vec![QuitTarget::MainWindow, QuitTarget::Application]);
    assert_eq!(quit_targets(true, false), vec![QuitTarget::ActiveWindow, QuitTarget::Application]);
    assert_eq!(quit_targets(false, false), vec![QuitTarget::Application]);
}
