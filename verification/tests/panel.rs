use termua::terminal_panel::{
    collect_dropped_upload_paths, local_terminal_panel_tab_name, notification_message, sftp_upload_destination_label,
    sftp_upload_file_count_label, supports_sftp_file_drop, terminal_panel_tab_name, ConfirmOutcome, FileDropOutcome,
    KeyAction, MessageKind, PanelKind, SftpUploadState, TabNameCounts, TerminalPanel,
};

fn dropped(items: &[(&str, bool)]) -> Vec<(String, bool)> {
    items.iter().map(|(p, f)| (p.to_string(), *f)).collect()
}

#[test]
fn dropped_files_filtered_and_sorted() {
    let items = dropped(&[("/b.txt", true), ("/dir", false), ("/a.txt", true), ("/a/z", true)]);
    assert_eq!(collect_dropped_upload_paths(&items), vec!["/a/z", "/a.txt", "/b.txt"]);
}

#[test]
fn dropped_files_sorted_by_path_components() {
    let items = dropped(&[("a-b", true), ("a/b", true), ("a", true)]);
    assert_eq!(collect_dropped_upload_paths(&items), vec!["a", "a/b", "a-b"]);
}

#[test]
fn dropped_nothing_but_directories() {
    let items = dropped(&[("/d1", false), ("/d2", false)]);
    assert!(collect_dropped_upload_paths(&items).is_empty());
    assert!(collect_dropped_upload_paths(&[]).is_empty());
}

#[test]
fn sftp_drop_support() {
    assert!(supports_sftp_file_drop(PanelKind::Ssh, true, &[true, true]));
    assert!(!supports_sftp_file_drop(PanelKind::Ssh, true, &[true, false]));
    assert!(!supports_sftp_file_drop(PanelKind::Ssh, true, &[]));
    assert!(!supports_sftp_file_drop(PanelKind::Ssh, false, &[true]));
    assert!(!supports_sftp_file_drop(PanelKind::Local, true, &[true]));
    assert!(!supports_sftp_file_drop(PanelKind::Serial, true, &[true]));
}

#[test]
fn file_count_labels() {
    assert_eq!(sftp_upload_file_count_label(1), "1 file");
    assert_eq!(sftp_upload_file_count_label(0), "0 files");
    assert_eq!(sftp_upload_file_count_label(12), "12 files");
}

#[test]
fn destination_labels() {
    assert_eq!(sftp_upload_destination_label(Some("/srv/www")), "Destination: /srv/www");
    assert_eq!(sftp_upload_destination_label(Some("  \t")), "Destination: current remote directory");
    assert_eq!(sftp_upload_destination_label(None), "Destination: current remote directory");
}

#[test]
fn generic_tab_names() {
    assert_eq!(terminal_panel_tab_name(PanelKind::Local, 3), "local 3");
    assert_eq!(terminal_panel_tab_name(PanelKind::Ssh, 10), "ssh 10");
    assert_eq!(terminal_panel_tab_name(PanelKind::Serial, 0), "serial 0");
}

#[test]
fn local_tab_names_count_per_shell() {
    let mut counts = TabNameCounts::new();
    assert_eq!(local_terminal_panel_tab_name(Some("zsh".to_string()), 1, &mut counts), "zsh");
    assert_eq!(local_terminal_panel_tab_name(Some("zsh".to_string()), 2, &mut counts), "zsh 2");
    assert_eq!(local_terminal_panel_tab_name(Some("bash".to_string()), 3, &mut counts), "bash");
    assert_eq!(local_terminal_panel_tab_name(None, 4, &mut counts), "local 4");
    assert_eq!(local_terminal_panel_tab_name(Some(" ".to_string()), 5, &mut counts), "local 5");
    assert_eq!(counts.get("zsh"), 2);
    assert_eq!(counts.get("bash"), 1);
    assert_eq!(counts.get(" "), 0);
}

#[test]
fn notification_messages() {
    assert_eq!(notification_message("Title", Some("Detail")), "Title\nDetail");
    assert_eq!(notification_message("Title", Some(" \n")), "Title");
    assert_eq!(notification_message("Title", None), "Title");
}

#[test]
fn drop_without_files_is_refused() {
    let mut s = SftpUploadState::new();
    match s.handle_sftp_file_drop(PanelKind::Ssh, vec![], true, false, false) {
        FileDropOutcome::Notify(n) => {
            assert_eq!(n.kind, MessageKind::Info);
            assert_eq!(n.title, "Only files are supported");
            assert_eq!(n.detail, "Dropped items did not include any files.");
        }
        other => panic!("unexpected {other:?}"),
    }
    assert!(s.pending.is_none());
}

#[test]
fn drop_on_non_sftp_panel_is_ignored() {
    let mut s = SftpUploadState::new();
    assert!(matches!(s.handle_sftp_file_drop(PanelKind::Local, vec!["/a".into()], true, false, false), FileDropOutcome::Ignored));
    assert!(matches!(s.handle_sftp_file_drop(PanelKind::Ssh, vec!["/a".into()], false, false, false), FileDropOutcome::Ignored));
    assert!(s.pending.is_none());
}

#[test]
fn drop_refused_in_full_screen_and_during_transfer() {
    let mut s = SftpUploadState::new();
    match s.handle_sftp_file_drop(PanelKind::Ssh, vec!["/a".into()], true, true, true) {
        FileDropOutcome::Notify(n) => {
            assert_eq!(n.kind, MessageKind::Warning);
            assert_eq!(n.title, "Exit the full-screen app first");
        }
        other => panic!("unexpected {other:?}"),
    }
    match s.handle_sftp_file_drop(PanelKind::Ssh, vec!["/a".into()], true, false, true) {
        FileDropOutcome::Notify(n) => {
            assert_eq!(n.kind, MessageKind::Warning);
            assert_eq!(n.title, "Transfer in progress");
            assert_eq!(n.detail, "Wait for the current upload to finish before starting another.");
        }
        other => panic!("unexpected {other:?}"),
    }
    assert!(s.pending.is_none());
}

#[test]
fn staged_upload_confirmed() {
    let mut s = SftpUploadState::new();
    assert!(matches!(s.handle_sftp_file_drop(PanelKind::Ssh, vec!["/a".into(), "/b".into()], true, false, false), FileDropOutcome::Staged));
    assert_eq!(s.pending, Some(vec!["/a".to_string(), "/b".to_string()]));
    assert_eq!(s.key_action("x"), KeyAction::Ignore);
    assert_eq!(s.key_action("enter"), KeyAction::Confirm);
    assert_eq!(s.key_action("escape"), KeyAction::Cancel);
    match s.confirm_sftp_file_drop_upload(true, false) {
        ConfirmOutcome::StartUpload(paths) => assert_eq!(paths, vec!["/a", "/b"]),
        other => panic!("unexpected {other:?}"),
    }
    assert!(s.pending.is_none());
    assert_eq!(s.key_action("enter"), KeyAction::Ignore);
    assert!(matches!(s.confirm_sftp_file_drop_upload(true, false), ConfirmOutcome::NothingPending));
}

#[test]
fn staged_upload_dropped_on_confirm() {
    let mut s = SftpUploadState::new();
    s.pending = Some(vec!["/a".into()]);
    match s.confirm_sftp_file_drop_upload(false, false) {
        ConfirmOutcome::Notify(n) => {
            assert_eq!(n.kind, MessageKind::Error);
            assert_eq!(n.title, "SFTP is unavailable");
            assert_eq!(n.detail, "This SSH terminal no longer has an active SFTP session.");
        }
        other => panic!("unexpected {other:?}"),
    }
    assert!(s.pending.is_none());
    s.pending = Some(vec!["/a".into()]);
    match s.confirm_sftp_file_drop_upload(true, true) {
        ConfirmOutcome::Toast(n) => assert_eq!(n.title, "Transfer in progress"),
        other => panic!("unexpected {other:?}"),
    }
    assert!(s.pending.is_none());
}

#[test]
fn staged_upload_cancelled() {
    let mut s = SftpUploadState::new();
    assert!(!s.cancel_sftp_file_drop_upload());
    s.pending = Some(vec!["/a".into()]);
    assert!(s.cancel_sftp_file_drop_upload());
    assert!(s.pending.is_none());
}

#[test]
fn terminal_panel_accessors() {
    let p = TerminalPanel::new(4, PanelKind::Ssh, "ssh 4".to_string(), Some("host".to_string()), 99u8);
    assert_eq!(p.id(), 4);
    assert_eq!(p.kind(), PanelKind::Ssh);
    assert_eq!(p.tab_label(), "ssh 4");
    assert_eq!(p.tab_tooltip(), Some("host"));
    assert_eq!(*p.terminal_view(), 99);
    assert!(p.pending_sftp_upload.pending.is_none());
}

#[test]
fn dropped_files_sorted_with_duplicates_kept() {
    let items = dropped(&[("/z", true), ("/m/a", true), ("/z", true), ("/b", true), ("/m", false)]);
    assert_eq!(collect_dropped_upload_paths(&items), vec!["/b", "/m/a", "/z", "/z"]);
}
