use vstd::hash_map::StringHashMap;
use vstd::prelude::*;

use crate::text::{
    decimal, decimal_string, is_blank, is_blank_str, path_lt, path_precedes, same_text,
};

verus! {

/// What kind of session a terminal panel shows.
#[derive(Clone, Copy, Debug, PartialEq, Eq, Structural)]
pub enum PanelKind {
    Local,
    Ssh,
    Serial,
}

/// The views of a sequence of strings.
pub open spec fn string_views(v: Seq<String>) -> Seq<Seq<char>> {
    v.map_values(|s: String| s@)
}

/// The paths among the dropped items that are files, in the order dropped.
/// Each dropped item is its path and whether that path is a file.
pub open spec fn file_paths(dropped: Seq<(String, bool)>) -> Seq<Seq<char>>
    decreases dropped.len(),
{
    if dropped.len() == 0 {
        Seq::empty()
    } else {
        let rest = file_paths(dropped.drop_last());
        if dropped.last().1 {
            rest.push(dropped.last().0@)
        } else {
            rest
        }
    }
}

/// `s` is sorted as paths sort: no path sorts strictly before any path ahead of it.
pub open spec fn in_path_order(s: Seq<Seq<char>>) -> bool {
    forall|i: int, j: int| 0 <= i < j < s.len() ==> !path_precedes(#[trigger] s[j], #[trigger] s[i])
}

/// The files of a drop are the dropped items marked as files, with their
/// paths, in the order dropped and as often as dropped: the items not marked
/// as files are left out, and nothing else is.
pub proof fn lemma_file_paths_are_the_files(dropped: Seq<(String, bool)>)
    ensures
        file_paths(dropped) == dropped.filter(|d: (String, bool)| d.1).map_values(
            |d: (String, bool)| d.0@,
        ),
    decreases dropped.len(),
{
    let keep = |d: (String, bool)| d.1;
    let path = |d: (String, bool)| d.0@;
    if dropped.len() > 0 {
        let p = dropped.drop_last();
        lemma_file_paths_are_the_files(p);
        assert(p.push(dropped.last()) =~= dropped);
        p.lemma_filter_push(dropped.last(), keep);
        if dropped.last().1 {
            p.filter(keep).lemma_push_map_commute(path, dropped.last());
        }
    } else {
        assert(dropped.filter(keep) =~= Seq::<(String, bool)>::empty());
        assert(dropped.filter(keep).map_values(path) =~= Seq::<Seq<char>>::empty());
    }
}

proof fn lemma_string_views_insert(v: Seq<String>, i: int, x: String)
    requires
        0 <= i <= v.len(),
    ensures
        string_views(v.insert(i, x)) == string_views(v).insert(i, x@),
{
    assert(string_views(v.insert(i, x)) =~= string_views(v).insert(i, x@));
}

/// The files among the dropped items, sorted as paths sort. Each dropped item
/// is its path and whether that path is a file.
pub fn collect_dropped_upload_paths(paths: &[(String, bool)]) -> (r: Vec<String>)
    ensures
        string_views(r@).to_multiset() == file_paths(paths@).to_multiset(),
        r@.len() == file_paths(paths@).len(),
        in_path_order(string_views(r@)),
{
    let mut res: Vec<String> = Vec::new();
    let n = paths.len();
    let mut i: usize = 0;
    proof {
        assert(paths@.subrange(0, 0) =~= Seq::<(String, bool)>::empty());
        assert(string_views(res@) =~= Seq::<Seq<char>>::empty());
    }
    while i < n
        invariant
            n == paths@.len(),
            0 <= i <= n,
            string_views(res@).to_multiset() == file_paths(paths@.subrange(0, i as int)).to_multiset(),
            in_path_order(string_views(res@)),
        decreases n - i,
    {
        proof {
            assert(paths@.subrange(0, i + 1).drop_last() =~= paths@.subrange(0, i as int));
            assert(paths@.subrange(0, i + 1).last() == paths@[i as int]);
            assert(file_paths(paths@.subrange(0, i + 1)) == if paths@[i as int].1 {
                file_paths(paths@.subrange(0, i as int)).push(paths@[i as int].0@)
            } else {
                file_paths(paths@.subrange(0, i as int))
            });
        }
        if paths[i].1 {
            let x = paths[i].0.clone();
            let len = res.len();
            let mut j: usize = len;
            while j > 0 && path_lt(x.as_str(), res[j - 1].as_str())
                invariant
                    len == res@.len(),
                    0 <= j <= len,
                    forall|k: int|
                        j <= k < len ==> path_precedes(x@, #[trigger] res@[k]@) && !path_precedes(
                            res@[k]@,
                            x@,
                        ),
                decreases j,
            {
                j = j - 1;
            }
            let ghost old_res = res@;
            let ghost so = string_views(old_res);
            proof {
                if j > 0 {
                    assert(!path_precedes(x@, old_res[j - 1]@));
                    assert(forall|c: Seq<char>|
                        path_precedes(x@, c) ==> #[trigger] path_precedes(old_res[j - 1]@, c));
                }
            }
            res.insert(j, x);
            proof {
                lemma_string_views_insert(old_res, j as int, x);
                let sv = string_views(res@);
                assert(sv =~= so.insert(j as int, x@));
                assert(x@ == paths@[i as int].0@);
                vstd::seq_lib::to_multiset_insert(so, j as int, x@);
                vstd::seq_lib::to_multiset_build(file_paths(paths@.subrange(0, i as int)), x@);
                assert(sv.to_multiset() == so.to_multiset().insert(x@));
                assert forall|a: int, b: int| 0 <= a < b < sv.len() implies !path_precedes(
                    #[trigger] sv[b],
                    #[trigger] sv[a],
                ) by {
                    if b < j {
                        assert(sv[b] == so[b] && sv[a] == so[a]);
                    } else if b == j {
                        assert(sv[b] == x@ && sv[a] == so[a]);
                        if a < j - 1 && path_precedes(x@, so[a]) {
                            assert(so[a] == old_res[a]@);
                            assert(path_precedes(old_res[j - 1]@, old_res[a]@));
                            assert(so[j - 1] == old_res[j - 1]@);
                            assert(!path_precedes(so[j - 1], so[a]));
                        }
                    } else if a == j {
                        assert(sv[a] == x@ && sv[b] == so[b - 1]);
                        assert(path_precedes(x@, old_res[b - 1]@) && !path_precedes(old_res[b - 1]@, x@));
                    } else if a < j {
                        assert(sv[b] == so[b - 1] && sv[a] == so[a]);
                    } else {
                        assert(sv[b] == so[b - 1] && sv[a] == so[a - 1]);
                    }
                }
            }
        }
        i = i + 1;
    }
    proof {
        assert(paths@.subrange(0, n as int) =~= paths@);
        vstd::seq_lib::to_multiset_len(string_views(res@));
        vstd::seq_lib::to_multiset_len(file_paths(paths@));
    }
    res
}

/// Whether a drop of items can be offered for an SFTP upload: the panel is an
/// SSH panel with an SFTP session, and the drop holds at least one item, every
/// one of them a file. Each entry of `paths_are_files` tells whether one
/// dropped item is a file.
pub fn supports_sftp_file_drop(kind: PanelKind, has_sftp: bool, paths_are_files: &[bool]) -> (b:
    bool)
    ensures
        b == (kind == PanelKind::Ssh && has_sftp && paths_are_files@.len() > 0 && forall|i: int|
            0 <= i < paths_are_files@.len() ==> #[trigger] paths_are_files@[i]),
{
    if kind != PanelKind::Ssh || !has_sftp || paths_are_files.len() == 0 {
        return false;
    }
    let n = paths_are_files.len();
    let mut i: usize = 0;
    while i < n
        invariant
            n == paths_are_files@.len(),
            0 <= i <= n,
            forall|k: int| 0 <= k < i ==> #[trigger] paths_are_files@[k],
        decreases n - i,
    {
        if !paths_are_files[i] {
            return false;
        }
        i = i + 1;
    }
    true
}

/// The count of files to upload, as the upload dialog words it.
pub open spec fn file_count_label(count: nat) -> Seq<char> {
    if count == 1 {
        "1 file"@
    } else {
        decimal(count) + " files"@
    }
}

/// Words the number of files to upload: "1 file", otherwise "<n> files".
pub fn sftp_upload_file_count_label(count: usize) -> (s: String)
    ensures
        s@ == file_count_label(count as nat),
{
    if count == 1 {
        String::from_str("1 file")
    } else {
        decimal_string(count).concat(" files")
    }
}

/// Where an upload will go, as the upload dialog words it.
pub open spec fn destination_label(current_dir: Option<Seq<char>>) -> Seq<char> {
    match current_dir {
        Some(path) => if is_blank(path) {
            "Destination: current remote directory"@
        } else {
            "Destination: "@ + path
        },
        None => "Destination: current remote directory"@,
    }
}

/// Words where an upload will go: the remote directory when one is known and
/// not blank, otherwise the current remote directory in general.
pub fn sftp_upload_destination_label(current_dir: Option<&str>) -> (s: String)
    ensures
        s@ == destination_label(
            match current_dir {
                Some(p) => Some(p@),
                None => None,
            },
        ),
{
    match current_dir {
        Some(path) => {
            if is_blank_str(path) {
                String::from_str("Destination: current remote directory")
            } else {
                String::from_str("Destination: ").concat(path)
            }
        },
        None => String::from_str("Destination: current remote directory"),
    }
}

/// The word that names a kind of panel in tab titles.
pub open spec fn panel_kind_word(kind: PanelKind) -> Seq<char> {
    match kind {
        PanelKind::Local => "local "@,
        PanelKind::Ssh => "ssh "@,
        PanelKind::Serial => "serial "@,
    }
}

/// The generic tab title of a panel: its kind, a space and its id.
pub fn terminal_panel_tab_name(kind: PanelKind, id: usize) -> (s: String)
    ensures
        s@ == panel_kind_word(kind) + decimal(id as nat),
{
    let prefix = match kind {
        PanelKind::Local => String::from_str("local "),
        PanelKind::Ssh => String::from_str("ssh "),
        PanelKind::Serial => String::from_str("serial "),
    };
    let digits = decimal_string(id);
    prefix.concat(digits.as_str())
}

/// How many local tabs have been named after each shell.
pub struct TabNameCounts {
    counts: StringHashMap<usize>,
}

impl View for TabNameCounts {
    type V = Map<Seq<char>, usize>;

    closed spec fn view(&self) -> Map<Seq<char>, usize> {
        self.counts@
    }
}

impl TabNameCounts {
    /// No tab named yet.
    pub fn new() -> (c: Self)
        ensures
            c@ == Map::<Seq<char>, usize>::empty(),
    {
        TabNameCounts { counts: StringHashMap::new() }
    }

    /// How many tabs have been named after `name` so far.
    pub fn get(&self, name: &str) -> (n: usize)
        ensures
            n == (if self@.contains_key(name@) {
                self@[name@]
            } else {
                0
            }),
    {
        match self.counts.get(name) {
            Some(n) => *n,
            None => 0,
        }
    }
}

/// The tab title of a local terminal whose shell is called `shell_name` (when
/// a shell could be picked from its environment): the first tab named after a
/// shell gets the shell's name alone, later ones get the name, a space and the
/// id. Without a shell name, or with a blank one, the generic local title is
/// used and no count changes.
pub fn local_terminal_panel_tab_name(
    shell_name: Option<String>,
    id: usize,
    counts: &mut TabNameCounts,
) -> (s: String)
    requires
        match shell_name {
            Some(name) => old(counts)@.contains_key(name@) ==> old(counts)@[name@] < usize::MAX,
            None => true,
        },
    ensures
        match shell_name {
            Some(name) => if is_blank(name@) {
                &&& s@ == "local "@ + decimal(id as nat)
                &&& final(counts)@ == old(counts)@
            } else {
                let n = if old(counts)@.contains_key(name@) {
                    old(counts)@[name@] + 1
                } else {
                    1
                };
                &&& final(counts)@ == old(counts)@.insert(name@, n as usize)
                &&& s@ == (if n == 1 {
                    name@
                } else {
                    name@ + " "@ + decimal(id as nat)
                })
            },
            None => {
                &&& s@ == "local "@ + decimal(id as nat)
                &&& final(counts)@ == old(counts)@
            },
        },
{
    let base = match shell_name {
        Some(name) => {
            if is_blank_str(name.as_str()) {
                return terminal_panel_tab_name(PanelKind::Local, id);
            }
            name
        },
        None => {
            return terminal_panel_tab_name(PanelKind::Local, id);
        },
    };
    let count = counts.get(base.as_str()) + 1;
    let key = base.clone();
    counts.counts.insert(key, count);
    if count == 1 {
        base
    } else {
        let digits = decimal_string(id);
        base.concat(" ").concat(digits.as_str())
    }
}

/// How urgent a notification is.
#[derive(Clone, Copy, Debug, PartialEq, Eq, Structural)]
pub enum MessageKind {
    Info,
    Warning,
    Error,
}

/// A notification to show: its urgency, title and detail.
#[derive(Clone, Copy, Debug)]
pub struct Notice {
    pub kind: MessageKind,
    pub title: &'static str,
    pub detail: &'static str,
}

/// Whether `n` is the notification with this urgency, title and detail.
pub open spec fn notice_is(n: Notice, kind: MessageKind, title: Seq<char>, detail: Seq<char>) -> bool {
    n.kind == kind && n.title@ == title && n.detail@ == detail
}

/// The text of a notification: the title, then the detail on a line of its
/// own when there is a detail that is not blank.
pub open spec fn notification_text(title: Seq<char>, detail: Option<Seq<char>>) -> Seq<char> {
    match detail {
        Some(d) => if is_blank(d) {
            title
        } else {
            title + "\n"@ + d
        },
        None => title,
    }
}

/// Joins a notification's title and detail into the text shown.
pub fn notification_message(title: &str, detail: Option<&str>) -> (s: String)
    ensures
        s@ == notification_text(
            title@,
            match detail {
                Some(d) => Some(d@),
                None => None,
            },
        ),
{
    match detail {
        Some(d) => {
            if is_blank_str(d) {
                String::from_str(title)
            } else {
                String::from_str(title).concat("\n").concat(d)
            }
        },
        None => String::from_str(title),
    }
}

/// What became of a drop of items on a terminal panel.
#[derive(Debug)]
pub enum FileDropOutcome {
    /// The drop was refused, with this notification.
    Notify(Notice),
    /// The drop does not concern this panel.
    Ignored,
    /// The files wait for the user to confirm the upload.
    Staged,
}

/// Whether a drop was refused with the notification of this urgency, title and detail.
pub open spec fn drop_notifies(o: FileDropOutcome, kind: MessageKind, title: Seq<char>, detail: Seq<char>) -> bool {
    match o {
        FileDropOutcome::Notify(n) => notice_is(n, kind, title, detail),
        _ => false,
    }
}

/// Whether a confirmation dropped the upload with the notification of this
/// urgency, title and detail.
pub open spec fn confirm_notifies(o: ConfirmOutcome, kind: MessageKind, title: Seq<char>, detail: Seq<char>) -> bool {
    match o {
        ConfirmOutcome::Notify(n) => notice_is(n, kind, title, detail),
        _ => false,
    }
}

/// Whether a confirmation dropped the upload with the toast of this urgency,
/// title and detail.
pub open spec fn confirm_toasts(o: ConfirmOutcome, kind: MessageKind, title: Seq<char>, detail: Seq<char>) -> bool {
    match o {
        ConfirmOutcome::Toast(n) => notice_is(n, kind, title, detail),
        _ => false,
    }
}

/// What confirming a staged upload comes to.
#[derive(Debug)]
pub enum ConfirmOutcome {
    /// No upload was staged.
    NothingPending,
    /// The upload was dropped, with this notification.
    Notify(Notice),
    /// The upload was dropped, with this toast from the terminal.
    Toast(Notice),
    /// Upload these files now.
    StartUpload(Vec<String>),
}

/// What a key press does while an upload may be staged.
#[derive(Clone, Copy, Debug, PartialEq, Eq, Structural)]
pub enum KeyAction {
    /// The key is not for the upload dialog.
    Ignore,
    /// Drop the staged upload (and stop the key here).
    Cancel,
    /// Confirm the staged upload (and stop the key here).
    Confirm,
}

/// The files waiting for the user to confirm an SFTP upload, if any.
pub struct SftpUploadState {
    pub pending: Option<Vec<String>>,
}

impl SftpUploadState {
    /// No upload staged.
    pub fn new() -> (s: Self)
        ensures
            s.pending is None,
    {
        SftpUploadState { pending: None }
    }

    /// Handles files dropped on a panel of `kind`. `upload_paths` are the
    /// dropped files (see `collect_dropped_upload_paths`); `has_sftp`,
    /// `alt_screen_active` and `upload_active` tell whether the terminal has an
    /// SFTP session, shows a full-screen program, and is uploading already. A
    /// drop without files is refused with a notice; a drop on a panel that is
    /// not an SSH panel with SFTP is ignored; a full-screen program or an
    /// upload under way refuses it with a warning; otherwise the files are staged.
    pub fn handle_sftp_file_drop(
        &mut self,
        kind: PanelKind,
        upload_paths: Vec<String>,
        has_sftp: bool,
        alt_screen_active: bool,
        upload_active: bool,
    ) -> (outcome: FileDropOutcome)
        ensures
            upload_paths@.len() == 0 ==> drop_notifies(
                outcome,
                MessageKind::Info,
                "Only files are supported"@,
                "Dropped items did not include any files."@,
            ),
            upload_paths@.len() > 0 && (kind != PanelKind::Ssh || !has_sftp) ==> outcome
                is Ignored,
            upload_paths@.len() > 0 && kind == PanelKind::Ssh && has_sftp && alt_screen_active
                ==> drop_notifies(
                outcome,
                MessageKind::Warning,
                "Exit the full-screen app first"@,
                "Upload requires a shell prompt (ALT_SCREEN is active)."@,
            ),
            upload_paths@.len() > 0 && kind == PanelKind::Ssh && has_sftp && !alt_screen_active
                && upload_active ==> drop_notifies(
                outcome,
                MessageKind::Warning,
                "Transfer in progress"@,
                "Wait for the current upload to finish before starting another."@,
            ),
            upload_paths@.len() > 0 && kind == PanelKind::Ssh && has_sftp && !alt_screen_active
                && !upload_active ==> outcome is Staged,
            outcome is Staged ==> final(self).pending == Some(upload_paths),
            !(outcome is Staged) ==> final(self).pending == old(self).pending,
    {
        if upload_paths.len() == 0 {
            return FileDropOutcome::Notify(
                Notice {
                    kind: MessageKind::Info,
                    title: "Only files are supported",
                    detail: "Dropped items did not include any files.",
                },
            );
        }
        if kind != PanelKind::Ssh || !has_sftp {
            return FileDropOutcome::Ignored;
        }
        if alt_screen_active {
            return FileDropOutcome::Notify(
                Notice {
                    kind: MessageKind::Warning,
                    title: "Exit the full-screen app first",
                    detail: "Upload requires a shell prompt (ALT_SCREEN is active).",
                },
            );
        }
        if upload_active {
            return FileDropOutcome::Notify(
                Notice {
                    kind: MessageKind::Warning,
                    title: "Transfer in progress",
                    detail: "Wait for the current upload to finish before starting another.",
                },
            );
        }
        self.pending = Some(upload_paths);
        FileDropOutcome::Staged
    }

    /// Drops the staged upload; returns whether there was one (the panel must
    /// then be redrawn).
    pub fn cancel_sftp_file_drop_upload(&mut self) -> (had_pending: bool)
        ensures
            had_pending == old(self).pending is Some,
            final(self).pending is None,
    {
        let had = self.pending.is_some();
        self.pending = None;
        had
    }

    /// Confirms the staged upload, which leaves the stage in any case.
    /// Without a staged upload nothing happens; a terminal that lost its SFTP
    /// session drops it with an error; an upload already under way drops it
    /// with a warning toast; otherwise its files are to be uploaded.
    pub fn confirm_sftp_file_drop_upload(&mut self, has_sftp: bool, upload_active: bool) -> (outcome:
        ConfirmOutcome)
        ensures
            final(self).pending is None,
            old(self).pending is None ==> outcome is NothingPending,
            old(self).pending is Some && !has_sftp ==> confirm_notifies(
                outcome,
                MessageKind::Error,
                "SFTP is unavailable"@,
                "This SSH terminal no longer has an active SFTP session."@,
            ),
            old(self).pending is Some && has_sftp && upload_active ==> confirm_toasts(
                outcome,
                MessageKind::Warning,
                "Transfer in progress"@,
                "Wait for the current upload to finish before starting another."@,
            ),
            old(self).pending is Some && has_sftp && !upload_active ==> outcome
                == ConfirmOutcome::StartUpload(old(self).pending->0),
    {
        let staged = self.pending.take();
        match staged {
            None => ConfirmOutcome::NothingPending,
            Some(paths) => {
                if !has_sftp {
                    ConfirmOutcome::Notify(
                        Notice {
                            kind: MessageKind::Error,
                            title: "SFTP is unavailable",
                            detail: "This SSH terminal no longer has an active SFTP session.",
                        },
                    )
                } else if upload_active {
                    ConfirmOutcome::Toast(
                        Notice {
                            kind: MessageKind::Warning,
                            title: "Transfer in progress",
                            detail: "Wait for the current upload to finish before starting another.",
                        },
                    )
                } else {
                    ConfirmOutcome::StartUpload(paths)
                }
            },
        }
    }

    /// What a key press does: nothing without a staged upload; "escape"
    /// cancels and "enter" confirms it; other keys do nothing.
    pub fn key_action(&self, key: &str) -> (a: KeyAction)
        ensures
            a == (if self.pending is None {
                KeyAction::Ignore
            } else if key@ == "escape"@ {
                KeyAction::Cancel
            } else if key@ == "enter"@ {
                KeyAction::Confirm
            } else {
                KeyAction::Ignore
            }),
    {
        if self.pending.is_none() {
            KeyAction::Ignore
        } else if same_text(key, "escape") {
            KeyAction::Cancel
        } else if same_text(key, "enter") {
            KeyAction::Confirm
        } else {
            KeyAction::Ignore
        }
    }
}

/// A terminal panel: its id and kind, its tab label and tooltip, the
/// terminal view it shows (`V`, the UI toolkit's handle, carried through),
/// and the SFTP upload waiting for confirmation.
pub struct TerminalPanel<V> {
    pub id: usize,
    pub kind: PanelKind,
    pub tab_label: String,
    pub tab_tooltip: Option<String>,
    pub terminal_view: V,
    pub pending_sftp_upload: SftpUploadState,
}

impl<V> TerminalPanel<V> {
    /// A panel with nothing staged for upload.
    pub fn new(id: usize, kind: PanelKind, tab_label: String, tab_tooltip: Option<String>, terminal_view: V) -> (p: Self)
        ensures
            p.id == id,
            p.kind == kind,
            p.tab_label@ == tab_label@,
            p.tab_tooltip == tab_tooltip,
            p.terminal_view == terminal_view,
            p.pending_sftp_upload.pending is None,
    {
        TerminalPanel {
            id,
            kind,
            tab_label,
            tab_tooltip,
            terminal_view,
            pending_sftp_upload: SftpUploadState::new(),
        }
    }

    /// The panel's id.
    pub fn id(&self) -> (i: usize)
        ensures
            i == self.id,
    {
        self.id
    }

    /// What kind of session the panel shows.
    pub fn kind(&self) -> (k: PanelKind)
        ensures
            k == self.kind,
    {
        self.kind
    }

    /// The terminal view the panel shows.
    pub fn terminal_view(&self) -> (v: &V)
        ensures
            *v == self.terminal_view,
    {
        &self.terminal_view
    }

    /// The tab label, which is also the tab's name and the panel's title.
    pub fn tab_label(&self) -> (s: &str)
        ensures
            s@ == self.tab_label@,
    {
        self.tab_label.as_str()
    }

    /// The tab's tooltip, if it has one.
    pub fn tab_tooltip(&self) -> (t: Option<&str>)
        ensures
            match t {
                Some(s) => self.tab_tooltip is Some && s@ == self.tab_tooltip->0@,
                None => self.tab_tooltip is None,
            },
    {
        match &self.tab_tooltip {
            Some(s) => Some(s.as_str()),
            None => None,
        }
    }
}

} // verus!
