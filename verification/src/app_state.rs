use std::collections::HashMap;
use vstd::prelude::*;

verus! {

/// The terminal emulation backend that a new terminal should use.
#[derive(Clone, Copy, Debug, PartialEq, Eq, Structural)]
pub enum TerminalType {
    Alacritty,
    WezTerm,
}

/// Parity of a serial line.
#[derive(Clone, Copy, Debug, PartialEq, Eq, Structural)]
pub enum SerialParity {
    NoParity,
    Even,
    Odd,
}

/// Stop bits of a serial line.
#[derive(Clone, Copy, Debug, PartialEq, Eq, Structural)]
pub enum SerialStopBits {
    One,
    Two,
}

/// Flow control of a serial line.
#[derive(Clone, Copy, Debug, PartialEq, Eq, Structural)]
pub enum SerialFlowControl {
    NoFlowControl,
    Software,
    Hardware,
}

/// What is needed to open an SSH terminal; `O` is the connection options type
/// of the terminal backend, carried through untouched.
#[derive(Clone, Debug)]
pub struct SshParams<O> {
    pub env: HashMap<String, String>,
    pub name: String,
    pub opts: O,
}

/// What is needed to open a serial terminal.
#[derive(Clone, Debug)]
pub struct SerialParams {
    pub name: String,
    pub port: String,
    pub baud: u32,
    pub data_bits: u8,
    pub parity: SerialParity,
    pub stop_bits: SerialStopBits,
    pub flow_control: SerialFlowControl,
}

/// A request queued for the main window, which carries it out on its next frame.
#[derive(Clone, Debug)]
pub enum PendingCommand<O> {
    OpenLocalTerminal { backend_type: TerminalType, env: HashMap<String, String> },
    OpenSshTerminal { backend_type: TerminalType, params: SshParams<O> },
    OpenSerialTerminal {
        backend_type: TerminalType,
        params: SerialParams,
        session_id: Option<i64>,
    },
    ReloadSessionsSidebar,
}

/// Two queued commands coalesce when carrying out one of them makes the other
/// redundant: this holds of two sidebar reloads and of nothing else.
pub open spec fn commands_coalesce<O>(a: PendingCommand<O>, b: PendingCommand<O>) -> bool {
    a is ReloadSessionsSidebar && b is ReloadSessionsSidebar
}

/// Whether some command already in `queue` coalesces with `command`.
pub open spec fn queue_absorbs<O>(queue: Seq<PendingCommand<O>>, command: PendingCommand<O>) -> bool {
    exists|i: int| 0 <= i < queue.len() && commands_coalesce(#[trigger] queue[i], command)
}

/// The queue after `command` is offered to it: unchanged when a queued command
/// already coalesces with it, else extended by it at the end.
pub open spec fn queue_after<O>(queue: Seq<PendingCommand<O>>, command: PendingCommand<O>) -> Seq<
    PendingCommand<O>,
> {
    if queue_absorbs(queue, command) {
        queue
    } else {
        queue.push(command)
    }
}

/// No two sidebar reloads stand in the queue.
pub open spec fn at_most_one_reload<O>(queue: Seq<PendingCommand<O>>) -> bool {
    forall|i: int, j: int|
        0 <= i < j < queue.len() ==> !(#[trigger] queue[i] is ReloadSessionsSidebar
            && #[trigger] queue[j] is ReloadSessionsSidebar)
}

impl<O> PendingCommand<O> {
    /// Whether carrying out `self` makes `other` redundant.
    pub fn coalesces_with(&self, other: &Self) -> (b: bool)
        ensures
            b == commands_coalesce(*self, *other),
    {
        match (self, other) {
            (PendingCommand::ReloadSessionsSidebar, PendingCommand::ReloadSessionsSidebar) => true,
            _ => false,
        }
    }
}

/// Width of the sessions sidebar when nothing else was chosen, in logical pixels.
pub const DEFAULT_SESSIONS_SIDEBAR_WIDTH: u32 = 280;

/// Application-wide state. `W` is the window handle type of the UI toolkit and
/// `O` the SSH options type of the terminal backend; both are carried through.
/// The sidebar width is held in whole logical pixels.
pub struct TermuaAppState<W, O> {
    pub main_window: Option<W>,
    pub settings_window: Option<W>,
    pub multi_exec_enabled: bool,
    pub sessions_sidebar_visible: bool,
    pub sessions_sidebar_width: u32,
    pub pending_commands: Vec<PendingCommand<O>>,
}

impl<W, O> Default for TermuaAppState<W, O> {
    fn default() -> (s: Self)
        ensures
            s.main_window is None,
            s.settings_window is None,
            !s.multi_exec_enabled,
            s.sessions_sidebar_visible,
            s.sessions_sidebar_width == DEFAULT_SESSIONS_SIDEBAR_WIDTH,
            s.pending_commands@.len() == 0,
    {
        TermuaAppState {
            main_window: None,
            settings_window: None,
            multi_exec_enabled: false,
            sessions_sidebar_visible: true,
            sessions_sidebar_width: DEFAULT_SESSIONS_SIDEBAR_WIDTH,
            pending_commands: Vec::new(),
        }
    }
}

impl<W, O> TermuaAppState<W, O> {
    /// Queues `command`, unless a command already queued coalesces with it.
    pub fn pending_command(&mut self, command: PendingCommand<O>)
        ensures
            final(self).pending_commands@ == queue_after(old(self).pending_commands@, command),
            final(self).main_window == old(self).main_window,
            final(self).settings_window == old(self).settings_window,
            final(self).multi_exec_enabled == old(self).multi_exec_enabled,
            final(self).sessions_sidebar_visible == old(self).sessions_sidebar_visible,
            final(self).sessions_sidebar_width == old(self).sessions_sidebar_width,
    {
        let n = self.pending_commands.len();
        let mut i: usize = 0;
        while i < n
            invariant
                n == self.pending_commands@.len(),
                0 <= i <= n,
                forall|k: int| 0 <= k < i ==> !commands_coalesce(#[trigger] self.pending_commands@[k], command),
            decreases n - i,
        {
            if self.pending_commands[i].coalesces_with(&command) {
                return;
            }
            i = i + 1;
        }
        self.pending_commands.push(command);
    }
}

/// Offering a command never loses or reorders what was queued: the old queue
/// is a prefix of the new one, which is at most one longer.
pub proof fn lemma_queue_after_extends<O>(queue: Seq<PendingCommand<O>>, command: PendingCommand<O>)
    ensures
        queue_after(queue, command).len() <= queue.len() + 1,
        queue_after(queue, command).subrange(0, queue.len() as int) == queue,
{
    assert(queue_after(queue, command).subrange(0, queue.len() as int) =~= queue);
}

/// A command that is not a sidebar reload is always queued.
pub proof fn lemma_non_reload_always_queued<O>(queue: Seq<PendingCommand<O>>, command: PendingCommand<O>)
    requires
        !(command is ReloadSessionsSidebar),
    ensures
        queue_after(queue, command) == queue.push(command),
{
}

/// Offering a sidebar reload twice has the effect of offering it once.
pub proof fn lemma_reload_idempotent<O>(queue: Seq<PendingCommand<O>>)
    ensures
        queue_after(
            queue_after(queue, PendingCommand::ReloadSessionsSidebar),
            PendingCommand::ReloadSessionsSidebar,
        ) == queue_after(queue, PendingCommand::ReloadSessionsSidebar),
{
    let reload = PendingCommand::<O>::ReloadSessionsSidebar;
    let q1 = queue_after(queue, reload);
    if !queue_absorbs(queue, reload) {
        assert(q1[queue.len() as int] == reload);
        assert(commands_coalesce(q1[queue.len() as int], reload));
    }
    assert(queue_absorbs(q1, reload));
}

/// A queue built only by offering commands never holds two sidebar reloads.
pub proof fn lemma_queue_after_keeps_one_reload<O>(queue: Seq<PendingCommand<O>>, command: PendingCommand<O>)
    requires
        at_most_one_reload(queue),
    ensures
        at_most_one_reload(queue_after(queue, command)),
{
    let q = queue_after(queue, command);
    if !queue_absorbs(queue, command) {
        assert forall|i: int, j: int| 0 <= i < j < q.len() implies !(#[trigger] q[i] is ReloadSessionsSidebar
            && #[trigger] q[j] is ReloadSessionsSidebar) by {
            if j == queue.len() && q[i] is ReloadSessionsSidebar && q[j] is ReloadSessionsSidebar {
                assert(commands_coalesce(queue[i], command));
            }
        }
    }
}

/// Offering a command leaves the queue unchanged exactly when the command is
/// a sidebar reload and a reload is already queued; otherwise the command is
/// appended. So a reload is queued whenever no reload is waiting.
pub proof fn lemma_command_dropped_only_for_queued_reload<O>(queue: Seq<PendingCommand<O>>, command: PendingCommand<O>)
    ensures
        queue_after(queue, command) == queue <==> (command is ReloadSessionsSidebar && exists|i: int|
            0 <= i < queue.len() && (#[trigger] queue[i]) is ReloadSessionsSidebar),
        queue_after(queue, command) != queue ==> queue_after(queue, command) == queue.push(command),
        (forall|i: int| 0 <= i < queue.len() ==> !((#[trigger] queue[i]) is ReloadSessionsSidebar))
            ==> queue_after(queue, command) == queue.push(command),
{
    if command is ReloadSessionsSidebar && exists|i: int|
        0 <= i < queue.len() && (#[trigger] queue[i]) is ReloadSessionsSidebar {
        let i = choose|i: int| 0 <= i < queue.len() && (#[trigger] queue[i]) is ReloadSessionsSidebar;
        assert(commands_coalesce(queue[i], command));
    } else {
        assert(!queue_absorbs(queue, command));
        assert(queue.push(command).len() != queue.len());
    }
}

} // verus!
