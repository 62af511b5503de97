use vstd::prelude::*;

verus! {

/// The tabs that the right-hand sidebar can show.
#[derive(Clone, Copy, Debug, PartialEq, Eq, Structural)]
pub enum RightSidebarTab {
    Notifications,
}

/// Width of the right-hand sidebar when nothing else was chosen, in logical pixels.
pub const DEFAULT_RIGHT_SIDEBAR_WIDTH: u32 = 360;

/// Whether the right-hand sidebar is shown, how wide it is (in whole logical
/// pixels) and which tab it shows.
#[derive(Clone, Copy, Debug, PartialEq, Eq, Structural)]
pub struct RightSidebarState {
    pub visible: bool,
    pub width: u32,
    pub active_tab: RightSidebarTab,
}

impl RightSidebarState {
    /// The state after asking for `tab`: a sidebar that already shows `tab`
    /// is hidden; otherwise the sidebar is shown on `tab`. The width never changes.
    pub open spec fn toggled(self, tab: RightSidebarTab) -> RightSidebarState {
        if self.visible && self.active_tab == tab {
            RightSidebarState { visible: false, width: self.width, active_tab: self.active_tab }
        } else {
            RightSidebarState { visible: true, width: self.width, active_tab: tab }
        }
    }

    /// Shows the sidebar on `tab`, or hides it when it already shows `tab`.
    pub fn toggle_tab(&mut self, tab: RightSidebarTab)
        ensures
            *final(self) == old(self).toggled(tab),
    {
        if self.visible && self.active_tab == tab {
            self.visible = false;
        } else {
            self.visible = true;
            self.active_tab = tab;
        }
    }
}

impl RightSidebarState {
    /// The state that a fresh sidebar starts in: hidden, at the default width,
    /// on the notifications tab.
    pub open spec fn default_state() -> RightSidebarState {
        RightSidebarState {
            visible: false,
            width: DEFAULT_RIGHT_SIDEBAR_WIDTH,
            active_tab: RightSidebarTab::Notifications,
        }
    }
}

impl Default for RightSidebarState {
    fn default() -> (s: Self)
        ensures
            s == RightSidebarState::default_state(),
    {
        RightSidebarState {
            visible: false,
            width: DEFAULT_RIGHT_SIDEBAR_WIDTH,
            active_tab: RightSidebarTab::Notifications,
        }
    }
}

/// Asking twice for the tab that the sidebar already has selected gives back
/// the state one started from.
pub proof fn lemma_toggle_tab_twice(s: RightSidebarState, tab: RightSidebarTab)
    requires
        s.active_tab == tab,
    ensures
        s.toggled(tab).toggled(tab) == s,
{
}

/// After asking for a tab, the sidebar is shown exactly when it was not
/// already showing that tab; when shown, it shows the tab asked for; its width
/// is untouched.
pub proof fn lemma_toggle_tab_outcome(s: RightSidebarState, tab: RightSidebarTab)
    ensures
        s.toggled(tab).visible == !(s.visible && s.active_tab == tab),
        s.toggled(tab).visible ==> s.toggled(tab).active_tab == tab,
        s.toggled(tab).width == s.width,
{
}

} // verus!
