//! The window-manager atoms the panel writes, and their exact names.

use vstd::prelude::*;

verus! {

/// An interned name of the window-manager protocol.
#[derive(Clone, Copy, Debug, PartialEq, Eq, Structural)]
pub enum Atom {
    NetWmStateAbove,
    NetWmStateSticky,
    NetWmAllowedActions,
    NetWmActionChangeDesktop,
    NetWmActionAbove,
    NetWmActionBelow,
    NetWmWindowType,
    NetWmWindowTypeDock,
    NetWmStrutPartial,
}

impl Atom {
    /// The string that the atom is interned from.
    pub open spec fn name_of(self) -> Seq<char> {
        match self {
            Atom::NetWmStateAbove => "_NET_WM_STATE_ABOVE"@,
            Atom::NetWmStateSticky => "_NET_WM_STATE_STICKY"@,
            Atom::NetWmAllowedActions => "_NET_WM_ALLOWED_ACTIONS"@,
            Atom::NetWmActionChangeDesktop => "_NET_WM_ACTION_CHANGE_DESKTOP"@,
            Atom::NetWmActionAbove => "_NET_WM_ACTION_ABOVE"@,
            Atom::NetWmActionBelow => "_NET_WM_ACTION_BELOW"@,
            Atom::NetWmWindowType => "_NET_WM_WINDOW_TYPE"@,
            Atom::NetWmWindowTypeDock => "_NET_WM_WINDOW_TYPE_DOCK"@,
            Atom::NetWmStrutPartial => "_NET_WM_STRUT_PARTIAL"@,
        }
    }

    /// The atom's name, to hand to the display server.
    pub fn name(self) -> (name: &'static str)
        ensures
            name@ == self.name_of(),
    {
        match self {
            Atom::NetWmStateAbove => "_NET_WM_STATE_ABOVE",
            Atom::NetWmStateSticky => "_NET_WM_STATE_STICKY",
            Atom::NetWmAllowedActions => "_NET_WM_ALLOWED_ACTIONS",
            Atom::NetWmActionChangeDesktop => "_NET_WM_ACTION_CHANGE_DESKTOP",
            Atom::NetWmActionAbove => "_NET_WM_ACTION_ABOVE",
            Atom::NetWmActionBelow => "_NET_WM_ACTION_BELOW",
            Atom::NetWmWindowType => "_NET_WM_WINDOW_TYPE",
            Atom::NetWmWindowTypeDock => "_NET_WM_WINDOW_TYPE_DOCK",
            Atom::NetWmStrutPartial => "_NET_WM_STRUT_PARTIAL",
        }
    }
}

} // verus!
