//! The sidebar: the list of connections, which can be folded away.
//! What the sidebar shows is computed by
//! [`crate::config::Config::connection_names`]; drawing is the caller's.

use vstd::prelude::*;
use vstd::string::StringExecFns;

verus! {

/// The label shown for one connection: its database name, marked when it
/// is connected.
pub fn connection_label(name: &str, active: bool) -> (r: String)
    ensures
        r@ == if active {
            name@ + " (connected)"@
        } else {
            name@
        },
{
    let mut r = name.to_owned();
    if active {
        r.append(" (connected)");
    }
    r
}

/// The sidebar's own state.
#[derive(Debug, Clone, Copy, PartialEq, Eq, Structural)]
pub struct Sidebar {
    hidden: bool,
}

impl Sidebar {
    /// Whether the sidebar is folded away.
    pub closed spec fn spec_hidden(self) -> bool {
        self.hidden
    }

    /// A visible sidebar.
    pub fn new() -> (r: Self)
        ensures
            !r.spec_hidden(),
    {
        Sidebar { hidden: false }
    }

    /// Folds the sidebar away, or back in.
    pub fn toggle(&mut self)
        ensures
            final(self).spec_hidden() == !old(self).spec_hidden(),
    {
        self.hidden = !self.hidden;
    }
}

} // verus!
