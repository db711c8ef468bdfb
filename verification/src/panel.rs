//! The floating panel that carries control chrome.
//!
//! The panel wraps an inner widget and holds one transient boolean: whether
//! the chrome is hidden during a temporary preview. Visibility is
//! independent of tool selection and is set only by the
//! `SetPreviewVisibility` command; drawing the drop shadow and rounded frame
//! consults it each frame but lives with the renderer, outside this core.

use crate::messages::Command;
use vstd::prelude::*;

verus! {

/// The visibility the panel shows after consuming `cmd`, starting from
/// `hidden`: only `SetPreviewVisibility` changes it.
pub open spec fn spec_visibility_after(hidden: bool, cmd: Command) -> bool {
    match cmd {
        Command::SetPreviewVisibility(h) => h,
        _ => hidden,
    }
}

/// A wrapper around a control widget, hidden while a temporary preview is
/// active. Defaults to visible.
pub struct FloatingPanel<W> {
    pub hide_panel: bool,
    pub inner: W,
}

impl<W> FloatingPanel<W> {
    /// A visible panel around `inner`.
    pub fn new(inner: W) -> (r: Self)
        ensures
            !r.hide_panel,
            r.inner == inner,
    {
        FloatingPanel { hide_panel: false, inner }
    }

    /// A reference to the inner widget.
    pub fn inner(&self) -> (r: &W)
        ensures
            *r == self.inner,
    {
        &self.inner
    }

    /// Whether the chrome is hidden this frame.
    pub fn is_hidden(&self) -> (r: bool)
        ensures
            r == self.hide_panel,
    {
        self.hide_panel
    }

    /// Consumes one command: `SetPreviewVisibility` sets `hide_panel` to its
    /// payload; every other command leaves the panel unchanged. No component
    /// other than that command may change visibility.
    pub fn handle_command(&mut self, cmd: &Command)
        ensures
            final(self).inner == old(self).inner,
            final(self).hide_panel == spec_visibility_after(old(self).hide_panel, *cmd),
    {
        match *cmd {
            Command::SetPreviewVisibility(h) => {
                self.hide_panel = h;
            },
            _ => {},
        }
    }
}

} // verus!
