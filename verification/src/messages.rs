//! Messages on the command bus between this core and its collaborators.

use crate::tools::ToolId;
use vstd::prelude::*;

verus! {

/// A cross-cutting command, carried explicitly through each event-handling
/// call rather than through ambient state.
///
/// `SetActiveTool` both arrives from outside (forcing the selection) and is
/// emitted when the selection changes locally; `SetPreviewVisibility` only
/// arrives, and is consumed by the floating panel alone.
#[derive(Clone, Copy, PartialEq, Eq, Structural, Debug)]
pub enum Command {
    SetActiveTool(ToolId),
    SetPreviewVisibility(bool),
}

} // verus!
