//! The closed set of editing tools.

use vstd::prelude::*;

verus! {

/// A named editing mode; exactly one is active at a time. The set is closed:
/// every tool the editor offers is a variant here.
#[derive(Clone, Copy, PartialEq, Eq, Structural, Debug)]
pub enum ToolId {
    Select,
    Pen,
    Knife,
    Preview,
    Measure,
    Rectangle,
    Ellipse,
}

} // verus!
