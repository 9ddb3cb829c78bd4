//! Cells of a notebook page.

use vstd::prelude::*;

verus! {

/// The kind of a cell on the page.
#[derive(Debug, Clone, Copy, PartialEq, Eq, Structural)]
pub enum CellType {
    Markdown,
    Shader,
}

/// The panes a cell is split into.
#[derive(Debug, Clone, Copy, PartialEq, Eq, Structural)]
pub enum CellPane {
    Editor,
    Preview,
}

} // verus!
