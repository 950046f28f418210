//! How a child control follows the resizing of its parent.
use vstd::prelude::*;

verus! {

/// Horizontal behaviour when the parent is resized.
#[derive(Clone, Copy, PartialEq, Eq, Structural, Debug)]
pub enum Horz {
    /// Neither moves nor grows.
    Fixed,
    /// Moves with the right edge.
    Repos,
    /// Grows with the parent's width.
    Resize,
}

/// Vertical behaviour when the parent is resized.
#[derive(Clone, Copy, PartialEq, Eq, Structural, Debug)]
pub enum Vert {
    /// Neither moves nor grows.
    Fixed,
    /// Moves with the bottom edge.
    Repos,
    /// Grows with the parent's height.
    Resize,
}

} // verus!
