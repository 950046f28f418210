//! Automatic IDs for child controls that were given none.
use vstd::prelude::*;

verus! {

/// The ID after which automatic IDs start, clear of those that dialog
/// resources commonly use.
pub const FIRST_AUTO_CTRL_ID: u16 = 20000;

/// Hands out control IDs in increasing order, each once.
pub struct AutoCtrlId {
    last: u16,
}

impl AutoCtrlId {
    /// The ID handed out most recently, or the starting point.
    pub closed spec fn spec_last(&self) -> u16 {
        self.last
    }

    /// A source whose first ID is the one after `FIRST_AUTO_CTRL_ID`.
    pub fn new() -> (r: AutoCtrlId)
        ensures
            r.spec_last() == FIRST_AUTO_CTRL_ID,
    {
        AutoCtrlId { last: FIRST_AUTO_CTRL_ID }
    }

    /// Whether another ID can be handed out.
    pub fn can_issue(&self) -> (r: bool)
        ensures
            r == (self.spec_last() < u16::MAX),
    {
        self.last < u16::MAX
    }

    /// The next ID.
    pub fn next_id(&mut self) -> (r: u16)
        requires
            old(self).spec_last() < u16::MAX,
        ensures
            r == old(self).spec_last() + 1,
            final(self).spec_last() == r,
    {
        self.last = self.last + 1;
        self.last
    }
}

} // verus!
