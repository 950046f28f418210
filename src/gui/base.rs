//! What every parent window has: its handle, its handlers, and the child
//! controls it creates along with itself.
use vstd::prelude::*;

use crate::co;
use crate::gui::events::{Handler, WindowEvents};
use crate::gui::func_store::EventKey;
use crate::handles::HWND;

verus! {

/// The IDs of the children in `s` that are created when `msg` arrives, in
/// the order they were registered.
pub open spec fn creations_for(s: Seq<(u32, u16)>, msg: u32) -> Seq<u16>
    decreases s.len(),
{
    if s.len() == 0 {
        Seq::empty()
    } else if s.last().0 == msg {
        creations_for(s.drop_last(), msg).push(s.last().1)
    } else {
        creations_for(s.drop_last(), msg)
    }
}

/// A parent window: a main window or a dialog.
pub struct Base<F> {
    hwnd: HWND,
    is_dialog: bool,
    events: WindowEvents<F>,
    creations: Vec<(u32, u16)>,
}

impl<F> Base<F> {
    /// The window handle; null until the window exists.
    pub closed spec fn spec_hwnd(&self) -> HWND {
        self.hwnd
    }

    /// Whether the window is a dialog.
    pub closed spec fn spec_is_dialog(&self) -> bool {
        self.is_dialog
    }

    /// The user's handlers.
    pub closed spec fn spec_events(&self) -> Map<EventKey, Handler<F>> {
        self.events@
    }

    /// The children to create, each with the message that creates it, in
    /// registration order.
    pub closed spec fn spec_creations(&self) -> Seq<(u32, u16)> {
        self.creations@
    }

    /// A window not yet created, with no handler and no child.
    pub fn new(is_dialog: bool) -> (r: Base<F>)
        ensures
            r.spec_hwnd().0 == 0,
            r.spec_is_dialog() == is_dialog,
            r.spec_events() == Map::<EventKey, Handler<F>>::empty(),
            r.spec_creations() == Seq::<(u32, u16)>::empty(),
    {
        Base { hwnd: HWND::null(), is_dialog, events: WindowEvents::new(), creations: Vec::new() }
    }

    /// The window handle; null until the window exists.
    pub fn hwnd(&self) -> (r: HWND)
        ensures
            r == self.spec_hwnd(),
    {
        self.hwnd
    }

    /// Whether the window is a dialog.
    pub fn is_dialog(&self) -> (r: bool)
        ensures
            r == self.spec_is_dialog(),
    {
        self.is_dialog
    }

    /// Records the handle the system gave the window when it was created.
    pub fn set_hwnd(&mut self, hwnd: HWND)
        ensures
            final(self).spec_hwnd() == hwnd,
            final(self).spec_is_dialog() == old(self).spec_is_dialog(),
            final(self).spec_events() == old(self).spec_events(),
            final(self).spec_creations() == old(self).spec_creations(),
    {
        self.hwnd = hwnd;
    }

    /// The message that starts the window's life: `WM_INITDIALOG` for a
    /// dialog, `WM_CREATE` otherwise.
    pub fn wmcreate_or_wminitdialog(&self) -> (r: u32)
        ensures
            r == (if self.spec_is_dialog() {
                co::WM::INITDIALOG
            } else {
                co::WM::CREATE
            }),
    {
        if self.is_dialog {
            co::WM::INITDIALOG
        } else {
            co::WM::CREATE
        }
    }

    /// The user's handlers, to register more. Handlers can only be added
    /// before the window is created.
    pub fn on(&mut self) -> (r: &mut WindowEvents<F>)
        requires
            old(self).spec_hwnd().0 == 0,
        ensures
            r@ == old(self).spec_events(),
            final(self).spec_events() == final(r)@,
            final(self).spec_hwnd() == old(self).spec_hwnd(),
            final(self).spec_is_dialog() == old(self).spec_is_dialog(),
            final(self).spec_creations() == old(self).spec_creations(),
    {
        &mut self.events
    }

    /// Schedules the creation of the child `ctrl_id` when `msg` arrives.
    pub fn create_child_on(&mut self, msg: u32, ctrl_id: u16)
        ensures
            final(self).spec_creations() == old(self).spec_creations().push((msg, ctrl_id)),
            final(self).spec_hwnd() == old(self).spec_hwnd(),
            final(self).spec_is_dialog() == old(self).spec_is_dialog(),
            final(self).spec_events() == old(self).spec_events(),
    {
        self.creations.push((msg, ctrl_id));
    }

    /// The children to create when `msg` arrives, in registration order.
    pub fn children_to_create(&self, msg: u32) -> (r: Vec<u16>)
        ensures
            r@ == creations_for(self.spec_creations(), msg),
    {
        let mut r: Vec<u16> = Vec::new();
        let mut i: usize = 0;
        while i < self.creations.len()
            invariant
                i <= self.creations@.len(),
                r@ == creations_for(self.creations@.take(i as int), msg),
            decreases self.creations@.len() - i,
        {
            let ghost t = self.creations@.take(i + 1);
            assert(t.drop_last() =~= self.creations@.take(i as int));
            if self.creations[i].0 == msg {
                r.push(self.creations[i].1);
            }
            i = i + 1;
        }
        assert(self.creations@.take(i as int) =~= self.creations@);
        r
    }
}

} // verus!
