//! Registration of handlers for window messages and control notifications.
use vstd::prelude::*;

use crate::co;
use crate::gui::func_store::{EventKey, FuncStore};

verus! {

/// What runs when an event arrives: an action of the library itself, or a
/// callback of the user.
pub enum Handler<F> {
    /// Destroy the window that received the event.
    DestroyWindow,
    /// Post a quit message with this exit code, ending the message loop.
    PostQuit(i32),
    /// Create the child control with this ID.
    CreateChild(u16),
    /// A callback supplied by the user.
    Custom(F),
}

/// The handlers of a window, one per event.
pub struct WindowEvents<F> {
    store: FuncStore<Handler<F>>,
}

impl<F> View for WindowEvents<F> {
    type V = Map<EventKey, Handler<F>>;

    closed spec fn view(&self) -> Map<EventKey, Handler<F>> {
        self.store@
    }
}

impl<F> WindowEvents<F> {
    /// No handler registered.
    pub fn new() -> (r: WindowEvents<F>)
        ensures
            r@ == Map::<EventKey, Handler<F>>::empty(),
    {
        WindowEvents { store: FuncStore::new() }
    }

    /// Registers `h` for the window message `msg`, replacing any earlier
    /// handler of it.
    pub fn wm(&mut self, msg: u32, h: Handler<F>)
        ensures
            final(self)@ == old(self)@.insert(EventKey::Wm(msg), h),
    {
        self.store.push(EventKey::Wm(msg), h);
    }

    /// Registers `h` for `WM_CREATE`.
    pub fn wm_create(&mut self, h: Handler<F>)
        ensures
            final(self)@ == old(self)@.insert(EventKey::Wm(co::WM::CREATE), h),
    {
        self.wm(co::WM::CREATE, h);
    }

    /// Registers `h` for `WM_INITDIALOG`.
    pub fn wm_init_dialog(&mut self, h: Handler<F>)
        ensures
            final(self)@ == old(self)@.insert(EventKey::Wm(co::WM::INITDIALOG), h),
    {
        self.wm(co::WM::INITDIALOG, h);
    }

    /// Registers `h` for `WM_CLOSE`.
    pub fn wm_close(&mut self, h: Handler<F>)
        ensures
            final(self)@ == old(self)@.insert(EventKey::Wm(co::WM::CLOSE), h),
    {
        self.wm(co::WM::CLOSE, h);
    }

    /// Registers `h` for `WM_NCDESTROY`.
    pub fn wm_nc_destroy(&mut self, h: Handler<F>)
        ensures
            final(self)@ == old(self)@.insert(EventKey::Wm(co::WM::NCDESTROY), h),
    {
        self.wm(co::WM::NCDESTROY, h);
    }

    /// Registers `h` for the notification `code` of the child control
    /// `ctrl_id`, sent through `WM_COMMAND`.
    pub fn wm_command(&mut self, code: u16, ctrl_id: u16, h: Handler<F>)
        ensures
            final(self)@ == old(self)@.insert(EventKey::Cmd { ctrl_id, code }, h),
    {
        self.store.push(EventKey::Cmd { ctrl_id, code }, h);
    }

    /// The handler of the event `key`, if one was registered.
    pub fn find(&self, key: EventKey) -> (r: Option<&Handler<F>>)
        ensures
            match r {
                Some(h) => self@.contains_key(key) && *h == self@[key],
                None => !self@.contains_key(key),
            },
    {
        self.store.find(key)
    }
}

/// Notifications of one list box, registered among its parent's handlers.
#[derive(Clone, Copy, PartialEq, Eq, Structural, Debug)]
pub struct ListBoxEvents {
    pub ctrl_id: u16,
}

impl ListBoxEvents {
    /// Notifications of the list box with ID `ctrl_id`.
    pub fn new(ctrl_id: u16) -> (r: ListBoxEvents)
        ensures
            r.ctrl_id == ctrl_id,
    {
        ListBoxEvents { ctrl_id }
    }

    /// Registers `h` for the list box notification `code`.
    pub fn lbn<F>(&self, parent: &mut WindowEvents<F>, code: u16, h: Handler<F>)
        ensures
            final(parent)@ == old(parent)@.insert(
                EventKey::Cmd { ctrl_id: self.ctrl_id, code },
                h,
            ),
    {
        parent.wm_command(code, self.ctrl_id, h);
    }

    /// Registers `h` for `LBN_SELCHANGE`: the selection changed.
    pub fn lbn_sel_change<F>(&self, parent: &mut WindowEvents<F>, h: Handler<F>)
        ensures
            final(parent)@ == old(parent)@.insert(
                EventKey::Cmd { ctrl_id: self.ctrl_id, code: co::LBN::SELCHANGE },
                h,
            ),
    {
        self.lbn(parent, co::LBN::SELCHANGE, h);
    }

    /// Registers `h` for `LBN_DBLCLK`: an item was double-clicked.
    pub fn lbn_dbl_clk<F>(&self, parent: &mut WindowEvents<F>, h: Handler<F>)
        ensures
            final(parent)@ == old(parent)@.insert(
                EventKey::Cmd { ctrl_id: self.ctrl_id, code: co::LBN::DBLCLK },
                h,
            ),
    {
        self.lbn(parent, co::LBN::DBLCLK, h);
    }
}

} // verus!
