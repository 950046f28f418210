//! A dialog that is the main window of an application.
use vstd::prelude::*;

use crate::co;
use crate::gui::base::Base;
use crate::gui::events::{Handler, WindowEvents};
use crate::gui::func_store::EventKey;
use crate::handles::HWND;

verus! {

/// An icon to load from the resources and set on the window.
#[derive(Clone, Copy, PartialEq, Eq, Structural, Debug)]
pub struct IconLoad {
    pub icon_id: u16,
    pub cx: i32,
    pub cy: i32,
    pub size: co::ICON_SZ,
}

/// What running a main dialog takes, in order: create the dialog from its
/// resource, load its accelerator table if any, set its icons, show it, then
/// run the message loop until it is closed.
pub struct MainPlan {
    pub dialog_id: u16,
    pub accel_table_id: Option<u16>,
    pub icons: Vec<IconLoad>,
    pub cmd_show: co::SW,
}

/// The icons set on a main dialog whose icon resource is `icon_id`: the
/// 16 x 16 one as the small icon, then the 32 x 32 one as the big icon.
pub open spec fn icons_for(icon_id: Option<u16>) -> Seq<IconLoad> {
    match icon_id {
        Some(id) => seq![
            IconLoad { icon_id: id, cx: 16, cy: 16, size: co::ICON_SZ::SMALL },
            IconLoad { icon_id: id, cx: 32, cy: 32, size: co::ICON_SZ::BIG },
        ],
        None => Seq::empty(),
    }
}

/// The handlers that a main dialog starts with: closing it destroys it, and
/// its destruction ends the application with exit code zero.
pub open spec fn default_handlers<F>() -> Map<EventKey, Handler<F>> {
    Map::<EventKey, Handler<F>>::empty().insert(
        EventKey::Wm(co::WM::CLOSE),
        Handler::DestroyWindow,
    ).insert(EventKey::Wm(co::WM::NCDESTROY), Handler::PostQuit(0))
}

/// A dialog loaded from a resource, used as the main window.
pub struct DlgMain<F> {
    base: Base<F>,
    dialog_id: u16,
    icon_id: Option<u16>,
    accel_table_id: Option<u16>,
}

impl<F> DlgMain<F> {
    /// The dialog resource ID.
    pub closed spec fn spec_dialog_id(&self) -> u16 {
        self.dialog_id
    }

    /// The icon resource ID, if any.
    pub closed spec fn spec_icon_id(&self) -> Option<u16> {
        self.icon_id
    }

    /// The accelerator table resource ID, if any.
    pub closed spec fn spec_accel_table_id(&self) -> Option<u16> {
        self.accel_table_id
    }

    /// The parent window part.
    pub closed spec fn spec_base(&self) -> Base<F> {
        self.base
    }

    /// A main dialog from the resource `dialog_id`, not yet created, with the
    /// default handlers in place.
    pub fn new(dialog_id: u16, icon_id: Option<u16>, accel_table_id: Option<u16>) -> (r: DlgMain<F>)
        ensures
            r.spec_dialog_id() == dialog_id,
            r.spec_icon_id() == icon_id,
            r.spec_accel_table_id() == accel_table_id,
            r.spec_base().spec_hwnd().0 == 0,
            r.spec_base().spec_is_dialog(),
            r.spec_base().spec_events() == default_handlers::<F>(),
            r.spec_base().spec_creations() == Seq::<(u32, u16)>::empty(),
    {
        let mut dlg = DlgMain { base: Base::new(true), dialog_id, icon_id, accel_table_id };
        dlg.default_message_handlers();
        dlg
    }

    /// The window handle; null until the dialog exists.
    pub fn hwnd(&self) -> (r: HWND)
        ensures
            r == self.spec_base().spec_hwnd(),
    {
        self.base.hwnd()
    }

    /// The parent window part.
    pub fn base_ref(&self) -> (r: &Base<F>)
        ensures
            *r == self.spec_base(),
    {
        &self.base
    }

    /// The parent window part, to add children to.
    pub fn base_mut(&mut self) -> (r: &mut Base<F>)
        ensures
            *r == old(self).spec_base(),
            final(self).spec_base() == *final(r),
            final(self).spec_dialog_id() == old(self).spec_dialog_id(),
            final(self).spec_icon_id() == old(self).spec_icon_id(),
            final(self).spec_accel_table_id() == old(self).spec_accel_table_id(),
    {
        &mut self.base
    }

    /// The handlers, to register more; one registered for an event that
    /// already has one replaces it. Only before the dialog is created.
    pub fn on(&mut self) -> (r: &mut WindowEvents<F>)
        requires
            old(self).spec_base().spec_hwnd().0 == 0,
        ensures
            r@ == old(self).spec_base().spec_events(),
            final(self).spec_base().spec_events() == final(r)@,
            final(self).spec_base().spec_hwnd() == old(self).spec_base().spec_hwnd(),
            final(self).spec_base().spec_is_dialog() == old(self).spec_base().spec_is_dialog(),
            final(self).spec_base().spec_creations() == old(self).spec_base().spec_creations(),
            final(self).spec_dialog_id() == old(self).spec_dialog_id(),
            final(self).spec_icon_id() == old(self).spec_icon_id(),
            final(self).spec_accel_table_id() == old(self).spec_accel_table_id(),
    {
        self.base.on()
    }

    /// What running this dialog takes; `cmd_show` defaults to `SW::SHOW`.
    pub fn run_main(&self, cmd_show: Option<co::SW>) -> (r: MainPlan)
        ensures
            r.dialog_id == self.spec_dialog_id(),
            r.accel_table_id == self.spec_accel_table_id(),
            r.icons@ == icons_for(self.spec_icon_id()),
            r.cmd_show == (match cmd_show {
                Some(sw) => sw,
                None => co::SW::SHOW,
            }),
    {
        let icons = self.set_icon_if_any();
        let sw = match cmd_show {
            Some(sw) => sw,
            None => co::SW::SHOW,
        };
        MainPlan {
            dialog_id: self.dialog_id,
            accel_table_id: self.accel_table_id,
            icons,
            cmd_show: sw,
        }
    }

    /// Closing the dialog destroys it; its destruction ends the message loop.
    fn default_message_handlers(&mut self)
        requires
            old(self).spec_base().spec_hwnd().0 == 0,
            old(self).spec_base().spec_events() == Map::<EventKey, Handler<F>>::empty(),
        ensures
            final(self).spec_base().spec_events() == default_handlers::<F>(),
            final(self).spec_base().spec_hwnd() == old(self).spec_base().spec_hwnd(),
            final(self).spec_base().spec_is_dialog() == old(self).spec_base().spec_is_dialog(),
            final(self).spec_base().spec_creations() == old(self).spec_base().spec_creations(),
            final(self).spec_dialog_id() == old(self).spec_dialog_id(),
            final(self).spec_icon_id() == old(self).spec_icon_id(),
            final(self).spec_accel_table_id() == old(self).spec_accel_table_id(),
    {
        let events = self.on();
        events.wm_close(Handler::DestroyWindow);
        events.wm_nc_destroy(Handler::PostQuit(0));
    }

    /// The icons to set on the dialog: none without an icon resource, else
    /// the small one, then the big one.
    fn set_icon_if_any(&self) -> (r: Vec<IconLoad>)
        ensures
            r@ == icons_for(self.spec_icon_id()),
    {
        let mut r: Vec<IconLoad> = Vec::new();
        if let Some(id) = self.icon_id {
            r.push(IconLoad { icon_id: id, cx: 16, cy: 16, size: co::ICON_SZ::SMALL });
            r.push(IconLoad { icon_id: id, cx: 32, cy: 32, size: co::ICON_SZ::BIG });
        }
        assert(r@ =~= icons_for(self.icon_id));
        r
    }
}

} // verus!
