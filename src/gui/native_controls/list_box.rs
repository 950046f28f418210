//! The native list box control.
use vstd::prelude::*;

use crate::co;
use crate::gui::base::Base;
use crate::gui::ctrl_ids::AutoCtrlId;
use crate::gui::events::ListBoxEvents;
use crate::gui::resizer::{Horz, Vert};
use crate::handles::HWND;
use crate::structs::{POINT, SIZE};

verus! {

/// Options to create a `ListBox` on its parent with `ListBox::new`.
pub struct ListBoxOpts {
    /// Position within the parent's client area, in pixels. Defaults to 0 x 0.
    pub position: POINT,
    /// Size, in pixels. Defaults to 50 x 50.
    pub size: SIZE,
    /// List box styles. Defaults to `LBS::NOTIFY`.
    pub list_box_style: co::LBS,
    /// Window styles. Defaults to `CHILD | VISIBLE | TABSTOP | GROUP`.
    pub window_style: co::WS,
    /// Extended window styles. Defaults to `LEFT | CLIENTEDGE`.
    pub window_ex_style: co::WS_EX,
    /// The control ID. Zero, the default, asks for an automatic one.
    pub ctrl_id: u16,
    /// Items added right after creation. Defaults to none.
    pub items: Vec<String>,
    /// Horizontal behaviour when the parent is resized. Defaults to `Fixed`.
    pub horz_resize: Horz,
    /// Vertical behaviour when the parent is resized. Defaults to `Fixed`.
    pub vert_resize: Vert,
}

/// Window styles of a list box unless its options say otherwise.
pub open spec fn default_window_style() -> u32 {
    co::WS::CHILD | co::WS::VISIBLE | co::WS::TABSTOP | co::WS::GROUP
}

/// Extended window styles of a list box unless its options say otherwise.
pub open spec fn default_window_ex_style() -> u32 {
    co::WS_EX::LEFT | co::WS_EX::CLIENTEDGE
}

impl Default for ListBoxOpts {
    fn default() -> (r: ListBoxOpts)
        ensures
            r.position == (POINT { x: 0, y: 0 }),
            r.size == (SIZE { cx: 50, cy: 50 }),
            r.list_box_style.0 == co::LBS::NOTIFY,
            r.window_style.0 == default_window_style(),
            r.window_ex_style.0 == default_window_ex_style(),
            r.ctrl_id == 0,
            r.items@.len() == 0,
            r.horz_resize == Horz::Fixed,
            r.vert_resize == Vert::Fixed,
    {
        ListBoxOpts {
            position: POINT::new(0, 0),
            size: SIZE::new(50, 50),
            list_box_style: co::LBS(co::LBS::NOTIFY),
            window_style: co::WS(co::WS::CHILD | co::WS::VISIBLE | co::WS::TABSTOP
                | co::WS::GROUP),
            window_ex_style: co::WS_EX(co::WS_EX::LEFT | co::WS_EX::CLIENTEDGE),
            ctrl_id: 0,
            items: Vec::new(),
            horz_resize: Horz::Fixed,
            vert_resize: Vert::Fixed,
        }
    }
}

/// The ID a control created with `opts` gets when `ids` has handed out
/// `last` most recently.
pub open spec fn defined_ctrl_id(opts_ctrl_id: u16, last: u16) -> u16 {
    if opts_ctrl_id == 0 {
        (last + 1) as u16
    } else {
        opts_ctrl_id
    }
}

/// `opts` with its control ID replaced by `id`.
pub open spec fn with_ctrl_id(opts: ListBoxOpts, id: u16) -> ListBoxOpts {
    ListBoxOpts {
        position: opts.position,
        size: opts.size,
        list_box_style: opts.list_box_style,
        window_style: opts.window_style,
        window_ex_style: opts.window_ex_style,
        ctrl_id: id,
        items: opts.items,
        horz_resize: opts.horz_resize,
        vert_resize: opts.vert_resize,
    }
}

impl ListBoxOpts {
    /// Gives the options an automatic control ID if they have none.
    pub fn define_ctrl_id(self, ids: &mut AutoCtrlId) -> (r: ListBoxOpts)
        requires
            self.ctrl_id != 0 || old(ids).spec_last() < u16::MAX,
        ensures
            r == with_ctrl_id(self, defined_ctrl_id(self.ctrl_id, old(ids).spec_last())),
            final(ids).spec_last() == (if self.ctrl_id == 0 {
                defined_ctrl_id(self.ctrl_id, old(ids).spec_last())
            } else {
                old(ids).spec_last()
            }),
    {
        let mut opts = self;
        if opts.ctrl_id == 0 {
            opts.ctrl_id = ids.next_id();
        }
        opts
    }
}

/// Where a list box takes its options from.
pub enum OptsId {
    /// Created by the library, with these options.
    Wnd(ListBoxOpts),
    /// Loaded from a dialog resource, under this control ID.
    Dlg(u16),
}

/// The control ID that `o` gives a list box.
pub open spec fn opts_ctrl_id(o: OptsId) -> u16 {
    match o {
        OptsId::Wnd(opts) => opts.ctrl_id,
        OptsId::Dlg(id) => id,
    }
}

/// What the system must do to bring a list box into existence.
pub enum ListBoxCreate {
    /// Create a new child window of the class `class_name`, then add `items`.
    Window {
        class_name: String,
        position: POINT,
        size: SIZE,
        ctrl_id: u16,
        window_ex_style: co::WS_EX,
        window_style: co::WS,
        items: Vec<String>,
        horz: Horz,
        vert: Vert,
    },
    /// Take the control `ctrl_id` of the dialog resource.
    DlgItem { ctrl_id: u16, horz: Horz, vert: Vert },
}

/// Whether `r` is what creates `lb`: a window of the class "ListBox" built
/// from its options, with its list box styles among the window styles, or the
/// control of the dialog resource.
pub open spec fn creates(lb: ListBox, r: ListBoxCreate) -> bool {
    match lb.spec_opts_id() {
        OptsId::Wnd(opts) => match r {
            ListBoxCreate::Window {
                class_name,
                position,
                size,
                ctrl_id,
                window_ex_style,
                window_style,
                items,
                horz,
                vert,
            } => {
                &&& class_name@ == "ListBox"@
                &&& position == opts.position
                &&& size == opts.size
                &&& ctrl_id == opts.ctrl_id
                &&& window_ex_style == opts.window_ex_style
                &&& window_style.0 == (opts.window_style.0 | opts.list_box_style.0)
                &&& items@ == opts.items@
                &&& horz == lb.spec_horz()
                &&& vert == lb.spec_vert()
            },
            ListBoxCreate::DlgItem { .. } => false,
        },
        OptsId::Dlg(id) => r == (ListBoxCreate::DlgItem {
            ctrl_id: id,
            horz: lb.spec_horz(),
            vert: lb.spec_vert(),
        }),
    }
}

/// The item methods of a list box that exists.
#[derive(Clone, Copy, PartialEq, Eq, Structural, Debug)]
pub struct ListBoxItems {
    pub hwnd: HWND,
}

/// A native list box, a child of a window or a dialog.
pub struct ListBox {
    hwnd: HWND,
    opts_id: OptsId,
    horz: Horz,
    vert: Vert,
}

impl ListBox {
    /// The window handle; null until the control exists.
    pub closed spec fn spec_hwnd(&self) -> HWND {
        self.hwnd
    }

    /// Where the control takes its options from.
    pub closed spec fn spec_opts_id(&self) -> OptsId {
        self.opts_id
    }

    /// Horizontal behaviour when the parent is resized.
    pub closed spec fn spec_horz(&self) -> Horz {
        self.horz
    }

    /// Vertical behaviour when the parent is resized.
    pub closed spec fn spec_vert(&self) -> Vert {
        self.vert
    }

    /// A list box to be created with `opts` when `parent` is created. An
    /// options' ID of zero takes the next automatic one from `ids`.
    pub fn new<F>(parent: &mut Base<F>, opts: ListBoxOpts, ids: &mut AutoCtrlId) -> (r: ListBox)
        requires
            opts.ctrl_id != 0 || old(ids).spec_last() < u16::MAX,
        ensures
            ({
                let id = defined_ctrl_id(opts.ctrl_id, old(ids).spec_last());
                &&& r.spec_hwnd().0 == 0
                &&& r.spec_opts_id() == OptsId::Wnd(with_ctrl_id(opts, id))
                &&& r.spec_horz() == opts.horz_resize
                &&& r.spec_vert() == opts.vert_resize
                &&& final(ids).spec_last() == (if opts.ctrl_id == 0 {
                    id
                } else {
                    old(ids).spec_last()
                })
                &&& final(parent).spec_creations() == old(parent).spec_creations().push(
                    (
                        if old(parent).spec_is_dialog() {
                            co::WM::INITDIALOG
                        } else {
                            co::WM::CREATE
                        },
                        id,
                    ),
                )
            }),
            final(parent).spec_hwnd() == old(parent).spec_hwnd(),
            final(parent).spec_is_dialog() == old(parent).spec_is_dialog(),
            final(parent).spec_events() == old(parent).spec_events(),
    {
        let opts = opts.define_ctrl_id(ids);
        let ctrl_id = opts.ctrl_id;
        let horz = opts.horz_resize;
        let vert = opts.vert_resize;
        let msg = parent.wmcreate_or_wminitdialog();
        parent.create_child_on(msg, ctrl_id);
        ListBox { hwnd: HWND::null(), opts_id: OptsId::Wnd(opts), horz, vert }
    }

    /// A list box to be taken from the dialog resource of `parent`, under
    /// `ctrl_id`, when the dialog is initialized.
    pub fn new_dlg<F>(parent: &mut Base<F>, ctrl_id: u16, horz_resize: Horz, vert_resize: Vert) -> (r: ListBox)
        ensures
            r.spec_hwnd().0 == 0,
            r.spec_opts_id() == OptsId::Dlg(ctrl_id),
            r.spec_horz() == horz_resize,
            r.spec_vert() == vert_resize,
            final(parent).spec_creations() == old(parent).spec_creations().push(
                (co::WM::INITDIALOG, ctrl_id),
            ),
            final(parent).spec_hwnd() == old(parent).spec_hwnd(),
            final(parent).spec_is_dialog() == old(parent).spec_is_dialog(),
            final(parent).spec_events() == old(parent).spec_events(),
    {
        parent.create_child_on(co::WM::INITDIALOG, ctrl_id);
        ListBox { hwnd: HWND::null(), opts_id: OptsId::Dlg(ctrl_id), horz: horz_resize, vert: vert_resize }
    }

    /// The window handle; null until the control exists.
    pub fn hwnd(&self) -> (r: HWND)
        ensures
            r == self.spec_hwnd(),
    {
        self.hwnd
    }

    /// The control ID.
    pub fn ctrl_id(&self) -> (r: u16)
        ensures
            r == opts_ctrl_id(self.spec_opts_id()),
    {
        match &self.opts_id {
            OptsId::Wnd(opts) => opts.ctrl_id,
            OptsId::Dlg(ctrl_id) => *ctrl_id,
        }
    }

    /// The notifications of this control, to register handlers for. They can
    /// only be added before the control is created.
    pub fn on(&self) -> (r: ListBoxEvents)
        requires
            self.spec_hwnd().0 == 0,
        ensures
            r.ctrl_id == opts_ctrl_id(self.spec_opts_id()),
    {
        ListBoxEvents::new(self.ctrl_id())
    }

    /// What creates this control: a new window built from its options, or
    /// the control of the dialog resource.
    pub fn create(&self) -> (r: ListBoxCreate)
        ensures
            creates(*self, r),
    {
        match &self.opts_id {
            OptsId::Wnd(opts) => {
                let mut items: Vec<String> = Vec::new();
                let mut i: usize = 0;
                while i < opts.items.len()
                    invariant
                        i <= opts.items@.len(),
                        items@ == opts.items@.take(i as int),
                    decreases opts.items@.len() - i,
                {
                    items.push(opts.items[i].clone());
                    i = i + 1;
                    assert(items@ =~= opts.items@.take(i as int));
                }
                assert(opts.items@.take(i as int) =~= opts.items@);
                ListBoxCreate::Window {
                    class_name: String::from_str("ListBox"),
                    position: opts.position,
                    size: opts.size,
                    ctrl_id: opts.ctrl_id,
                    window_ex_style: opts.window_ex_style,
                    window_style: opts.window_style.or(opts.list_box_style.into_ws()),
                    items,
                    horz: self.horz,
                    vert: self.vert,
                }
            },
            OptsId::Dlg(ctrl_id) => ListBoxCreate::DlgItem {
                ctrl_id: *ctrl_id,
                horz: self.horz,
                vert: self.vert,
            },
        }
    }

    /// Records the handle the system gave the control when it was created.
    pub fn set_hwnd(&mut self, hwnd: HWND)
        ensures
            final(self).spec_hwnd() == hwnd,
            final(self).spec_opts_id() == old(self).spec_opts_id(),
            final(self).spec_horz() == old(self).spec_horz(),
            final(self).spec_vert() == old(self).spec_vert(),
    {
        self.hwnd = hwnd;
    }

    /// The item methods, over this control's handle.
    pub fn items(&self) -> (r: ListBoxItems)
        ensures
            r.hwnd == self.spec_hwnd(),
    {
        ListBoxItems { hwnd: self.hwnd }
    }
}

} // verus!
