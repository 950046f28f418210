use winsafe::co;
use winsafe::gui::base::Base;
use winsafe::gui::ctrl_ids::AutoCtrlId;
use winsafe::gui::dlg_main::{DlgMain, IconLoad};
use winsafe::gui::events::Handler;
use winsafe::gui::func_store::EventKey;
use winsafe::gui::native_controls::list_box::{ListBox, ListBoxCreate, ListBoxOpts};
use winsafe::gui::resizer::{Horz, Vert};
use winsafe::structs::{POINT, SIZE};
use winsafe::HWND;

#[test]
fn list_box_opts_defaults() {
    let o = ListBoxOpts::default();
    assert_eq!(o.position, POINT::new(0, 0));
    assert_eq!(o.size, SIZE::new(50, 50));
    assert_eq!(o.list_box_style.0, 0x0001);
    assert_eq!(o.window_style.0, 0x5003_0000);
    assert_eq!(o.window_ex_style.0, 0x0200);
    assert_eq!(o.ctrl_id, 0);
    assert!(o.items.is_empty());
    assert_eq!(o.horz_resize, Horz::Fixed);
    assert_eq!(o.vert_resize, Vert::Fixed);
}

#[test]
fn automatic_ids_increase() {
    let mut ids = AutoCtrlId::new();
    assert_eq!(ids.next_id(), 20001);
    assert_eq!(ids.next_id(), 20002);
    assert!(ids.can_issue());
}

#[test]
fn define_ctrl_id_keeps_a_given_id() {
    let mut ids = AutoCtrlId::new();
    let o = ListBoxOpts { ctrl_id: 42, ..ListBoxOpts::default() }.define_ctrl_id(&mut ids);
    assert_eq!(o.ctrl_id, 42);
    assert_eq!(ids.next_id(), 20001);
}

#[test]
fn define_ctrl_id_fills_a_zero_id() {
    let mut ids = AutoCtrlId::new();
    let o = ListBoxOpts::default().define_ctrl_id(&mut ids);
    assert_eq!(o.ctrl_id, 20001);
    let o2 = ListBoxOpts::default().define_ctrl_id(&mut ids);
    assert_eq!(o2.ctrl_id, 20002);
}

#[test]
fn list_box_new_schedules_creation() {
    let mut parent: Base<u8> = Base::new(false);
    let mut ids = AutoCtrlId::new();
    let opts = ListBoxOpts {
        position: POINT::new(10, 20),
        items: vec!["one".to_string(), "two".to_string()],
        horz_resize: Horz::Resize,
        ..ListBoxOpts::default()
    };
    let lb = ListBox::new(&mut parent, opts, &mut ids);
    assert_eq!(lb.ctrl_id(), 20001);
    assert!(lb.hwnd().is_null());
    assert_eq!(parent.children_to_create(co::WM::CREATE), vec![20001]);
    assert!(parent.children_to_create(co::WM::INITDIALOG).is_empty());
    match lb.create() {
        ListBoxCreate::Window { class_name, position, size, ctrl_id, window_ex_style, window_style, items, horz, vert } => {
            assert_eq!(class_name, "ListBox");
            assert_eq!(position, POINT::new(10, 20));
            assert_eq!(size, SIZE::new(50, 50));
            assert_eq!(ctrl_id, 20001);
            assert_eq!(window_ex_style.0, 0x0200);
            assert_eq!(window_style.0, 0x5003_0001);
            assert_eq!(items, vec!["one".to_string(), "two".to_string()]);
            assert_eq!(horz, Horz::Resize);
            assert_eq!(vert, Vert::Fixed);
        },
        ListBoxCreate::DlgItem { .. } => panic!("expected a new window"),
    }
}

#[test]
fn list_box_on_dialog_parent_waits_for_initdialog() {
    let mut parent: Base<u8> = Base::new(true);
    let mut ids = AutoCtrlId::new();
    let a = ListBox::new(&mut parent, ListBoxOpts { ctrl_id: 5, ..ListBoxOpts::default() }, &mut ids);
    let b = ListBox::new_dlg(&mut parent, 1001, Horz::Repos, Vert::Resize);
    assert_eq!(a.ctrl_id(), 5);
    assert_eq!(b.ctrl_id(), 1001);
    assert_eq!(parent.children_to_create(co::WM::INITDIALOG), vec![5, 1001]);
    assert!(parent.children_to_create(co::WM::CREATE).is_empty());
    match b.create() {
        ListBoxCreate::DlgItem { ctrl_id, horz, vert } => {
            assert_eq!(ctrl_id, 1001);
            assert_eq!(horz, Horz::Repos);
            assert_eq!(vert, Vert::Resize);
        },
        ListBoxCreate::Window { .. } => panic!("expected a dialog item"),
    }
}

#[test]
fn list_box_handle_and_events() {
    let mut parent: Base<u8> = Base::new(false);
    let mut ids = AutoCtrlId::new();
    let mut lb = ListBox::new_dlg(&mut parent, 300, Horz::Fixed, Vert::Fixed);
    let ev = lb.on();
    ev.lbn_sel_change(parent.on(), Handler::Custom(1));
    assert!(matches!(parent.on().find(EventKey::Cmd { ctrl_id: 300, code: 1 }), Some(Handler::Custom(1))));
    lb.set_hwnd(HWND(0x99));
    assert_eq!(lb.hwnd(), HWND(0x99));
    assert_eq!(lb.items().hwnd, HWND(0x99));
    assert!(ids.can_issue());
}

#[test]
fn parent_window_handle_and_start_message() {
    let mut w: Base<u8> = Base::new(false);
    assert!(w.hwnd().is_null());
    assert_eq!(w.wmcreate_or_wminitdialog(), co::WM::CREATE);
    w.set_hwnd(HWND(7));
    assert_eq!(w.hwnd(), HWND(7));
    let d: Base<u8> = Base::new(true);
    assert!(d.is_dialog());
    assert_eq!(d.wmcreate_or_wminitdialog(), co::WM::INITDIALOG);
}

#[test]
fn dlg_main_default_handlers() {
    let d: DlgMain<u8> = DlgMain::new(100, None, None);
    let base = d.base_ref();
    assert!(base.is_dialog());
    assert!(base.hwnd().is_null());
    let mut d = d;
    let ev = d.on();
    assert!(matches!(ev.find(EventKey::Wm(co::WM::CLOSE)), Some(Handler::DestroyWindow)));
    assert!(matches!(ev.find(EventKey::Wm(co::WM::NCDESTROY)), Some(Handler::PostQuit(0))));
    assert!(ev.find(EventKey::Wm(co::WM::CREATE)).is_none());
}

#[test]
fn dlg_main_user_handler_replaces_default() {
    let mut d: DlgMain<u8> = DlgMain::new(100, None, None);
    d.on().wm_close(Handler::Custom(4));
    assert!(matches!(d.on().find(EventKey::Wm(co::WM::CLOSE)), Some(Handler::Custom(4))));
}

#[test]
fn dlg_main_run_plan_with_icon() {
    let d: DlgMain<u8> = DlgMain::new(101, Some(7), Some(9));
    let plan = d.run_main(None);
    assert_eq!(plan.dialog_id, 101);
    assert_eq!(plan.accel_table_id, Some(9));
    assert_eq!(plan.cmd_show, co::SW::SHOW);
    assert_eq!(
        plan.icons,
        vec![
            IconLoad { icon_id: 7, cx: 16, cy: 16, size: co::ICON_SZ::SMALL },
            IconLoad { icon_id: 7, cx: 32, cy: 32, size: co::ICON_SZ::BIG },
        ],
    );
}

#[test]
fn dlg_main_run_plan_without_icon() {
    let mut d: DlgMain<u8> = DlgMain::new(102, None, None);
    let mut ids = AutoCtrlId::new();
    let lb = ListBox::new(d.base_mut(), ListBoxOpts::default(), &mut ids);
    assert_eq!(d.base_ref().children_to_create(co::WM::INITDIALOG), vec![lb.ctrl_id()]);
    let plan = d.run_main(Some(co::SW::SHOWMAXIMIZED));
    assert_eq!(plan.dialog_id, 102);
    assert_eq!(plan.accel_table_id, None);
    assert!(plan.icons.is_empty());
    assert_eq!(plan.cmd_show, co::SW::SHOWMAXIMIZED);
}
