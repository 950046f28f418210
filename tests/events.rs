use winsafe::co;
use winsafe::gui::events::{Handler, ListBoxEvents, WindowEvents};
use winsafe::gui::func_store::{EventKey, FuncStore};

#[test]
fn empty_store_finds_nothing() {
    let s: FuncStore<u32> = FuncStore::new();
    assert!(s.find(EventKey::Wm(co::WM::CREATE)).is_none());
}

#[test]
fn last_registration_wins() {
    let mut s: FuncStore<u32> = FuncStore::new();
    s.push(EventKey::Wm(co::WM::CLOSE), 1);
    s.push(EventKey::Wm(co::WM::CREATE), 2);
    s.push(EventKey::Wm(co::WM::CLOSE), 3);
    assert_eq!(s.find(EventKey::Wm(co::WM::CLOSE)), Some(&3));
    assert_eq!(s.find(EventKey::Wm(co::WM::CREATE)), Some(&2));
    assert!(s.find(EventKey::Wm(co::WM::DESTROY)).is_none());
}

#[test]
fn command_keys_are_per_control_and_code() {
    let mut s: FuncStore<&str> = FuncStore::new();
    s.push(EventKey::Cmd { ctrl_id: 10, code: 1 }, "a");
    s.push(EventKey::Cmd { ctrl_id: 11, code: 1 }, "b");
    assert_eq!(s.find(EventKey::Cmd { ctrl_id: 10, code: 1 }), Some(&"a"));
    assert_eq!(s.find(EventKey::Cmd { ctrl_id: 11, code: 1 }), Some(&"b"));
    assert!(s.find(EventKey::Cmd { ctrl_id: 10, code: 2 }).is_none());
    assert!(s.find(EventKey::Wm(10)).is_none());
}

#[test]
fn key_of_arriving_message() {
    assert_eq!(EventKey::from_msg(co::WM::CLOSE, 0x1234_5678), EventKey::Wm(co::WM::CLOSE));
    assert_eq!(
        EventKey::from_msg(co::WM::COMMAND, 0x0002_0065),
        EventKey::Cmd { ctrl_id: 0x65, code: co::LBN::DBLCLK },
    );
    assert_eq!(
        EventKey::from_msg(co::WM::COMMAND, 0xffff_ffff),
        EventKey::Cmd { ctrl_id: 0xffff, code: 0xffff },
    );
}

#[test]
fn window_events_named_messages() {
    let mut ev: WindowEvents<u8> = WindowEvents::new();
    ev.wm_create(Handler::Custom(1));
    ev.wm_close(Handler::DestroyWindow);
    ev.wm_nc_destroy(Handler::PostQuit(0));
    ev.wm_init_dialog(Handler::Custom(2));
    assert!(matches!(ev.find(EventKey::Wm(0x0001)), Some(Handler::Custom(1))));
    assert!(matches!(ev.find(EventKey::Wm(0x0010)), Some(Handler::DestroyWindow)));
    assert!(matches!(ev.find(EventKey::Wm(0x0082)), Some(Handler::PostQuit(0))));
    assert!(matches!(ev.find(EventKey::Wm(0x0110)), Some(Handler::Custom(2))));
    ev.wm(co::WM::CLOSE, Handler::Custom(9));
    assert!(matches!(ev.find(EventKey::Wm(co::WM::CLOSE)), Some(Handler::Custom(9))));
}

#[test]
fn list_box_notifications_go_to_parent() {
    let mut ev: WindowEvents<u8> = WindowEvents::new();
    let lb = ListBoxEvents::new(77);
    lb.lbn_sel_change(&mut ev, Handler::Custom(5));
    lb.lbn_dbl_clk(&mut ev, Handler::Custom(6));
    lb.lbn(&mut ev, co::LBN::KILLFOCUS, Handler::Custom(7));
    assert!(matches!(ev.find(EventKey::Cmd { ctrl_id: 77, code: 1 }), Some(Handler::Custom(5))));
    assert!(matches!(ev.find(EventKey::Cmd { ctrl_id: 77, code: 2 }), Some(Handler::Custom(6))));
    assert!(matches!(ev.find(EventKey::Cmd { ctrl_id: 77, code: 5 }), Some(Handler::Custom(7))));
    assert!(ev.find(EventKey::Cmd { ctrl_id: 78, code: 1 }).is_none());
}
