use winsafe::co;
use winsafe::{IdMenu, IdPos, RegistryValue, WString, HMENU};

#[test]
fn reg_type_of_each_variant() {
    assert_eq!(RegistryValue::Binary(vec![1, 2, 3]).reg_type(), co::REG::BINARY);
    assert_eq!(RegistryValue::Dword(1).reg_type(), co::REG::DWORD);
    assert_eq!(RegistryValue::Qword(1).reg_type(), co::REG::QWORD);
    assert_eq!(RegistryValue::Sz(WString::new()).reg_type(), co::REG::SZ);
    assert_eq!(RegistryValue::NoValue.reg_type(), co::REG::NONE);
}

#[test]
fn reg_type_raw_codes() {
    assert_eq!(co::REG::NONE.raw(), 0);
    assert_eq!(co::REG::SZ.raw(), 1);
    assert_eq!(co::REG::BINARY.raw(), 3);
    assert_eq!(co::REG::DWORD.raw(), 4);
    assert_eq!(co::REG::QWORD.raw(), 11);
}

#[test]
fn registry_value_len_counts_bytes() {
    assert_eq!(RegistryValue::Binary(vec![9; 7]).len(), 7);
    assert_eq!(RegistryValue::Binary(Vec::new()).len(), 0);
    assert_eq!(RegistryValue::Dword(0xdead).len(), 4);
    assert_eq!(RegistryValue::Qword(1).len(), 8);
    assert_eq!(RegistryValue::NoValue.len(), 0);
}

#[test]
fn registry_string_len_includes_terminator() {
    let s = WString::from_wchars_slice(&[0x61, 0x62, 0x63]);
    assert_eq!(RegistryValue::Sz(s).len(), 8);
    assert_eq!(RegistryValue::Sz(WString::new()).len(), 2);
}

#[test]
fn wstring_stops_at_first_null() {
    let s = WString::from_wchars_slice(&[0x48, 0x69, 0, 0x21]);
    assert_eq!(s.len(), 2);
    assert_eq!(s.to_wchars(), vec![0x48, 0x69]);
    assert_eq!(s.to_wchars_nullt(), vec![0x48, 0x69, 0]);
    assert!(!s.is_empty());
    assert!(WString::from_wchars_slice(&[0, 5]).is_empty());
}

#[test]
fn id_menu_to_word() {
    assert_eq!(usize::from(IdMenu::Id(300)), 300);
    assert_eq!(usize::from(IdMenu::Id(-1)), usize::MAX);
    assert_eq!(usize::from(IdMenu::Menu(HMENU(0x1234))), 0x1234);
    assert_eq!(usize::from(IdMenu::Nothing), 0);
}

#[test]
fn id_pos_to_u32() {
    assert_eq!(u32::from(IdPos::Id(42)), 42);
    assert_eq!(u32::from(IdPos::Id(-2)), 0xffff_fffe);
    assert_eq!(u32::from(IdPos::Pos(3)), 3);
}

#[test]
fn predefined_resource_ids() {
    assert_eq!(usize::from(co::IDC::ARROW), 32512);
    assert_eq!(usize::from(co::IDC::HAND), 32649);
    assert_eq!(usize::from(co::IDI::APPLICATION), 32512);
    assert_eq!(usize::from(co::IDI::SHIELD), 32518);
}

#[test]
fn window_style_union() {
    let ws = co::WS(co::WS::CHILD).or(co::WS(co::WS::VISIBLE));
    assert_eq!(ws.0, 0x5000_0000);
    assert_eq!(co::LBS(co::LBS::NOTIFY).into_ws(), co::WS(1));
}
