//! Variant parameters and values of native API calls.
use vstd::prelude::*;

use crate::co;
use crate::handles::{ATOM, HBITMAP, HMENU};
use crate::wstring::{WString, MAX_WCHARS};

verus! {

/// Class name of a window: a registered class atom, or its name.
pub enum AtomStr {
    Atom(ATOM),
    Str(WString),
}

/// New menu item content: a bitmap, a text, or an application-defined value.
pub enum BitmapPtrStr {
    Bitmap(HBITMAP),
    Str(WString),
    Param(usize),
}

/// Cursor to load: a resource ID, a predefined cursor, or a resource name.
pub enum IdIdcStr {
    Id(i32),
    Idc(co::IDC),
    Str(WString),
}

/// Icon to load: a resource ID, a predefined icon, or a resource name.
pub enum IdIdiStr {
    Id(i32),
    Idi(co::IDI),
    Str(WString),
}

/// Command ID of a menu item, the handle of a submenu, or nothing.
#[derive(Clone, Copy, PartialEq, Eq, Structural, Debug)]
pub enum IdMenu {
    Id(i32),
    Menu(HMENU),
    Nothing,
}

/// The single machine word that stands for an `IdMenu` in a native call.
pub open spec fn id_menu_word(v: IdMenu) -> usize {
    match v {
        IdMenu::Id(id) => id as usize,
        IdMenu::Menu(h) => h.0,
        IdMenu::Nothing => 0,
    }
}

impl From<IdMenu> for usize {
    fn from(v: IdMenu) -> (r: usize) {
        match v {
            IdMenu::Id(id) => id as usize,
            IdMenu::Menu(h) => h.0,
            IdMenu::Nothing => 0,
        }
    }
}

impl vstd::std_specs::convert::FromSpecImpl<IdMenu> for usize {
    open spec fn obeys_from_spec() -> bool {
        true
    }

    open spec fn from_spec(v: IdMenu) -> usize {
        id_menu_word(v)
    }
}

/// A menu item picked by its command ID, or by its zero-based position.
#[derive(Clone, Copy, PartialEq, Eq, Structural, Debug)]
pub enum IdPos {
    Id(i32),
    Pos(u32),
}

/// The 32-bit value that stands for an `IdPos` in a native call.
pub open spec fn id_pos_word(v: IdPos) -> u32 {
    match v {
        IdPos::Id(id) => id as u32,
        IdPos::Pos(pos) => pos,
    }
}

impl From<IdPos> for u32 {
    fn from(v: IdPos) -> (r: u32) {
        match v {
            IdPos::Id(id) => id as u32,
            IdPos::Pos(pos) => pos,
        }
    }
}

impl vstd::std_specs::convert::FromSpecImpl<IdPos> for u32 {
    open spec fn obeys_from_spec() -> bool {
        true
    }

    open spec fn from_spec(v: IdPos) -> u32 {
        id_pos_word(v)
    }
}

/// A resource picked by its integer ID or by its name.
pub enum IdStr {
    Id(i32),
    Str(WString),
}

/// A value stored in the registry.
pub enum RegistryValue {
    Binary(Vec<u8>),
    Dword(u32),
    Qword(u64),
    Sz(WString),
    NoValue,
}

/// The kind of registry value that `v` is stored as.
pub open spec fn reg_type_of(v: RegistryValue) -> co::REG {
    match v {
        RegistryValue::Binary(_) => co::REG::BINARY,
        RegistryValue::Dword(_) => co::REG::DWORD,
        RegistryValue::Qword(_) => co::REG::QWORD,
        RegistryValue::Sz(_) => co::REG::SZ,
        RegistryValue::NoValue => co::REG::NONE,
    }
}

/// Size in bytes of the data of `v`; a string counts its terminating null.
pub open spec fn reg_len_of(v: RegistryValue) -> int {
    match v {
        RegistryValue::Binary(b) => b@.len() as int,
        RegistryValue::Dword(_) => 4,
        RegistryValue::Qword(_) => 8,
        RegistryValue::Sz(s) => 2 * (s@.len() + 1) as int,
        RegistryValue::NoValue => 0,
    }
}

impl RegistryValue {
    /// The kind of registry value this is stored as.
    pub fn reg_type(&self) -> (r: co::REG)
        ensures
            r == reg_type_of(*self),
    {
        match self {
            RegistryValue::Binary(_) => co::REG::BINARY,
            RegistryValue::Dword(_) => co::REG::DWORD,
            RegistryValue::Qword(_) => co::REG::QWORD,
            RegistryValue::Sz(_) => co::REG::SZ,
            RegistryValue::NoValue => co::REG::NONE,
        }
    }

    /// Size in bytes of the stored data, including the terminating null of a
    /// string.
    pub fn len(&self) -> (r: usize)
        ensures
            r == reg_len_of(*self),
    {
        match self {
            RegistryValue::Binary(b) => b.len(),
            RegistryValue::Dword(_) => 4,
            RegistryValue::Qword(_) => 8,
            RegistryValue::Sz(s) => {
                let n = s.len();
                assert(n <= MAX_WCHARS);
                (n + 1) * 2
            },
            RegistryValue::NoValue => 0,
        }
    }
}

} // verus!
