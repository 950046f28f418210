//! Typed constants of the native API.
#![allow(non_camel_case_types)]

use vstd::prelude::*;

verus! {

/// Window styles (`WS`), a set of bit flags.
#[derive(Clone, Copy, PartialEq, Eq, Structural, Debug)]
pub struct WS(pub u32);

impl WS {
    pub const CHILD: u32 = 0x4000_0000;
    pub const VISIBLE: u32 = 0x1000_0000;
    pub const TABSTOP: u32 = 0x0001_0000;
    pub const GROUP: u32 = 0x0002_0000;

    /// Union of two sets of flags.
    pub fn or(self, other: WS) -> (r: WS)
        ensures
            r.0 == self.0 | other.0,
    {
        WS(self.0 | other.0)
    }
}

/// Extended window styles (`WS_EX`), a set of bit flags.
#[derive(Clone, Copy, PartialEq, Eq, Structural, Debug)]
pub struct WS_EX(pub u32);

impl WS_EX {
    pub const LEFT: u32 = 0x0000_0000;
    pub const CLIENTEDGE: u32 = 0x0000_0200;
}

/// List box styles (`LBS`), a set of bit flags.
#[derive(Clone, Copy, PartialEq, Eq, Structural, Debug)]
pub struct LBS(pub u32);

impl LBS {
    pub const NOTIFY: u32 = 0x0001;
    pub const SORT: u32 = 0x0002;
    pub const MULTIPLESEL: u32 = 0x0008;

    /// The same bits, read as window styles.
    pub fn into_ws(self) -> (r: WS)
        ensures
            r.0 == self.0,
    {
        WS(self.0)
    }
}

/// Kind of a registry value (`REG`).
#[derive(Clone, Copy, PartialEq, Eq, Structural, Debug)]
pub enum REG {
    NONE,
    SZ,
    EXPAND_SZ,
    BINARY,
    DWORD,
    DWORD_BIG_ENDIAN,
    LINK,
    MULTI_SZ,
    QWORD,
}

pub open spec fn reg_raw(r: REG) -> u32 {
    match r {
        REG::NONE => 0,
        REG::SZ => 1,
        REG::EXPAND_SZ => 2,
        REG::BINARY => 3,
        REG::DWORD => 4,
        REG::DWORD_BIG_ENDIAN => 5,
        REG::LINK => 6,
        REG::MULTI_SZ => 7,
        REG::QWORD => 11,
    }
}

impl REG {
    /// The numeric code of this kind.
    pub fn raw(self) -> (r: u32)
        ensures
            r == reg_raw(self),
    {
        match self {
            REG::NONE => 0,
            REG::SZ => 1,
            REG::EXPAND_SZ => 2,
            REG::BINARY => 3,
            REG::DWORD => 4,
            REG::DWORD_BIG_ENDIAN => 5,
            REG::LINK => 6,
            REG::MULTI_SZ => 7,
            REG::QWORD => 11,
        }
    }
}

/// Predefined cursors (`IDC`), passed as integer resource identifiers.
#[derive(Clone, Copy, PartialEq, Eq, Structural, Debug)]
pub enum IDC {
    ARROW,
    IBEAM,
    WAIT,
    CROSS,
    UPARROW,
    SIZEALL,
    NO,
    HAND,
    APPSTARTING,
    HELP,
}

pub open spec fn idc_raw(c: IDC) -> usize {
    match c {
        IDC::ARROW => 32512,
        IDC::IBEAM => 32513,
        IDC::WAIT => 32514,
        IDC::CROSS => 32515,
        IDC::UPARROW => 32516,
        IDC::SIZEALL => 32646,
        IDC::NO => 32648,
        IDC::HAND => 32649,
        IDC::APPSTARTING => 32650,
        IDC::HELP => 32651,
    }
}

impl From<IDC> for usize {
    fn from(c: IDC) -> (r: usize) {
        match c {
            IDC::ARROW => 32512,
            IDC::IBEAM => 32513,
            IDC::WAIT => 32514,
            IDC::CROSS => 32515,
            IDC::UPARROW => 32516,
            IDC::SIZEALL => 32646,
            IDC::NO => 32648,
            IDC::HAND => 32649,
            IDC::APPSTARTING => 32650,
            IDC::HELP => 32651,
        }
    }
}

impl vstd::std_specs::convert::FromSpecImpl<IDC> for usize {
    open spec fn obeys_from_spec() -> bool {
        true
    }

    open spec fn from_spec(c: IDC) -> usize {
        idc_raw(c)
    }
}

/// Predefined icons (`IDI`), passed as integer resource identifiers.
#[derive(Clone, Copy, PartialEq, Eq, Structural, Debug)]
pub enum IDI {
    APPLICATION,
    ERROR,
    QUESTION,
    WARNING,
    INFORMATION,
    WINLOGO,
    SHIELD,
}

pub open spec fn idi_raw(i: IDI) -> usize {
    match i {
        IDI::APPLICATION => 32512,
        IDI::ERROR => 32513,
        IDI::QUESTION => 32514,
        IDI::WARNING => 32515,
        IDI::INFORMATION => 32516,
        IDI::WINLOGO => 32517,
        IDI::SHIELD => 32518,
    }
}

impl From<IDI> for usize {
    fn from(i: IDI) -> (r: usize) {
        match i {
            IDI::APPLICATION => 32512,
            IDI::ERROR => 32513,
            IDI::QUESTION => 32514,
            IDI::WARNING => 32515,
            IDI::INFORMATION => 32516,
            IDI::WINLOGO => 32517,
            IDI::SHIELD => 32518,
        }
    }
}

impl vstd::std_specs::convert::FromSpecImpl<IDI> for usize {
    open spec fn obeys_from_spec() -> bool {
        true
    }

    open spec fn from_spec(i: IDI) -> usize {
        idi_raw(i)
    }
}

/// How a window is shown (`SW`).
#[derive(Clone, Copy, PartialEq, Eq, Structural, Debug)]
pub enum SW {
    HIDE,
    SHOWNORMAL,
    SHOWMINIMIZED,
    SHOWMAXIMIZED,
    SHOW,
    SHOWDEFAULT,
}

/// Size of an icon set on a window (`ICON_SZ`).
#[derive(Clone, Copy, PartialEq, Eq, Structural, Debug)]
pub enum ICON_SZ {
    SMALL,
    BIG,
}

/// Window message codes (`WM`).
pub struct WM;

impl WM {
    pub const CREATE: u32 = 0x0001;
    pub const DESTROY: u32 = 0x0002;
    pub const CLOSE: u32 = 0x0010;
    pub const NCDESTROY: u32 = 0x0082;
    pub const INITDIALOG: u32 = 0x0110;
    pub const COMMAND: u32 = 0x0111;
}

/// List box notification codes (`LBN`), sent through `WM_COMMAND`.
pub struct LBN;

impl LBN {
    pub const ERRSPACE: u16 = 0xfffe;
    pub const SELCHANGE: u16 = 1;
    pub const DBLCLK: u16 = 2;
    pub const SELCANCEL: u16 = 3;
    pub const SETFOCUS: u16 = 4;
    pub const KILLFOCUS: u16 = 5;
}

/// Result code of a COM call (`HRESULT`).
#[derive(Clone, Copy, PartialEq, Eq, Structural, Debug)]
pub struct HRESULT(pub u32);

impl HRESULT {
    pub const S_OK: u32 = 0;
    pub const E_FAIL: u32 = 0x8000_4005;
    pub const E_INVALIDARG: u32 = 0x8007_0057;
}

} // verus!
