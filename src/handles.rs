//! Opaque handles to objects owned by the system, held as their integer value.
use vstd::prelude::*;

verus! {

/// Handle to a window. The value zero is the null handle.
#[derive(Clone, Copy, PartialEq, Eq, Structural, Debug)]
pub struct HWND(pub usize);

impl HWND {
    /// The null handle, which refers to no window.
    pub fn null() -> (r: HWND)
        ensures
            r.0 == 0,
    {
        HWND(0)
    }

    /// Whether this is the null handle.
    pub fn is_null(&self) -> (r: bool)
        ensures
            r == (self.0 == 0),
    {
        self.0 == 0
    }
}

/// Handle to a menu.
#[derive(Clone, Copy, PartialEq, Eq, Structural, Debug)]
pub struct HMENU(pub usize);

/// Handle to a bitmap.
#[derive(Clone, Copy, PartialEq, Eq, Structural, Debug)]
pub struct HBITMAP(pub usize);

/// Handle to a loaded module.
#[derive(Clone, Copy, PartialEq, Eq, Structural, Debug)]
pub struct HINSTANCE(pub usize);

/// Handle to an accelerator table.
#[derive(Clone, Copy, PartialEq, Eq, Structural, Debug)]
pub struct HACCEL(pub usize);

/// Handle to an icon.
#[derive(Clone, Copy, PartialEq, Eq, Structural, Debug)]
pub struct HICON(pub usize);

/// Atom identifying a registered window class.
#[derive(Clone, Copy, PartialEq, Eq, Structural, Debug)]
pub struct ATOM(pub u16);

} // verus!
