//! Plain structures of the native API.
use vstd::prelude::*;

verus! {

/// A point, in pixels.
#[derive(Clone, Copy, PartialEq, Eq, Structural, Debug)]
pub struct POINT {
    pub x: i32,
    pub y: i32,
}

impl POINT {
    pub fn new(x: i32, y: i32) -> (r: POINT)
        ensures
            r.x == x,
            r.y == y,
    {
        POINT { x, y }
    }
}

/// A width and a height, in pixels.
#[derive(Clone, Copy, PartialEq, Eq, Structural, Debug)]
pub struct SIZE {
    pub cx: i32,
    pub cy: i32,
}

impl SIZE {
    pub fn new(cx: i32, cy: i32) -> (r: SIZE)
        ensures
            r.cx == cx,
            r.cy == cy,
    {
        SIZE { cx, cy }
    }
}

} // verus!

verus! {

/// A globally unique identifier.
#[derive(Clone, Copy, PartialEq, Eq, Structural, Debug)]
pub struct GUID {
    pub data1: u32,
    pub data2: u16,
    pub data3: u16,
    pub data4: u64,
}

/// Identifies a property: its format ID and its property ID.
#[derive(Clone, Copy, PartialEq, Eq, Structural, Debug)]
pub struct PROPERTYKEY {
    pub fmtid: GUID,
    pub pid: u32,
}

} // verus!
