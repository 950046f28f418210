//! A safe, verified model of a native Windows API layer: typed constants,
//! handles, variant parameters, an event dispatch table and the composition
//! logic of dialogs and native controls.
pub mod co;
pub mod enums;
pub mod gui;
pub mod handles;
pub mod shell;
pub mod structs;
pub mod wstring;

pub use handles::{ATOM, HACCEL, HBITMAP, HICON, HINSTANCE, HMENU, HWND};
pub use enums::{AtomStr, BitmapPtrStr, IdIdcStr, IdIdiStr, IdMenu, IdPos, IdStr, RegistryValue};
pub use wstring::WString;
