//! Windows, dialogs and native controls, and the events they dispatch.
pub mod func_store;
pub mod events;
pub mod base;
pub mod ctrl_ids;
pub mod resizer;
pub mod native_controls;
pub mod dlg_main;
