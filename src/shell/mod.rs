//! Shell interfaces.
pub mod property_store;
