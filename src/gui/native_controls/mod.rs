//! Native controls.
pub mod list_box;
