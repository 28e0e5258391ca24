//! The handler traits of the input objects, and the wrappers whose entry
//! points the notifications of those objects arrive at.

pub mod keyboard_handler;
pub mod tablet_tool_handler;
