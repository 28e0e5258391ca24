//! Typed views of the payloads that come with notifications.

pub mod key_events;
pub mod tablet_tool_events;
