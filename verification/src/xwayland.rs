//! The X compatibility layer of the compositor.

pub mod manager;
