//! A safety layer between a native compositor library, which owns its objects
//! and frees them when it sees fit, and the callbacks of an application.
//!
//! * [`handle`]: weak, runtime-checked handles to native-owned objects, and
//!   the store that decides whether a handle still reaches its object;
//! * [`state_slot`]: the one slot of application state per compositor, with
//!   its single-writer discipline;
//! * [`listener`]: listener bindings and the wrapper that owns them;
//! * [`compositor`]: what every callback is handed;
//! * [`input`], [`events`]: the objects and the event payloads as plain values;
//! * [`dispatch`]: what a notification leads to, decided before any callback;
//! * [`manager`], [`xwayland`]: the handler traits of the object kinds and the
//!   entry points that their notifications arrive at.
//!
//! Nothing here holds a pointer into the native library. An object is known by
//! a [`handle::Handle`], typed by the kind of object and checked against its
//! store at every access, so that an access after the native library has
//! destroyed the object is an error value and never a use of freed memory.

pub mod compositor;
pub mod dispatch;
pub mod events;
pub mod handle;
pub mod input;
pub mod listener;
pub mod manager;
pub mod state_slot;
pub mod xwayland;
