//! A global keyboard hook controller: a watch set of key codes, a single-slot
//! registry that routes the operating system's hook callback to the active
//! controller, the dispatch decisions taken on every key notification, and the
//! controller's start/stop state machine.
//!
//! Everything here is decision logic over plain values. The thread that pumps
//! the operating system's message queue, the native hook and the handler live
//! with the caller, which performs the actions that this crate decides on.

mod controller;
mod dispatch;
mod event;
mod registry;
mod watch;

pub use controller::{HookPhase, KeyboardHook, StartAction, StopAction};
pub use dispatch::{decode_transition, filter_notification, verdict, HookVerdict};
pub use event::{KeyHookEvent, KeyState, RegisterError};
pub use registry::HookRegistry;
pub use watch::WatchSet;
