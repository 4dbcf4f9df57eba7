//! Runs an action again whenever watched files change.
//!
//! The library holds the decisions of a file watcher: which paths qualify
//! under include and exclude glob patterns, how often an action may be
//! triggered, and when a running action is stopped before a new one starts.
//! The watching itself and the action's effects are supplied by the caller.
pub mod pattern;
pub mod event;
pub mod gate;
pub mod watcher;

pub use event::ChangeEvent;
pub use gate::IntervalGate;
pub use pattern::{GlobPattern, PatternError};
pub use watcher::{ActionCall, Fwatcher, Reaction, WatchingMode};
