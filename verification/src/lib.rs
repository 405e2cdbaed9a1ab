//! Decision logic of a dictation tool: when a recording starts and stops, and
//! which cleanup result the insert hotkey may use.

pub mod cleanup_laws;
pub mod coordinator;
pub mod coordinator_laws;
pub mod latest_cleanup;
pub mod lifecycle;
pub mod lifecycle_laws;
pub mod model;
pub mod shortcut;
pub mod text;
pub mod timing;
pub mod transition_laws;
