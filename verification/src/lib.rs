//! Keeps a machine awake on demand: the lifecycle of the single protected
//! session, the record that outlives each short-lived caller, the daemon that
//! holds the sleep inhibitor, and the adapter that turns launcher requests
//! into session commands.

pub mod adapter;
pub mod daemon;
pub mod error;
pub mod icons;
pub mod lifecycle;
pub mod manager;
pub mod session;
pub mod store;
pub mod text;
