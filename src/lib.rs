//! A status-indicator engine for a host's Bluetooth adapter.
//!
//! The library holds the decisions of three cooperating actors (the adapter
//! watcher, the reconciler and the indicator sink) as functions from plain
//! values to plain values, each with a contract that Verus proves. The
//! asynchronous plumbing that runs them lives in the application around it.
pub mod device;
pub mod ordering;
pub mod state;
pub mod events;
pub mod watcher;
pub mod reconciler;
pub mod tray;
pub mod killswitch;
