//! The messages that pass between the watcher, the reconciler and the indicator.
use vstd::prelude::*;

use crate::device::BTDevice;
use crate::state::BTState;

verus! {

/// Capacity of every mailbox between the actors.
pub const MAILBOX_CAPACITY: usize = 32;

/// Control messages of the reconciler's own loop.
#[derive(Debug, Clone, Copy, PartialEq, Eq, Structural)]
pub enum Event {
    Update,
    Shutdown,
}

/// A user intent.
#[derive(Debug)]
pub enum Action {
    ToggleBluetooth,
    ToggleDevice(BTDevice),
    Scan,
}

impl Clone for Action {
    fn clone(&self) -> (r: Self)
        ensures
            r == *self,
    {
        match self {
            Action::ToggleBluetooth => Action::ToggleBluetooth,
            Action::ToggleDevice(d) => Action::ToggleDevice(d.clone()),
            Action::Scan => Action::Scan,
        }
    }
}

/// What the reconciler sends to the watcher: the first snapshot, or an intent
/// together with the snapshot it was made against.
#[derive(Debug)]
pub enum BTEvent {
    Init(BTState),
    Request { action: Action, state: BTState },
}

/// What the reconciler receives: a user intent, or a fresh snapshot.
#[derive(Debug)]
pub enum AppEvent {
    Request(Action),
    Response(BTState),
}

/// What the indicator sink receives.
#[derive(Debug)]
pub enum TrayEvent {
    Update(BTState),
}

} // verus!
