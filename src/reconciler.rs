//! The reconciler: owner of the one current snapshot.
use vstd::prelude::*;

use crate::events::{Action, AppEvent, BTEvent, Event, TrayEvent};
use crate::state::BTState;

verus! {

/// A message the reconciler hands on.
#[derive(Debug)]
pub enum Outgoing {
    /// To the watcher: carry out an intent.
    ToWatcher(BTEvent),
    /// To the indicator sink: show a snapshot.
    ToTray(TrayEvent),
}

/// The reconciler's state: the snapshot it holds, and whether it still takes intents.
#[derive(Debug)]
pub struct Reconciler {
    pub state: BTState,
    pub running: bool,
}

impl Reconciler {
    /// Holds the default snapshot (powered off, no devices) and takes intents.
    pub fn new() -> (r: Reconciler)
        ensures
            !r.state.on,
            r.state.devices@.len() == 0,
            r.running,
    {
        Reconciler { state: BTState::default(), running: true }
    }

    /// Handles one message. An intent is forwarded to the watcher together with
    /// a copy of the held snapshot, unless the reconciler has shut down; a
    /// snapshot replaces the held one wholesale and is published, whatever its source.
    pub fn handle(&mut self, event: AppEvent) -> (r: Option<Outgoing>)
        ensures
            final(self).running == old(self).running,
            event matches AppEvent::Request(a) ==> {
                &&& final(self).state.on == old(self).state.on
                &&& final(self).state.devices@ == old(self).state.devices@
                &&& old(self).running ==> (r matches Some(
                    Outgoing::ToWatcher(BTEvent::Request { action, state }),
                ) && action == a && state.on == old(self).state.on && state.devices@ == old(
                    self,
                ).state.devices@)
                &&& !old(self).running ==> r is None
            },
            event matches AppEvent::Response(s) ==> {
                &&& final(self).state.on == s.on
                &&& final(self).state.devices@ == s.devices@
                &&& (r matches Some(Outgoing::ToTray(TrayEvent::Update(p))) && p.on == s.on
                    && p.devices@ == s.devices@)
            },
    {
        match event {
            AppEvent::Request(action) => {
                if self.running {
                    Some(Outgoing::ToWatcher(BTEvent::Request { action, state: self.state.clone() }))
                } else {
                    None
                }
            },
            AppEvent::Response(state) => {
                let published = state.clone();
                self.state = state;
                Some(Outgoing::ToTray(TrayEvent::Update(published)))
            },
        }
    }

    /// Handles a control message; returns whether the receive loop goes on.
    /// After `Shutdown` no new intent is taken.
    pub fn on_event(&mut self, event: Event) -> (r: bool)
        ensures
            r == (event == Event::Update),
            final(self).running == (old(self).running && event == Event::Update),
            final(self).state == old(self).state,
    {
        match event {
            Event::Update => true,
            Event::Shutdown => {
                self.running = false;
                false
            },
        }
    }
}

} // verus!
