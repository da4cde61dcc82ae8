//! Decisions of the adapter watcher: session backoff, subscription retries, and
//! the hardware steps that carry out an intent.
use vstd::prelude::*;
use vstd::arithmetic::power2::{
    lemma2_to64, lemma_pow2_strictly_increases, lemma_pow2_unfold, pow2,
};

use crate::device::{device_is_on, Address, BTDevice};
use crate::events::Action;
use crate::state::BTState;

verus! {

/// Retries of session setup before the watcher gives up.
pub const SESSION_MAX_RETRIES: u32 = 16;

/// Ceiling of the backoff delay, in milliseconds.
pub const BACKOFF_CAP_MS: u64 = 65_536;

/// Failed subscription polls after which live updates are given up.
pub const SUBSCRIBE_MAX_RETRIES: u32 = 10;

/// Interval between subscription attempts, in milliseconds.
pub const SUBSCRIBE_POLL_MS: u64 = 1_000;

/// Pause after a power toggle before the adapter's state is trusted, in milliseconds.
pub const POWER_SETTLE_MS: u64 = 100;

/// Delay of the extra rebuild that follows a power toggle, in milliseconds.
pub const POWER_RECHECK_MS: u64 = 5_000;

/// The backoff delay before retry `attempt`: `min(2^attempt, 65536)` milliseconds.
pub open spec fn backoff_spec(attempt: nat) -> nat {
    if pow2(attempt) < BACKOFF_CAP_MS {
        pow2(attempt)
    } else {
        BACKOFF_CAP_MS as nat
    }
}

/// The delay before retry `attempt`, in milliseconds: `2^attempt`, capped at 65536.
pub fn backoff_delay_ms(attempt: u32) -> (r: u64)
    ensures
        r as nat == backoff_spec(attempt as nat),
{
    let mut d: u64 = 1;
    let mut k: u32 = 0;
    proof {
        lemma2_to64();
    }
    while k < attempt && d < BACKOFF_CAP_MS
        invariant
            k <= attempt,
            d as nat == pow2(k as nat),
            d <= BACKOFF_CAP_MS,
        decreases attempt - k,
    {
        proof {
            lemma_pow2_unfold((k + 1) as nat);
            lemma2_to64();
            if k >= 16 {
                if k > 16 {
                    lemma_pow2_strictly_increases(16, k as nat);
                }
            } else if k < 15 {
                lemma_pow2_strictly_increases(k as nat, 15);
            }
        }
        d = d * 2;
        k = k + 1;
    }
    if k < attempt {
        proof {
            lemma_pow2_strictly_increases(k as nat, attempt as nat);
        }
    }
    d
}

/// What follows a failed attempt to open the session.
#[derive(Debug, Clone, Copy, PartialEq, Eq)]
pub enum SessionStep {
    /// Sleep `delay_ms`, then make retry number `attempt`.
    Retry { attempt: u32, delay_ms: u64 },
    /// Report a fatal error: no more attempts.
    GiveUp,
}

/// The step after a failure, when `retries` retries have already been made.
pub open spec fn failure_step(retries: nat) -> SessionStep {
    if retries >= SESSION_MAX_RETRIES {
        SessionStep::GiveUp
    } else {
        SessionStep::Retry {
            attempt: (retries + 1) as u32,
            delay_ms: backoff_spec(retries + 1) as u64,
        }
    }
}

/// Progress of opening the radio session.
#[derive(Debug, Clone, Copy)]
pub struct SessionBootstrap {
    pub retries: u32,
}

impl SessionBootstrap {
    pub open spec fn wf(&self) -> bool {
        self.retries <= SESSION_MAX_RETRIES
    }

    /// No attempt has failed yet.
    pub fn new() -> (r: SessionBootstrap)
        ensures
            r.wf(),
            r.retries == 0,
    {
        SessionBootstrap { retries: 0 }
    }

    /// Records a failed attempt and says whether, and after which delay, to retry.
    pub fn on_failure(&mut self) -> (r: SessionStep)
        ensures
            old(self).wf() ==> final(self).wf(),
            r == failure_step(old(self).retries as nat),
            r is GiveUp ==> final(self).retries == old(self).retries,
            r is Retry ==> final(self).retries == old(self).retries + 1,
    {
        if self.retries >= SESSION_MAX_RETRIES {
            return SessionStep::GiveUp;
        }
        self.retries = self.retries + 1;
        SessionStep::Retry { attempt: self.retries, delay_ms: backoff_delay_ms(self.retries) }
    }
}

/// Session setup backs off by `min(2^n, 65536)` ms before retry `n`, retries
/// at most sixteen times, and gives up on the failure after the sixteenth retry.
pub proof fn lemma_backoff_schedule(retries: nat)
    ensures
        retries < SESSION_MAX_RETRIES ==> failure_step(retries) == (SessionStep::Retry {
            attempt: (retries + 1) as u32,
            delay_ms: backoff_spec(retries + 1) as u64,
        }),
        retries >= SESSION_MAX_RETRIES ==> failure_step(retries) is GiveUp,
        failure_step(retries) matches SessionStep::Retry { attempt, delay_ms } ==> 1 <= attempt
            <= SESSION_MAX_RETRIES && delay_ms as nat == backoff_spec(attempt as nat) && delay_ms
            <= BACKOFF_CAP_MS,
{
}

/// After `failed_polls` failed subscription attempts (each followed by one poll
/// interval), the count to continue with, or `None` to give up live updates.
pub fn after_subscribe_failure(failed_polls: u32) -> (r: Option<u32>)
    ensures
        failed_polls > SUBSCRIBE_MAX_RETRIES ==> r is None,
        failed_polls <= SUBSCRIBE_MAX_RETRIES ==> r == Some((failed_polls + 1) as u32),
{
    if failed_polls > SUBSCRIBE_MAX_RETRIES {
        None
    } else {
        Some(failed_polls + 1)
    }
}

/// One call the watcher makes on the hardware, in order.
#[derive(Debug, Clone, Copy, PartialEq)]
pub enum HardwareStep {
    /// Set the adapter's power.
    SetPowered(bool),
    /// Block (`true`) or unblock the adapter's kill switch.
    KillSwitch(bool),
    /// Wait this many milliseconds.
    Settle(u64),
    Connect(Address),
    Disconnect(Address),
    /// Start a detached timer that rebuilds and publishes after this many milliseconds.
    RebuildAfter(u64),
    /// Rebuild the snapshot now and publish it.
    Rebuild,
}

/// The steps that carry out `action` against a snapshot whose power flag is `on`.
pub open spec fn request_plan(action: Action, on: bool) -> Seq<HardwareStep> {
    match action {
        Action::ToggleBluetooth => seq![
            HardwareStep::SetPowered(!on),
            HardwareStep::KillSwitch(on),
            HardwareStep::Settle(POWER_SETTLE_MS),
            HardwareStep::RebuildAfter(POWER_RECHECK_MS),
            HardwareStep::Rebuild,
        ],
        Action::ToggleDevice(d) => seq![
            if device_is_on(d) {
                HardwareStep::Disconnect(d.address)
            } else {
                HardwareStep::Connect(d.address)
            },
            HardwareStep::Rebuild,
        ],
        Action::Scan => seq![],
    }
}

/// The hardware steps for an intent made against `state`: a power toggle flips
/// the power the intent saw, mirrors it on the kill switch, settles, and rebuilds
/// now and once more later; a device toggle disconnects a connected device and
/// connects any other, then rebuilds; a scan needs no call.
pub fn plan_request(action: &Action, state: &BTState) -> (r: Vec<HardwareStep>)
    ensures
        r@ == request_plan(*action, state.on),
{
    let mut steps: Vec<HardwareStep> = Vec::new();
    match action {
        Action::ToggleBluetooth => {
            steps.push(HardwareStep::SetPowered(!state.on));
            steps.push(HardwareStep::KillSwitch(state.on));
            steps.push(HardwareStep::Settle(POWER_SETTLE_MS));
            steps.push(HardwareStep::RebuildAfter(POWER_RECHECK_MS));
            steps.push(HardwareStep::Rebuild);
        },
        Action::ToggleDevice(d) => {
            if d.is_on() {
                steps.push(HardwareStep::Disconnect(d.address));
            } else {
                steps.push(HardwareStep::Connect(d.address));
            }
            steps.push(HardwareStep::Rebuild);
        },
        Action::Scan => {},
    }
    assert(steps@ =~= request_plan(*action, state.on));
    steps
}

} // verus!
