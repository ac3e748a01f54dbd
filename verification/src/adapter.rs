//! Process-wide adapter acquisition.
//!
//! The process holds exactly one platform Bluetooth adapter: the first
//! acquisition enumerates the platform's adapters and keeps the first one;
//! every later acquisition — including one racing the first — reuses that
//! singleton without enumerating again.

use vstd::prelude::*;
use crate::errors::BleError;

verus! {

/// Where the process stands in acquiring its adapter singleton.
#[derive(Clone, Copy, Debug, PartialEq, Eq, Structural)]
pub enum AdapterPhase {
    /// No acquisition has started yet.
    Uninitialized,
    /// One caller is enumerating the platform's adapters right now.
    Enumerating,
    /// The singleton is initialized and shared read-only until process exit.
    Ready,
}

/// What a caller that wants the adapter must do next.
#[derive(Clone, Copy, Debug, PartialEq, Eq, Structural)]
pub enum AdapterAction {
    /// First caller: enumerate the platform's adapters, once.
    EnumeratePlatformAdapters,
    /// Another caller's enumeration is in flight: wait for it, then use the
    /// singleton it installs.
    AwaitInitialization,
    /// The singleton exists: use it, no platform call.
    UseExisting,
}

/// The action an acquisition triggers, as a function of the phase alone:
/// only the very first acquisition enumerates.
pub open spec fn adapter_action_for(ph: AdapterPhase) -> AdapterAction {
    match ph {
        AdapterPhase::Uninitialized => AdapterAction::EnumeratePlatformAdapters,
        AdapterPhase::Enumerating => AdapterAction::AwaitInitialization,
        AdapterPhase::Ready => AdapterAction::UseExisting,
    }
}

/// The phase after an acquisition request is accepted.
pub open spec fn phase_after_acquire_begin(ph: AdapterPhase) -> AdapterPhase {
    if ph is Uninitialized {
        AdapterPhase::Enumerating
    } else {
        ph
    }
}

/// Drives the init-once lifecycle of the process's adapter singleton.
pub struct AdapterManager {
    phase: AdapterPhase,
}

impl AdapterManager {
    /// The current phase of the singleton.
    pub closed spec fn phase(self) -> AdapterPhase {
        self.phase
    }

    /// A fresh process: no adapter acquired yet.
    pub fn new() -> (m: Self)
        ensures
            m.phase() is Uninitialized,
    {
        AdapterManager { phase: AdapterPhase::Uninitialized }
    }

    /// Requests the adapter.  The first caller is told to enumerate (and the
    /// phase records the in-flight enumeration, so a racing caller is told
    /// to wait instead); once the singleton is ready every caller is told to
    /// reuse it, with no platform call.
    pub fn acquire_begin(&mut self) -> (a: AdapterAction)
        ensures
            a == adapter_action_for(old(self).phase()),
            final(self).phase() == phase_after_acquire_begin(old(self).phase()),
    {
        match self.phase {
            AdapterPhase::Uninitialized => {
                self.phase = AdapterPhase::Enumerating;
                AdapterAction::EnumeratePlatformAdapters
            },
            AdapterPhase::Enumerating => AdapterAction::AwaitInitialization,
            AdapterPhase::Ready => AdapterAction::UseExisting,
        }
    }

    /// Records how many adapters the one enumeration found.  The first
    /// adapter becomes the process singleton; an empty enumeration means no
    /// radio is present, which is fatal for initialization
    /// (`AdapterUnavailable`) and leaves the process uninitialized.
    pub fn acquire_finish(&mut self, adapters_found: usize) -> (r: Result<(), BleError>)
        requires
            old(self).phase() is Enumerating,
        ensures
            adapters_found > 0 ==> r == Ok::<(), BleError>(()) && final(self).phase() is Ready,
            adapters_found == 0 ==> r == Err::<(), BleError>(BleError::AdapterUnavailable)
                && final(self).phase() is Uninitialized,
    {
        if adapters_found > 0 {
            self.phase = AdapterPhase::Ready;
            Ok(())
        } else {
            self.phase = AdapterPhase::Uninitialized;
            Err(BleError::AdapterUnavailable)
        }
    }
}

/// Acquiring the adapter is init-once under contention: of two racing first
/// acquisitions exactly one enumerates, and once the singleton is ready no
/// acquisition ever enumerates again — every caller observes the same
/// instance.
pub proof fn lemma_adapter_init_once(ph: AdapterPhase)
    ensures
        ph is Uninitialized ==> adapter_action_for(ph) is EnumeratePlatformAdapters && !(
        adapter_action_for(phase_after_acquire_begin(ph)) is EnumeratePlatformAdapters),
        ph is Ready ==> adapter_action_for(ph) is UseExisting && phase_after_acquire_begin(ph)
            == ph,
{
}

} // verus!
