//! Service and characteristic discovery.
//!
//! Discovery enumerates the GATT services of a connected peripheral, each
//! with its characteristics and capability flags.  It requires the
//! peripheral to be connected, is exhaustive (a second call re-runs it), and
//! its result is only valid for the current connection epoch — a disconnect
//! invalidates it.

use vstd::prelude::*;
use crate::address::PeripheralAddress;
use crate::connection::ConnStatus;
use crate::errors::BleError;

verus! {

/// One GATT characteristic: its identifier and the capability flags the
/// library acts on.
#[derive(Clone, Copy, Debug, PartialEq, Eq, Structural)]
pub struct CharacteristicInfo {
    /// The characteristic's UUID, as its 128-bit value.
    pub uuid: u128,
    /// The characteristic supports notification subscriptions.
    pub notify: bool,
    /// The characteristic supports unacknowledged writes.
    pub write_without_response: bool,
}

/// One GATT service: its identifier and its characteristics, in discovery
/// order.  Immutable once discovered, for the lifetime of the connection.
#[derive(Clone, Debug, PartialEq, Eq)]
pub struct ServiceInfo {
    /// The service's UUID, as its 128-bit value.
    pub uuid: u128,
    pub characteristics: Vec<CharacteristicInfo>,
}

/// A resolved reference to one peripheral, owned for the duration of a
/// single operation: the parsed address plus the properties cached from the
/// platform at resolution time.
#[derive(Clone, Debug)]
pub struct PeripheralHandle {
    pub address: PeripheralAddress,
    /// The display name the platform reported, if any.
    pub name: Option<String>,
    /// The services discovered on the current connection epoch; empty until
    /// discovery has run.
    pub services: Vec<ServiceInfo>,
}

impl PeripheralHandle {
    /// A freshly resolved handle: no discovery has run yet.
    pub fn new(address: PeripheralAddress, name: Option<String>) -> (h: Self)
        ensures
            h.address == address,
            h.name == name,
            h.services@.len() == 0,
    {
        PeripheralHandle { address, name, services: Vec::new() }
    }

    /// The peripheral's display name, or `"Unknown"` when the platform
    /// reported none.
    pub fn display_name(&self) -> (r: String)
        ensures
            match self.name {
                Some(n) => r@ == n@,
                None => r@ == "Unknown"@,
            },
    {
        match &self.name {
            Some(n) => n.clone(),
            None => "Unknown".to_owned(),
        }
    }

    /// Installs the services the platform enumerated for the current
    /// connection epoch, replacing any earlier result wholesale.
    pub fn record_discovery(&mut self, services: Vec<ServiceInfo>)
        ensures
            final(self).address == old(self).address,
            final(self).name == old(self).name,
            final(self).services == services,
    {
        self.services = services;
    }

    /// Discards the discovery result: a disconnect ends the connection epoch
    /// the services were valid for.
    pub fn invalidate_discovery(&mut self)
        ensures
            final(self).address == old(self).address,
            final(self).name == old(self).name,
            final(self).services@.len() == 0,
    {
        self.services = Vec::new();
    }
}

/// Gate for every operation that needs a live connection: discovery,
/// subscribing, and writing may only proceed on a `Connected` peripheral,
/// and otherwise fail with `NotConnected`.
pub fn require_connected(st: ConnStatus) -> (r: Result<(), BleError>)
    ensures
        st is Connected ==> r == Ok::<(), BleError>(()),
        !(st is Connected) ==> r == Err::<(), BleError>(BleError::NotConnected),
{
    match st {
        ConnStatus::Connected => Ok(()),
        _ => Err(BleError::NotConnected),
    }
}

} // verus!
