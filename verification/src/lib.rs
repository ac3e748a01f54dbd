//! Central-role Bluetooth Low Energy (BLE) GATT client logic.
//!
//! The library models the peripheral connection lifecycle and the
//! notification-subscription protocol that a BLE central drives on top of a
//! platform Bluetooth capability.  Every decision the protocol makes — whether
//! a platform connect must be issued, which characteristics to subscribe to or
//! write, when bounded notification consumption stops — is an ordinary
//! function here, with a contract.  The asynchronous platform calls themselves
//! (adapter enumeration, scanning, GATT transport) are performed by a thin
//! driver around this crate, which feeds their outcomes back in as events.

use vstd::prelude::*;

pub mod adapter;
pub mod address;
pub mod connection;
pub mod discovery;
pub mod errors;
pub mod notify;
pub mod scanner;
pub mod write;

verus! {

/// Default bound on how many notification events a read operation consumes
/// before it stops.
pub const DEFAULT_EVENT_LIMIT: usize = 4;

} // verus!
