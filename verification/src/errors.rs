use vstd::prelude::*;

verus! {

/// The recoverable failure conditions that the library's operations surface.
///
/// None of these terminates the process: every operation returns a typed
/// result that the caller can inspect and retry or report.
#[derive(Clone, Copy, Debug, PartialEq, Eq, Structural)]
pub enum BleError {
    /// No Bluetooth adapter is present; initialization cannot proceed.
    AdapterUnavailable,
    /// The peripheral address string is malformed; rejected before any
    /// platform call is made.
    AddressParseError,
    /// The address is well-formed but no matching peripheral is known to the
    /// adapter (possibly transient; the peripheral may appear after a scan).
    PeripheralNotFound,
    /// The platform refused or timed out a connect attempt (retryable).
    ConnectionError,
    /// A discovery, subscribe, or write operation was attempted on a
    /// peripheral that is not connected.
    NotConnected,
    /// The platform refused a subscribe request.
    SubscriptionError,
    /// The platform refused a write request.
    WriteError,
    /// The platform refused a disconnect request.
    DisconnectionError,
}

} // verus!
