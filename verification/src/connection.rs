//! The per-address connection lifecycle.
//!
//! Each peripheral address moves through the states `Disconnected →
//! Connecting → Connected → Disconnecting → Disconnected`.  The
//! `ConnectionManager` owns this state machine for every address and decides
//! which platform operation, if any, a caller must issue; the caller performs
//! the asynchronous platform call and reports its outcome back.  Requests for
//! the same address serialize on the in-flight transition, so at most one
//! platform connect is ever issued per transition; requests for different
//! addresses are independent.

use vstd::prelude::*;
use crate::address::{address_value, parse_address, valid_address_chars, PeripheralAddress};
use crate::errors::BleError;

verus! {

/// The connection state of one peripheral address.
#[derive(Clone, Copy, Debug, PartialEq, Eq, Structural)]
pub enum ConnStatus {
    Disconnected,
    Connecting,
    Connected,
    Disconnecting,
}

/// What a caller that requested a connection must do next.
#[derive(Clone, Copy, Debug, PartialEq, Eq, Structural)]
pub enum ConnectAction {
    /// The address was `Disconnected`: the caller must resolve the peripheral
    /// and issue the one platform connect for this transition.
    IssuePlatformConnect,
    /// Another caller's transition is in flight: issue nothing and wait for
    /// that transition to settle.
    AwaitInFlight,
    /// Already `Connected`: nothing to do, the existing connection is reused.
    NoOperation,
}

/// What a caller that requested a disconnection must do next.
#[derive(Clone, Copy, Debug, PartialEq, Eq, Structural)]
pub enum DisconnectAction {
    /// The address was `Connected`: the caller must issue the one platform
    /// disconnect for this transition.
    IssuePlatformDisconnect,
    /// Not connected: disconnecting is a no-op that succeeds immediately.
    NoOperation,
}

/// How the platform answered an issued connect.
#[derive(Clone, Copy, Debug, PartialEq, Eq, Structural)]
pub enum PlatformConnectOutcome {
    /// The peripheral was resolved and the connect completed.
    Established,
    /// No peripheral with this address is known to the adapter.
    NotFound,
    /// The platform refused or timed out the connect.
    Refused,
}

/// The action a connect request triggers, as a function of the address's
/// current state alone.
pub open spec fn connect_action_for(st: ConnStatus) -> ConnectAction {
    match st {
        ConnStatus::Disconnected => ConnectAction::IssuePlatformConnect,
        ConnStatus::Connected => ConnectAction::NoOperation,
        ConnStatus::Connecting => ConnectAction::AwaitInFlight,
        ConnStatus::Disconnecting => ConnectAction::AwaitInFlight,
    }
}

/// The state an address moves to when a connect request is accepted.
pub open spec fn status_after_connect_begin(st: ConnStatus) -> ConnStatus {
    if st is Disconnected {
        ConnStatus::Connecting
    } else {
        st
    }
}

/// The state an address settles in once the platform answers a connect.
pub open spec fn status_after_connect_finish(o: PlatformConnectOutcome) -> ConnStatus {
    if o is Established {
        ConnStatus::Connected
    } else {
        ConnStatus::Disconnected
    }
}

/// The error a failed platform connect surfaces.
pub open spec fn connect_failure_error(o: PlatformConnectOutcome) -> BleError {
    if o is NotFound {
        BleError::PeripheralNotFound
    } else {
        BleError::ConnectionError
    }
}

/// The action a disconnect request triggers: only a `Connected` address has
/// anything to tear down.
pub open spec fn disconnect_action_for(st: ConnStatus) -> DisconnectAction {
    if st is Connected {
        DisconnectAction::IssuePlatformDisconnect
    } else {
        DisconnectAction::NoOperation
    }
}

/// The state an address moves to when a disconnect request is accepted.
pub open spec fn status_after_disconnect_begin(st: ConnStatus) -> ConnStatus {
    if st is Connected {
        ConnStatus::Disconnecting
    } else {
        st
    }
}

/// The state an address settles in once the platform answers a disconnect:
/// back to `Disconnected` on success, still `Connected` if the platform
/// refused to tear the link down.
pub open spec fn status_after_disconnect_finish(ok: bool) -> ConnStatus {
    if ok {
        ConnStatus::Disconnected
    } else {
        ConnStatus::Connected
    }
}

/// Tracks the connection state machine of every address this process has
/// touched.  An address never seen is `Disconnected`.
pub struct ConnectionManager {
    entries: Vec<(u64, ConnStatus)>,
}

impl ConnectionManager {
    /// Each tracked address occurs at most once.
    pub closed spec fn wf(self) -> bool {
        forall|i: int, j: int|
            0 <= i < j < self.entries@.len() ==> (#[trigger] self.entries@[i]).0 != (
            #[trigger] self.entries@[j]).0
    }

    /// The state of address `a`: the tracked state, or `Disconnected` for an
    /// address never seen.
    pub closed spec fn status(self, a: u64) -> ConnStatus {
        if exists|i: int| 0 <= i < self.entries@.len() && (#[trigger] self.entries@[i]).0 == a {
            let i = choose|i: int|
                0 <= i < self.entries@.len() && (#[trigger] self.entries@[i]).0 == a;
            self.entries@[i].1
        } else {
            ConnStatus::Disconnected
        }
    }

    proof fn lemma_status_at(self, a: u64, i: int)
        requires
            self.wf(),
            0 <= i < self.entries@.len(),
            self.entries@[i].0 == a,
        ensures
            self.status(a) == self.entries@[i].1,
    {
        let j = choose|j: int|
            0 <= j < self.entries@.len() && (#[trigger] self.entries@[j]).0 == a;
        if i < j {
            assert(self.entries@[i].0 != self.entries@[j].0);
        } else if j < i {
            assert(self.entries@[j].0 != self.entries@[i].0);
        }
    }

    /// A fresh manager: every address is `Disconnected`.
    pub fn new() -> (m: Self)
        ensures
            m.wf(),
            forall|a: u64| m.status(a) is Disconnected,
    {
        ConnectionManager { entries: Vec::new() }
    }

    fn find_index(&self, a: u64) -> (r: Option<usize>)
        requires
            self.wf(),
        ensures
            match r {
                Some(i) => i < self.entries@.len() && self.entries@[i as int].0 == a
                    && self.status(a) == self.entries@[i as int].1,
                None => self.status(a) is Disconnected && forall|i: int|
                    0 <= i < self.entries@.len() ==> (#[trigger] self.entries@[i]).0 != a,
            },
    {
        let n = self.entries.len();
        let mut i: usize = 0;
        while i < n
            invariant
                n == self.entries@.len(),
                i <= n,
                self.wf(),
                forall|j: int| 0 <= j < i ==> (#[trigger] self.entries@[j]).0 != a,
            decreases n - i,
        {
            if self.entries[i].0 == a {
                proof {
                    self.lemma_status_at(a, i as int);
                }
                return Some(i);
            }
            i = i + 1;
        }
        None
    }

    /// Records that address `a` is now in state `st`, leaving every other
    /// address untouched.
    fn set_status(&mut self, a: u64, st: ConnStatus)
        requires
            old(self).wf(),
        ensures
            final(self).wf(),
            final(self).status(a) == st,
            forall|b: u64| b != a ==> final(self).status(b) == #[trigger] old(self).status(b),
    {
        let r = self.find_index(a);
        match r {
            Some(i) => {
                let ghost pre = *self;
                let s = self.entries.as_mut_slice();
                s[i] = (a, st);
                proof {
                    assert(forall|idx: int|
                        0 <= idx < self.entries@.len() ==> (#[trigger] self.entries@[idx]).0
                            == pre.entries@[idx].0);
                    assert(self.wf());
                    self.lemma_status_at(a, i as int);
                    assert forall|b: u64| b != a implies self.status(b) == pre.status(b) by {
                        Self::lemma_same_keys_same_status(pre, *self, i as int, b);
                    }
                }
            },
            None => {
                let ghost pre = *self;
                self.entries.push((a, st));
                proof {
                    assert(self.wf());
                    self.lemma_status_at(a, self.entries@.len() - 1);
                    assert forall|b: u64| b != a implies self.status(b) == pre.status(b) by {
                        Self::lemma_push_preserves_status(pre, *self, b);
                    }
                }
            },
        }
    }

    proof fn lemma_same_keys_same_status(pre: Self, post: Self, i: int, b: u64)
        requires
            pre.wf(),
            post.wf(),
            pre.entries@.len() == post.entries@.len(),
            0 <= i < pre.entries@.len(),
            forall|idx: int|
                0 <= idx < pre.entries@.len() ==> (#[trigger] post.entries@[idx]).0
                    == pre.entries@[idx].0,
            forall|idx: int|
                0 <= idx < pre.entries@.len() && idx != i ==> #[trigger] post.entries@[idx]
                    == pre.entries@[idx],
            post.entries@[i].0 != b,
        ensures
            post.status(b) == pre.status(b),
    {
        if exists|j: int| 0 <= j < pre.entries@.len() && (#[trigger] pre.entries@[j]).0 == b {
            let j = choose|j: int|
                0 <= j < pre.entries@.len() && (#[trigger] pre.entries@[j]).0 == b;
            pre.lemma_status_at(b, j);
            assert(post.entries@[j].0 == b);
            post.lemma_status_at(b, j);
        } else {
            assert(forall|j: int|
                0 <= j < post.entries@.len() ==> (#[trigger] post.entries@[j]).0 != b);
        }
    }

    proof fn lemma_push_preserves_status(pre: Self, post: Self, b: u64)
        requires
            pre.wf(),
            post.wf(),
            post.entries@.len() == pre.entries@.len() + 1,
            forall|idx: int|
                0 <= idx < pre.entries@.len() ==> #[trigger] post.entries@[idx]
                    == pre.entries@[idx],
            post.entries@[post.entries@.len() - 1].0 != b,
        ensures
            post.status(b) == pre.status(b),
    {
        if exists|j: int| 0 <= j < pre.entries@.len() && (#[trigger] pre.entries@[j]).0 == b {
            let j = choose|j: int|
                0 <= j < pre.entries@.len() && (#[trigger] pre.entries@[j]).0 == b;
            pre.lemma_status_at(b, j);
            assert(post.entries@[j].0 == b);
            post.lemma_status_at(b, j);
        } else {
            assert(forall|j: int|
                0 <= j < post.entries@.len() ==> (#[trigger] post.entries@[j]).0 != b);
        }
    }

    /// The current state of a parsed address.
    pub fn status_of(&self, addr: &PeripheralAddress) -> (st: ConnStatus)
        requires
            self.wf(),
        ensures
            st == self.status(addr.value),
    {
        match self.find_index(addr.value) {
            Some(i) => self.entries[i].1,
            None => ConnStatus::Disconnected,
        }
    }

    /// Requests a connection to the peripheral named by `address`.
    ///
    /// A malformed address is rejected with `AddressParseError` before any
    /// state changes and with no platform action prescribed.  For a
    /// well-formed address the returned action follows from the address's
    /// current state alone: a platform connect is issued only from
    /// `Disconnected` (which moves the address to `Connecting`); an address
    /// already `Connected` needs no operation; an address mid-transition
    /// tells the caller to wait.  No other address is touched.
    pub fn connect_begin(&mut self, address: &str) -> (r: Result<
        (PeripheralAddress, ConnectAction),
        BleError,
    >)
        requires
            old(self).wf(),
        ensures
            final(self).wf(),
            !valid_address_chars(address@) ==> r == Err::<(PeripheralAddress, ConnectAction),
                BleError,
            >(BleError::AddressParseError) && forall|b: u64|
                final(self).status(b) == #[trigger] old(self).status(b),
            valid_address_chars(address@) ==> {
                let a = address_value(address@);
                &&& r matches Ok((pa, act)) && pa.value as int == a && pa.wf() && act
                    == connect_action_for(old(self).status(pa.value))
                &&& final(self).status(address_value(address@) as u64)
                    == status_after_connect_begin(old(self).status(a as u64))
                &&& forall|b: u64|
                    b != a as u64 ==> final(self).status(b) == #[trigger] old(self).status(b)
            },
    {
        let pa = match parse_address(address) {
            Ok(pa) => pa,
            Err(e) => {
                return Err(e);
            },
        };
        let st = self.status_of(&pa);
        match st {
            ConnStatus::Disconnected => {
                self.set_status(pa.value, ConnStatus::Connecting);
                Ok((pa, ConnectAction::IssuePlatformConnect))
            },
            ConnStatus::Connected => Ok((pa, ConnectAction::NoOperation)),
            _ => Ok((pa, ConnectAction::AwaitInFlight)),
        }
    }

    /// Records the platform's answer to the one connect issued for `addr`.
    ///
    /// Only the caller that was told to issue the connect reports here, so
    /// the address is mid-`Connecting`.  Success settles the address in
    /// `Connected`; a failed resolution or a refused connect settles it back
    /// in `Disconnected` and surfaces the matching error.  The result
    /// reports the post-operation state, never the pre-operation one.
    pub fn connect_finish(&mut self, addr: &PeripheralAddress, outcome: PlatformConnectOutcome)
        -> (r: Result<ConnStatus, BleError>)
        requires
            old(self).wf(),
            old(self).status(addr.value) is Connecting,
        ensures
            final(self).wf(),
            final(self).status(addr.value) == status_after_connect_finish(outcome),
            outcome is Established ==> r == Ok::<ConnStatus, BleError>(ConnStatus::Connected),
            !(outcome is Established) ==> r == Err::<ConnStatus, BleError>(
                connect_failure_error(outcome),
            ),
            forall|b: u64|
                b != addr.value ==> final(self).status(b) == #[trigger] old(self).status(b),
    {
        match outcome {
            PlatformConnectOutcome::Established => {
                self.set_status(addr.value, ConnStatus::Connected);
                Ok(ConnStatus::Connected)
            },
            PlatformConnectOutcome::NotFound => {
                self.set_status(addr.value, ConnStatus::Disconnected);
                Err(BleError::PeripheralNotFound)
            },
            PlatformConnectOutcome::Refused => {
                self.set_status(addr.value, ConnStatus::Disconnected);
                Err(BleError::ConnectionError)
            },
        }
    }

    /// Requests a disconnection of the peripheral named by `address`.
    ///
    /// A malformed address is rejected with `AddressParseError`.  Only an
    /// address currently `Connected` has anything to tear down (it moves to
    /// `Disconnecting` and the caller issues the one platform disconnect);
    /// for every other state this is a successful no-op that issues nothing
    /// and changes nothing.
    pub fn disconnect_begin(&mut self, address: &str) -> (r: Result<
        (PeripheralAddress, DisconnectAction),
        BleError,
    >)
        requires
            old(self).wf(),
        ensures
            final(self).wf(),
            !valid_address_chars(address@) ==> r == Err::<(PeripheralAddress, DisconnectAction),
                BleError,
            >(BleError::AddressParseError) && forall|b: u64|
                final(self).status(b) == #[trigger] old(self).status(b),
            valid_address_chars(address@) ==> {
                let a = address_value(address@);
                &&& r matches Ok((pa, act)) && pa.value as int == a && pa.wf() && act
                    == disconnect_action_for(old(self).status(pa.value))
                &&& final(self).status(a as u64) == status_after_disconnect_begin(
                    old(self).status(a as u64),
                )
                &&& forall|b: u64|
                    b != a as u64 ==> final(self).status(b) == #[trigger] old(self).status(b)
            },
    {
        let pa = match parse_address(address) {
            Ok(pa) => pa,
            Err(e) => {
                return Err(e);
            },
        };
        let st = self.status_of(&pa);
        match st {
            ConnStatus::Connected => {
                self.set_status(pa.value, ConnStatus::Disconnecting);
                Ok((pa, DisconnectAction::IssuePlatformDisconnect))
            },
            _ => Ok((pa, DisconnectAction::NoOperation)),
        }
    }

    /// Records the platform's answer to the one disconnect issued for
    /// `addr`: `Disconnected` on success, still `Connected` (with
    /// `DisconnectionError`) if the platform refused.
    pub fn disconnect_finish(&mut self, addr: &PeripheralAddress, ok: bool) -> (r: Result<
        ConnStatus,
        BleError,
    >)
        requires
            old(self).wf(),
            old(self).status(addr.value) is Disconnecting,
        ensures
            final(self).wf(),
            final(self).status(addr.value) == status_after_disconnect_finish(ok),
            ok ==> r == Ok::<ConnStatus, BleError>(ConnStatus::Disconnected),
            !ok ==> r == Err::<ConnStatus, BleError>(BleError::DisconnectionError),
            forall|b: u64|
                b != addr.value ==> final(self).status(b) == #[trigger] old(self).status(b),
    {
        if ok {
            self.set_status(addr.value, ConnStatus::Disconnected);
            Ok(ConnStatus::Disconnected)
        } else {
            self.set_status(addr.value, ConnStatus::Connected);
            Err(BleError::DisconnectionError)
        }
    }
}

/// Two sequential connect requests for the same address perform exactly one
/// platform connect: the first, from `Disconnected`, issues it and ends in
/// `Connected`; the second then finds `Connected`, issues nothing, and the
/// address stays `Connected`.
pub proof fn lemma_connect_twice_one_operation(st: ConnStatus)
    requires
        st is Disconnected,
    ensures
        connect_action_for(st) is IssuePlatformConnect,
        status_after_connect_finish(PlatformConnectOutcome::Established) is Connected,
        connect_action_for(ConnStatus::Connected) is NoOperation,
        status_after_connect_begin(ConnStatus::Connected) is Connected,
{
}

/// Two racing connect requests for the same address perform exactly one
/// platform connect: the first moves the address to `Connecting` and issues
/// it; a second request that arrives before the platform answers sees the
/// in-flight transition and issues nothing; once the platform establishes
/// the connection, both callers observe `Connected`.
pub proof fn lemma_concurrent_connects_serialize(st: ConnStatus)
    requires
        st is Disconnected,
    ensures
        connect_action_for(st) is IssuePlatformConnect,
        !(connect_action_for(status_after_connect_begin(st)) is IssuePlatformConnect),
        status_after_connect_begin(status_after_connect_begin(st)) == status_after_connect_begin(
            st,
        ),
        status_after_connect_finish(PlatformConnectOutcome::Established) is Connected,
{
}

/// Disconnecting an address that is not connected is a successful no-op: no
/// platform disconnect is issued and the address's state does not change.
pub proof fn lemma_disconnect_not_connected_noop(st: ConnStatus)
    requires
        !(st is Connected),
    ensures
        disconnect_action_for(st) is NoOperation,
        status_after_disconnect_begin(st) == st,
{
}

} // verus!
