//! Unacknowledged write dispatch.
//!
//! A write operation sends one payload to every characteristic of a
//! connected, discovered peripheral that supports write-without-response.
//! Characteristics lacking the flag are silently skipped; a peripheral with
//! no matching characteristic at all is a valid outcome (nothing to write),
//! never an error.

use vstd::prelude::*;
use crate::discovery::{CharacteristicInfo, ServiceInfo};
use crate::errors::BleError;

verus! {

/// The writable-without-response characteristics of one service, in
/// discovery order.
pub open spec fn write_chars_of(cs: Seq<CharacteristicInfo>) -> Seq<CharacteristicInfo>
    decreases cs.len(),
{
    if cs.len() == 0 {
        Seq::empty()
    } else {
        let rest = write_chars_of(cs.drop_last());
        if cs.last().write_without_response {
            rest.push(cs.last())
        } else {
            rest
        }
    }
}

/// All write-without-response characteristics of a discovered peripheral:
/// service by service, each service's characteristics in discovery order.
pub open spec fn write_targets_spec(services: Seq<ServiceInfo>) -> Seq<CharacteristicInfo>
    decreases services.len(),
{
    if services.len() == 0 {
        Seq::empty()
    } else {
        write_targets_spec(services.drop_last()) + write_chars_of(
            services.last().characteristics@,
        )
    }
}

/// The characteristics a write operation dispatches to: exactly those with
/// the write-without-response flag, in discovery order.
pub fn write_targets(services: &Vec<ServiceInfo>) -> (r: Vec<CharacteristicInfo>)
    ensures
        r@ == write_targets_spec(services@),
{
    let mut out: Vec<CharacteristicInfo> = Vec::new();
    let n = services.len();
    let mut i: usize = 0;
    while i < n
        invariant
            n == services@.len(),
            i <= n,
            out@ == write_targets_spec(services@.take(i as int)),
        decreases n - i,
    {
        let cs = &services[i].characteristics;
        let m = cs.len();
        let mut j: usize = 0;
        while j < m
            invariant
                n == services@.len(),
                i < n,
                m == cs@.len(),
                j <= m,
                cs@ == services@[i as int].characteristics@,
                out@ == write_targets_spec(services@.take(i as int)) + write_chars_of(
                    cs@.take(j as int),
                ),
            decreases m - j,
        {
            let c = cs[j];
            if c.write_without_response {
                out.push(c);
            }
            proof {
                assert(cs@.take(j + 1).drop_last() =~= cs@.take(j as int));
                assert(cs@.take(j + 1).last() == cs@[j as int]);
            }
            j = j + 1;
        }
        proof {
            assert(cs@.take(m as int) =~= cs@);
            assert(services@.take(i + 1).drop_last() =~= services@.take(i as int));
            assert(services@.take(i + 1).last() == services@[i as int]);
        }
        i = i + 1;
    }
    proof {
        assert(services@.take(n as int) =~= services@);
    }
    out
}

/// Every characteristic a write operation dispatches to has the
/// write-without-response flag: the others are skipped entirely.
pub proof fn lemma_write_targets_flagged(services: Seq<ServiceInfo>)
    ensures
        forall|k: int|
            0 <= k < write_targets_spec(services).len() ==> (#[trigger] write_targets_spec(
                services,
            )[k]).write_without_response,
    decreases services.len(),
{
    if services.len() > 0 {
        lemma_write_targets_flagged(services.drop_last());
        lemma_write_chars_flagged(services.last().characteristics@);
        let rest = write_targets_spec(services.drop_last());
        let tail = write_chars_of(services.last().characteristics@);
        assert forall|k: int|
            0 <= k < write_targets_spec(services).len() implies (#[trigger] write_targets_spec(
            services,
        )[k]).write_without_response by {
            if k < rest.len() {
                assert(write_targets_spec(services)[k] == rest[k]);
            } else {
                assert(write_targets_spec(services)[k] == tail[k - rest.len()]);
            }
        }
    }
}

proof fn lemma_write_chars_flagged(cs: Seq<CharacteristicInfo>)
    ensures
        forall|k: int|
            0 <= k < write_chars_of(cs).len() ==> (#[trigger] write_chars_of(
                cs,
            )[k]).write_without_response,
    decreases cs.len(),
{
    if cs.len() > 0 {
        lemma_write_chars_flagged(cs.drop_last());
        let rest = write_chars_of(cs.drop_last());
        assert forall|k: int|
            0 <= k < write_chars_of(cs).len() implies (#[trigger] write_chars_of(
            cs,
        )[k]).write_without_response by {
            if cs.last().write_without_response {
                assert(write_chars_of(cs) == rest.push(cs.last()));
                if k < rest.len() {
                    assert(write_chars_of(cs)[k] == rest[k]);
                } else {
                    assert(write_chars_of(cs)[k] == cs.last());
                }
            } else {
                assert(write_chars_of(cs) == rest);
            }
        }
    }
}

/// A peripheral on which no characteristic carries the
/// write-without-response flag has nothing to dispatch to: the write
/// operation then performs zero platform writes and succeeds with an
/// affected count of zero, never an error.
pub proof fn lemma_no_flag_no_targets(services: Seq<ServiceInfo>)
    requires
        forall|i: int, j: int|
            0 <= i < services.len() && 0 <= j < (#[trigger] services[i]).characteristics@.len()
                ==> !(#[trigger] services[i].characteristics@[j]).write_without_response,
    ensures
        write_targets_spec(services).len() == 0,
    decreases services.len(),
{
    if services.len() > 0 {
        lemma_no_flag_no_targets(services.drop_last());
        lemma_no_flag_no_chars(services.last().characteristics@);
    }
}

proof fn lemma_no_flag_no_chars(cs: Seq<CharacteristicInfo>)
    requires
        forall|j: int| 0 <= j < cs.len() ==> !(#[trigger] cs[j]).write_without_response,
    ensures
        write_chars_of(cs).len() == 0,
    decreases cs.len(),
{
    if cs.len() > 0 {
        lemma_no_flag_no_chars(cs.drop_last());
    }
}

/// How many of the dispatched writes the platform accepted.
pub open spec fn count_true(bs: Seq<bool>) -> int
    decreases bs.len(),
{
    if bs.len() == 0 {
        0
    } else {
        count_true(bs.drop_last()) + if bs.last() {
            1int
        } else {
            0int
        }
    }
}

/// Folds the per-characteristic platform answers into the operation's
/// result: the affected count when every dispatched write was accepted —
/// in particular `Ok(0)` when there was nothing to dispatch — and
/// `WriteError` as soon as the platform refused any write.
pub fn summarize_writes(results: &Vec<bool>) -> (r: Result<usize, BleError>)
    ensures
        (forall|i: int| 0 <= i < results@.len() ==> results@[i]) ==> r == Ok::<usize, BleError>(
            results@.len() as usize,
        ),
        (exists|i: int| 0 <= i < results@.len() && !results@[i]) ==> r == Err::<usize, BleError>(
            BleError::WriteError,
        ),
        results@.len() == 0 ==> r == Ok::<usize, BleError>(0),
{
    let n = results.len();
    let mut i: usize = 0;
    while i < n
        invariant
            n == results@.len(),
            i <= n,
            forall|j: int| 0 <= j < i ==> results@[j],
        decreases n - i,
    {
        if !results[i] {
            return Err(BleError::WriteError);
        }
        i = i + 1;
    }
    Ok(n)
}

} // verus!
