//! The two operations of the monitor: accumulating a probe sample into the
//! persisted totals, and evaluating the totals against the thresholds to
//! set the four alert flags.

use vstd::prelude::*;

use crate::kvstore::MonitorError;
use crate::kvstore::monitor_store_wf;
use crate::kvstore::read_totals;
use crate::kvstore::write_flags;
use crate::kvstore::write_totals;
use crate::model::AlertFlags;
use crate::model::Thresholds;
use crate::model::TrafficSample;
use crate::model::TrafficTotals;
use crate::model::accumulate_totals;
use crate::model::compute_flags;
use crate::model::spec_accumulate;
use crate::model::spec_flags;
use crate::probe::InterfaceCounts;
use crate::probe::find_sample;
use crate::probe::spec_find_sample;

verus! {

/// Add one probe sample onto known stored totals. Succeeds exactly when
/// both new totals fit a 64-bit counter, and then returns precisely the
/// sums; a sum past capacity is rejected as `TotalOverflow`, never wrapped.
pub fn try_accumulate(stored: &TrafficTotals, s: &TrafficSample) -> (r: Result<
    TrafficTotals,
    MonitorError,
>)
    ensures
        r is Ok <==> stored.rx + s.received <= u64::MAX && stored.tx + s.transmitted <= u64::MAX,
        r matches Ok(t) ==> t == spec_accumulate(*stored, *s),
        r matches Err(e) ==> e is TotalOverflow,
{
    if s.received > u64::MAX - stored.rx || s.transmitted > u64::MAX - stored.tx {
        return Err(MonitorError::TotalOverflow);
    }
    Ok(accumulate_totals(stored, s))
}

/// Accumulate one probe reading into the persisted totals.
///
/// Selects the entry of `report` named `iface` (failing with
/// `InterfaceNotFound`, before any store access, when there is none), adds
/// its counters onto the stored totals — absent totals count as 0, so a
/// first run stores exactly the sample — and writes both new totals back.
/// The new totals are returned on success. Accumulation adds the reading it
/// was given, never a diff against a previous reading: a repeated call with
/// an unchanged report counts the same traffic again. A total that would
/// pass the capacity of a 64-bit counter fails with `TotalOverflow` and
/// writes nothing.
pub fn accumulate(store: &nest::Store, report: &Vec<InterfaceCounts>, iface: &String) -> (r:
    Result<TrafficTotals, MonitorError>)
    requires
        monitor_store_wf(*store),
    ensures
        r matches Err(MonitorError::InterfaceNotFound) <==> spec_find_sample(report@, iface@)
            is None,
        r matches Ok(t) ==> (spec_find_sample(report@, iface@) matches Some(s) && t.rx
            >= s.received && t.tx >= s.transmitted),
{
    let sample = match find_sample(report, iface) {
        Some(s) => s,
        None => {
            return Err(MonitorError::InterfaceNotFound);
        },
    };
    let stored = read_totals(store);
    let totals = match try_accumulate(&stored, &sample) {
        Ok(t) => t,
        Err(e) => {
            return Err(e);
        },
    };
    match write_totals(store, &totals) {
        Ok(()) => Ok(totals),
        Err(e) => Err(e),
    }
}

/// Evaluate known totals against known thresholds and persist the four
/// flags. The flags written and returned are exactly the four strict
/// comparisons of `spec_flags`; the only possible failure is a store
/// failure while writing them.
pub fn evaluate(store: &nest::Store, totals: &TrafficTotals, thresholds: &Thresholds) -> (r:
    Result<AlertFlags, MonitorError>)
    requires
        monitor_store_wf(*store),
    ensures
        r matches Ok(f) ==> f == spec_flags(*totals, *thresholds),
        r matches Err(e) ==> e is StoreError,
{
    let flags = compute_flags(totals, thresholds);
    match write_flags(store, &flags) {
        Ok(()) => Ok(flags),
        Err(e) => Err(e),
    }
}

/// Evaluate the persisted totals against known thresholds. Totals that were
/// never initialized count as 0 (the same defaulting policy as loading, so
/// this path never fails on an empty store); the flags written are the
/// strict comparisons, against the given thresholds, of whatever totals
/// were read.
pub fn evaluate_stored(store: &nest::Store, thresholds: &Thresholds) -> (r: Result<
    AlertFlags,
    MonitorError,
>)
    requires
        monitor_store_wf(*store),
    ensures
        r matches Ok(f) ==> exists|t: TrafficTotals| f == spec_flags(t, *thresholds),
        r matches Err(e) ==> e is StoreError,
{
    let totals = read_totals(store);
    match evaluate(store, &totals, thresholds) {
        Ok(f) => {
            proof {
                assert(f == spec_flags(totals, *thresholds));
            }
            Ok(f)
        },
        Err(e) => Err(e),
    }
}

} // verus!
