//! Access to the persistent keyed store.
//!
//! The monitor keeps its state in a `nest::Store`, a schema-typed keyed
//! store backed by the filesystem. Every value the monitor persists lives
//! under a fixed three-segment path:
//!
//! - `net.traffic.rx`, `net.traffic.tx` — unsigned-integer totals;
//! - `net.thresholds.rx_warn`, `net.thresholds.tx_warn`,
//!   `net.thresholds.rx_crit`, `net.thresholds.tx_crit` — unsigned-integer
//!   thresholds, operator-configured;
//! - `net.alerts.rx_warn_alert`, `net.alerts.tx_warn_alert`,
//!   `net.alerts.rx_crit_alert`, `net.alerts.tx_crit_alert` — boolean flags.
//!
//! What a read returns depends on the files on disk, so nothing is assumed
//! about the values that come back; the defaulting policy (an unreadable or
//! non-integer key counts as 0) is verified code on top of the raw calls.
//! Writing requires a store built by [`open_store`], whose schema keeps
//! every write below the store's root directory.

use vstd::prelude::*;

use crate::model::Thresholds;
use crate::model::TrafficTotals;

verus! {

#[verifier::external_type_specification]
#[verifier::external_body]
pub struct ExStore(nest::Store);

/// Holds of every store that `open_store` builds: the monitor's directory
/// schema stands at the store's root, so every leaf the monitor writes is a
/// file strictly below the root directory. Writes demand it because
/// `nest::Store::set` panics on a store whose schema puts a source at the
/// filesystem root itself (the source file then has no parent directory).
pub uninterp spec fn monitor_store_wf(s: nest::Store) -> bool;

/// Relies on nest::Store::new and nest::Schema::try_from: builds the
/// monitor's store over the given base directory, with the monitor's fixed
/// schema — a `net` directory holding the `traffic`, `thresholds` and
/// `alerts` json file sources. Both conversions act on that constant
/// literal alone, so neither can fail.
#[verifier::external_body]
pub fn open_store(base: &str) -> (s: nest::Store)
    ensures
        monitor_store_wf(s),
{
    let value = serde_json::from_str::<serde_json::Value>(
        "{\"net\": {\"traffic\": \"json\", \"thresholds\": \"json\", \"alerts\": \"json\"}}",
    )
    .expect("the schema literal is well-formed json");
    let schema = <nest::Schema as std::convert::TryFrom<serde_json::Value>>::try_from(value)
        .expect("every leaf of the schema literal is a known source kind");
    nest::Store::new(base, schema)
}

#[verifier::external_type_specification]
#[verifier::external_body]
pub struct ExNestError(nest::Error);

/// An error of the monitor. `StoreError` carries the underlying store
/// failure; `InterfaceNotFound` reports that the probe's report held no
/// entry for the requested interface; `TotalOverflow` reports that adding
/// the sample would push a cumulative total past the capacity of a 64-bit
/// counter, which the monitor rejects rather than wraps.
#[derive(Debug)]
pub enum MonitorError {
    InterfaceNotFound,
    TotalOverflow,
    StoreError(nest::Error),
}

/// Relies on nest::Store::get: reads the value stored under the given
/// three-segment path. Returns `Ok(Some(u))` when an unsigned-integer value
/// `u` is stored there, `Ok(None)` when a value of another kind is stored
/// there, and the store's error when the key cannot be read (absent key
/// included). Which outcome occurs depends on the files on disk.
#[verifier::external_body]
fn store_get_uint(store: &nest::Store, a: &str, b: &str, c: &str) -> (r: Result<
    Option<u64>,
    nest::Error,
>) {
    match store.get(&[a, b, c]) {
        Ok(nest::Value::Uint(u)) => Ok(Some(u)),
        Ok(_) => Ok(None),
        Err(e) => Err(e),
    }
}

/// Relies on nest::Store::set: writes the given unsigned-integer value
/// under the given three-segment path; whether the write succeeds depends
/// on the filesystem. Demands the monitor's store: on one, every source
/// file sits below the root directory, so the write returns an error rather
/// than panic on every failure.
#[verifier::external_body]
fn store_set_uint(store: &nest::Store, a: &str, b: &str, c: &str, value: u64) -> (r: Result<
    (),
    nest::Error,
>)
    requires
        monitor_store_wf(*store),
{
    store.set(&[a, b, c], &nest::Value::Uint(value))
}

/// Relies on nest::Store::set: writes the given boolean value under the
/// given three-segment path; whether the write succeeds depends on the
/// filesystem. Demands the monitor's store: on one, every source file sits
/// below the root directory, so the write returns an error rather than
/// panic on every failure.
#[verifier::external_body]
fn store_set_bool(store: &nest::Store, a: &str, b: &str, c: &str, value: bool) -> (r: Result<
    (),
    nest::Error,
>)
    requires
        monitor_store_wf(*store),
{
    store.set(&[a, b, c], &nest::Value::Bool(value))
}

/// The value a stored key contributes: the integer when one was read, and 0
/// when the key was absent, unreadable or held a value of another kind.
pub open spec fn spec_uint_or_zero(r: Result<Option<u64>, nest::Error>) -> u64 {
    match r {
        Ok(Some(u)) => u,
        Ok(None) => 0,
        Err(_) => 0,
    }
}

/// Apply the first-run defaulting policy to one raw read: absence (or any
/// other failure to produce an integer) is valid input meaning 0, never an
/// error.
pub fn uint_or_zero(r: Result<Option<u64>, nest::Error>) -> (u: u64)
    ensures
        u == spec_uint_or_zero(r),
{
    match r {
        Ok(Some(u)) => u,
        _ => 0,
    }
}

/// Read the persisted cumulative totals. Keys that are absent or unreadable
/// count as 0, so a first run against an empty store yields zero totals;
/// the values otherwise depend entirely on what is on disk.
pub fn read_totals(store: &nest::Store) -> (t: TrafficTotals) {
    let rx = uint_or_zero(store_get_uint(store, "net", "traffic", "rx"));
    let tx = uint_or_zero(store_get_uint(store, "net", "traffic", "tx"));
    TrafficTotals { rx, tx }
}

/// Read the four configured thresholds. Loading never fails: each missing
/// (or unreadable, or non-integer) key defaults to 0.
pub fn load_thresholds(store: &nest::Store) -> (th: Thresholds) {
    let rx_warn = uint_or_zero(store_get_uint(store, "net", "thresholds", "rx_warn"));
    let tx_warn = uint_or_zero(store_get_uint(store, "net", "thresholds", "tx_warn"));
    let rx_crit = uint_or_zero(store_get_uint(store, "net", "thresholds", "rx_crit"));
    let tx_crit = uint_or_zero(store_get_uint(store, "net", "thresholds", "tx_crit"));
    Thresholds { rx_warn, tx_warn, rx_crit, tx_crit }
}

/// Persist new cumulative totals: one write per counter. The two writes are
/// independent, not transactional: when the first fails the second is not
/// attempted, and a failure after the first write leaves the rx total
/// updated and the tx total stale, surfaced as the store's error.
pub fn write_totals(store: &nest::Store, t: &TrafficTotals) -> (r: Result<(), MonitorError>)
    requires
        monitor_store_wf(*store),
    ensures
        r matches Err(e) ==> e is StoreError,
{
    match store_set_uint(store, "net", "traffic", "rx", t.rx) {
        Ok(()) => {},
        Err(e) => {
            return Err(MonitorError::StoreError(e));
        },
    }
    match store_set_uint(store, "net", "traffic", "tx", t.tx) {
        Ok(()) => {},
        Err(e) => {
            return Err(MonitorError::StoreError(e));
        },
    }
    Ok(())
}

/// Persist all four alert flags, one write each, unconditionally (full
/// overwrite, never a merge). The writes are independent: a failure part
/// way through leaves the earlier flags updated and the later ones stale,
/// surfaced as the store's error.
pub fn write_flags(store: &nest::Store, f: &crate::model::AlertFlags) -> (r: Result<
    (),
    MonitorError,
>)
    requires
        monitor_store_wf(*store),
    ensures
        r matches Err(e) ==> e is StoreError,
{
    match store_set_bool(store, "net", "alerts", "rx_warn_alert", f.rx_warn_alert) {
        Ok(()) => {},
        Err(e) => {
            return Err(MonitorError::StoreError(e));
        },
    }
    match store_set_bool(store, "net", "alerts", "tx_warn_alert", f.tx_warn_alert) {
        Ok(()) => {},
        Err(e) => {
            return Err(MonitorError::StoreError(e));
        },
    }
    match store_set_bool(store, "net", "alerts", "rx_crit_alert", f.rx_crit_alert) {
        Ok(()) => {},
        Err(e) => {
            return Err(MonitorError::StoreError(e));
        },
    }
    match store_set_bool(store, "net", "alerts", "tx_crit_alert", f.tx_crit_alert) {
        Ok(()) => {},
        Err(e) => {
            return Err(MonitorError::StoreError(e));
        },
    }
    Ok(())
}

} // verus!
