//! A verified core for a periodic network-traffic monitor.
//!
//! The library tracks cumulative received/transmitted byte totals for a
//! network interface, persists them in a keyed on-disk store, and raises
//! four boolean alert flags whenever the totals exceed operator-configured
//! warning and critical thresholds.

pub mod daemon;
pub mod engine;
pub mod kvstore;
pub mod model;
pub mod probe;
