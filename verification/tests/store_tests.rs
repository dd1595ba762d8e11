//! Tests that run the monitor against a real on-disk store.

use nest::{Store, Value};
use peach_monitor::daemon::daemon_cycle;
use peach_monitor::engine::{accumulate, evaluate, evaluate_stored};
use peach_monitor::kvstore::{load_thresholds, open_store, read_totals, MonitorError};
use peach_monitor::model::{Thresholds, TrafficTotals};
use peach_monitor::probe::InterfaceCounts;
use tempfile::TempDir;

fn make_store() -> (TempDir, Store) {
    let dir = tempfile::tempdir().expect("temporary directory");
    let store = open_store(dir.path().to_str().expect("utf-8 path"));
    (dir, store)
}

fn wlan_report(received: u64, transmitted: u64) -> Vec<InterfaceCounts> {
    vec![
        InterfaceCounts {
            name: "lo".to_string(),
            received: 1,
            transmitted: 1,
        },
        InterfaceCounts {
            name: "wlan0".to_string(),
            received,
            transmitted,
        },
    ]
}

fn flag(store: &Store, key: &str) -> Value {
    store.get(&["net", "alerts", key]).expect("flag present")
}

#[test]
fn accumulate_first_run_stores_the_sample() {
    let (_dir, store) = make_store();
    let report = wlan_report(150, 50);
    let totals = accumulate(&store, &report, &"wlan0".to_string()).expect("accumulate");
    assert_eq!(totals, TrafficTotals { rx: 150, tx: 50 });
    assert_eq!(read_totals(&store), TrafficTotals { rx: 150, tx: 50 });
}

#[test]
fn accumulate_repeated_call_double_counts() {
    let (_dir, store) = make_store();
    let report = wlan_report(150, 50);
    accumulate(&store, &report, &"wlan0".to_string()).expect("first accumulate");
    let totals = accumulate(&store, &report, &"wlan0".to_string()).expect("second accumulate");
    assert_eq!(totals, TrafficTotals { rx: 300, tx: 100 });
    assert_eq!(read_totals(&store), TrafficTotals { rx: 300, tx: 100 });
}

#[test]
fn accumulate_adds_onto_preexisting_totals() {
    let (_dir, store) = make_store();
    store
        .set(&["net", "traffic", "rx"], &Value::Uint(1000))
        .expect("seed rx");
    store
        .set(&["net", "traffic", "tx"], &Value::Uint(2000))
        .expect("seed tx");
    let report = wlan_report(150, 50);
    let totals = accumulate(&store, &report, &"wlan0".to_string()).expect("accumulate");
    assert_eq!(totals, TrafficTotals { rx: 1150, tx: 2050 });
}

#[test]
fn accumulate_missing_interface_fails_and_writes_nothing() {
    let (_dir, store) = make_store();
    let report = wlan_report(150, 50);
    let result = accumulate(&store, &report, &"eth7".to_string());
    assert!(matches!(result, Err(MonitorError::InterfaceNotFound)));
    // No totals key was created: the raw reads still fail.
    assert!(store.get(&["net", "traffic", "rx"]).is_err());
    assert!(store.get(&["net", "traffic", "tx"]).is_err());
}

#[test]
fn accumulate_rejects_a_total_past_counter_capacity() {
    let (_dir, store) = make_store();
    store
        .set(&["net", "traffic", "rx"], &Value::Uint(u64::MAX))
        .expect("seed rx");
    let report = wlan_report(1, 0);
    let result = accumulate(&store, &report, &"wlan0".to_string());
    assert!(matches!(result, Err(MonitorError::TotalOverflow)));
    // The stored totals are untouched.
    assert_eq!(
        store.get(&["net", "traffic", "rx"]).expect("rx kept"),
        Value::Uint(u64::MAX)
    );
}

#[test]
fn load_thresholds_defaults_missing_keys_to_zero() {
    let (_dir, store) = make_store();
    assert_eq!(
        load_thresholds(&store),
        Thresholds {
            rx_warn: 0,
            tx_warn: 0,
            rx_crit: 0,
            tx_crit: 0,
        }
    );
    // A partially configured store defaults only the absent keys.
    store
        .set(&["net", "thresholds", "rx_warn"], &Value::Uint(100))
        .expect("set rx_warn");
    assert_eq!(
        load_thresholds(&store),
        Thresholds {
            rx_warn: 100,
            tx_warn: 0,
            rx_crit: 0,
            tx_crit: 0,
        }
    );
}

#[test]
fn read_totals_defaults_missing_keys_to_zero() {
    let (_dir, store) = make_store();
    assert_eq!(read_totals(&store), TrafficTotals { rx: 0, tx: 0 });
}

#[test]
fn scenario_a_evaluate_persists_the_four_flags() {
    let (_dir, store) = make_store();
    store
        .set(&["net", "traffic", "rx"], &Value::Uint(150))
        .expect("seed rx");
    store
        .set(&["net", "traffic", "tx"], &Value::Uint(50))
        .expect("seed tx");
    let thresholds = Thresholds {
        rx_warn: 100,
        tx_warn: 100,
        rx_crit: 1000,
        tx_crit: 1000,
    };
    let flags = evaluate_stored(&store, &thresholds).expect("evaluate");
    assert!(flags.rx_warn_alert);
    assert!(!flags.tx_warn_alert);
    assert!(!flags.rx_crit_alert);
    assert!(!flags.tx_crit_alert);
    assert_eq!(flag(&store, "rx_warn_alert"), Value::Bool(true));
    assert_eq!(flag(&store, "tx_warn_alert"), Value::Bool(false));
    assert_eq!(flag(&store, "rx_crit_alert"), Value::Bool(false));
    assert_eq!(flag(&store, "tx_crit_alert"), Value::Bool(false));
}

#[test]
fn scenario_c_absent_thresholds_alert_on_positive_totals() {
    let (_dir, store) = make_store();
    store
        .set(&["net", "traffic", "rx"], &Value::Uint(1))
        .expect("seed rx");
    store
        .set(&["net", "traffic", "tx"], &Value::Uint(0))
        .expect("seed tx");
    let thresholds = load_thresholds(&store);
    let flags = evaluate_stored(&store, &thresholds).expect("evaluate");
    assert!(flags.rx_warn_alert);
    assert!(flags.rx_crit_alert);
    assert!(!flags.tx_warn_alert);
    assert!(!flags.tx_crit_alert);
}

#[test]
fn evaluate_overwrites_stale_flags() {
    let (_dir, store) = make_store();
    // Stale flags from an earlier evaluation.
    for key in ["rx_warn_alert", "tx_warn_alert", "rx_crit_alert", "tx_crit_alert"] {
        store
            .set(&["net", "alerts", key], &Value::Bool(true))
            .expect("seed flag");
    }
    let totals = TrafficTotals { rx: 10, tx: 10 };
    let thresholds = Thresholds {
        rx_warn: 100,
        tx_warn: 100,
        rx_crit: 1000,
        tx_crit: 1000,
    };
    let flags = evaluate(&store, &totals, &thresholds).expect("evaluate");
    assert!(!flags.rx_warn_alert && !flags.tx_warn_alert);
    assert_eq!(flag(&store, "rx_warn_alert"), Value::Bool(false));
    assert_eq!(flag(&store, "tx_warn_alert"), Value::Bool(false));
    assert_eq!(flag(&store, "rx_crit_alert"), Value::Bool(false));
    assert_eq!(flag(&store, "tx_crit_alert"), Value::Bool(false));
}

#[test]
fn evaluate_twice_with_unchanged_inputs_leaves_flags_unchanged() {
    let (_dir, store) = make_store();
    store
        .set(&["net", "traffic", "rx"], &Value::Uint(1200))
        .expect("seed rx");
    let thresholds = Thresholds {
        rx_warn: 100,
        tx_warn: 100,
        rx_crit: 1000,
        tx_crit: 1000,
    };
    let first = evaluate_stored(&store, &thresholds).expect("first evaluate");
    let second = evaluate_stored(&store, &thresholds).expect("second evaluate");
    assert_eq!(first, second);
    assert_eq!(flag(&store, "rx_warn_alert"), Value::Bool(true));
    assert_eq!(flag(&store, "rx_crit_alert"), Value::Bool(true));
}

#[test]
fn daemon_cycle_loads_thresholds_and_sets_flags() {
    let (_dir, store) = make_store();
    store
        .set(&["net", "traffic", "rx"], &Value::Uint(150))
        .expect("seed rx");
    store
        .set(&["net", "thresholds", "rx_warn"], &Value::Uint(100))
        .expect("seed threshold");
    let flags = daemon_cycle(&store).expect("cycle");
    assert!(flags.rx_warn_alert);
    assert!(flags.rx_crit_alert); // rx_crit defaults to 0 and 150 > 0
    assert!(!flags.tx_warn_alert);
    assert_eq!(flag(&store, "rx_warn_alert"), Value::Bool(true));
}
