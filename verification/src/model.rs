//! Data model of the monitor: probe samples, cumulative totals, alert
//! thresholds and alert flags, together with the pure accumulation and
//! threshold-evaluation logic and the laws that relate them.

use vstd::prelude::*;

verus! {

/// One instantaneous probe reading for an interface: cumulative bytes
/// received and transmitted since the interface counters were last reset.
#[derive(Clone, Copy, Debug, PartialEq, Eq, Structural)]
pub struct TrafficSample {
    pub received: u64,
    pub transmitted: u64,
}

/// Persisted cumulative traffic totals in bytes.
#[derive(Clone, Copy, Debug, PartialEq, Eq, Structural)]
pub struct TrafficTotals {
    pub rx: u64,
    pub tx: u64,
}

/// Operator-configured alert thresholds in bytes. A threshold left
/// unconfigured is read as 0, which makes any positive total alert.
#[derive(Clone, Copy, Debug, PartialEq, Eq, Structural)]
pub struct Thresholds {
    pub rx_warn: u64,
    pub tx_warn: u64,
    pub rx_crit: u64,
    pub tx_crit: u64,
}

/// The four derived alert flags, fully recomputed on every evaluation:
/// no hysteresis, no latching.
#[derive(Clone, Copy, Debug, PartialEq, Eq, Structural)]
pub struct AlertFlags {
    pub rx_warn_alert: bool,
    pub tx_warn_alert: bool,
    pub rx_crit_alert: bool,
    pub tx_crit_alert: bool,
}

/// The totals that result from adding one probe sample onto stored totals
/// (truncating casts never fire on the inputs the exec code admits).
pub open spec fn spec_accumulate(t: TrafficTotals, s: TrafficSample) -> TrafficTotals {
    TrafficTotals { rx: (t.rx + s.received) as u64, tx: (t.tx + s.transmitted) as u64 }
}

/// The flags that an evaluation of the given totals against the given
/// thresholds must produce: each comparison is strict.
pub open spec fn spec_flags(t: TrafficTotals, th: Thresholds) -> AlertFlags {
    AlertFlags {
        rx_warn_alert: t.rx > th.rx_warn,
        tx_warn_alert: t.tx > th.tx_warn,
        rx_crit_alert: t.rx > th.rx_crit,
        tx_crit_alert: t.tx > th.tx_crit,
    }
}

/// Add one probe sample onto the stored totals. Accumulation is additive,
/// never a diff against the previous sample: calling this twice with the
/// same sample counts it twice, by design.
pub fn accumulate_totals(t: &TrafficTotals, s: &TrafficSample) -> (r: TrafficTotals)
    requires
        t.rx + s.received <= u64::MAX,
        t.tx + s.transmitted <= u64::MAX,
    ensures
        r == spec_accumulate(*t, *s),
        r.rx == t.rx + s.received,
        r.tx == t.tx + s.transmitted,
{
    TrafficTotals { rx: t.rx + s.received, tx: t.tx + s.transmitted }
}

/// Compare totals against thresholds and derive the four alert flags.
/// Each flag is exactly `total > threshold` (strict): a total equal to its
/// threshold does not alert.
pub fn compute_flags(t: &TrafficTotals, th: &Thresholds) -> (f: AlertFlags)
    ensures
        f == spec_flags(*t, *th),
{
    AlertFlags {
        rx_warn_alert: t.rx > th.rx_warn,
        tx_warn_alert: t.tx > th.tx_warn,
        rx_crit_alert: t.rx > th.rx_crit,
        tx_crit_alert: t.tx > th.tx_crit,
    }
}

/// Accumulation is additive and repeat-call-sensitive: one call adds the
/// sample once, and a second call with the same sample adds it again, so
/// the totals double-count.
pub proof fn lemma_accumulate_additive(t: TrafficTotals, s: TrafficSample)
    requires
        t.rx + 2 * s.received <= u64::MAX,
        t.tx + 2 * s.transmitted <= u64::MAX,
    ensures
        spec_accumulate(t, s).rx == t.rx + s.received,
        spec_accumulate(t, s).tx == t.tx + s.transmitted,
        spec_accumulate(spec_accumulate(t, s), s).rx == t.rx + 2 * s.received,
        spec_accumulate(spec_accumulate(t, s), s).tx == t.tx + 2 * s.transmitted,
{
}

/// Accumulation is not idempotent: repeating it with a sample that carries
/// any traffic changes the totals again.
pub proof fn lemma_accumulate_not_idempotent(t: TrafficTotals, s: TrafficSample)
    requires
        t.rx + 2 * s.received <= u64::MAX,
        t.tx + 2 * s.transmitted <= u64::MAX,
        s.received > 0 || s.transmitted > 0,
    ensures
        spec_accumulate(spec_accumulate(t, s), s) != spec_accumulate(t, s),
{
}

/// First-run accumulation: with no stored totals (both read as zero), the
/// new totals equal the first probe sample.
pub proof fn lemma_first_run(s: TrafficSample)
    ensures
        spec_accumulate((TrafficTotals { rx: 0, tx: 0 }), s) == (TrafficTotals {
            rx: s.received,
            tx: s.transmitted,
        }),
{
}

/// Evaluation is idempotent: the flags depend only on the totals and the
/// thresholds, never on previously written flags, so re-evaluating with
/// unchanged inputs reproduces the same four flags.
pub proof fn lemma_evaluate_idempotent(
    t1: TrafficTotals,
    th1: Thresholds,
    t2: TrafficTotals,
    th2: Thresholds,
)
    requires
        t1 == t2,
        th1 == th2,
    ensures
        spec_flags(t1, th1) == spec_flags(t2, th2),
{
}

/// With every threshold at zero (the default for unconfigured keys), any
/// positive total raises both of its flags, and a zero total raises none.
pub proof fn lemma_zero_thresholds(t: TrafficTotals, th: Thresholds)
    requires
        th.rx_warn == 0,
        th.tx_warn == 0,
        th.rx_crit == 0,
        th.tx_crit == 0,
    ensures
        spec_flags(t, th).rx_warn_alert <==> t.rx > 0,
        spec_flags(t, th).rx_crit_alert <==> t.rx > 0,
        spec_flags(t, th).tx_warn_alert <==> t.tx > 0,
        spec_flags(t, th).tx_crit_alert <==> t.tx > 0,
{
}

} // verus!
