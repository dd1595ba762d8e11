//! Selecting one interface's counters out of a probe report.
//!
//! The probe hands back one entry per interface; the monitor cares about a
//! single named interface and treats its absence as a fatal probe error for
//! that invocation.

use vstd::prelude::*;

use crate::model::TrafficSample;

verus! {

/// One entry of a probe report: an interface name with its cumulative
/// received/transmitted byte counters.
#[derive(Clone, Debug)]
pub struct InterfaceCounts {
    pub name: String,
    pub received: u64,
    pub transmitted: u64,
}

/// The sample for the first entry of `report` named `name`, or `None` when
/// no entry carries that name.
pub open spec fn spec_find_sample(report: Seq<InterfaceCounts>, name: Seq<char>) -> Option<
    TrafficSample,
>
    decreases report.len(),
{
    if report.len() == 0 {
        None
    } else if report[0].name@ == name {
        Some(TrafficSample { received: report[0].received, transmitted: report[0].transmitted })
    } else {
        spec_find_sample(report.drop_first(), name)
    }
}

/// Select the probe sample for the interface called `iface` out of a probe
/// report; `None` means the interface did not appear in the report.
pub fn find_sample(report: &Vec<InterfaceCounts>, iface: &String) -> (r: Option<TrafficSample>)
    ensures
        r == spec_find_sample(report@, iface@),
{
    let n = report.len();
    proof {
        assert(report@.skip(0) =~= report@);
    }
    for i in 0..n
        invariant
            n == report@.len(),
            spec_find_sample(report@, iface@) == spec_find_sample(report@.skip(i as int), iface@),
    {
        let entry = &report[i];
        if entry.name == *iface {
            assert(report@.skip(i as int)[0] == report@[i as int]);
            return Some(TrafficSample {
                received: entry.received,
                transmitted: entry.transmitted,
            });
        }
        proof {
            assert(report@.skip(i as int).drop_first() =~= report@.skip(i + 1));
            assert(report@.skip(i as int)[0] == report@[i as int]);
        }
    }
    proof {
        assert(report@.skip(n as int) =~= Seq::<InterfaceCounts>::empty());
    }
    None
}

} // verus!
