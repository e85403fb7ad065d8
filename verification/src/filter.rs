//! The offset and delay estimator: turns one timestamped
//! Sync/DelayReq exchange into a mean-path-delay and an
//! offset-from-master figure (IEEE 1588-2019 section 11.2).

use crate::time::{Duration, Instant};
use vstd::prelude::*;

verus! {

/// What one accepted exchange yields: the estimated offset of the local
/// clock from the master, and the estimated one-way path delay.
#[derive(Debug, Clone, Copy, PartialEq, Eq, Structural)]
pub struct FilterEstimate {
    pub offset_from_master: Duration,
    pub mean_delay: Duration,
}

/// Computes the mean path delay and the offset from master out of one
/// (T1, T2, T3, T4) exchange:
///
/// * `meanPathDelay = ((T2 - T1) + (T4 - T3)) / 2 - delayAsymmetry`
/// * `offsetFromMaster = (T2 - T1) - meanPathDelay`
///
/// A sample violating `T1 < T2` or `T3 < T4` is rejected as `None`: such
/// timestamps cannot come from a causal exchange. With no configured
/// asymmetry the mean path delay of an accepted sample is never negative.
pub fn offset_and_delay(
    t1: Instant,
    t2: Instant,
    t3: Instant,
    t4: Instant,
    delay_asymmetry: Duration,
) -> (r: Option<FilterEstimate>)
    requires
        t1.subnanos < 0x1000000_00000000_00000000_00000000,
        t2.subnanos < 0x1000000_00000000_00000000_00000000,
        t3.subnanos < 0x1000000_00000000_00000000_00000000,
        t4.subnanos < 0x1000000_00000000_00000000_00000000,
        -0x1000000_00000000_00000000_00000000 < delay_asymmetry.subnanos
            < 0x1000000_00000000_00000000_00000000,
    ensures
        r is Some <==> t1.subnanos < t2.subnanos && t3.subnanos < t4.subnanos,
        r is Some ==> {
            let mean_delay = ((t2.subnanos - t1.subnanos) + (t4.subnanos - t3.subnanos)) / 2
                - delay_asymmetry.subnanos;
            &&& r->0.mean_delay.subnanos == mean_delay
            &&& r->0.offset_from_master.subnanos == (t2.subnanos - t1.subnanos) - mean_delay
        },
        r is Some && delay_asymmetry.subnanos == 0 ==> r->0.mean_delay.subnanos >= 0,
{
    if t2.subnanos <= t1.subnanos || t4.subnanos <= t3.subnanos {
        return None;
    }
    let forward: i128 = (t2.subnanos - t1.subnanos) as i128;
    let backward: i128 = (t4.subnanos - t3.subnanos) as i128;
    let mean_delay: i128 = (forward + backward) / 2 - delay_asymmetry.subnanos;
    let offset_from_master: i128 = forward - mean_delay;
    Some(
        FilterEstimate {
            offset_from_master: Duration { subnanos: offset_from_master },
            mean_delay: Duration { subnanos: mean_delay },
        },
    )
}

} // verus!
