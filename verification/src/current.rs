//! The Current dataset (IEEE 1588-2019 section 8.2.2) in its internal,
//! full-precision form and its observable, whole-nanosecond form.

use crate::time::{spec_nanos_rounded, Duration};
use vstd::prelude::*;

verus! {

/// The Current dataset as the engine keeps it: offsets at full
/// subnanosecond precision.
#[derive(Debug, Default, Copy, Clone)]
pub struct InternalCurrentDS {
    pub steps_removed: u16,
    pub offset_from_master: Duration,
    pub mean_delay: Duration,
}

/// The Current dataset as it is observed: offsets in whole nanoseconds,
/// rounded to nearest with ties away from zero.
#[derive(Debug, Copy, Clone)]
pub struct CurrentDS {
    /// See *IEEE1588-2019 section 8.2.2.2*.
    pub steps_removed: u16,
    /// See *IEEE1588-2019 section 8.2.2.3*.
    pub offset_from_master: i128,
    /// See *IEEE1588-2019 section 8.2.2.4*.
    pub mean_delay: i128,
}

impl<'a> From<&'a InternalCurrentDS> for CurrentDS {
    fn from(v: &'a InternalCurrentDS) -> (r: CurrentDS) {
        CurrentDS {
            steps_removed: v.steps_removed,
            offset_from_master: v.offset_from_master.nanos_rounded(),
            mean_delay: v.mean_delay.nanos_rounded(),
        }
    }
}

impl<'a> vstd::std_specs::convert::FromSpecImpl<&'a InternalCurrentDS> for CurrentDS {
    open spec fn obeys_from_spec() -> bool {
        true
    }

    open spec fn from_spec(v: &'a InternalCurrentDS) -> CurrentDS {
        CurrentDS {
            steps_removed: v.steps_removed,
            offset_from_master: spec_nanos_rounded(v.offset_from_master.subnanos as int) as i128,
            mean_delay: spec_nanos_rounded(v.mean_delay.subnanos as int) as i128,
        }
    }
}

} // verus!
