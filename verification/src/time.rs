//! Internal time representations: the on-wire `TimeInterval`, the signed
//! `Duration`, and the unsigned `Instant`.
//!
//! All three count time in units of 2^-16 nanoseconds ("subnanoseconds"),
//! the precision of the PTP correction field.

use vstd::arithmetic::power2::{lemma_pow2_adds, lemma_pow2_strictly_increases, pow2};
use vstd::prelude::*;

verus! {

/// Number of subnanosecond units in one nanosecond.
pub const SUBNANOS_PER_NANO: i64 = 0x10000;

/// A PTP time interval (IEEE 1588-2019 section 5.3.2): a signed fixed-point
/// number of nanoseconds with 48 integer bits and 16 fractional bits.
/// The stored value is the on-wire value, i.e. the interval in nanoseconds
/// multiplied by 2^16.
#[derive(Debug, Clone, Copy, PartialEq, Eq, Structural)]
pub struct TimeInterval(pub i64);

impl TimeInterval {
    /// The interval, in subnanoseconds.
    pub open spec fn subnanos(self) -> int {
        self.0 as int
    }

    /// Builds the interval that is exactly `nanos` nanoseconds.
    pub fn from_nanos(nanos: i64) -> (r: TimeInterval)
        requires
            -0x8000_0000_0000 < nanos < 0x8000_0000_0000,
        ensures
            r.subnanos() == nanos * 0x10000,
    {
        TimeInterval(nanos * SUBNANOS_PER_NANO)
    }

    /// The interval in whole nanoseconds, rounded towards negative infinity.
    pub fn to_nanos(self) -> (r: i64)
        ensures
            r == self.subnanos() / 0x10000,
    {
        let v: i128 = self.0 as i128;
        if v >= 0 {
            (v / 0x10000) as i64
        } else {
            let w: i128 = -v;
            let q: i128 = (w + 0xFFFF) / 0x10000;
            proof {
                assert(0x10000 * ((v as int) / 0x10000) + (v as int) % 0x10000 == v as int);
                assert((-((w + 0xFFFF) / 0x10000)) == (v as int) / 0x10000);
            }
            (-q) as i64
        }
    }
}

/// Every whole-nanosecond count below 2^47 in magnitude survives the
/// trip into a `TimeInterval` and back: `from_nanos` scales by 2^16 and
/// `to_nanos` divides it out exactly.
pub proof fn lemma_interval_nanos_roundtrip(nanos: i64)
    requires
        -0x8000_0000_0000 < nanos < 0x8000_0000_0000,
    ensures
        TimeInterval((nanos * 0x10000) as i64).subnanos() / 0x10000 == nanos,
{
}

/// An on-wire PTP timestamp: 48-bit unsigned seconds and nanoseconds
/// below 10^9 (IEEE 1588-2019 section 5.3.3).
#[derive(Debug, Clone, Copy, PartialEq, Eq, Structural)]
pub struct Timestamp {
    pub seconds: u64,
    pub nanos: u32,
}

impl Timestamp {
    /// The representable range: seconds fit 48 bits, nanoseconds stay
    /// below one second.
    pub open spec fn valid(self) -> bool {
        self.seconds < 0x1_0000_0000_0000 && self.nanos < 1_000_000_000
    }
}

/// An unsigned point of internal time, in subnanoseconds since the
/// local epoch.
#[derive(Debug, Clone, Copy, PartialEq, Eq, Structural)]
pub struct Instant {
    pub subnanos: u128,
}

impl Instant {
    /// The instant of an OS timespec: seconds and nanoseconds since the
    /// epoch, with negative components read as zero.
    pub fn from_timespec(seconds: i64, nanos: i64) -> (r: Instant)
        ensures
            r.subnanos == ((if seconds >= 0 {
                seconds as int
            } else {
                0
            }) * 1_000_000_000 + (if nanos >= 0 {
                nanos as int
            } else {
                0
            })) * 0x10000,
    {
        let s: u128 = if seconds >= 0 {
            seconds as u128
        } else {
            0
        };
        let n: u128 = if nanos >= 0 {
            nanos as u128
        } else {
            0
        };
        Instant { subnanos: (s * 1_000_000_000 + n) * 0x10000 }
    }
}

/// A signed span of internal time, in subnanoseconds.
#[derive(Debug, Clone, Copy, PartialEq, Eq, Structural, Default)]
pub struct Duration {
    pub subnanos: i128,
}

/// The mathematical value, in subnanoseconds, of `2^log_interval` seconds:
/// `10^9 * 2^(16 + log_interval)` for `log_interval >= -16`, and `0` below
/// that (a log interval smaller than 2^-16 s is under the clock's
/// resolution).
pub open spec fn spec_log_interval_subnanos(log_interval: int) -> int {
    if log_interval >= -16 {
        1_000_000_000 * pow2((log_interval + 16) as nat) as int
    } else {
        0
    }
}

/// Rounding of a subnanosecond count to whole nanoseconds: to nearest,
/// ties away from zero.
pub open spec fn spec_nanos_rounded(subnanos: int) -> int {
    if subnanos >= 0 {
        (subnanos + 0x8000) / 0x10000
    } else {
        -(((-subnanos) + 0x8000) / 0x10000)
    }
}

impl Duration {
    /// The zero-length span.
    pub fn zero() -> (r: Duration)
        ensures
            r.subnanos == 0,
    {
        Duration { subnanos: 0 }
    }

    /// The span of `2^log_interval` seconds, the derived duration of every
    /// logarithmic interval field of PTP (IEEE 1588-2019 section 7.7.2.1).
    /// For negative exponents the fractional part is exact down to 2^-16 s.
    pub fn from_log_interval(log_interval: i8) -> (r: Duration)
        requires
            log_interval <= 80,
        ensures
            r.subnanos == spec_log_interval_subnanos(log_interval as int),
    {
        if log_interval < -16 {
            return Duration { subnanos: 0 };
        }
        let n: u32 = (log_interval as i32 + 16) as u32;
        let mut acc: i128 = 1_000_000_000;
        let mut i: u32 = 0;
        proof {
            vstd::arithmetic::power2::lemma2_to64();
            lemma_pow2_adds(64, 32);
        }
        while i < n
            invariant
                0 <= i <= n <= 96,
                acc == 1_000_000_000 * pow2(i as nat),
            decreases n - i,
        {
            proof {
                vstd::arithmetic::power2::lemma2_to64();
                lemma_pow2_adds(64, 32);
                if (i as nat) < 96 {
                    lemma_pow2_strictly_increases(i as nat, 96);
                }
                assert(pow2((i + 1) as nat) == 2 * pow2(i as nat)) by {
                    vstd::arithmetic::power2::lemma_pow2_unfold((i + 1) as nat);
                }
            }
            acc = acc * 2;
            i = i + 1;
        }
        Duration { subnanos: acc }
    }

    /// The span in whole nanoseconds, rounded to nearest with ties away
    /// from zero.
    pub fn nanos_rounded(&self) -> (r: i128)
        ensures
            r == spec_nanos_rounded(self.subnanos as int),
    {
        let v: i128 = self.subnanos;
        let q: i128 = v / 0x10000;
        let rem: i128 = v % 0x10000;
        if rem >= 0x8000 {
            q + 1
        } else if rem <= -0x8000 {
            q - 1
        } else {
            q
        }
    }
}

} // verus!
