//! Shared field types of PTP messages and datasets, and the wire-format
//! error taxonomy.

use vstd::prelude::*;

verus! {

/// Which enum field of a message a reserved value was found in.
#[derive(Debug, Clone, Copy, PartialEq, Eq, Structural)]
pub enum EnumTag {
    MessageType,
}

/// Failure of the wire codec. Always recovered locally by the caller.
#[derive(Debug, Clone, Copy, PartialEq, Eq, Structural)]
pub enum WireFormatError {
    /// The buffer is smaller than the encoding of the value.
    BufferTooShort,
    /// A field holds a value that the named enum reserves.
    InvalidEnumValue(EnumTag, u8),
    /// A numeric field is outside its permitted range.
    OutOfRange,
}

/// An 8-octet identifier, globally unique per clock
/// (IEEE 1588-2019 section 5.3.4).
#[derive(Debug, Clone, Copy)]
pub struct ClockIdentity(pub [u8; 8]);

impl PartialEq for ClockIdentity {
    fn eq(&self, other: &ClockIdentity) -> (r: bool) {
        let mut i: usize = 0;
        while i < 8
            invariant
                0 <= i <= 8,
                forall|j: int| 0 <= j < i ==> self.0@[j] == other.0@[j],
            decreases 8 - i,
        {
            if self.0[i] != other.0[i] {
                return false;
            }
            i = i + 1;
        }
        proof {
            assert(self.0@ =~= other.0@);
        }
        true
    }
}

impl Eq for ClockIdentity {}

impl vstd::std_specs::cmp::PartialEqSpecImpl for ClockIdentity {
    open spec fn obeys_eq_spec() -> bool {
        true
    }

    open spec fn eq_spec(&self, other: &ClockIdentity) -> bool {
        self.0@ == other.0@
    }
}

/// The ASCII code of the lower-case hexadecimal digit of `d < 16`.
pub open spec fn spec_hex_digit(d: int) -> u8 {
    if d < 10 {
        (48 + d) as u8
    } else {
        (87 + d) as u8
    }
}

/// The lower-case hexadecimal rendering of a byte string, two digits per
/// byte, as ASCII codes.
pub open spec fn spec_hex_bytes(s: Seq<u8>) -> Seq<u8>
    decreases s.len(),
{
    if s.len() == 0 {
        Seq::empty()
    } else {
        spec_hex_bytes(s.drop_last()) + seq![
            spec_hex_digit(s.last() as int / 16),
            spec_hex_digit(s.last() as int % 16),
        ]
    }
}

impl ClockIdentity {
    /// The identity as lower-case hexadecimal text, two digits per octet,
    /// as ASCII bytes.
    pub fn to_hex_bytes(&self) -> (r: Vec<u8>)
        ensures
            r@ == spec_hex_bytes(self.0@),
    {
        let mut out: Vec<u8> = Vec::new();
        let mut i: usize = 0;
        while i < 8
            invariant
                0 <= i <= 8,
                out@ == spec_hex_bytes(self.0@.take(i as int)),
            decreases 8 - i,
        {
            let b = self.0[i];
            let hi = b / 16;
            let lo = b % 16;
            out.push(if hi < 10 {
                48 + hi
            } else {
                87 + hi
            });
            out.push(if lo < 10 {
                48 + lo
            } else {
                87 + lo
            });
            i = i + 1;
            proof {
                assert(self.0@.take(i as int).drop_last() =~= self.0@.take(i - 1));
                assert(out@ =~= spec_hex_bytes(self.0@.take(i as int)));
            }
        }
        proof {
            assert(self.0@.take(8) =~= self.0@);
        }
        out
    }
}

/// A clock identity together with a 1-based port number
/// (IEEE 1588-2019 section 5.3.5).
#[derive(Debug, Clone, Copy)]
pub struct PortIdentity {
    pub clock_identity: ClockIdentity,
    pub port_number: u16,
}

impl PartialEq for PortIdentity {
    fn eq(&self, other: &PortIdentity) -> (r: bool) {
        self.clock_identity == other.clock_identity && self.port_number == other.port_number
    }
}

impl Eq for PortIdentity {}

impl vstd::std_specs::cmp::PartialEqSpecImpl for PortIdentity {
    open spec fn obeys_eq_spec() -> bool {
        true
    }

    open spec fn eq_spec(&self, other: &PortIdentity) -> bool {
        self.clock_identity.0@ == other.clock_identity.0@
            && self.port_number == other.port_number
    }
}

/// Two port identities name the same port of the same clock.
pub open spec fn spec_port_identity_eq(a: PortIdentity, b: PortIdentity) -> bool {
    a.clock_identity.0@ == b.clock_identity.0@ && a.port_number == b.port_number
}

/// The graded accuracy of a clock, as the octet that the Announce message
/// carries (IEEE 1588-2019 table 5).
#[derive(Debug, Clone, Copy, PartialEq, Eq, Structural)]
pub struct ClockAccuracy(pub u8);

impl ClockAccuracy {
    /// The on-wire octet of this accuracy grade.
    pub fn to_primitive(&self) -> (r: u8)
        ensures
            r == self.0,
    {
        self.0
    }
}

/// The quality of a clock, as advertised in Announce messages and ranked
/// by the best-master comparison (IEEE 1588-2019 section 5.3.7).
#[derive(Debug, Clone, Copy, PartialEq, Eq, Structural)]
pub struct ClockQuality {
    pub clock_class: u8,
    pub clock_accuracy: ClockAccuracy,
    pub offset_scaled_log_variance: u16,
}

/// The Default dataset: static description of the local clock
/// (IEEE 1588-2019 section 8.2.1).
#[derive(Debug, Clone, Copy, PartialEq, Eq)]
pub struct DefaultDS {
    pub two_step_flag: bool,
    pub clock_identity: ClockIdentity,
    pub number_ports: u16,
    pub clock_quality: ClockQuality,
    pub priority_1: u8,
    pub priority_2: u8,
    pub domain_number: u8,
    pub slave_only: bool,
}

/// The TimeProperties dataset: attributes of the timescale that the
/// elected grandmaster propagates (IEEE 1588-2019 section 8.2.4).
#[derive(Debug, Clone, Copy, PartialEq, Eq, Structural)]
pub struct TimePropertiesDS {
    pub current_utc_offset: Option<i16>,
    pub leap59: bool,
    pub leap61: bool,
    pub time_traceable: bool,
    pub frequency_traceable: bool,
    pub ptp_timescale: bool,
    pub time_source: u8,
}

} // verus!
