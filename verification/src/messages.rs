//! PTP message types and the bit-exact wire codec of the common message
//! header (IEEE 1588-2019 section 13.3).

use crate::common::{ClockAccuracy, ClockIdentity, ClockQuality, EnumTag, PortIdentity, WireFormatError};
use crate::time::TimeInterval;
use vstd::prelude::*;

verus! {

/// The closed set of PTP message types (IEEE 1588-2019 table 36).
#[derive(Debug, Clone, Copy, PartialEq, Eq, Structural)]
pub enum MessageType {
    Sync,
    DelayReq,
    PdelayReq,
    PdelayResp,
    FollowUp,
    DelayResp,
    PdelayRespFollowUp,
    Announce,
    Signaling,
    Management,
}

/// The message-type nibble that `t` is encoded as.
pub open spec fn spec_message_type_primitive(t: MessageType) -> u8 {
    match t {
        MessageType::Sync => 0x0,
        MessageType::DelayReq => 0x1,
        MessageType::PdelayReq => 0x2,
        MessageType::PdelayResp => 0x3,
        MessageType::FollowUp => 0x8,
        MessageType::DelayResp => 0x9,
        MessageType::PdelayRespFollowUp => 0xA,
        MessageType::Announce => 0xB,
        MessageType::Signaling => 0xC,
        MessageType::Management => 0xD,
    }
}

/// The message type encoded by the nibble `v`, if `v` is not reserved.
pub open spec fn spec_message_type_from(v: u8) -> Option<MessageType> {
    match v {
        0x0u8 => Some(MessageType::Sync),
        0x1u8 => Some(MessageType::DelayReq),
        0x2u8 => Some(MessageType::PdelayReq),
        0x3u8 => Some(MessageType::PdelayResp),
        0x8u8 => Some(MessageType::FollowUp),
        0x9u8 => Some(MessageType::DelayResp),
        0xAu8 => Some(MessageType::PdelayRespFollowUp),
        0xBu8 => Some(MessageType::Announce),
        0xCu8 => Some(MessageType::Signaling),
        0xDu8 => Some(MessageType::Management),
        _ => None,
    }
}

impl MessageType {
    /// The nibble this message type is encoded as.
    pub fn to_primitive(self) -> (r: u8)
        ensures
            r == spec_message_type_primitive(self),
            r < 16,
    {
        match self {
            MessageType::Sync => 0x0,
            MessageType::DelayReq => 0x1,
            MessageType::PdelayReq => 0x2,
            MessageType::PdelayResp => 0x3,
            MessageType::FollowUp => 0x8,
            MessageType::DelayResp => 0x9,
            MessageType::PdelayRespFollowUp => 0xA,
            MessageType::Announce => 0xB,
            MessageType::Signaling => 0xC,
            MessageType::Management => 0xD,
        }
    }

    /// Decodes a message-type nibble; a reserved value is rejected with
    /// `InvalidEnumValue`.
    pub fn from_primitive(v: u8) -> (r: Result<MessageType, WireFormatError>)
        ensures
            r is Ok <==> spec_message_type_from(v) is Some,
            r is Ok ==> r->Ok_0 == spec_message_type_from(v)->0,
            r is Err ==> r->Err_0 == WireFormatError::InvalidEnumValue(EnumTag::MessageType, v),
    {
        match v {
            0x0 => Ok(MessageType::Sync),
            0x1 => Ok(MessageType::DelayReq),
            0x2 => Ok(MessageType::PdelayReq),
            0x3 => Ok(MessageType::PdelayResp),
            0x8 => Ok(MessageType::FollowUp),
            0x9 => Ok(MessageType::DelayResp),
            0xA => Ok(MessageType::PdelayRespFollowUp),
            0xB => Ok(MessageType::Announce),
            0xC => Ok(MessageType::Signaling),
            0xD => Ok(MessageType::Management),
            _ => Err(WireFormatError::InvalidEnumValue(EnumTag::MessageType, v)),
        }
    }
}

/// Message types round-trip through their nibble encoding, and every
/// reserved nibble is rejected.
pub proof fn lemma_message_type_roundtrip(t: MessageType, v: u8)
    ensures
        spec_message_type_from(spec_message_type_primitive(t)) == Some(t),
        spec_message_type_from(v) is Some ==> spec_message_type_primitive(
            spec_message_type_from(v)->0,
        ) == v,
{
}

/// The legacy control field, derivable from the message type
/// (IEEE 1588-2019 table 42).
#[derive(Debug, Clone, Copy, PartialEq, Eq, Structural)]
pub enum ControlField {
    Sync,
    DelayReq,
    FollowUp,
    DelayResp,
    Management,
    AllOthers,
}

/// The octet that `c` is encoded as.
pub open spec fn spec_control_field_primitive(c: ControlField) -> u8 {
    match c {
        ControlField::Sync => 0x00,
        ControlField::DelayReq => 0x01,
        ControlField::FollowUp => 0x02,
        ControlField::DelayResp => 0x03,
        ControlField::Management => 0x04,
        ControlField::AllOthers => 0x05,
    }
}

/// The control field encoded by the octet `v`; every octet above 0x04
/// reads as `AllOthers`.
pub open spec fn spec_control_field_from(v: u8) -> ControlField {
    match v {
        0x00u8 => ControlField::Sync,
        0x01u8 => ControlField::DelayReq,
        0x02u8 => ControlField::FollowUp,
        0x03u8 => ControlField::DelayResp,
        0x04u8 => ControlField::Management,
        _ => ControlField::AllOthers,
    }
}

impl ControlField {
    /// The on-wire octet of this control field.
    pub fn to_primitive(self) -> (r: u8)
        ensures
            r == spec_control_field_primitive(self),
    {
        match self {
            ControlField::Sync => 0x00,
            ControlField::DelayReq => 0x01,
            ControlField::FollowUp => 0x02,
            ControlField::DelayResp => 0x03,
            ControlField::Management => 0x04,
            ControlField::AllOthers => 0x05,
        }
    }

    /// Decodes an octet into a control field; never fails.
    pub fn from_primitive(v: u8) -> (r: ControlField)
        ensures
            r == spec_control_field_from(v),
    {
        match v {
            0x00 => ControlField::Sync,
            0x01 => ControlField::DelayReq,
            0x02 => ControlField::FollowUp,
            0x03 => ControlField::DelayResp,
            0x04 => ControlField::Management,
            _ => ControlField::AllOthers,
        }
    }
}

/// Control fields round-trip through their octet encoding.
pub proof fn lemma_control_field_roundtrip(c: ControlField)
    ensures
        spec_control_field_from(spec_control_field_primitive(c)) == c,
{
}

/// The 16 named boolean flags of the header's flag field
/// (IEEE 1588-2019 table 37). Reserved positions serialize as zero.
#[derive(Debug, Clone, Copy, PartialEq, Eq, Structural)]
pub struct FlagField {
    pub alternate_master_flag: bool,
    pub two_step_flag: bool,
    pub unicast_flag: bool,
    pub ptp_profile_specific_1: bool,
    pub ptp_profile_specific_2: bool,
    pub leap61: bool,
    pub leap59: bool,
    pub current_utc_offset_valid: bool,
    pub ptp_timescale: bool,
    pub time_tracable: bool,
    pub frequency_tracable: bool,
    pub synchronization_uncertain: bool,
}

/// The value of one flag at its bit weight: `w` if set, zero if clear.
pub open spec fn spec_flag_bit(flag: bool, w: u8) -> u8 {
    if flag {
        w
    } else {
        0
    }
}

/// The first on-wire octet of the flag field.
pub open spec fn spec_flag_byte_0(f: FlagField) -> u8 {
    spec_flag_bit(f.alternate_master_flag, 1) | spec_flag_bit(f.two_step_flag, 2)
        | spec_flag_bit(f.unicast_flag, 4) | spec_flag_bit(f.ptp_profile_specific_1, 32)
        | spec_flag_bit(f.ptp_profile_specific_2, 64)
}

/// The second on-wire octet of the flag field.
pub open spec fn spec_flag_byte_1(f: FlagField) -> u8 {
    spec_flag_bit(f.leap61, 1) | spec_flag_bit(f.leap59, 2) | spec_flag_bit(
        f.current_utc_offset_valid,
        4,
    ) | spec_flag_bit(f.ptp_timescale, 8) | spec_flag_bit(f.time_tracable, 16) | spec_flag_bit(
        f.frequency_tracable,
        32,
    ) | spec_flag_bit(f.synchronization_uncertain, 64)
}

/// The flag field read from its two on-wire octets; reserved positions
/// are ignored.
pub open spec fn spec_flags_from(b0: u8, b1: u8) -> FlagField {
    FlagField {
        alternate_master_flag: b0 & 1 == 1,
        two_step_flag: b0 & 2 == 2,
        unicast_flag: b0 & 4 == 4,
        ptp_profile_specific_1: b0 & 32 == 32,
        ptp_profile_specific_2: b0 & 64 == 64,
        leap61: b1 & 1 == 1,
        leap59: b1 & 2 == 2,
        current_utc_offset_valid: b1 & 4 == 4,
        ptp_timescale: b1 & 8 == 8,
        time_tracable: b1 & 16 == 16,
        frequency_tracable: b1 & 32 == 32,
        synchronization_uncertain: b1 & 64 == 64,
    }
}

impl FlagField {
    /// Encodes the flags into their two on-wire octets.
    pub fn serialize(&self) -> (r: (u8, u8))
        ensures
            r.0 == spec_flag_byte_0(*self),
            r.1 == spec_flag_byte_1(*self),
    {
        let b0: u8 = (if self.alternate_master_flag {
            1u8
        } else {
            0u8
        }) | (if self.two_step_flag {
            2u8
        } else {
            0u8
        }) | (if self.unicast_flag {
            4u8
        } else {
            0u8
        }) | (if self.ptp_profile_specific_1 {
            32u8
        } else {
            0u8
        }) | (if self.ptp_profile_specific_2 {
            64u8
        } else {
            0u8
        });
        let b1: u8 = (if self.leap61 {
            1u8
        } else {
            0u8
        }) | (if self.leap59 {
            2u8
        } else {
            0u8
        }) | (if self.current_utc_offset_valid {
            4u8
        } else {
            0u8
        }) | (if self.ptp_timescale {
            8u8
        } else {
            0u8
        }) | (if self.time_tracable {
            16u8
        } else {
            0u8
        }) | (if self.frequency_tracable {
            32u8
        } else {
            0u8
        }) | (if self.synchronization_uncertain {
            64u8
        } else {
            0u8
        });
        (b0, b1)
    }

    /// Decodes the flags from their two on-wire octets.
    pub fn deserialize(b0: u8, b1: u8) -> (r: FlagField)
        ensures
            r == spec_flags_from(b0, b1),
    {
        FlagField {
            alternate_master_flag: b0 & 1 == 1,
            two_step_flag: b0 & 2 == 2,
            unicast_flag: b0 & 4 == 4,
            ptp_profile_specific_1: b0 & 32 == 32,
            ptp_profile_specific_2: b0 & 64 == 64,
            leap61: b1 & 1 == 1,
            leap59: b1 & 2 == 2,
            current_utc_offset_valid: b1 & 4 == 4,
            ptp_timescale: b1 & 8 == 8,
            time_tracable: b1 & 16 == 16,
            frequency_tracable: b1 & 32 == 32,
            synchronization_uncertain: b1 & 64 == 64,
        }
    }
}

/// Reading any one of five disjoint flag bits back out of their
/// bitwise-or recovers the flag.
proof fn lemma_five_flag_bits(a: bool, b: bool, c: bool, d: bool, e: bool)
    by (bit_vector)
    ensures
        ({
            let v = (if a {
                1u8
            } else {
                0u8
            }) | (if b {
                2u8
            } else {
                0u8
            }) | (if c {
                4u8
            } else {
                0u8
            }) | (if d {
                32u8
            } else {
                0u8
            }) | (if e {
                64u8
            } else {
                0u8
            });
            (v & 1 == 1) == a && (v & 2 == 2) == b && (v & 4 == 4) == c && (v & 32 == 32) == d && (
            v & 64 == 64) == e && (v & 8 == 8) == false && (v & 16 == 16) == false
        }),
{
}

/// Reading any one of seven disjoint flag bits back out of their
/// bitwise-or recovers the flag.
proof fn lemma_seven_flag_bits(a: bool, b: bool, c: bool, d: bool, e: bool, f: bool, g: bool)
    by (bit_vector)
    ensures
        ({
            let v = (if a {
                1u8
            } else {
                0u8
            }) | (if b {
                2u8
            } else {
                0u8
            }) | (if c {
                4u8
            } else {
                0u8
            }) | (if d {
                8u8
            } else {
                0u8
            }) | (if e {
                16u8
            } else {
                0u8
            }) | (if f {
                32u8
            } else {
                0u8
            }) | (if g {
                64u8
            } else {
                0u8
            });
            (v & 1 == 1) == a && (v & 2 == 2) == b && (v & 4 == 4) == c && (v & 8 == 8) == d && (v
                & 16 == 16) == e && (v & 32 == 32) == f && (v & 64 == 64) == g
        }),
{
}

/// Flag fields round-trip through their two-octet encoding.
pub proof fn lemma_flag_field_roundtrip(f: FlagField)
    ensures
        spec_flags_from(spec_flag_byte_0(f), spec_flag_byte_1(f)) == f,
{
    lemma_five_flag_bits(
        f.alternate_master_flag,
        f.two_step_flag,
        f.unicast_flag,
        f.ptp_profile_specific_1,
        f.ptp_profile_specific_2,
    );
    lemma_seven_flag_bits(
        f.leap61,
        f.leap59,
        f.current_utc_offset_valid,
        f.ptp_timescale,
        f.time_tracable,
        f.frequency_tracable,
        f.synchronization_uncertain,
    );
}

/// The high octet of a 16-bit big-endian value.
pub open spec fn spec_u16_hi(x: u16) -> u8 {
    (x >> 8) as u8
}

/// The low octet of a 16-bit big-endian value.
pub open spec fn spec_u16_lo(x: u16) -> u8 {
    x as u8
}

/// The 16-bit value read from two big-endian octets.
pub open spec fn spec_u16_of(hi: u8, lo: u8) -> u16 {
    ((hi as u16) << 8) | (lo as u16)
}

/// A 16-bit value round-trips through its two big-endian octets.
pub proof fn lemma_u16_roundtrip(x: u16)
    by (bit_vector)
    ensures
        spec_u16_of(spec_u16_hi(x), spec_u16_lo(x)) == x,
{
}

/// The 64-bit value read from eight big-endian octets.
pub open spec fn spec_u64_of_bytes(
    b0: u8,
    b1: u8,
    b2: u8,
    b3: u8,
    b4: u8,
    b5: u8,
    b6: u8,
    b7: u8,
) -> u64 {
    ((b0 as u64) << 56) | ((b1 as u64) << 48) | ((b2 as u64) << 40) | ((b3 as u64) << 32) | ((
    b4 as u64) << 24) | ((b5 as u64) << 16) | ((b6 as u64) << 8) | (b7 as u64)
}

/// A 64-bit value round-trips through its eight big-endian octets.
pub proof fn lemma_u64_roundtrip(x: u64)
    by (bit_vector)
    ensures
        spec_u64_of_bytes(
            (x >> 56) as u8,
            (x >> 48) as u8,
            (x >> 40) as u8,
            (x >> 32) as u8,
            (x >> 24) as u8,
            (x >> 16) as u8,
            (x >> 8) as u8,
            x as u8,
        ) == x,
{
}

/// The two's-complement reinterpretation of a signed 64-bit value.
pub open spec fn spec_i64_to_u64(v: i64) -> u64 {
    if v >= 0 {
        v as u64
    } else {
        (v + 0x1_0000_0000_0000_0000) as u64
    }
}

/// The signed value encoded by a 64-bit two's-complement pattern.
pub open spec fn spec_u64_to_i64(u: u64) -> i64 {
    if u < 0x8000_0000_0000_0000 {
        u as i64
    } else {
        (u - 0x1_0000_0000_0000_0000) as i64
    }
}

/// A signed 64-bit value round-trips through its two's-complement pattern.
pub proof fn lemma_i64_roundtrip(v: i64)
    ensures
        spec_u64_to_i64(spec_i64_to_u64(v)) == v,
{
}

/// The common header of every PTP message (IEEE 1588-2019 section 13.3):
/// 34 octets on the wire.
#[derive(Debug, Clone, Copy, PartialEq, Eq)]
pub struct Header {
    pub major_sdo_id: u8,
    pub message_type: MessageType,
    pub minor_version_ptp: u8,
    pub version_ptp: u8,
    pub message_length: u16,
    pub domain_number: u8,
    pub minor_sdo_id: u8,
    pub flag_field: FlagField,
    pub correction_field: TimeInterval,
    pub message_type_specific: [u8; 4],
    pub source_port_identity: PortIdentity,
    pub sequence_id: u16,
    pub control_field: ControlField,
    pub log_message_interval: u8,
}

/// The length of an encoded header, in octets.
pub const HEADER_SIZE: usize = 34;

impl Header {
    /// A header whose nibble-sized fields fit their nibbles. Serialization
    /// masks the fields, so only valid headers survive a round trip
    /// unchanged.
    pub open spec fn valid(self) -> bool {
        self.major_sdo_id < 16 && self.minor_version_ptp < 16 && self.version_ptp < 16
    }
}

/// The exact 34 octets that a header serializes to.
pub open spec fn spec_header_bytes(h: Header) -> Seq<u8> {
    let correction = spec_i64_to_u64(h.correction_field.0);
    seq![
        ((h.major_sdo_id & 0x0F) << 4) | (spec_message_type_primitive(h.message_type) & 0x0F),
        ((h.minor_version_ptp & 0x0F) << 4) | (h.version_ptp & 0x0F),
        spec_u16_hi(h.message_length),
        spec_u16_lo(h.message_length),
        h.domain_number,
        h.minor_sdo_id,
        spec_flag_byte_0(h.flag_field),
        spec_flag_byte_1(h.flag_field),
        (correction >> 56) as u8,
        (correction >> 48) as u8,
        (correction >> 40) as u8,
        (correction >> 32) as u8,
        (correction >> 24) as u8,
        (correction >> 16) as u8,
        (correction >> 8) as u8,
        correction as u8,
        h.message_type_specific@[0],
        h.message_type_specific@[1],
        h.message_type_specific@[2],
        h.message_type_specific@[3],
        h.source_port_identity.clock_identity.0@[0],
        h.source_port_identity.clock_identity.0@[1],
        h.source_port_identity.clock_identity.0@[2],
        h.source_port_identity.clock_identity.0@[3],
        h.source_port_identity.clock_identity.0@[4],
        h.source_port_identity.clock_identity.0@[5],
        h.source_port_identity.clock_identity.0@[6],
        h.source_port_identity.clock_identity.0@[7],
        spec_u16_hi(h.source_port_identity.port_number),
        spec_u16_lo(h.source_port_identity.port_number),
        spec_u16_hi(h.sequence_id),
        spec_u16_lo(h.sequence_id),
        spec_control_field_primitive(h.control_field),
        h.log_message_interval,
    ]
}

/// Why a byte sequence fails to decode as a header, if it does fail.
pub open spec fn spec_header_decode_err(s: Seq<u8>) -> Option<WireFormatError> {
    if s.len() < 34 {
        Some(WireFormatError::BufferTooShort)
    } else if spec_message_type_from(s[0] & 0x0F) is None {
        Some(WireFormatError::InvalidEnumValue(EnumTag::MessageType, s[0] & 0x0F))
    } else {
        None
    }
}

/// The header `h` is exactly what the first 34 octets of `s` decode to.
pub open spec fn spec_header_decodes_to(s: Seq<u8>, h: Header) -> bool {
    &&& s.len() >= 34
    &&& h.major_sdo_id == (s[0] >> 4) & 0x0F
    &&& Some(h.message_type) == spec_message_type_from(s[0] & 0x0F)
    &&& h.minor_version_ptp == (s[1] >> 4) & 0x0F
    &&& h.version_ptp == s[1] & 0x0F
    &&& h.message_length == spec_u16_of(s[2], s[3])
    &&& h.domain_number == s[4]
    &&& h.minor_sdo_id == s[5]
    &&& h.flag_field == spec_flags_from(s[6], s[7])
    &&& h.correction_field.0 == spec_u64_to_i64(
        spec_u64_of_bytes(s[8], s[9], s[10], s[11], s[12], s[13], s[14], s[15]),
    )
    &&& h.message_type_specific@ == s.subrange(16, 20)
    &&& h.source_port_identity.clock_identity.0@ == s.subrange(20, 28)
    &&& h.source_port_identity.port_number == spec_u16_of(s[28], s[29])
    &&& h.sequence_id == spec_u16_of(s[30], s[31])
    &&& h.control_field == spec_control_field_from(s[32])
    &&& h.log_message_interval == s[33]
}

impl Header {
    /// Writes the 34-octet encoding of this header into the start of
    /// `buffer`, leaving the rest of the buffer unchanged. Fails with
    /// `BufferTooShort`, touching nothing, when the buffer cannot hold it.
    pub fn serialize(&self, buffer: &mut Vec<u8>) -> (r: Result<usize, WireFormatError>)
        ensures
            final(buffer)@.len() == old(buffer)@.len(),
            old(buffer)@.len() < 34 ==> r == Err::<usize, WireFormatError>(
                WireFormatError::BufferTooShort,
            ) && final(buffer)@ == old(buffer)@,
            old(buffer)@.len() >= 34 ==> {
                &&& r == Ok::<usize, WireFormatError>(34usize)
                &&& final(buffer)@.subrange(0, 34) == spec_header_bytes(*self)
                &&& forall|i: int|
                    34 <= i < final(buffer)@.len() ==> final(buffer)@[i] == old(buffer)@[i]
            },
    {
        if buffer.len() < 34 {
            return Err(WireFormatError::BufferTooShort);
        }
        let type_nibble = self.message_type.to_primitive();
        buffer[0] = ((self.major_sdo_id & 0x0F) << 4) | (type_nibble & 0x0F);
        buffer[1] = ((self.minor_version_ptp & 0x0F) << 4) | (self.version_ptp & 0x0F);
        buffer[2] = #[verifier::truncate] ((self.message_length >> 8) as u8);
        buffer[3] = #[verifier::truncate] (self.message_length as u8);
        buffer[4] = self.domain_number;
        buffer[5] = self.minor_sdo_id;
        let (flags_0, flags_1) = self.flag_field.serialize();
        buffer[6] = flags_0;
        buffer[7] = flags_1;
        let v: i64 = self.correction_field.0;
        let correction: u64 = if v >= 0 {
            v as u64
        } else {
            ((v as i128) + 0x1_0000_0000_0000_0000) as u64
        };
        buffer[8] = #[verifier::truncate] ((correction >> 56) as u8);
        buffer[9] = #[verifier::truncate] ((correction >> 48) as u8);
        buffer[10] = #[verifier::truncate] ((correction >> 40) as u8);
        buffer[11] = #[verifier::truncate] ((correction >> 32) as u8);
        buffer[12] = #[verifier::truncate] ((correction >> 24) as u8);
        buffer[13] = #[verifier::truncate] ((correction >> 16) as u8);
        buffer[14] = #[verifier::truncate] ((correction >> 8) as u8);
        buffer[15] = #[verifier::truncate] (correction as u8);
        buffer[16] = self.message_type_specific[0];
        buffer[17] = self.message_type_specific[1];
        buffer[18] = self.message_type_specific[2];
        buffer[19] = self.message_type_specific[3];
        buffer[20] = self.source_port_identity.clock_identity.0[0];
        buffer[21] = self.source_port_identity.clock_identity.0[1];
        buffer[22] = self.source_port_identity.clock_identity.0[2];
        buffer[23] = self.source_port_identity.clock_identity.0[3];
        buffer[24] = self.source_port_identity.clock_identity.0[4];
        buffer[25] = self.source_port_identity.clock_identity.0[5];
        buffer[26] = self.source_port_identity.clock_identity.0[6];
        buffer[27] = self.source_port_identity.clock_identity.0[7];
        buffer[28] = #[verifier::truncate] ((self.source_port_identity.port_number >> 8) as u8);
        buffer[29] = #[verifier::truncate] (self.source_port_identity.port_number as u8);
        buffer[30] = #[verifier::truncate] ((self.sequence_id >> 8) as u8);
        buffer[31] = #[verifier::truncate] (self.sequence_id as u8);
        buffer[32] = self.control_field.to_primitive();
        buffer[33] = self.log_message_interval;
        proof {
            assert(buffer@.subrange(0, 34) =~= spec_header_bytes(*self));
        }
        Ok(34)
    }

    /// Reads a header from the first 34 octets of `buffer`, returning it
    /// with the number of octets consumed. Fails with `BufferTooShort` on
    /// a short buffer and with `InvalidEnumValue` on a reserved message
    /// type, exposing no partial state.
    pub fn deserialize(buffer: &[u8]) -> (r: Result<(Header, usize), WireFormatError>)
        ensures
            r is Ok <==> spec_header_decode_err(buffer@) is None,
            r is Ok ==> spec_header_decodes_to(buffer@, r->Ok_0.0) && r->Ok_0.1 == 34,
            r is Err ==> Some(r->Err_0) == spec_header_decode_err(buffer@),
    {
        if buffer.len() < 34 {
            return Err(WireFormatError::BufferTooShort);
        }
        let message_type = match MessageType::from_primitive(buffer[0] & 0x0F) {
            Ok(t) => t,
            Err(e) => {
                return Err(e);
            },
        };
        let correction_bits: u64 = u64_from_be_bytes(
            buffer[8],
            buffer[9],
            buffer[10],
            buffer[11],
            buffer[12],
            buffer[13],
            buffer[14],
            buffer[15],
        );
        let correction: i64 = if correction_bits < 0x8000_0000_0000_0000 {
            correction_bits as i64
        } else {
            ((correction_bits as i128) - 0x1_0000_0000_0000_0000) as i64
        };
        let mut message_type_specific: [u8; 4] = [0, 0, 0, 0];
        message_type_specific[0] = buffer[16];
        message_type_specific[1] = buffer[17];
        message_type_specific[2] = buffer[18];
        message_type_specific[3] = buffer[19];
        let mut identity: [u8; 8] = [0, 0, 0, 0, 0, 0, 0, 0];
        identity[0] = buffer[20];
        identity[1] = buffer[21];
        identity[2] = buffer[22];
        identity[3] = buffer[23];
        identity[4] = buffer[24];
        identity[5] = buffer[25];
        identity[6] = buffer[26];
        identity[7] = buffer[27];
        let header = Header {
            major_sdo_id: (buffer[0] >> 4) & 0x0F,
            message_type,
            minor_version_ptp: (buffer[1] >> 4) & 0x0F,
            version_ptp: buffer[1] & 0x0F,
            message_length: u16_from_be_bytes(buffer[2], buffer[3]),
            domain_number: buffer[4],
            minor_sdo_id: buffer[5],
            flag_field: FlagField::deserialize(buffer[6], buffer[7]),
            correction_field: TimeInterval(correction),
            message_type_specific,
            source_port_identity: PortIdentity {
                clock_identity: ClockIdentity(identity),
                port_number: u16_from_be_bytes(buffer[28], buffer[29]),
            },
            sequence_id: u16_from_be_bytes(buffer[30], buffer[31]),
            control_field: ControlField::from_primitive(buffer[32]),
            log_message_interval: buffer[33],
        };
        proof {
            assert(header.message_type_specific@ =~= buffer@.subrange(16, 20));
            assert(header.source_port_identity.clock_identity.0@ =~= buffer@.subrange(20, 28));
        }
        Ok((header, 34))
    }
}

/// The 16-bit value read from two big-endian octets.
pub fn u16_from_be_bytes(hi: u8, lo: u8) -> (r: u16)
    ensures
        r == spec_u16_of(hi, lo),
{
    ((hi as u16) << 8) | (lo as u16)
}

/// The 64-bit value read from eight big-endian octets.
pub fn u64_from_be_bytes(
    b0: u8,
    b1: u8,
    b2: u8,
    b3: u8,
    b4: u8,
    b5: u8,
    b6: u8,
    b7: u8,
) -> (r: u64)
    ensures
        r == spec_u64_of_bytes(b0, b1, b2, b3, b4, b5, b6, b7),
{
    ((b0 as u64) << 56) | ((b1 as u64) << 48) | ((b2 as u64) << 40) | ((b3 as u64) << 32) | ((
    b4 as u64) << 24) | ((b5 as u64) << 16) | ((b6 as u64) << 8) | (b7 as u64)
}

/// Recovering the two nibbles that were packed into one octet.
proof fn lemma_nibble_roundtrip(hi: u8, lo: u8)
    by (bit_vector)
    requires
        hi < 16,
        lo < 16,
    ensures
        ((((hi & 0x0F) << 4) | (lo & 0x0F)) >> 4) & 0x0F == hi,
        (((hi & 0x0F) << 4) | (lo & 0x0F)) & 0x0F == lo,
{
}

/// Every valid header deserializes, from its own serialization, back to
/// itself, consuming exactly the 34 octets that were written.
pub proof fn lemma_header_roundtrip(h: Header)
    requires
        h.valid(),
    ensures
        spec_header_decode_err(spec_header_bytes(h)) is None,
        spec_header_decodes_to(spec_header_bytes(h), h),
{
    let s = spec_header_bytes(h);
    let prim = spec_message_type_primitive(h.message_type);
    lemma_nibble_roundtrip(h.major_sdo_id, prim);
    lemma_message_type_roundtrip(h.message_type, 0);
    lemma_nibble_roundtrip(h.minor_version_ptp, h.version_ptp);
    lemma_u16_roundtrip(h.message_length);
    lemma_u16_roundtrip(h.source_port_identity.port_number);
    lemma_u16_roundtrip(h.sequence_id);
    lemma_flag_field_roundtrip(h.flag_field);
    lemma_u64_roundtrip(spec_i64_to_u64(h.correction_field.0));
    lemma_i64_roundtrip(h.correction_field.0);
    lemma_control_field_roundtrip(h.control_field);
    assert(h.message_type_specific@ =~= s.subrange(16, 20));
    assert(h.source_port_identity.clock_identity.0@ =~= s.subrange(20, 28));
}

/// The 32-bit value read from four big-endian octets.
pub open spec fn spec_u32_of_bytes(b0: u8, b1: u8, b2: u8, b3: u8) -> u32 {
    ((b0 as u32) << 24) | ((b1 as u32) << 16) | ((b2 as u32) << 8) | (b3 as u32)
}

/// A 32-bit value round-trips through its four big-endian octets.
pub proof fn lemma_u32_roundtrip(x: u32)
    by (bit_vector)
    ensures
        spec_u32_of_bytes((x >> 24) as u8, (x >> 16) as u8, (x >> 8) as u8, x as u8) == x,
{
}

/// The 48-bit value read from six big-endian octets.
pub open spec fn spec_u48_of_bytes(b0: u8, b1: u8, b2: u8, b3: u8, b4: u8, b5: u8) -> u64 {
    ((b0 as u64) << 40) | ((b1 as u64) << 32) | ((b2 as u64) << 24) | ((b3 as u64) << 16) | ((
    b4 as u64) << 8) | (b5 as u64)
}

/// A value below 2^48 round-trips through its six big-endian octets,
/// and six octets always read back below 2^48.
pub proof fn lemma_u48_roundtrip(x: u64, b0: u8, b1: u8, b2: u8, b3: u8, b4: u8, b5: u8)
    by (bit_vector)
    ensures
        x < 0x1_0000_0000_0000 ==> spec_u48_of_bytes(
            (x >> 40) as u8,
            (x >> 32) as u8,
            (x >> 24) as u8,
            (x >> 16) as u8,
            (x >> 8) as u8,
            x as u8,
        ) == x,
        spec_u48_of_bytes(b0, b1, b2, b3, b4, b5) < 0x1_0000_0000_0000,
{
}

/// The exact 10 octets that a timestamp serializes to: 48 bits of
/// seconds, then 32 bits of nanoseconds, big-endian.
pub open spec fn spec_timestamp_bytes(t: crate::time::Timestamp) -> Seq<u8> {
    seq![
        (t.seconds >> 40) as u8,
        (t.seconds >> 32) as u8,
        (t.seconds >> 24) as u8,
        (t.seconds >> 16) as u8,
        (t.seconds >> 8) as u8,
        t.seconds as u8,
        (t.nanos >> 24) as u8,
        (t.nanos >> 16) as u8,
        (t.nanos >> 8) as u8,
        t.nanos as u8,
    ]
}

/// Why a byte sequence fails to decode as a timestamp, if it does fail.
pub open spec fn spec_timestamp_decode_err(s: Seq<u8>) -> Option<WireFormatError> {
    if s.len() < 10 {
        Some(WireFormatError::BufferTooShort)
    } else if spec_u32_of_bytes(s[6], s[7], s[8], s[9]) >= 1_000_000_000 {
        Some(WireFormatError::OutOfRange)
    } else {
        None
    }
}

/// The timestamp `t` is exactly what the first 10 octets of `s` decode
/// to.
pub open spec fn spec_timestamp_decodes_to(s: Seq<u8>, t: crate::time::Timestamp) -> bool {
    &&& s.len() >= 10
    &&& t.seconds == spec_u48_of_bytes(s[0], s[1], s[2], s[3], s[4], s[5])
    &&& t.nanos == spec_u32_of_bytes(s[6], s[7], s[8], s[9])
}

impl crate::time::Timestamp {
    /// Writes the 10-octet encoding of this timestamp into the start of
    /// `buffer`, leaving the rest unchanged. Fails with `BufferTooShort`,
    /// touching nothing, when the buffer cannot hold it.
    pub fn serialize(&self, buffer: &mut Vec<u8>) -> (r: Result<usize, WireFormatError>)
        requires
            self.valid(),
        ensures
            final(buffer)@.len() == old(buffer)@.len(),
            old(buffer)@.len() < 10 ==> r == Err::<usize, WireFormatError>(
                WireFormatError::BufferTooShort,
            ) && final(buffer)@ == old(buffer)@,
            old(buffer)@.len() >= 10 ==> {
                &&& r == Ok::<usize, WireFormatError>(10usize)
                &&& final(buffer)@.subrange(0, 10) == spec_timestamp_bytes(*self)
                &&& forall|i: int|
                    10 <= i < final(buffer)@.len() ==> final(buffer)@[i] == old(buffer)@[i]
            },
    {
        if buffer.len() < 10 {
            return Err(WireFormatError::BufferTooShort);
        }
        buffer[0] = #[verifier::truncate] ((self.seconds >> 40) as u8);
        buffer[1] = #[verifier::truncate] ((self.seconds >> 32) as u8);
        buffer[2] = #[verifier::truncate] ((self.seconds >> 24) as u8);
        buffer[3] = #[verifier::truncate] ((self.seconds >> 16) as u8);
        buffer[4] = #[verifier::truncate] ((self.seconds >> 8) as u8);
        buffer[5] = #[verifier::truncate] (self.seconds as u8);
        buffer[6] = #[verifier::truncate] ((self.nanos >> 24) as u8);
        buffer[7] = #[verifier::truncate] ((self.nanos >> 16) as u8);
        buffer[8] = #[verifier::truncate] ((self.nanos >> 8) as u8);
        buffer[9] = #[verifier::truncate] (self.nanos as u8);
        proof {
            assert(buffer@.subrange(0, 10) =~= spec_timestamp_bytes(*self));
        }
        Ok(10)
    }

    /// Reads a timestamp from the first 10 octets of `buffer`. Fails
    /// with `BufferTooShort` on a short buffer and with `OutOfRange` on
    /// a nanosecond count of a second or more.
    pub fn deserialize(buffer: &[u8]) -> (r: Result<(crate::time::Timestamp, usize), WireFormatError>)
        ensures
            r is Ok <==> spec_timestamp_decode_err(buffer@) is None,
            r is Ok ==> spec_timestamp_decodes_to(buffer@, r->Ok_0.0) && r->Ok_0.1 == 10
                && r->Ok_0.0.valid(),
            r is Err ==> Some(r->Err_0) == spec_timestamp_decode_err(buffer@),
    {
        if buffer.len() < 10 {
            return Err(WireFormatError::BufferTooShort);
        }
        let seconds: u64 = ((buffer[0] as u64) << 40) | ((buffer[1] as u64) << 32) | ((buffer[2]
            as u64) << 24) | ((buffer[3] as u64) << 16) | ((buffer[4] as u64) << 8) | (buffer[5]
            as u64);
        let nanos: u32 = ((buffer[6] as u32) << 24) | ((buffer[7] as u32) << 16) | ((buffer[8]
            as u32) << 8) | (buffer[9] as u32);
        if nanos >= 1_000_000_000 {
            return Err(WireFormatError::OutOfRange);
        }
        proof {
            lemma_u48_roundtrip(
                0,
                buffer@[0],
                buffer@[1],
                buffer@[2],
                buffer@[3],
                buffer@[4],
                buffer@[5],
            );
        }
        Ok((crate::time::Timestamp { seconds, nanos }, 10))
    }
}

/// Every valid timestamp deserializes, from its own serialization, back
/// to itself.
pub proof fn lemma_timestamp_roundtrip(t: crate::time::Timestamp)
    requires
        t.valid(),
    ensures
        spec_timestamp_decode_err(spec_timestamp_bytes(t)) is None,
        spec_timestamp_decodes_to(spec_timestamp_bytes(t), t),
{
    lemma_u48_roundtrip(t.seconds, 0, 0, 0, 0, 0, 0);
    lemma_u32_roundtrip(t.nanos);
}

/// An Announce message: the header together with the grandmaster
/// description that the best-master election ranks
/// (IEEE 1588-2019 section 13.5).
#[derive(Debug, Clone, Copy, PartialEq, Eq)]
pub struct AnnounceMessage {
    pub header: Header,
    pub origin_timestamp: crate::time::Timestamp,
    pub current_utc_offset: i16,
    pub grandmaster_priority_1: u8,
    pub grandmaster_clock_quality: ClockQuality,
    pub grandmaster_priority_2: u8,
    pub grandmaster_identity: ClockIdentity,
    pub steps_removed: u16,
    pub time_source: u8,
}

/// The length of an encoded Announce message: the 34-octet header and
/// a 30-octet body.
pub const ANNOUNCE_SIZE: usize = 64;

/// The two's-complement reinterpretation of a signed 16-bit value.
pub open spec fn spec_i16_to_u16(v: i16) -> u16 {
    if v >= 0 {
        v as u16
    } else {
        (v + 0x1_0000) as u16
    }
}

/// The signed value encoded by a 16-bit two's-complement pattern.
pub open spec fn spec_u16_to_i16(u: u16) -> i16 {
    if u < 0x8000 {
        u as i16
    } else {
        (u - 0x1_0000) as i16
    }
}

/// A signed 16-bit value round-trips through its two's-complement
/// pattern.
pub proof fn lemma_i16_roundtrip(v: i16)
    ensures
        spec_u16_to_i16(spec_i16_to_u16(v)) == v,
{
}

/// The exact 30 octets of the Announce body (IEEE 1588-2019 table 43):
/// origin timestamp, current UTC offset, a reserved zero octet, the
/// grandmaster's priority1, clock quality, priority2 and identity, the
/// steps removed, and the time source.
pub open spec fn spec_announce_body_bytes(m: AnnounceMessage) -> Seq<u8> {
    let utc = spec_i16_to_u16(m.current_utc_offset);
    spec_timestamp_bytes(m.origin_timestamp) + seq![
        spec_u16_hi(utc),
        spec_u16_lo(utc),
        0u8,
        m.grandmaster_priority_1,
        m.grandmaster_clock_quality.clock_class,
        m.grandmaster_clock_quality.clock_accuracy.0,
        spec_u16_hi(m.grandmaster_clock_quality.offset_scaled_log_variance),
        spec_u16_lo(m.grandmaster_clock_quality.offset_scaled_log_variance),
        m.grandmaster_priority_2,
        m.grandmaster_identity.0@[0],
        m.grandmaster_identity.0@[1],
        m.grandmaster_identity.0@[2],
        m.grandmaster_identity.0@[3],
        m.grandmaster_identity.0@[4],
        m.grandmaster_identity.0@[5],
        m.grandmaster_identity.0@[6],
        m.grandmaster_identity.0@[7],
        spec_u16_hi(m.steps_removed),
        spec_u16_lo(m.steps_removed),
        m.time_source,
    ]
}

/// The exact 64 octets that an Announce message serializes to.
pub open spec fn spec_announce_bytes(m: AnnounceMessage) -> Seq<u8> {
    spec_header_bytes(m.header) + spec_announce_body_bytes(m)
}

/// Why a byte sequence fails to decode as an Announce message, if it
/// does fail: a short buffer, else the header's error, else the origin
/// timestamp's error.
pub open spec fn spec_announce_decode_err(s: Seq<u8>) -> Option<WireFormatError> {
    if s.len() < 64 {
        Some(WireFormatError::BufferTooShort)
    } else if spec_header_decode_err(s) is Some {
        spec_header_decode_err(s)
    } else if spec_timestamp_decode_err(s.skip(34)) is Some {
        spec_timestamp_decode_err(s.skip(34))
    } else {
        None
    }
}

/// The message `m` is exactly what the first 64 octets of `s` decode
/// to; the reserved octet is ignored.
pub open spec fn spec_announce_decodes_to(s: Seq<u8>, m: AnnounceMessage) -> bool {
    &&& s.len() >= 64
    &&& spec_header_decodes_to(s, m.header)
    &&& spec_timestamp_decodes_to(s.skip(34), m.origin_timestamp)
    &&& m.current_utc_offset == spec_u16_to_i16(spec_u16_of(s[44], s[45]))
    &&& m.grandmaster_priority_1 == s[47]
    &&& m.grandmaster_clock_quality.clock_class == s[48]
    &&& m.grandmaster_clock_quality.clock_accuracy.0 == s[49]
    &&& m.grandmaster_clock_quality.offset_scaled_log_variance == spec_u16_of(s[50], s[51])
    &&& m.grandmaster_priority_2 == s[52]
    &&& m.grandmaster_identity.0@ == s.subrange(53, 61)
    &&& m.steps_removed == spec_u16_of(s[61], s[62])
    &&& m.time_source == s[63]
}

impl AnnounceMessage {
    /// The common header of this message.
    pub fn header(&self) -> (r: Header)
        ensures
            r == self.header,
    {
        self.header
    }

    /// A message whose header fits its nibbles, whose timestamp is in
    /// range, and whose header length field states the 64 octets an
    /// Announce occupies on the wire.
    pub open spec fn valid(self) -> bool {
        &&& self.header.valid()
        &&& self.header.message_type is Announce
        &&& self.header.message_length == 64
        &&& self.origin_timestamp.valid()
    }

    /// Writes the 64-octet encoding of this message into the start of
    /// `buffer`, leaving the rest unchanged. Fails with
    /// `BufferTooShort`, touching nothing, when the buffer cannot hold
    /// it.
    #[verifier::rlimit(50)]
    pub fn serialize(&self, buffer: &mut Vec<u8>) -> (r: Result<usize, WireFormatError>)
        requires
            self.origin_timestamp.valid(),
        ensures
            final(buffer)@.len() == old(buffer)@.len(),
            old(buffer)@.len() < 64 ==> r == Err::<usize, WireFormatError>(
                WireFormatError::BufferTooShort,
            ) && final(buffer)@ == old(buffer)@,
            old(buffer)@.len() >= 64 ==> {
                &&& r == Ok::<usize, WireFormatError>(64usize)
                &&& final(buffer)@.subrange(0, 64) == spec_announce_bytes(*self)
                &&& forall|i: int|
                    64 <= i < final(buffer)@.len() ==> final(buffer)@[i] == old(buffer)@[i]
            },
    {
        if buffer.len() < 64 {
            return Err(WireFormatError::BufferTooShort);
        }
        let header_written = self.header.serialize(buffer);
        proof {
            assert(header_written == Ok::<usize, WireFormatError>(34usize));
        }
        let ts = self.origin_timestamp;
        buffer[34] = #[verifier::truncate] ((ts.seconds >> 40) as u8);
        buffer[35] = #[verifier::truncate] ((ts.seconds >> 32) as u8);
        buffer[36] = #[verifier::truncate] ((ts.seconds >> 24) as u8);
        buffer[37] = #[verifier::truncate] ((ts.seconds >> 16) as u8);
        buffer[38] = #[verifier::truncate] ((ts.seconds >> 8) as u8);
        buffer[39] = #[verifier::truncate] (ts.seconds as u8);
        buffer[40] = #[verifier::truncate] ((ts.nanos >> 24) as u8);
        buffer[41] = #[verifier::truncate] ((ts.nanos >> 16) as u8);
        buffer[42] = #[verifier::truncate] ((ts.nanos >> 8) as u8);
        buffer[43] = #[verifier::truncate] (ts.nanos as u8);
        let utc: u16 = if self.current_utc_offset >= 0 {
            self.current_utc_offset as u16
        } else {
            ((self.current_utc_offset as i32) + 0x1_0000) as u16
        };
        buffer[44] = #[verifier::truncate] ((utc >> 8) as u8);
        buffer[45] = #[verifier::truncate] (utc as u8);
        buffer[46] = 0;
        buffer[47] = self.grandmaster_priority_1;
        buffer[48] = self.grandmaster_clock_quality.clock_class;
        buffer[49] = self.grandmaster_clock_quality.clock_accuracy.0;
        let variance = self.grandmaster_clock_quality.offset_scaled_log_variance;
        buffer[50] = #[verifier::truncate] ((variance >> 8) as u8);
        buffer[51] = #[verifier::truncate] (variance as u8);
        buffer[52] = self.grandmaster_priority_2;
        buffer[53] = self.grandmaster_identity.0[0];
        buffer[54] = self.grandmaster_identity.0[1];
        buffer[55] = self.grandmaster_identity.0[2];
        buffer[56] = self.grandmaster_identity.0[3];
        buffer[57] = self.grandmaster_identity.0[4];
        buffer[58] = self.grandmaster_identity.0[5];
        buffer[59] = self.grandmaster_identity.0[6];
        buffer[60] = self.grandmaster_identity.0[7];
        buffer[61] = #[verifier::truncate] ((self.steps_removed >> 8) as u8);
        buffer[62] = #[verifier::truncate] (self.steps_removed as u8);
        buffer[63] = self.time_source;
        proof {
            assert(buffer@.subrange(0, 64) =~= spec_announce_bytes(*self));
        }
        Ok(64)
    }

    /// Reads an Announce message from the first 64 octets of `buffer`,
    /// returning it with the number of octets consumed. Fails exactly
    /// when the octets do not encode an Announce: with `BufferTooShort`
    /// on a short buffer, with `InvalidEnumValue` on a reserved message
    /// type, and with `OutOfRange` on a nanosecond count of a second or
    /// more.
    pub fn deserialize(buffer: &[u8]) -> (r: Result<(AnnounceMessage, usize), WireFormatError>)
        ensures
            r is Ok <==> spec_announce_decode_err(buffer@) is None,
            r is Ok ==> spec_announce_decodes_to(buffer@, r->Ok_0.0) && r->Ok_0.1 == 64,
            r is Err ==> Some(r->Err_0) == spec_announce_decode_err(buffer@),
    {
        if buffer.len() < 64 {
            return Err(WireFormatError::BufferTooShort);
        }
        let (header, _) = match Header::deserialize(buffer) {
            Ok(h) => h,
            Err(e) => {
                return Err(e);
            },
        };
        let timestamp_bytes = vstd::slice::slice_subrange(buffer, 34, 44);
        proof {
            assert(timestamp_bytes@ =~= buffer@.skip(34).subrange(0, 10));
            assert(timestamp_bytes@[6] == buffer@.skip(34)[6]);
            assert(timestamp_bytes@[7] == buffer@.skip(34)[7]);
            assert(timestamp_bytes@[8] == buffer@.skip(34)[8]);
            assert(timestamp_bytes@[9] == buffer@.skip(34)[9]);
        }
        let (origin_timestamp, _) = match crate::time::Timestamp::deserialize(timestamp_bytes) {
            Ok(t) => t,
            Err(e) => {
                proof {
                    assert(spec_timestamp_decode_err(buffer@.skip(34)) == Some(e));
                }
                return Err(e);
            },
        };
        proof {
            assert(spec_timestamp_decode_err(buffer@.skip(34)) is None);
        }
        let utc_bits = u16_from_be_bytes(buffer[44], buffer[45]);
        let current_utc_offset: i16 = if utc_bits < 0x8000 {
            utc_bits as i16
        } else {
            ((utc_bits as i32) - 0x1_0000) as i16
        };
        let mut identity: [u8; 8] = [0, 0, 0, 0, 0, 0, 0, 0];
        identity[0] = buffer[53];
        identity[1] = buffer[54];
        identity[2] = buffer[55];
        identity[3] = buffer[56];
        identity[4] = buffer[57];
        identity[5] = buffer[58];
        identity[6] = buffer[59];
        identity[7] = buffer[60];
        let message = AnnounceMessage {
            header,
            origin_timestamp,
            current_utc_offset,
            grandmaster_priority_1: buffer[47],
            grandmaster_clock_quality: ClockQuality {
                clock_class: buffer[48],
                clock_accuracy: ClockAccuracy(buffer[49]),
                offset_scaled_log_variance: u16_from_be_bytes(buffer[50], buffer[51]),
            },
            grandmaster_priority_2: buffer[52],
            grandmaster_identity: ClockIdentity(identity),
            steps_removed: u16_from_be_bytes(buffer[61], buffer[62]),
            time_source: buffer[63],
        };
        proof {
            assert(message.grandmaster_identity.0@ =~= buffer@.subrange(53, 61));
            assert(buffer@.subrange(34, 44) =~= buffer@.skip(34).subrange(0, 10));
            assert(spec_timestamp_decodes_to(buffer@.skip(34), message.origin_timestamp));
        }
        Ok((message, 64))
    }
}

/// Every valid Announce message deserializes, from its own
/// serialization, back to itself, consuming all 64 octets.
pub proof fn lemma_announce_roundtrip(m: AnnounceMessage)
    requires
        m.valid(),
    ensures
        spec_announce_decodes_to(spec_announce_bytes(m), m),
{
    let s = spec_announce_bytes(m);
    lemma_header_roundtrip(m.header);
    lemma_timestamp_roundtrip(m.origin_timestamp);
    assert(s.subrange(0, 34) =~= spec_header_bytes(m.header));
    assert(forall|i: int| 0 <= i < 34 ==> s[i] == spec_header_bytes(m.header)[i]);
    assert(s.subrange(16, 20) =~= spec_header_bytes(m.header).subrange(16, 20));
    assert(s.subrange(20, 28) =~= spec_header_bytes(m.header).subrange(20, 28));
    assert(spec_header_decodes_to(s, m.header));
    assert(s.skip(34).subrange(0, 10) =~= spec_timestamp_bytes(m.origin_timestamp));
    assert(spec_timestamp_decodes_to(s.skip(34), m.origin_timestamp));
    lemma_u16_roundtrip(spec_i16_to_u16(m.current_utc_offset));
    lemma_i16_roundtrip(m.current_utc_offset);
    lemma_u16_roundtrip(m.grandmaster_clock_quality.offset_scaled_log_variance);
    lemma_u16_roundtrip(m.steps_removed);
    assert(m.grandmaster_identity.0@ =~= s.subrange(53, 61));
}

/// A byte sequence decodes to at most one header.
pub proof fn lemma_header_decode_unique(s: Seq<u8>, h1: Header, h2: Header)
    requires
        spec_header_decodes_to(s, h1),
        spec_header_decodes_to(s, h2),
    ensures
        h1 == h2,
{
    assert(h1.message_type_specific@ =~= h2.message_type_specific@);
    assert(h1.message_type_specific =~= h2.message_type_specific);
    assert(h1.source_port_identity.clock_identity.0@ =~= h2.source_port_identity.clock_identity.0@);
    assert(h1.source_port_identity.clock_identity.0
        =~= h2.source_port_identity.clock_identity.0);
}

} // verus!
