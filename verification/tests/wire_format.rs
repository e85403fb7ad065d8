use statime::common::{ClockAccuracy, ClockIdentity, ClockQuality, EnumTag, PortIdentity, WireFormatError};
use statime::messages::{AnnounceMessage, ControlField, FlagField, Header, MessageType};
use statime::time::{TimeInterval, Timestamp};

fn example_header() -> Header {
    Header {
        major_sdo_id: 0x5,
        message_type: MessageType::DelayResp,
        minor_version_ptp: 0xA,
        version_ptp: 0x1,
        message_length: 0x1234,
        domain_number: 0xAA,
        minor_sdo_id: 0xBB,
        flag_field: FlagField {
            alternate_master_flag: true,
            two_step_flag: false,
            unicast_flag: true,
            ptp_profile_specific_1: false,
            ptp_profile_specific_2: true,
            leap61: false,
            leap59: true,
            current_utc_offset_valid: false,
            ptp_timescale: true,
            time_tracable: false,
            frequency_tracable: true,
            synchronization_uncertain: false,
        },
        // 1.5 ns: the on-wire value is 1.5 * 2^16 = 0x18000.
        correction_field: TimeInterval(0x18000),
        message_type_specific: [5, 6, 7, 8],
        source_port_identity: PortIdentity {
            clock_identity: ClockIdentity([0, 1, 2, 3, 4, 5, 6, 7]),
            port_number: 0x5555,
        },
        sequence_id: 0xDEAD,
        control_field: ControlField::FollowUp,
        log_message_interval: 0x16,
    }
}

const EXAMPLE_BYTES: [u8; 34] = [
    0x59,
    0xA1,
    0x12,
    0x34,
    0xAA,
    0xBB,
    0b0100_0101,
    0b0010_1010,
    0x00,
    0x00,
    0x00,
    0x00,
    0x00,
    0x01,
    0x80,
    0x00,
    5,
    6,
    7,
    8,
    0,
    1,
    2,
    3,
    4,
    5,
    6,
    7,
    0x55,
    0x55,
    0xDE,
    0xAD,
    0x02,
    0x16,
];

#[test]
fn header_wireformat() {
    let representations = [(EXAMPLE_BYTES, example_header())];

    for (byte_representation, object_representation) in representations {
        // Test the serialization output
        let mut serialization_buffer = vec![0u8; 34];
        let written = object_representation
            .serialize(&mut serialization_buffer)
            .unwrap();
        assert_eq!(written, 34);
        assert_eq!(serialization_buffer, byte_representation.to_vec());

        // Test the deserialization output
        let deserialized_data = Header::deserialize(&byte_representation).unwrap().0;
        assert_eq!(deserialized_data, object_representation);
    }
}

#[test]
fn header_roundtrip_consumes_34_bytes() {
    let header = example_header();
    let mut buffer = vec![0u8; 40];
    assert_eq!(header.serialize(&mut buffer).unwrap(), 34);
    let (parsed, consumed) = Header::deserialize(&buffer).unwrap();
    assert_eq!(consumed, 34);
    assert_eq!(parsed, header);
}

#[test]
fn header_invalid_message_type() {
    // messageType nibble 0xE is reserved: the header must not decode.
    let mut bytes = EXAMPLE_BYTES;
    bytes[0] = 0x5E;
    let result = Header::deserialize(&bytes);
    assert_eq!(
        result,
        Err(WireFormatError::InvalidEnumValue(EnumTag::MessageType, 0xE))
    );
}

#[test]
fn header_buffer_too_short() {
    let bytes = [0u8; 33];
    assert_eq!(
        Header::deserialize(&bytes),
        Err(WireFormatError::BufferTooShort)
    );
    let header = example_header();
    let mut small = vec![0u8; 33];
    assert_eq!(
        header.serialize(&mut small),
        Err(WireFormatError::BufferTooShort)
    );
    assert_eq!(small, vec![0u8; 33]);
}

#[test]
fn message_type_roundtrip() {
    let valid: [(MessageType, u8); 10] = [
        (MessageType::Sync, 0x0),
        (MessageType::DelayReq, 0x1),
        (MessageType::PdelayReq, 0x2),
        (MessageType::PdelayResp, 0x3),
        (MessageType::FollowUp, 0x8),
        (MessageType::DelayResp, 0x9),
        (MessageType::PdelayRespFollowUp, 0xA),
        (MessageType::Announce, 0xB),
        (MessageType::Signaling, 0xC),
        (MessageType::Management, 0xD),
    ];
    for (message_type, nibble) in valid {
        assert_eq!(message_type.to_primitive(), nibble);
        assert_eq!(MessageType::from_primitive(nibble), Ok(message_type));
    }
    for reserved in [0x4u8, 0x5, 0x6, 0x7, 0xE, 0xF] {
        assert_eq!(
            MessageType::from_primitive(reserved),
            Err(WireFormatError::InvalidEnumValue(
                EnumTag::MessageType,
                reserved
            ))
        );
    }
}

#[test]
fn control_field_roundtrip() {
    let fields = [
        ControlField::Sync,
        ControlField::DelayReq,
        ControlField::FollowUp,
        ControlField::DelayResp,
        ControlField::Management,
        ControlField::AllOthers,
    ];
    for field in fields {
        assert_eq!(ControlField::from_primitive(field.to_primitive()), field);
    }
    assert_eq!(ControlField::from_primitive(0xC3), ControlField::AllOthers);
}

#[test]
fn timestamp_wireformat() {
    let ts = Timestamp {
        seconds: 0x0000_1122_3344_5566 & 0xFFFF_FFFF_FFFF,
        nanos: 999_999_999,
    };
    let ts = Timestamp {
        seconds: 0xFFFF_FFFF_FFFF,
        ..ts
    };
    let mut buffer = vec![0u8; 10];
    assert_eq!(ts.serialize(&mut buffer).unwrap(), 10);
    assert_eq!(
        buffer,
        vec![0xFF, 0xFF, 0xFF, 0xFF, 0xFF, 0xFF, 0x3B, 0x9A, 0xC9, 0xFF]
    );
    let (parsed, consumed) = Timestamp::deserialize(&buffer).unwrap();
    assert_eq!(consumed, 10);
    assert_eq!(parsed, ts);
}

#[test]
fn timestamp_out_of_range_nanos() {
    // One full second of nanoseconds: 0x3B9ACA00.
    let bytes = [0, 0, 0, 0, 0, 1, 0x3B, 0x9A, 0xCA, 0x00];
    assert_eq!(
        Timestamp::deserialize(&bytes),
        Err(WireFormatError::OutOfRange)
    );
    let bytes = [0u8; 9];
    assert_eq!(
        Timestamp::deserialize(&bytes),
        Err(WireFormatError::BufferTooShort)
    );
}

#[test]
fn announce_wireformat() {
    let message = AnnounceMessage {
        header: Header {
            major_sdo_id: 0,
            message_type: MessageType::Announce,
            minor_version_ptp: 0,
            version_ptp: 2,
            message_length: 64,
            domain_number: 0,
            minor_sdo_id: 0,
            flag_field: FlagField {
                alternate_master_flag: false,
                two_step_flag: false,
                unicast_flag: false,
                ptp_profile_specific_1: false,
                ptp_profile_specific_2: false,
                leap61: false,
                leap59: false,
                current_utc_offset_valid: true,
                ptp_timescale: true,
                time_tracable: false,
                frequency_tracable: false,
                synchronization_uncertain: false,
            },
            correction_field: TimeInterval(0),
            message_type_specific: [0; 4],
            source_port_identity: PortIdentity {
                clock_identity: ClockIdentity([1, 2, 3, 4, 5, 6, 7, 8]),
                port_number: 1,
            },
            sequence_id: 42,
            control_field: ControlField::AllOthers,
            log_message_interval: 1,
        },
        origin_timestamp: Timestamp {
            seconds: 1000,
            nanos: 500,
        },
        current_utc_offset: -37,
        grandmaster_priority_1: 128,
        grandmaster_clock_quality: ClockQuality {
            clock_class: 6,
            clock_accuracy: ClockAccuracy(0x21),
            offset_scaled_log_variance: 0x4000,
        },
        grandmaster_priority_2: 127,
        grandmaster_identity: ClockIdentity([1, 2, 3, 4, 5, 6, 7, 8]),
        steps_removed: 2,
        time_source: 0xA0,
    };

    let mut buffer = vec![0u8; 64];
    assert_eq!(message.serialize(&mut buffer).unwrap(), 64);
    // The current UTC offset -37 on the wire, two's complement.
    assert_eq!(&buffer[44..46], &[0xFF, 0xDB]);
    // The reserved octet stays zero.
    assert_eq!(buffer[46], 0);
    let (parsed, consumed) = AnnounceMessage::deserialize(&buffer).unwrap();
    assert_eq!(consumed, 64);
    assert_eq!(parsed, message);
}

#[test]
fn announce_error_paths() {
    // A minimal valid Announce: message type nibble 0xB, all else zero.
    let mut valid = vec![0u8; 64];
    valid[0] = 0x0B;
    assert!(AnnounceMessage::deserialize(&valid).is_ok());

    // A reserved message type fails with the header's error.
    let mut bad_type = valid.clone();
    bad_type[0] = 0x0E;
    assert_eq!(
        AnnounceMessage::deserialize(&bad_type),
        Err(WireFormatError::InvalidEnumValue(EnumTag::MessageType, 0xE))
    );

    // A nanosecond count of a full second fails with the timestamp's error.
    let mut bad_nanos = valid.clone();
    bad_nanos[40] = 0x3B;
    bad_nanos[41] = 0x9A;
    bad_nanos[42] = 0xCA;
    bad_nanos[43] = 0x00;
    assert_eq!(
        AnnounceMessage::deserialize(&bad_nanos),
        Err(WireFormatError::OutOfRange)
    );

    // A short buffer fails before anything is read.
    assert_eq!(
        AnnounceMessage::deserialize(&valid[..63]),
        Err(WireFormatError::BufferTooShort)
    );
}

#[test]
fn time_interval_nanos_roundtrip() {
    for nanos in [0i64, 1, -1, 500, -200, (1 << 47) - 1, -((1 << 47) - 1)] {
        assert_eq!(TimeInterval::from_nanos(nanos).to_nanos(), nanos);
    }
    // 1.5 ns rounds down to 1 whole nanosecond; -1.5 ns floors to -2.
    assert_eq!(TimeInterval(0x18000).to_nanos(), 1);
    assert_eq!(TimeInterval(-0x18000).to_nanos(), -2);
}
