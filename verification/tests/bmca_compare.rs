use statime::bmca::{best_announce, ComparisonDataset, DatasetOrdering};
use statime::common::{ClockAccuracy, ClockIdentity, ClockQuality, PortIdentity};
use statime::messages::{AnnounceMessage, ControlField, FlagField, Header, MessageType};
use statime::time::{TimeInterval, Timestamp};

fn announce(tag: u8, clock_class: u8) -> AnnounceMessage {
    AnnounceMessage {
        header: Header {
            major_sdo_id: 0,
            message_type: MessageType::Announce,
            minor_version_ptp: 0,
            version_ptp: 2,
            message_length: 64,
            domain_number: 0,
            minor_sdo_id: 0,
            flag_field: FlagField {
                alternate_master_flag: false,
                two_step_flag: false,
                unicast_flag: false,
                ptp_profile_specific_1: false,
                ptp_profile_specific_2: false,
                leap61: false,
                leap59: false,
                current_utc_offset_valid: false,
                ptp_timescale: false,
                time_tracable: false,
                frequency_tracable: false,
                synchronization_uncertain: false,
            },
            correction_field: TimeInterval(0),
            message_type_specific: [0; 4],
            source_port_identity: PortIdentity {
                clock_identity: ClockIdentity([tag; 8]),
                port_number: 1,
            },
            sequence_id: 0,
            control_field: ControlField::AllOthers,
            log_message_interval: 0,
        },
        origin_timestamp: Timestamp {
            seconds: 0,
            nanos: 0,
        },
        current_utc_offset: 0,
        grandmaster_priority_1: 128,
        grandmaster_clock_quality: ClockQuality {
            clock_class,
            clock_accuracy: ClockAccuracy(0x21),
            offset_scaled_log_variance: 0x4000,
        },
        grandmaster_priority_2: 128,
        grandmaster_identity: ClockIdentity([tag; 8]),
        steps_removed: 0,
        time_source: 0xA0,
    }
}

fn dataset(
    priority_1: u8,
    clock_class: u8,
    gm: u8,
    steps_removed: u16,
    sender: u8,
) -> ComparisonDataset {
    ComparisonDataset {
        gm_priority_1: priority_1,
        gm_identity: ClockIdentity([gm, 0, 0, 0, 0, 0, 0, 0]),
        gm_clock_quality: ClockQuality {
            clock_class,
            clock_accuracy: ClockAccuracy(0x21),
            offset_scaled_log_variance: 0x4000,
        },
        gm_priority_2: 128,
        steps_removed,
        sender_identity: PortIdentity {
            clock_identity: ClockIdentity([sender, 0, 0, 0, 0, 0, 0, 0]),
            port_number: 1,
        },
        receiver_identity: PortIdentity {
            clock_identity: ClockIdentity([0xBB, 0, 0, 0, 0, 0, 0, 0]),
            port_number: 1,
        },
    }
}

#[test]
fn priority_one_decides_first() {
    let a = dataset(100, 248, 0xAA, 0, 0xAA);
    let b = dataset(128, 6, 0xCC, 0, 0xCC);
    assert_eq!(a.compare(&b), DatasetOrdering::Better);
    assert_eq!(b.compare(&a), DatasetOrdering::Worse);
}

#[test]
fn clock_class_breaks_equal_priority() {
    // The two-node adoption setting: equal priority1, the grandmaster
    // with clockClass 6 beats the one with 248.
    let a = dataset(128, 6, 0xAA, 0, 0xAA);
    let b = dataset(128, 248, 0xBB, 0, 0xBB);
    assert_eq!(a.compare(&b), DatasetOrdering::Better);
    assert!(a.compare(&b).is_better());
    assert!(!b.compare(&a).is_better());
}

#[test]
fn identity_breaks_full_tie() {
    let a = dataset(128, 6, 0x01, 0, 0x01);
    let b = dataset(128, 6, 0x02, 0, 0x02);
    assert_eq!(a.compare(&b), DatasetOrdering::Better);
    assert_eq!(b.compare(&a), DatasetOrdering::Worse);
}

#[test]
fn steps_removed_separated_by_more_than_one() {
    let near = dataset(128, 6, 0xAA, 0, 0x01);
    let far = dataset(128, 6, 0xAA, 2, 0x02);
    assert_eq!(near.compare(&far), DatasetOrdering::Better);
    assert_eq!(far.compare(&near), DatasetOrdering::Worse);
}

#[test]
fn topology_tie_break_on_sender() {
    let a = dataset(128, 6, 0xAA, 1, 0x01);
    let b = dataset(128, 6, 0xAA, 1, 0x02);
    assert_eq!(a.compare(&b), DatasetOrdering::BetterByTopology);
    assert_eq!(b.compare(&a), DatasetOrdering::WorseByTopology);
}

#[test]
fn identical_datasets_are_an_error() {
    let a = dataset(128, 6, 0xAA, 1, 0x01);
    assert_eq!(a.compare(&a), DatasetOrdering::Error);
    assert!(!a.compare(&a).is_better());
}

#[test]
fn transitive_over_distinct_grandmasters() {
    let a = dataset(10, 6, 0x01, 0, 0x01);
    let b = dataset(20, 6, 0x02, 0, 0x02);
    let c = dataset(30, 6, 0x03, 0, 0x03);
    assert!(a.compare(&b).is_better());
    assert!(b.compare(&c).is_better());
    assert!(a.compare(&c).is_better());
}

#[test]
fn best_announce_selection() {
    let receiver = PortIdentity {
        clock_identity: ClockIdentity([0xBB; 8]),
        port_number: 1,
    };
    let candidates = vec![announce(0x01, 248), announce(0x02, 6), announce(0x03, 127)];
    let best = best_announce(&candidates, &receiver).unwrap();
    assert_eq!(best.grandmaster_identity, ClockIdentity([0x02; 8]));

    let empty: Vec<AnnounceMessage> = Vec::new();
    assert!(best_announce(&empty, &receiver).is_none());
}
