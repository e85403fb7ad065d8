use statime::common::{ClockAccuracy, ClockIdentity, ClockQuality, PortIdentity};
use statime::foreign_master::ForeignMasterList;
use statime::messages::{AnnounceMessage, ControlField, FlagField, Header, MessageType};
use statime::time::{Duration, Instant, TimeInterval, Timestamp};

const SUBNANOS_PER_SECOND: u128 = 1_000_000_000 * 0x10000;

fn at_seconds(seconds: u128) -> Instant {
    Instant {
        subnanos: seconds * SUBNANOS_PER_SECOND,
    }
}

fn seconds(count: i128) -> Duration {
    Duration {
        subnanos: count * (SUBNANOS_PER_SECOND as i128),
    }
}

fn announce_from(tag: u8, sequence_id: u16) -> AnnounceMessage {
    AnnounceMessage {
        header: Header {
            major_sdo_id: 0,
            message_type: MessageType::Announce,
            minor_version_ptp: 0,
            version_ptp: 2,
            message_length: 64,
            domain_number: 0,
            minor_sdo_id: 0,
            flag_field: FlagField {
                alternate_master_flag: false,
                two_step_flag: false,
                unicast_flag: false,
                ptp_profile_specific_1: false,
                ptp_profile_specific_2: false,
                leap61: false,
                leap59: false,
                current_utc_offset_valid: false,
                ptp_timescale: false,
                time_tracable: false,
                frequency_tracable: false,
                synchronization_uncertain: false,
            },
            correction_field: TimeInterval(0),
            message_type_specific: [0; 4],
            source_port_identity: PortIdentity {
                clock_identity: ClockIdentity([tag; 8]),
                port_number: 1,
            },
            sequence_id,
            control_field: ControlField::AllOthers,
            log_message_interval: 0,
        },
        origin_timestamp: Timestamp {
            seconds: 0,
            nanos: 0,
        },
        current_utc_offset: 0,
        grandmaster_priority_1: 128,
        grandmaster_clock_quality: ClockQuality {
            clock_class: 6,
            clock_accuracy: ClockAccuracy(0x21),
            offset_scaled_log_variance: 0x4000,
        },
        grandmaster_priority_2: 128,
        grandmaster_identity: ClockIdentity([tag; 8]),
        steps_removed: 0,
        time_source: 0xA0,
    }
}

#[test]
fn qualification_needs_two_announces() {
    // A window of 4 announce intervals of 1 s.
    let window = seconds(4);
    let mut table = ForeignMasterList::new();

    table.register_announce(&announce_from(0xAA, 0), at_seconds(10));
    assert!(table.qualified_candidates(at_seconds(10), window).is_empty());

    // The second Announce within the window qualifies the sender.
    table.register_announce(&announce_from(0xAA, 1), at_seconds(11));
    let candidates = table.qualified_candidates(at_seconds(11), window);
    assert_eq!(candidates.len(), 1);
    assert_eq!(candidates[0].header.sequence_id, 1);
}

#[test]
fn pruning_after_silence() {
    // The sender announces at t0 - 1 s and t0 with a 1 s announce
    // interval; by t0 + 4.001 s it must no longer be a qualified
    // candidate.
    let window = seconds(4);
    let t0 = at_seconds(100);
    let mut table = ForeignMasterList::new();
    table.register_announce(&announce_from(0xAA, 0), at_seconds(99));
    table.register_announce(&announce_from(0xAA, 1), t0);
    assert_eq!(table.qualified_candidates(t0, window).len(), 1);

    let late = Instant {
        subnanos: t0.subnanos + 4 * SUBNANOS_PER_SECOND + SUBNANOS_PER_SECOND / 1000,
    };
    assert!(table.qualified_candidates(late, window).is_empty());

    table.prune(late, window);
    assert!(table.records.is_empty());
}

#[test]
fn senders_are_kept_apart() {
    let window = seconds(4);
    let mut table = ForeignMasterList::new();
    table.register_announce(&announce_from(0xAA, 0), at_seconds(10));
    table.register_announce(&announce_from(0xBB, 0), at_seconds(10));
    table.register_announce(&announce_from(0xBB, 1), at_seconds(11));
    assert_eq!(table.records.len(), 2);

    // Only the sender with two Announces is qualified.
    let candidates = table.qualified_candidates(at_seconds(11), window);
    assert_eq!(candidates.len(), 1);
    assert_eq!(
        candidates[0].grandmaster_identity,
        ClockIdentity([0xBB; 8])
    );
}

#[test]
fn retains_two_arrivals() {
    // Only the two most recent arrival times are retained per record,
    // and two recent arrivals keep the sender qualified.
    let window = seconds(4);
    let mut table = ForeignMasterList::new();
    table.register_announce(&announce_from(0xAA, 0), at_seconds(10));
    table.register_announce(&announce_from(0xAA, 1), at_seconds(11));
    table.register_announce(&announce_from(0xAA, 2), at_seconds(12));
    assert_eq!(table.records.len(), 1);
    assert_eq!(table.records[0].announce_times.len(), 2);
    assert_eq!(table.records[0].announce_times[0], at_seconds(11));
    assert_eq!(table.records[0].announce_times[1], at_seconds(12));
    assert_eq!(table.qualified_candidates(at_seconds(12), window).len(), 1);
}

#[test]
fn grandmaster_change_restarts_qualification() {
    // A sender that switches grandmaster must qualify anew: the
    // arrivals that announced the old grandmaster no longer count.
    let window = seconds(4);
    let mut table = ForeignMasterList::new();
    table.register_announce(&announce_from(0xAA, 0), at_seconds(10));
    table.register_announce(&announce_from(0xAA, 1), at_seconds(11));
    assert_eq!(table.qualified_candidates(at_seconds(11), window).len(), 1);

    let mut switched = announce_from(0xAA, 2);
    switched.grandmaster_identity = ClockIdentity([0xCC; 8]);
    table.register_announce(&switched, at_seconds(12));
    assert_eq!(table.records.len(), 1);
    assert_eq!(table.records[0].announce_times.len(), 1);
    assert!(table.qualified_candidates(at_seconds(12), window).is_empty());

    let mut second = announce_from(0xAA, 3);
    second.grandmaster_identity = ClockIdentity([0xCC; 8]);
    table.register_announce(&second, at_seconds(13));
    let candidates = table.qualified_candidates(at_seconds(13), window);
    assert_eq!(candidates.len(), 1);
    assert_eq!(candidates[0].grandmaster_identity, ClockIdentity([0xCC; 8]));
}
