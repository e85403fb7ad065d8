use statime::bmca::RecommendedState;
use statime::common::{
    ClockAccuracy, ClockIdentity, ClockQuality, DefaultDS, PortIdentity,
};
use statime::messages::{AnnounceMessage, ControlField, FlagField, Header, MessageType};
use statime::port::{DelayMechanism, PortDS, PortState};
use statime::time::{TimeInterval, Timestamp};

fn identity(tag: u8) -> ClockIdentity {
    ClockIdentity([tag, tag, tag, tag, tag, tag, tag, tag])
}

fn port_identity(tag: u8, port: u16) -> PortIdentity {
    PortIdentity {
        clock_identity: identity(tag),
        port_number: port,
    }
}

fn announce_from(source: PortIdentity, priority_1: u8, clock_class: u8) -> AnnounceMessage {
    AnnounceMessage {
        header: Header {
            major_sdo_id: 0,
            message_type: MessageType::Announce,
            minor_version_ptp: 0,
            version_ptp: 2,
            message_length: 64,
            domain_number: 0,
            minor_sdo_id: 0,
            flag_field: FlagField {
                alternate_master_flag: false,
                two_step_flag: false,
                unicast_flag: false,
                ptp_profile_specific_1: false,
                ptp_profile_specific_2: false,
                leap61: false,
                leap59: false,
                current_utc_offset_valid: false,
                ptp_timescale: false,
                time_tracable: false,
                frequency_tracable: false,
                synchronization_uncertain: false,
            },
            correction_field: TimeInterval(0),
            message_type_specific: [0; 4],
            source_port_identity: source,
            sequence_id: 0,
            control_field: ControlField::AllOthers,
            log_message_interval: 1,
        },
        origin_timestamp: Timestamp {
            seconds: 0,
            nanos: 0,
        },
        current_utc_offset: 37,
        grandmaster_priority_1: priority_1,
        grandmaster_clock_quality: ClockQuality {
            clock_class,
            clock_accuracy: ClockAccuracy(0x21),
            offset_scaled_log_variance: 0xFFFF,
        },
        grandmaster_priority_2: 128,
        grandmaster_identity: source.clock_identity,
        steps_removed: 0,
        time_source: 0xA0,
    }
}

fn default_ds() -> DefaultDS {
    DefaultDS {
        two_step_flag: false,
        clock_identity: identity(0xBB),
        number_ports: 1,
        clock_quality: ClockQuality {
            clock_class: 248,
            clock_accuracy: ClockAccuracy(0xFE),
            offset_scaled_log_variance: 0xFFFF,
        },
        priority_1: 128,
        priority_2: 128,
        domain_number: 0,
        slave_only: true,
    }
}

fn fresh_port() -> PortDS {
    PortDS::new(
        port_identity(0xBB, 1),
        0,
        1,
        3,
        0,
        DelayMechanism::E2E,
        0,
        2,
        1,
    )
}

const SUBNANOS_PER_SECOND: i128 = 1_000_000_000 * 0x10000;

#[test]
fn new_port_listens() {
    let port = fresh_port();
    assert!(matches!(port.port_state, PortState::Listening));
    assert!(port.port_enable);
    assert_eq!(port.mean_link_delay.subnanos, 0);
    assert_eq!(port.delay_asymmetry.subnanos, 0);
}

#[test]
fn derived_intervals() {
    let port = fresh_port();
    // logAnnounceInterval = 1: announces every 2 s.
    assert_eq!(port.announce_interval().subnanos, 2 * SUBNANOS_PER_SECOND);
    // logSyncInterval = 0: one Sync per second.
    assert_eq!(port.sync_interval().subnanos, SUBNANOS_PER_SECOND);
    assert_eq!(port.min_delay_req_interval().subnanos, SUBNANOS_PER_SECOND);
    assert_eq!(
        port.min_p_delay_req_interval().subnanos,
        SUBNANOS_PER_SECOND
    );
    // The default timeout of 3 announce intervals of 2 s makes 6 s.
    assert_eq!(
        port.announce_receipt_interval().subnanos,
        6 * SUBNANOS_PER_SECOND
    );
}

#[test]
fn fractional_log_interval() {
    let port = PortDS::new(
        port_identity(0xBB, 1),
        -1,
        -1,
        3,
        -1,
        DelayMechanism::E2E,
        -1,
        2,
        1,
    );
    // 2^-1 s is exactly half a second of subnanoseconds.
    assert_eq!(port.sync_interval().subnanos, SUBNANOS_PER_SECOND / 2);
}

#[test]
fn slave_adoption() {
    // A listening slave-only node adopts the better Announce sender as
    // its master.
    let master = port_identity(0xAA, 1);
    let announce = announce_from(master, 128, 6);
    let mut port = fresh_port();
    let reset = port.set_recommended_port_state(&RecommendedState::S1(announce));
    assert!(reset);
    match &port.port_state {
        PortState::Slave(slave) => assert_eq!(slave.remote_master(), master),
        other => panic!("expected Slave, got {:?}", other),
    }

    // The same recommendation again is a no-op and does not restart the
    // announce-receipt timer.
    let reset_again = port.set_recommended_port_state(&RecommendedState::S1(announce));
    assert!(!reset_again);
    assert!(matches!(port.port_state, PortState::Slave(_)));
}

#[test]
fn reslave_on_new_master() {
    let first = port_identity(0xAA, 1);
    let second = port_identity(0xCC, 1);
    let mut port = fresh_port();
    assert!(port.set_recommended_port_state(&RecommendedState::S1(announce_from(first, 128, 6))));
    let reset = port.set_recommended_port_state(&RecommendedState::S1(announce_from(second, 128, 5)));
    assert!(reset);
    match &port.port_state {
        PortState::Slave(slave) => assert_eq!(slave.remote_master(), second),
        other => panic!("expected Slave, got {:?}", other),
    }
}

#[test]
fn slave_to_master_takeover() {
    // A slave whose master fell silent: the announce-receipt timeout
    // clears the parent back to Listening, and the next election round
    // recommends M1, making the port Master.
    let master = port_identity(0xAA, 1);
    let mut port = fresh_port();
    port.set_recommended_port_state(&RecommendedState::S1(announce_from(master, 128, 6)));
    assert!(matches!(port.port_state, PortState::Slave(_)));

    port.set_forced_port_state(PortState::Listening);
    let reset = port.set_recommended_port_state(&RecommendedState::M1(default_ds()));
    assert!(!reset);
    assert!(matches!(port.port_state, PortState::Master(_)));
}

#[test]
fn passive_recommendation() {
    let mut port = fresh_port();
    port.set_recommended_port_state(&RecommendedState::P1(announce_from(
        port_identity(0xAA, 1),
        128,
        6,
    )));
    assert!(matches!(port.port_state, PortState::Passive));

    // Passive stays passive on a repeated recommendation.
    port.set_recommended_port_state(&RecommendedState::P2(announce_from(
        port_identity(0xAA, 1),
        128,
        6,
    )));
    assert!(matches!(port.port_state, PortState::Passive));
}

#[test]
fn two_node_adoption() {
    // Node A (priority1 128, clockClass 6) announces; node B
    // (priority1 128, clockClass 248, slave-only) is Listening. Once
    // A's Announce is the best across B's ports, the election
    // recommends S1 and B enters Slave with A's clock as parent.
    let a_port = port_identity(0xAA, 1);
    let b_port = port_identity(0xBB, 1);
    let announce = announce_from(a_port, 128, 6);
    let b_defaults = default_ds();

    let recommendation = statime::bmca::recommended_state(
        &b_defaults,
        &b_port,
        Some(&announce),
        Some(&announce),
    )
    .unwrap();
    assert!(matches!(recommendation, RecommendedState::S1(_)));

    let mut port = fresh_port();
    port.set_recommended_port_state(&recommendation);
    match &port.port_state {
        PortState::Slave(slave) => {
            assert_eq!(slave.remote_master().clock_identity, identity(0xAA))
        }
        other => panic!("expected Slave, got {:?}", other),
    }
}

#[test]
fn own_grandmaster_without_foreign_masters() {
    // With no qualified foreign master anywhere, a clock that may be
    // master becomes its own grandmaster.
    let b_port = port_identity(0xBB, 1);
    let defaults = DefaultDS {
        slave_only: false,
        ..default_ds()
    };
    let recommendation =
        statime::bmca::recommended_state(&defaults, &b_port, None, None).unwrap();
    assert!(matches!(recommendation, RecommendedState::M1(_)));

    // A slave-only clock gets no recommendation instead.
    assert!(statime::bmca::recommended_state(&default_ds(), &b_port, None, None).is_none());
}

#[test]
fn passive_when_best_is_elsewhere() {
    // The best Announce arrived on another port and outranks the local
    // clock: this port goes passive.
    let a_port = port_identity(0xAA, 1);
    let b_port = port_identity(0xBB, 1);
    let best = announce_from(a_port, 10, 6);
    let defaults = DefaultDS {
        slave_only: false,
        ..default_ds()
    };
    let recommendation =
        statime::bmca::recommended_state(&defaults, &b_port, Some(&best), None).unwrap();
    assert!(matches!(recommendation, RecommendedState::P1(_)));

    // A local clock that outranks the best foreign one stays master.
    let weak = announce_from(a_port, 255, 255);
    let recommendation =
        statime::bmca::recommended_state(&defaults, &b_port, Some(&weak), None).unwrap();
    assert!(matches!(recommendation, RecommendedState::M2(_)));
}

#[test]
fn disable_and_enable() {
    let mut port = fresh_port();
    port.disable();
    assert!(!port.port_enable);
    assert!(matches!(port.port_state, PortState::Disabled));

    // A disabled port ignores recommendations.
    let reset = port.set_recommended_port_state(&RecommendedState::S1(announce_from(
        port_identity(0xAA, 1),
        128,
        6,
    )));
    assert!(!reset);
    assert!(matches!(port.port_state, PortState::Disabled));

    port.enable();
    assert!(port.port_enable);
    assert!(matches!(port.port_state, PortState::Listening));
}
