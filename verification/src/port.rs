//! The Port dataset (IEEE 1588-2019 section 8.2.15) and the state
//! transitions that the best-master election drives.

use crate::bmca::RecommendedState;
use crate::common::{spec_port_identity_eq, PortIdentity};
use crate::time::{spec_log_interval_subnanos, Duration};
use vstd::prelude::*;

verus! {

/// The per-port bookkeeping of a port in Master state: the sequence
/// counters of the messages it originates.
#[derive(Debug, Clone, Copy, PartialEq, Eq, Structural)]
pub struct MasterState {
    pub announce_seq_id: u16,
    pub sync_seq_id: u16,
}

impl MasterState {
    /// A fresh master: both sequence counters start at zero.
    pub fn new() -> (r: MasterState)
        ensures
            r.announce_seq_id == 0,
            r.sync_seq_id == 0,
    {
        MasterState { announce_seq_id: 0, sync_seq_id: 0 }
    }
}

/// The per-port bookkeeping of a port in Slave state: which remote
/// master it follows.
#[derive(Debug, Clone, Copy, PartialEq, Eq)]
pub struct SlaveState {
    pub remote_master: PortIdentity,
}

impl SlaveState {
    /// A fresh slave of the given remote master.
    pub fn new(remote_master: PortIdentity) -> (r: SlaveState)
        ensures
            r.remote_master == remote_master,
    {
        SlaveState { remote_master }
    }

    /// The identity of the master this slave follows.
    pub fn remote_master(&self) -> (r: PortIdentity)
        ensures
            r == self.remote_master,
    {
        self.remote_master
    }
}

/// The state of a PTP port (IEEE 1588-2019 section 9.2.5). A port is in
/// exactly one state at any time.
#[derive(Debug, Clone, Copy, PartialEq, Eq)]
pub enum PortState {
    Initializing,
    Faulty,
    Disabled,
    Listening,
    PreMaster,
    Master(MasterState),
    Passive,
    Uncalibrated,
    Slave(SlaveState),
}

/// The delay-measurement mechanism a port is configured with
/// (IEEE 1588-2019 section 8.2.15.4.4).
#[derive(Copy, Clone, Debug, Eq, PartialEq, Ord, PartialOrd, Hash, Structural)]
pub enum DelayMechanism {
    E2E,
    P2P,
    NoMechanism,
    CommonP2p,
    Special,
}

/// The Port dataset: per-port configuration and the current port state.
#[derive(Debug, Clone, Copy)]
pub struct PortDS {
    pub port_identity: PortIdentity,
    pub port_state: PortState,
    pub log_min_delay_req_interval: i8,
    pub mean_link_delay: Duration,
    pub log_announce_interval: i8,
    pub announce_receipt_timeout: u8,
    pub log_sync_interval: i8,
    pub delay_mechanism: DelayMechanism,
    pub log_min_p_delay_req_interval: i8,
    pub version_number: u8,
    pub minor_version_number: u8,
    pub delay_asymmetry: Duration,
    pub port_enable: bool,
    pub master_only: bool,
}

/// The state a port moves to, and whether its announce-receipt timer must
/// be restarted, when the election recommends `r` to a port in state `s`
/// (IEEE 1588-2019 figure 30). Undefined for Initializing and Faulty
/// ports: those may not transition through the election.
pub open spec fn spec_recommended_transition(s: PortState, r: RecommendedState) -> (PortState, bool) {
    match r {
        RecommendedState::S1(announce) => {
            let remote = announce.header.source_port_identity;
            let slave = PortState::Slave(SlaveState { remote_master: remote });
            match s {
                PortState::Listening
                | PortState::Uncalibrated
                | PortState::PreMaster
                | PortState::Master(_)
                | PortState::Passive => (slave, true),
                PortState::Slave(old_state) => {
                    if !spec_port_identity_eq(old_state.remote_master, remote) {
                        (slave, true)
                    } else {
                        (s, false)
                    }
                },
                _ => (s, false),
            }
        },
        RecommendedState::M1(_) | RecommendedState::M2(_) | RecommendedState::M3(_) => {
            match s {
                PortState::Listening
                | PortState::Uncalibrated
                | PortState::Slave(_)
                | PortState::Passive => (
                    PortState::Master(MasterState { announce_seq_id: 0, sync_seq_id: 0 }),
                    false,
                ),
                _ => (s, false),
            }
        },
        RecommendedState::P1(_) | RecommendedState::P2(_) => {
            match s {
                PortState::Listening
                | PortState::Uncalibrated
                | PortState::Slave(_)
                | PortState::PreMaster
                | PortState::Master(_) => (PortState::Passive, false),
                _ => (s, false),
            }
        },
    }
}

impl PortDS {
    /// The configured log intervals stay small enough that every derived
    /// duration, including the announce-receipt interval, fits the
    /// subnanosecond arithmetic.
    pub open spec fn well_formed(self) -> bool {
        &&& self.log_min_delay_req_interval <= 80
        &&& self.log_announce_interval <= 80
        &&& self.log_sync_interval <= 80
        &&& self.log_min_p_delay_req_interval <= 80
        &&& spec_log_interval_subnanos(self.log_announce_interval as int)
            * self.announce_receipt_timeout <= i128::MAX
    }

    /// Builds the dataset of a freshly enabled port: it starts Listening,
    /// with no measured link delay and no delay asymmetry. Peer-delay
    /// mechanisms are not implemented.
    pub fn new(
        port_identity: PortIdentity,
        log_min_delay_req_interval: i8,
        log_announce_interval: i8,
        announce_receipt_timeout: u8,
        log_sync_interval: i8,
        delay_mechanism: DelayMechanism,
        log_min_p_delay_req_interval: i8,
        version_number: u8,
        minor_version_number: u8,
    ) -> (r: PortDS)
        requires
            !(delay_mechanism is P2P),
            !(delay_mechanism is CommonP2p),
            log_min_delay_req_interval <= 80,
            log_announce_interval <= 80,
            log_sync_interval <= 80,
            log_min_p_delay_req_interval <= 80,
            spec_log_interval_subnanos(log_announce_interval as int) * announce_receipt_timeout
                <= i128::MAX,
        ensures
            r == (PortDS {
                port_identity,
                port_state: PortState::Listening,
                log_min_delay_req_interval,
                mean_link_delay: Duration { subnanos: 0 },
                log_announce_interval,
                announce_receipt_timeout,
                log_sync_interval,
                delay_mechanism,
                log_min_p_delay_req_interval,
                version_number,
                minor_version_number,
                delay_asymmetry: Duration { subnanos: 0 },
                port_enable: true,
                master_only: false,
            }),
            r.well_formed(),
    {
        let mean_link_delay = match delay_mechanism {
            DelayMechanism::E2E | DelayMechanism::NoMechanism | DelayMechanism::Special => {
                Duration::zero()
            },
            DelayMechanism::P2P | DelayMechanism::CommonP2p => {
                proof {
                    assert(false);
                }
                Duration::zero()
            },
        };
        PortDS {
            port_identity,
            port_state: PortState::Listening,
            log_min_delay_req_interval,
            mean_link_delay,
            log_announce_interval,
            announce_receipt_timeout,
            log_sync_interval,
            delay_mechanism,
            log_min_p_delay_req_interval,
            version_number,
            minor_version_number,
            delay_asymmetry: Duration::zero(),
            port_enable: true,
            master_only: false,
        }
    }

    /// The shortest interval between DelayReq messages: `2^log` seconds.
    pub fn min_delay_req_interval(&self) -> (r: Duration)
        requires
            self.well_formed(),
        ensures
            r.subnanos == spec_log_interval_subnanos(self.log_min_delay_req_interval as int),
    {
        Duration::from_log_interval(self.log_min_delay_req_interval)
    }

    /// The interval between Announce messages: `2^log` seconds.
    pub fn announce_interval(&self) -> (r: Duration)
        requires
            self.well_formed(),
        ensures
            r.subnanos == spec_log_interval_subnanos(self.log_announce_interval as int),
    {
        Duration::from_log_interval(self.log_announce_interval)
    }

    /// The interval between Sync messages: `2^log` seconds.
    pub fn sync_interval(&self) -> (r: Duration)
        requires
            self.well_formed(),
        ensures
            r.subnanos == spec_log_interval_subnanos(self.log_sync_interval as int),
    {
        Duration::from_log_interval(self.log_sync_interval)
    }

    /// The shortest interval between PdelayReq messages: `2^log` seconds.
    pub fn min_p_delay_req_interval(&self) -> (r: Duration)
        requires
            self.well_formed(),
        ensures
            r.subnanos == spec_log_interval_subnanos(self.log_min_p_delay_req_interval as int),
    {
        Duration::from_log_interval(self.log_min_p_delay_req_interval)
    }

    /// How long a slave waits for an Announce from its master before it
    /// abandons it: `announce_receipt_timeout` announce intervals.
    pub fn announce_receipt_interval(&self) -> (r: Duration)
        requires
            self.well_formed(),
        ensures
            r.subnanos == self.announce_receipt_timeout * spec_log_interval_subnanos(
                self.log_announce_interval as int,
            ),
    {
        let interval = Duration::from_log_interval(self.log_announce_interval);
        proof {
            vstd::arithmetic::mul::lemma_mul_nonnegative(
                spec_log_interval_subnanos(self.log_announce_interval as int),
                self.announce_receipt_timeout as int,
            );
            vstd::arithmetic::mul::lemma_mul_is_commutative(
                spec_log_interval_subnanos(self.log_announce_interval as int),
                self.announce_receipt_timeout as int,
            );
        }
        Duration { subnanos: interval.subnanos * (self.announce_receipt_timeout as i128) }
    }

    /// Takes the port out of service: it stops listening and stays
    /// Disabled until enabled again.
    pub fn disable(&mut self)
        ensures
            *final(self) == (PortDS {
                port_enable: false,
                port_state: PortState::Disabled,
                ..*old(self)
            }),
    {
        self.port_enable = false;
        self.set_forced_port_state(PortState::Disabled);
    }

    /// Puts a Disabled port back in service: it resumes Listening. A port
    /// in any other state only has its enable flag set.
    pub fn enable(&mut self)
        ensures
            final(self).port_enable,
            old(self).port_state is Disabled ==> *final(self) == (PortDS {
                port_enable: true,
                port_state: PortState::Listening,
                ..*old(self)
            }),
            !(old(self).port_state is Disabled) ==> *final(self) == (PortDS {
                port_enable: true,
                ..*old(self)
            }),
    {
        self.port_enable = true;
        if let PortState::Disabled = self.port_state {
            self.port_state = PortState::Listening;
        }
    }

    /// Moves the port to `state` unconditionally.
    pub fn set_forced_port_state(&mut self, state: PortState)
        ensures
            *final(self) == (PortDS { port_state: state, ..*old(self) }),
    {
        self.port_state = state;
    }

    /// Applies a recommendation of the best-master election to this port,
    /// following the state-decision table (IEEE 1588-2019 figure 30).
    /// Returns whether the announce-receipt timer must be restarted: the
    /// caller owns that timer and restarts it on `true`.
    pub fn set_recommended_port_state(&mut self, recommended_state: &RecommendedState) -> (r: bool)
        requires
            !(old(self).port_state is Initializing),
            !(old(self).port_state is Faulty),
        ensures
            ({
                let (next, reset) = spec_recommended_transition(
                    old(self).port_state,
                    *recommended_state,
                );
                *final(self) == (PortDS { port_state: next, ..*old(self) }) && r == reset
            }),
    {
        match recommended_state {
            RecommendedState::S1(announce_message) => {
                let remote_master = announce_message.header().source_port_identity;
                let state = PortState::Slave(SlaveState::new(remote_master));
                match &self.port_state {
                    PortState::Listening
                    | PortState::Uncalibrated
                    | PortState::PreMaster
                    | PortState::Master(_)
                    | PortState::Passive => {
                        self.set_forced_port_state(state);
                        true
                    },
                    PortState::Slave(old_state) => {
                        if old_state.remote_master() != remote_master {
                            self.set_forced_port_state(state);
                            true
                        } else {
                            false
                        }
                    },
                    PortState::Disabled => false,
                    PortState::Initializing | PortState::Faulty => {
                        proof {
                            assert(false);
                        }
                        false
                    },
                }
            },
            RecommendedState::M1(_) | RecommendedState::M2(_) | RecommendedState::M3(_) => {
                match self.port_state {
                    PortState::Listening
                    | PortState::Uncalibrated
                    | PortState::Slave(_)
                    | PortState::Passive => {
                        self.set_forced_port_state(PortState::Master(MasterState::new()));
                        false
                    },
                    PortState::PreMaster | PortState::Master(_) | PortState::Disabled => false,
                    PortState::Initializing | PortState::Faulty => {
                        proof {
                            assert(false);
                        }
                        false
                    },
                }
            },
            RecommendedState::P1(_) | RecommendedState::P2(_) => {
                match self.port_state {
                    PortState::Listening
                    | PortState::Uncalibrated
                    | PortState::Slave(_)
                    | PortState::PreMaster
                    | PortState::Master(_) => {
                        self.set_forced_port_state(PortState::Passive);
                        false
                    },
                    PortState::Passive | PortState::Disabled => false,
                    PortState::Initializing | PortState::Faulty => {
                        proof {
                            assert(false);
                        }
                        false
                    },
                }
            },
        }
    }
}

} // verus!
