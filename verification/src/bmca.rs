//! The Best Master Clock Algorithm: the total order over announced
//! datasets and the per-port state recommendation it produces
//! (IEEE 1588-2019 section 9.3).

use crate::common::{spec_port_identity_eq, ClockIdentity, ClockQuality, DefaultDS, PortIdentity};
use crate::foreign_master::{
    lemma_candidates_are_qualified, spec_candidates, ForeignMasterRecord,
};
use crate::messages::{spec_u64_of_bytes, u64_from_be_bytes, AnnounceMessage};
use crate::time::{Duration, Instant};
use vstd::prelude::*;

verus! {

/// The 8 octets of a clock identity read as one big-endian number.
/// Comparing these numbers is exactly the lexicographic byte order of
/// the identities.
pub open spec fn spec_identity_value(id: ClockIdentity) -> u64 {
    spec_u64_of_bytes(
        id.0@[0],
        id.0@[1],
        id.0@[2],
        id.0@[3],
        id.0@[4],
        id.0@[5],
        id.0@[6],
        id.0@[7],
    )
}

/// Two clock identities with the same big-endian value hold the same
/// octets.
pub proof fn lemma_identity_value_injective(a: ClockIdentity, b: ClockIdentity)
    requires
        spec_identity_value(a) == spec_identity_value(b),
    ensures
        a.0@ =~= b.0@,
{
    lemma_u64_of_bytes_injective(
        a.0@[0],
        a.0@[1],
        a.0@[2],
        a.0@[3],
        a.0@[4],
        a.0@[5],
        a.0@[6],
        a.0@[7],
        b.0@[0],
        b.0@[1],
        b.0@[2],
        b.0@[3],
        b.0@[4],
        b.0@[5],
        b.0@[6],
        b.0@[7],
    );
}

/// Eight big-endian octets are recoverable from their 64-bit value.
proof fn lemma_u64_of_bytes_injective(
    a0: u8,
    a1: u8,
    a2: u8,
    a3: u8,
    a4: u8,
    a5: u8,
    a6: u8,
    a7: u8,
    b0: u8,
    b1: u8,
    b2: u8,
    b3: u8,
    b4: u8,
    b5: u8,
    b6: u8,
    b7: u8,
)
    by (bit_vector)
    requires
        spec_u64_of_bytes(a0, a1, a2, a3, a4, a5, a6, a7) == spec_u64_of_bytes(
            b0,
            b1,
            b2,
            b3,
            b4,
            b5,
            b6,
            b7,
        ),
    ensures
        a0 == b0 && a1 == b1 && a2 == b2 && a3 == b3 && a4 == b4 && a5 == b5 && a6 == b6 && a7
            == b7,
{
}

/// The identity value of this clock identity.
pub fn identity_value(id: &ClockIdentity) -> (r: u64)
    ensures
        r == spec_identity_value(*id),
{
    u64_from_be_bytes(
        id.0[0],
        id.0[1],
        id.0[2],
        id.0[3],
        id.0[4],
        id.0[5],
        id.0[6],
        id.0[7],
    )
}

/// A port identity read as one number: the clock identity above the
/// port number. Comparing these numbers is the lexicographic order on
/// (clock identity, port number).
pub open spec fn spec_port_identity_value(p: PortIdentity) -> int {
    spec_identity_value(p.clock_identity) * 0x10000 + p.port_number
}

/// The port identity value of this port identity.
pub fn port_identity_value(p: &PortIdentity) -> (r: u128)
    ensures
        r == spec_port_identity_value(*p),
{
    (identity_value(&p.clock_identity) as u128) * 0x10000 + (p.port_number as u128)
}

/// How one announced dataset ranks against another
/// (IEEE 1588-2019 figure 28).
#[derive(Debug, Clone, Copy, PartialEq, Eq, Structural)]
pub enum DatasetOrdering {
    Better,
    BetterByTopology,
    Error,
    WorseByTopology,
    Worse,
}

impl DatasetOrdering {
    /// The dataset ranked this way is taken over the other.
    pub open spec fn spec_is_better(self) -> bool {
        self is Better || self is BetterByTopology
    }

    /// Whether the dataset ranked this way is taken over the other.
    pub fn is_better(&self) -> (r: bool)
        ensures
            r == self.spec_is_better(),
    {
        match *self {
            DatasetOrdering::Better | DatasetOrdering::BetterByTopology => true,
            _ => false,
        }
    }
}

/// What the best-master comparison ranks: the grandmaster description
/// of one Announce, with the sending and receiving port identities for
/// the topology tie-break.
#[derive(Debug, Clone, Copy, PartialEq, Eq)]
pub struct ComparisonDataset {
    pub gm_priority_1: u8,
    pub gm_identity: ClockIdentity,
    pub gm_clock_quality: ClockQuality,
    pub gm_priority_2: u8,
    pub steps_removed: u16,
    pub sender_identity: PortIdentity,
    pub receiver_identity: PortIdentity,
}

/// The ranking of dataset `a` against dataset `b`: across distinct
/// grandmasters the lexicographic order on (priority1, clockClass,
/// clockAccuracy, offsetScaledLogVariance, priority2, grandmaster
/// identity), smaller winning; under one grandmaster, fewer steps
/// removed by more than one wins, and otherwise the sender and receiver
/// identities break the tie topologically. Identical datasets rank as
/// `Error`.
pub open spec fn spec_compare_datasets(a: ComparisonDataset, b: ComparisonDataset) -> DatasetOrdering {
    let gm_a = spec_identity_value(a.gm_identity);
    let gm_b = spec_identity_value(b.gm_identity);
    if gm_a != gm_b {
        if a.gm_priority_1 != b.gm_priority_1 {
            if a.gm_priority_1 < b.gm_priority_1 {
                DatasetOrdering::Better
            } else {
                DatasetOrdering::Worse
            }
        } else if a.gm_clock_quality.clock_class != b.gm_clock_quality.clock_class {
            if a.gm_clock_quality.clock_class < b.gm_clock_quality.clock_class {
                DatasetOrdering::Better
            } else {
                DatasetOrdering::Worse
            }
        } else if a.gm_clock_quality.clock_accuracy.0 != b.gm_clock_quality.clock_accuracy.0 {
            if a.gm_clock_quality.clock_accuracy.0 < b.gm_clock_quality.clock_accuracy.0 {
                DatasetOrdering::Better
            } else {
                DatasetOrdering::Worse
            }
        } else if a.gm_clock_quality.offset_scaled_log_variance
            != b.gm_clock_quality.offset_scaled_log_variance {
            if a.gm_clock_quality.offset_scaled_log_variance
                < b.gm_clock_quality.offset_scaled_log_variance {
                DatasetOrdering::Better
            } else {
                DatasetOrdering::Worse
            }
        } else if a.gm_priority_2 != b.gm_priority_2 {
            if a.gm_priority_2 < b.gm_priority_2 {
                DatasetOrdering::Better
            } else {
                DatasetOrdering::Worse
            }
        } else {
            if gm_a < gm_b {
                DatasetOrdering::Better
            } else {
                DatasetOrdering::Worse
            }
        }
    } else {
        if a.steps_removed + 1 < b.steps_removed {
            DatasetOrdering::Better
        } else if a.steps_removed > b.steps_removed + 1 {
            DatasetOrdering::Worse
        } else {
            let sender_a = spec_port_identity_value(a.sender_identity);
            let sender_b = spec_port_identity_value(b.sender_identity);
            let receiver_a = spec_port_identity_value(a.receiver_identity);
            let receiver_b = spec_port_identity_value(b.receiver_identity);
            if sender_a < sender_b {
                DatasetOrdering::BetterByTopology
            } else if sender_a > sender_b {
                DatasetOrdering::WorseByTopology
            } else if receiver_a < receiver_b {
                DatasetOrdering::BetterByTopology
            } else if receiver_a > receiver_b {
                DatasetOrdering::WorseByTopology
            } else {
                DatasetOrdering::Error
            }
        }
    }
}

/// The comparison dataset of one received Announce, as seen by the
/// port with the given identity.
pub open spec fn spec_announce_dataset(
    message: AnnounceMessage,
    receiver_identity: PortIdentity,
) -> ComparisonDataset {
    ComparisonDataset {
        gm_priority_1: message.grandmaster_priority_1,
        gm_identity: message.grandmaster_identity,
        gm_clock_quality: message.grandmaster_clock_quality,
        gm_priority_2: message.grandmaster_priority_2,
        steps_removed: message.steps_removed,
        sender_identity: message.header.source_port_identity,
        receiver_identity: receiver_identity,
    }
}

impl ComparisonDataset {
    /// Builds the comparison dataset of one received Announce, as seen
    /// by the port with the given identity.
    pub fn from_announce_message(message: &AnnounceMessage, receiver_identity: &PortIdentity) -> (r:
        ComparisonDataset)
        ensures
            r == spec_announce_dataset(*message, *receiver_identity),
    {
        ComparisonDataset {
            gm_priority_1: message.grandmaster_priority_1,
            gm_identity: message.grandmaster_identity,
            gm_clock_quality: message.grandmaster_clock_quality,
            gm_priority_2: message.grandmaster_priority_2,
            steps_removed: message.steps_removed,
            sender_identity: message.header.source_port_identity,
            receiver_identity: *receiver_identity,
        }
    }

    /// Ranks this dataset against another.
    pub fn compare(&self, other: &ComparisonDataset) -> (r: DatasetOrdering)
        ensures
            r == spec_compare_datasets(*self, *other),
    {
        let gm_a = identity_value(&self.gm_identity);
        let gm_b = identity_value(&other.gm_identity);
        if gm_a != gm_b {
            if self.gm_priority_1 != other.gm_priority_1 {
                if self.gm_priority_1 < other.gm_priority_1 {
                    DatasetOrdering::Better
                } else {
                    DatasetOrdering::Worse
                }
            } else if self.gm_clock_quality.clock_class != other.gm_clock_quality.clock_class {
                if self.gm_clock_quality.clock_class < other.gm_clock_quality.clock_class {
                    DatasetOrdering::Better
                } else {
                    DatasetOrdering::Worse
                }
            } else if self.gm_clock_quality.clock_accuracy.0
                != other.gm_clock_quality.clock_accuracy.0 {
                if self.gm_clock_quality.clock_accuracy.0
                    < other.gm_clock_quality.clock_accuracy.0 {
                    DatasetOrdering::Better
                } else {
                    DatasetOrdering::Worse
                }
            } else if self.gm_clock_quality.offset_scaled_log_variance
                != other.gm_clock_quality.offset_scaled_log_variance {
                if self.gm_clock_quality.offset_scaled_log_variance
                    < other.gm_clock_quality.offset_scaled_log_variance {
                    DatasetOrdering::Better
                } else {
                    DatasetOrdering::Worse
                }
            } else if self.gm_priority_2 != other.gm_priority_2 {
                if self.gm_priority_2 < other.gm_priority_2 {
                    DatasetOrdering::Better
                } else {
                    DatasetOrdering::Worse
                }
            } else {
                if gm_a < gm_b {
                    DatasetOrdering::Better
                } else {
                    DatasetOrdering::Worse
                }
            }
        } else {
            if (self.steps_removed as u32) + 1 < (other.steps_removed as u32) {
                DatasetOrdering::Better
            } else if (self.steps_removed as u32) > (other.steps_removed as u32) + 1 {
                DatasetOrdering::Worse
            } else {
                let sender_a = port_identity_value(&self.sender_identity);
                let sender_b = port_identity_value(&other.sender_identity);
                let receiver_a = port_identity_value(&self.receiver_identity);
                let receiver_b = port_identity_value(&other.receiver_identity);
                if sender_a < sender_b {
                    DatasetOrdering::BetterByTopology
                } else if sender_a > sender_b {
                    DatasetOrdering::WorseByTopology
                } else if receiver_a < receiver_b {
                    DatasetOrdering::BetterByTopology
                } else if receiver_a > receiver_b {
                    DatasetOrdering::WorseByTopology
                } else {
                    DatasetOrdering::Error
                }
            }
        }
    }
}

/// The ranking seen from the other side.
pub open spec fn spec_ordering_flipped(o: DatasetOrdering) -> DatasetOrdering {
    match o {
        DatasetOrdering::Better => DatasetOrdering::Worse,
        DatasetOrdering::BetterByTopology => DatasetOrdering::WorseByTopology,
        DatasetOrdering::Error => DatasetOrdering::Error,
        DatasetOrdering::WorseByTopology => DatasetOrdering::BetterByTopology,
        DatasetOrdering::Worse => DatasetOrdering::Better,
    }
}

/// The comparison ranks every dataset against itself as `Error`: no
/// dataset is better than itself.
pub proof fn lemma_compare_reflexive(a: ComparisonDataset)
    ensures
        spec_compare_datasets(a, a) == DatasetOrdering::Error,
        !spec_compare_datasets(a, a).spec_is_better(),
{
}

/// The comparison is antisymmetric: swapping the operands flips the
/// ranking exactly, so two datasets are never each better than the
/// other.
pub proof fn lemma_compare_antisymmetric(a: ComparisonDataset, b: ComparisonDataset)
    ensures
        spec_compare_datasets(b, a) == spec_ordering_flipped(spec_compare_datasets(a, b)),
        !(spec_compare_datasets(a, b).spec_is_better() && spec_compare_datasets(
            b,
            a,
        ).spec_is_better()),
{
}

/// Across distinct grandmasters the comparison always decides: one
/// dataset is better outright.
pub proof fn lemma_compare_total(a: ComparisonDataset, b: ComparisonDataset)
    requires
        spec_identity_value(a.gm_identity) != spec_identity_value(b.gm_identity),
    ensures
        spec_compare_datasets(a, b) is Better || spec_compare_datasets(a, b) is Worse,
        spec_compare_datasets(a, b).spec_is_better() || spec_compare_datasets(
            b,
            a,
        ).spec_is_better(),
{
    lemma_compare_antisymmetric(a, b);
}

/// The comparison is transitive over datasets of pairwise distinct
/// grandmasters, where it is the lexicographic order on the announced
/// attributes. Under a single grandmaster the steps-removed rule can
/// rank cyclically, so transitivity is stated away from that case.
pub proof fn lemma_compare_transitive(
    a: ComparisonDataset,
    b: ComparisonDataset,
    c: ComparisonDataset,
)
    requires
        spec_identity_value(a.gm_identity) != spec_identity_value(b.gm_identity),
        spec_identity_value(b.gm_identity) != spec_identity_value(c.gm_identity),
        spec_identity_value(a.gm_identity) != spec_identity_value(c.gm_identity),
        spec_compare_datasets(a, b).spec_is_better(),
        spec_compare_datasets(b, c).spec_is_better(),
    ensures
        spec_compare_datasets(a, c).spec_is_better(),
{
}

/// What the election recommends to one port: become or remain slave to
/// the named master (S1), master in one of the master qualifications
/// (M1-M3), or passive (P1-P2).
#[derive(Debug, Clone, Copy, PartialEq, Eq)]
pub enum RecommendedState {
    M1(DefaultDS),
    M2(DefaultDS),
    M3(DefaultDS),
    P1(AnnounceMessage),
    P2(AnnounceMessage),
    S1(AnnounceMessage),
}

/// The local clock viewed as a dataset of the election: its own
/// grandmaster is itself, zero steps removed, announced by its own
/// port.
pub open spec fn spec_own_dataset(default_ds: DefaultDS, own_identity: PortIdentity)
    -> ComparisonDataset {
    ComparisonDataset {
        gm_priority_1: default_ds.priority_1,
        gm_identity: default_ds.clock_identity,
        gm_clock_quality: default_ds.clock_quality,
        gm_priority_2: default_ds.priority_2,
        steps_removed: 0,
        sender_identity: own_identity,
        receiver_identity: own_identity,
    }
}

/// What `recommended_state` decides, over the same inputs.
pub open spec fn spec_recommended_state(
    default_ds: DefaultDS,
    own_identity: PortIdentity,
    ebest: Option<AnnounceMessage>,
    erbest: Option<AnnounceMessage>,
) -> Option<RecommendedState> {
    match ebest {
        None => {
            if default_ds.slave_only {
                None
            } else {
                Some(RecommendedState::M1(default_ds))
            }
        },
        Some(best) => {
            if default_ds.slave_only {
                Some(RecommendedState::S1(best))
            } else if match erbest {
                Some(port_best) => spec_port_identity_eq(
                    port_best.header.source_port_identity,
                    best.header.source_port_identity,
                ),
                None => false,
            } {
                Some(RecommendedState::S1(best))
            } else {
                let own = spec_own_dataset(default_ds, own_identity);
                let foreign = spec_announce_dataset(best, own_identity);
                if spec_compare_datasets(own, foreign).spec_is_better() {
                    Some(RecommendedState::M2(default_ds))
                } else {
                    Some(RecommendedState::P1(best))
                }
            }
        },
    }
}

/// Computes the recommendation for one port of an ordinary clock, from
/// the best Announce across all ports (Ebest), this port's own best
/// (Erbest), and the local Default dataset:
///
/// * a slave-only clock follows Ebest, and gets no recommendation when
///   there is none;
/// * with no qualified foreign master anywhere, the clock is its own
///   grandmaster (M1);
/// * when Ebest arrived on this port, the port becomes slave to it (S1);
/// * otherwise the port stands between the elected master and the local
///   clock: master (M2) where the local dataset ranks better than
///   Ebest, else passive (P1). A topology re-comparison of this port's
///   Erbest against an Ebest from another port can only end in a tie
///   preference, and ties prefer Passive, so it resolves to P1 here.
pub fn recommended_state(
    default_ds: &DefaultDS,
    own_identity: &PortIdentity,
    ebest: Option<&AnnounceMessage>,
    erbest: Option<&AnnounceMessage>,
) -> (r: Option<RecommendedState>)
    ensures
        r == spec_recommended_state(
            *default_ds,
            *own_identity,
            match ebest {
                Some(m) => Some(*m),
                None => None,
            },
            match erbest {
                Some(m) => Some(*m),
                None => None,
            },
        ),
{
    match ebest {
        None => {
            if default_ds.slave_only {
                None
            } else {
                Some(RecommendedState::M1(*default_ds))
            }
        },
        Some(best) => {
            if default_ds.slave_only {
                Some(RecommendedState::S1(*best))
            } else if match erbest {
                Some(port_best) => port_best.header.source_port_identity
                    == best.header.source_port_identity,
                None => false,
            } {
                Some(RecommendedState::S1(*best))
            } else {
                let own = ComparisonDataset {
                    gm_priority_1: default_ds.priority_1,
                    gm_identity: default_ds.clock_identity,
                    gm_clock_quality: default_ds.clock_quality,
                    gm_priority_2: default_ds.priority_2,
                    steps_removed: 0,
                    sender_identity: *own_identity,
                    receiver_identity: *own_identity,
                };
                let foreign = ComparisonDataset::from_announce_message(best, own_identity);
                if own.compare(&foreign).is_better() {
                    Some(RecommendedState::M2(*default_ds))
                } else {
                    Some(RecommendedState::P1(*best))
                }
            }
        },
    }
}


/// The better of an incumbent best Announce and a challenger, as the
/// receiving port ranks them: the challenger wins only where its
/// dataset ranks better.
pub open spec fn spec_better_announce(
    incumbent: AnnounceMessage,
    challenger: AnnounceMessage,
    receiver: PortIdentity,
) -> AnnounceMessage {
    if spec_compare_datasets(
        spec_announce_dataset(challenger, receiver),
        spec_announce_dataset(incumbent, receiver),
    ).spec_is_better() {
        challenger
    } else {
        incumbent
    }
}

/// The best of a list of qualified Announce messages, folded in list
/// order by the dataset comparison; `None` only for an empty list.
pub open spec fn spec_best_announce(
    candidates: Seq<AnnounceMessage>,
    receiver: PortIdentity,
) -> Option<AnnounceMessage>
    decreases candidates.len(),
{
    if candidates.len() == 0 {
        None
    } else {
        match spec_best_announce(candidates.drop_last(), receiver) {
            None => Some(candidates.last()),
            Some(best) => Some(spec_better_announce(best, candidates.last(), receiver)),
        }
    }
}

/// The best Announce of a list is one of the list: the election never
/// invents a master.
pub proof fn lemma_best_announce_membership(candidates: Seq<AnnounceMessage>, receiver: PortIdentity)
    ensures
        spec_best_announce(candidates, receiver) is Some <==> candidates.len() > 0,
        spec_best_announce(candidates, receiver) matches Some(best) ==> exists|k: int|
            0 <= k < candidates.len() && candidates[k] == best,
    decreases candidates.len(),
{
    if candidates.len() > 0 {
        lemma_best_announce_membership(candidates.drop_last(), receiver);
        let best = spec_best_announce(candidates, receiver)->0;
        if best == candidates.last() {
            assert(candidates[candidates.len() - 1] == best);
        } else {
            let prev = spec_best_announce(candidates.drop_last(), receiver)->0;
            let k = choose|k: int|
                0 <= k < candidates.drop_last().len() && candidates.drop_last()[k] == prev;
            assert(candidates[k] == best);
        }
    }
}

/// Picks the best Announce out of the qualified candidates of one port
/// (Erbest), or, applied to the per-port bests, across all ports
/// (Ebest). Yields a message for every non-empty list, always one of
/// the list.
pub fn best_announce(
    candidates: &Vec<AnnounceMessage>,
    receiver: &PortIdentity,
) -> (r: Option<AnnounceMessage>)
    ensures
        r == spec_best_announce(candidates@, *receiver),
        r is Some <==> candidates@.len() > 0,
        r matches Some(best) ==> exists|k: int|
            0 <= k < candidates@.len() && candidates@[k] == best,
{
    let mut best: Option<AnnounceMessage> = None;
    let mut i: usize = 0;
    while i < candidates.len()
        invariant
            0 <= i <= candidates@.len(),
            best == spec_best_announce(candidates@.take(i as int), *receiver),
        decreases candidates@.len() - i,
    {
        let challenger = &candidates[i];
        best = match best {
            None => Some(*challenger),
            Some(incumbent) => {
                let challenger_dataset = ComparisonDataset::from_announce_message(
                    challenger,
                    receiver,
                );
                let incumbent_dataset = ComparisonDataset::from_announce_message(
                    &incumbent,
                    receiver,
                );
                if challenger_dataset.compare(&incumbent_dataset).is_better() {
                    Some(*challenger)
                } else {
                    Some(incumbent)
                }
            },
        };
        i = i + 1;
        proof {
            assert(candidates@.take(i as int).drop_last() =~= candidates@.take(i - 1));
            assert(candidates@.take(i as int).last() == candidates@[i - 1]);
        }
    }
    proof {
        assert(candidates@.take(candidates@.len() as int) =~= candidates@);
        lemma_best_announce_membership(candidates@, *receiver);
    }
    best
}


/// What the election can pick always stems from a qualified foreign
/// master: the best Announce of a table's qualified candidates is the
/// latest message of some record qualified at `now`. A master silent
/// for longer than the window is unqualified, so nothing of its record
/// reaches the recommendation.
pub proof fn lemma_best_candidate_from_qualified(
    records: Seq<ForeignMasterRecord>,
    now: Instant,
    window: Duration,
    receiver: PortIdentity,
)
    ensures
        spec_best_announce(spec_candidates(records, now, window), receiver) matches Some(best)
            ==> exists|k: int|
            0 <= k < records.len() && #[trigger] records[k].spec_qualified(now, window) && best
                == records[k].latest,
{
    let candidates = spec_candidates(records, now, window);
    lemma_best_announce_membership(candidates, receiver);
    lemma_candidates_are_qualified(records, now, window);
    if spec_best_announce(candidates, receiver) is Some {
        let best = spec_best_announce(candidates, receiver)->0;
        let j = choose|j: int| 0 <= j < candidates.len() && candidates[j] == best;
        assert(0 <= j < candidates.len());
    }
}

} // verus!
