//! The per-port foreign-master table: every Announce sender seen
//! recently, with the arrival times that decide whether it is qualified
//! to stand in the best-master election (IEEE 1588-2019 section 9.3.2.4).

use crate::common::{spec_port_identity_eq, PortIdentity};
use crate::messages::AnnounceMessage;
use crate::time::{Duration, Instant};
use vstd::prelude::*;

verus! {

/// One foreign master: the sender's identity, its latest Announce, and
/// when its Announces arrived.
#[derive(Debug, Clone)]
pub struct ForeignMasterRecord {
    pub sender_identity: PortIdentity,
    pub latest: AnnounceMessage,
    pub announce_times: Vec<Instant>,
}

/// An arrival time lies within the qualification window: no earlier
/// than `window` before `now`, and not in the future.
pub open spec fn spec_in_window(t: Instant, now: Instant, window: Duration) -> bool {
    now.subnanos - window.subnanos <= t.subnanos <= now.subnanos
}

/// How many recorded arrivals lie within the qualification window.
pub open spec fn spec_recent_count(times: Seq<Instant>, now: Instant, window: Duration) -> int
    decreases times.len(),
{
    if times.len() == 0 {
        0
    } else {
        spec_recent_count(times.drop_last(), now, window) + (if spec_in_window(
            times.last(),
            now,
            window,
        ) {
            1int
        } else {
            0int
        })
    }
}

/// Counts the recorded arrivals lying within the qualification window.
pub fn recent_count(times: &Vec<Instant>, now: Instant, window: Duration) -> (r: usize)
    requires
        window.subnanos >= 0,
    ensures
        r == spec_recent_count(times@, now, window),
{
    let mut count: usize = 0;
    let mut i: usize = 0;
    while i < times.len()
        invariant
            0 <= i <= times@.len(),
            count <= i,
            window.subnanos >= 0,
            count == spec_recent_count(times@.take(i as int), now, window),
        decreases times@.len() - i,
    {
        let t = times[i];
        if t.subnanos <= now.subnanos && now.subnanos - t.subnanos <= (window.subnanos as u128) {
            count = count + 1;
        }
        i = i + 1;
        proof {
            assert(times@.take(i as int).drop_last() =~= times@.take(i - 1));
        }
    }
    proof {
        assert(times@.take(times@.len() as int) =~= times@);
    }
    count
}

/// The at most two most recent entries of an arrival list: all a
/// record retains (IEEE 1588-2019 section 9.3.2.4.4 asks for the two
/// most recent qualifying Announces).
pub open spec fn spec_last_two(times: Seq<Instant>) -> Seq<Instant> {
    if times.len() <= 2 {
        times
    } else {
        times.skip(times.len() - 2)
    }
}

/// What one registration leaves of a record's arrival list: the two
/// most recent arrivals including `now` while the sender keeps
/// announcing one grandmaster; a changed grandmaster identity starts
/// the qualification over with `now` alone.
pub open spec fn spec_updated_times(
    record: ForeignMasterRecord,
    message: AnnounceMessage,
    now: Instant,
) -> Seq<Instant> {
    if record.latest.grandmaster_identity.0@ == message.grandmaster_identity.0@ {
        spec_last_two(record.announce_times@.push(now))
    } else {
        seq![now]
    }
}

impl ForeignMasterRecord {
    /// A foreign master is qualified once at least two of its Announces
    /// arrived within the window.
    pub open spec fn spec_qualified(self, now: Instant, window: Duration) -> bool {
        spec_recent_count(self.announce_times@, now, window) >= 2
    }

    /// Whether this foreign master is qualified at `now` for the given
    /// window.
    pub fn is_qualified(&self, now: Instant, window: Duration) -> (r: bool)
        requires
            window.subnanos >= 0,
        ensures
            r == self.spec_qualified(now, window),
    {
        recent_count(&self.announce_times, now, window) >= 2
    }
}

/// No arrival before the window counts towards qualification: a record
/// whose every Announce predates `now` by more than the window has a
/// recent count of zero.
proof fn lemma_stale_times_count_zero(times: Seq<Instant>, now: Instant, window: Duration)
    requires
        forall|i: int|
            0 <= i < times.len() ==> #[trigger] times[i].subnanos < now.subnanos
                - window.subnanos,
    ensures
        spec_recent_count(times, now, window) == 0,
    decreases times.len(),
{
    if times.len() > 0 {
        lemma_stale_times_count_zero(times.drop_last(), now, window);
    }
}

/// A master that has fallen silent drops out of the election: once its
/// every Announce predates `now` by more than the window, the record is
/// no longer qualified, so the next election round no longer sees it.
pub proof fn lemma_silent_master_unqualified(
    record: ForeignMasterRecord,
    now: Instant,
    window: Duration,
)
    requires
        forall|i: int|
            0 <= i < record.announce_times@.len()
                ==> #[trigger] record.announce_times@[i].subnanos < now.subnanos
                - window.subnanos,
    ensures
        !record.spec_qualified(now, window),
{
    lemma_stale_times_count_zero(record.announce_times@, now, window);
}

/// The qualified candidates of a record list: the latest Announce of
/// every qualified record, in table order.
pub open spec fn spec_candidates(
    records: Seq<ForeignMasterRecord>,
    now: Instant,
    window: Duration,
) -> Seq<AnnounceMessage>
    decreases records.len(),
{
    if records.len() == 0 {
        Seq::empty()
    } else {
        spec_candidates(records.drop_last(), now, window) + (if records.last().spec_qualified(
            now,
            window,
        ) {
            seq![records.last().latest]
        } else {
            Seq::empty()
        })
    }
}

/// Every qualified candidate stems from a qualified record: together
/// with the silent-master lemma, a master silent for longer than the
/// window contributes nothing that the election could pick.
pub proof fn lemma_candidates_are_qualified(
    records: Seq<ForeignMasterRecord>,
    now: Instant,
    window: Duration,
)
    ensures
        forall|j: int|
            #![trigger spec_candidates(records, now, window)[j]]
            0 <= j < spec_candidates(records, now, window).len() ==> exists|k: int|
                0 <= k < records.len() && #[trigger] records[k].spec_qualified(now, window)
                    && spec_candidates(records, now, window)[j] == records[k].latest,
    decreases records.len(),
{
    if records.len() > 0 {
        lemma_candidates_are_qualified(records.drop_last(), now, window);
        let c = spec_candidates(records, now, window);
        let prefix = spec_candidates(records.drop_last(), now, window);
        assert forall|j: int| #![trigger c[j]] 0 <= j < c.len() implies exists|k: int|
            0 <= k < records.len() && #[trigger] records[k].spec_qualified(now, window) && c[j]
                == records[k].latest by {
            if j < prefix.len() {
                assert(c[j] == prefix[j]);
                let k = choose|k: int|
                    0 <= k < records.drop_last().len() && #[trigger] records.drop_last()[k].spec_qualified(
                        now,
                        window,
                    ) && prefix[j] == records.drop_last()[k].latest;
                assert(records.drop_last()[k] == records[k]);
                assert(records[k].spec_qualified(now, window) && c[j] == records[k].latest);
            } else {
                assert(records.last().spec_qualified(now, window));
                assert(c[j] == records.last().latest);
                assert(records[records.len() - 1].spec_qualified(now, window) && c[j] == records[
                    records.len() - 1].latest);
            }
        }
    }
}

/// The record list with every foreign master dropped whose Announces
/// all fell out of the window.
pub open spec fn spec_pruned(
    records: Seq<ForeignMasterRecord>,
    now: Instant,
    window: Duration,
) -> Seq<ForeignMasterRecord>
    decreases records.len(),
{
    if records.len() == 0 {
        Seq::empty()
    } else {
        spec_pruned(records.drop_last(), now, window) + (if spec_recent_count(
            records.last().announce_times@,
            now,
            window,
        ) > 0 {
            seq![records.last()]
        } else {
            Seq::empty()
        })
    }
}

/// The foreign-master table of one port.
#[derive(Debug, Clone)]
pub struct ForeignMasterList {
    pub records: Vec<ForeignMasterRecord>,
}

impl ForeignMasterList {
    /// There is a record of this Announce sender at or before index `j`.
    pub open spec fn spec_has_record_before(self, sender: PortIdentity, j: int) -> bool {
        exists|k: int|
            0 <= k < j && #[trigger] spec_port_identity_eq(
                self.records@[k].sender_identity,
                sender,
            )
    }

    /// An empty table.
    pub fn new() -> (r: ForeignMasterList)
        ensures
            r.records@.len() == 0,
    {
        ForeignMasterList { records: Vec::new() }
    }

    /// Registers one received Announce at its arrival time: the
    /// sender's first record gains the arrival time and the message; a
    /// sender without a record gains a fresh one at the end of the
    /// table.
    pub fn register_announce(&mut self, message: &AnnounceMessage, now: Instant)
        ensures
            !old(self).spec_has_record_before(
                message.header.source_port_identity,
                old(self).records@.len() as int,
            ) ==> {
                &&& final(self).records@.len() == old(self).records@.len() + 1
                &&& forall|k: int|
                    0 <= k < old(self).records@.len() ==> final(self).records@[k] == old(
                        self,
                    ).records@[k]
                &&& final(self).records@.last().sender_identity
                    == message.header.source_port_identity
                &&& final(self).records@.last().latest == *message
                &&& final(self).records@.last().announce_times@ =~= seq![now]
            },
            old(self).spec_has_record_before(
                message.header.source_port_identity,
                old(self).records@.len() as int,
            ) ==> exists|j: int|
                {
                    &&& 0 <= j < old(self).records@.len()
                    &&& #[trigger] spec_port_identity_eq(
                        old(self).records@[j].sender_identity,
                        message.header.source_port_identity,
                    )
                    &&& !old(self).spec_has_record_before(message.header.source_port_identity, j)
                    &&& final(self).records@.len() == old(self).records@.len()
                    &&& forall|k: int|
                        0 <= k < old(self).records@.len() && k != j ==> final(self).records@[k]
                            == old(self).records@[k]
                    &&& final(self).records@[j].sender_identity == old(
                        self,
                    ).records@[j].sender_identity
                    &&& final(self).records@[j].latest == *message
                    &&& final(self).records@[j].announce_times@ == spec_updated_times(
                        old(self).records@[j],
                        *message,
                        now,
                    )
                },
    {
        let sender = message.header.source_port_identity;
        let mut i: usize = 0;
        while i < self.records.len()
            invariant
                0 <= i <= self.records@.len(),
                *self == *old(self),
                sender == message.header.source_port_identity,
                !old(self).spec_has_record_before(sender, i as int),
            decreases self.records@.len() - i,
        {
            if self.records[i].sender_identity == sender {
                let mut record = self.records.remove(i);
                if record.latest.grandmaster_identity == message.grandmaster_identity {
                    record.announce_times.push(now);
                    let ghost pushed = record.announce_times@;
                    proof {
                        assert(pushed.skip(0) =~= pushed);
                    }
                    while record.announce_times.len() > 2
                        invariant
                            i < old(self).records@.len(),
                            record.sender_identity == old(self).records@[i as int].sender_identity,
                            record.latest == old(self).records@[i as int].latest,
                            record.announce_times@.len() <= pushed.len(),
                            pushed.len() <= 2 ==> record.announce_times@.len() == pushed.len(),
                            pushed.len() > 2 ==> record.announce_times@.len() >= 2,
                            record.announce_times@ == pushed.skip(
                                pushed.len() - record.announce_times@.len(),
                            ),
                        decreases record.announce_times@.len(),
                    {
                        record.announce_times.remove(0);
                        proof {
                            let k = pushed.len() - record.announce_times@.len();
                            assert(pushed.skip(k - 1).drop_first() =~= pushed.skip(k));
                            assert(record.announce_times@ =~= pushed.skip(k));
                        }
                    }
                    proof {
                        assert(record.announce_times@ =~= spec_last_two(pushed));
                    }
                } else {
                    let mut fresh: Vec<Instant> = Vec::new();
                    fresh.push(now);
                    record.announce_times = fresh;
                    proof {
                        assert(record.announce_times@ =~= seq![now]);
                    }
                }
                record.latest = *message;
                self.records.insert(i, record);
                proof {
                    assert(spec_port_identity_eq(
                        old(self).records@[i as int].sender_identity,
                        sender,
                    ));
                    assert(self.records@[i as int].announce_times@ == spec_updated_times(
                        old(self).records@[i as int],
                        *message,
                        now,
                    ));
                    assert(forall|k: int|
                        0 <= k < old(self).records@.len() && k != i ==> self.records@[k] == old(
                            self,
                        ).records@[k]);
                    assert(spec_port_identity_eq(
                        old(self).records@[i as int].sender_identity,
                        message.header.source_port_identity,
                    ));
                    assert(!old(self).spec_has_record_before(
                        message.header.source_port_identity,
                        i as int,
                    ));
                    assert(self.records@.len() == old(self).records@.len());
                    assert(self.records@[i as int].sender_identity == old(
                        self,
                    ).records@[i as int].sender_identity);
                    assert(self.records@[i as int].latest == *message);
                    assert(exists|j: int|
                        {
                            &&& 0 <= j < old(self).records@.len()
                            &&& #[trigger] spec_port_identity_eq(
                                old(self).records@[j].sender_identity,
                                message.header.source_port_identity,
                            )
                            &&& !old(self).spec_has_record_before(
                                message.header.source_port_identity,
                                j,
                            )
                            &&& self.records@.len() == old(self).records@.len()
                            &&& forall|k: int|
                                0 <= k < old(self).records@.len() && k != j
                                    ==> self.records@[k] == old(self).records@[k]
                            &&& self.records@[j].sender_identity == old(
                                self,
                            ).records@[j].sender_identity
                            &&& self.records@[j].latest == *message
                            &&& self.records@[j].announce_times@ == spec_updated_times(
                                old(self).records@[j],
                                *message,
                                now,
                            )
                        });
                }
                return ;
            }
            i = i + 1;
        }
        let mut times: Vec<Instant> = Vec::new();
        times.push(now);
        self.records.push(
            ForeignMasterRecord { sender_identity: sender, latest: *message, announce_times: times },
        );
    }

    /// The Announce messages qualified to stand in the election at
    /// `now`: the latest message of every sender with at least two
    /// arrivals within the window.
    pub fn qualified_candidates(&self, now: Instant, window: Duration) -> (r: Vec<AnnounceMessage>)
        requires
            window.subnanos >= 0,
        ensures
            r@ == spec_candidates(self.records@, now, window),
    {
        let mut out: Vec<AnnounceMessage> = Vec::new();
        let mut i: usize = 0;
        while i < self.records.len()
            invariant
                0 <= i <= self.records@.len(),
                window.subnanos >= 0,
                out@ == spec_candidates(self.records@.take(i as int), now, window),
            decreases self.records@.len() - i,
        {
            if self.records[i].is_qualified(now, window) {
                out.push(self.records[i].latest);
            }
            i = i + 1;
            proof {
                assert(self.records@.take(i as int).drop_last() =~= self.records@.take(i - 1));
                assert(out@ =~= spec_candidates(self.records@.take(i as int), now, window));
            }
        }
        proof {
            assert(self.records@.take(self.records@.len() as int) =~= self.records@);
        }
        out
    }

    /// Drops every foreign master whose Announces all fell out of the
    /// window.
    pub fn prune(&mut self, now: Instant, window: Duration)
        requires
            window.subnanos >= 0,
        ensures
            final(self).records@ == spec_pruned(old(self).records@, now, window),
    {
        let mut kept: Vec<ForeignMasterRecord> = Vec::new();
        let total: usize = self.records.len();
        let mut processed: usize = 0;
        while self.records.len() > 0
            invariant
                total == old(self).records@.len(),
                0 <= processed <= total,
                window.subnanos >= 0,
                self.records@ == old(self).records@.skip(processed as int),
                kept@ == spec_pruned(old(self).records@.take(processed as int), now, window),
            decreases self.records@.len(),
        {
            let record = self.records.remove(0);
            let any_recent = recent_count(&record.announce_times, now, window) > 0;
            if any_recent {
                kept.push(record);
            }
            processed = processed + 1;
            proof {
                assert(old(self).records@.take(processed as int).drop_last() =~= old(
                    self,
                ).records@.take(processed - 1));
                assert(old(self).records@.take(processed as int).last() == record);
                assert(self.records@ =~= old(self).records@.skip(processed as int));
                assert(kept@ =~= spec_pruned(
                    old(self).records@.take(processed as int),
                    now,
                    window,
                ));
            }
        }
        proof {
            assert(old(self).records@.take(old(self).records@.len() as int) =~= old(
                self,
            ).records@);
        }
        self.records = kept;
    }
}

} // verus!
