//! Junctions: the points of an I/O graph where data is transferred. Workers
//! log a [`TransferStat`] for each transfer at a junction, and the reader of
//! the [`JunctionStorage`] takes a snapshot of everything logged since the
//! last one.
use lockfree::queue::Queue;
use std::time::{Duration, Instant};
use vstd::prelude::*;

use crate::time::{
    duration_as_nanos, duration_from_nanos, duration_nanos, duration_sub, instant_since,
    nanos_between,
};

verus! {

/// Statistics of a single transfer of bytes, such as one read or write call.
#[derive(Debug, Clone, Copy)]
pub struct TransferStat {
    transfer_started_ns: u64,
    transfer_ended_ns: u64,
    bytes: u64,
}

/// `n` nanoseconds cut down to a `u64`, as `as u64` does.
pub open spec fn truncated_nanos(n: nat) -> u64 {
    (n % 0x1_0000_0000_0000_0000) as u64
}

impl TransferStat {
    /// When the transfer started, in nanoseconds since the work started.
    pub closed spec fn started_ns(self) -> u64 {
        self.transfer_started_ns
    }

    /// When the transfer ended, in nanoseconds since the work started.
    pub closed spec fn ended_ns(self) -> u64 {
        self.transfer_ended_ns
    }

    /// How many bytes were transferred.
    pub closed spec fn byte_count(self) -> u64 {
        self.bytes
    }

    /// The transfer of `bytes` bytes between `transfer_started` and
    /// `transfer_ended`, timed from `work_started`.
    pub fn new(
        work_started: Instant,
        transfer_started: Instant,
        transfer_ended: Instant,
        bytes: u64,
    ) -> (s: Self)
        ensures
            s.started_ns() == truncated_nanos(nanos_between(transfer_started, work_started)),
            s.ended_ns() == truncated_nanos(nanos_between(transfer_ended, work_started)),
            s.byte_count() == bytes,
    {
        let started = duration_as_nanos(instant_since(transfer_started, work_started));
        let ended = duration_as_nanos(instant_since(transfer_ended, work_started));
        Self::from_nanos(
            (started % 0x1_0000_0000_0000_0000) as u64,
            (ended % 0x1_0000_0000_0000_0000) as u64,
            bytes,
        )
    }

    /// The transfer with the given offsets from the start of the work.
    pub fn from_nanos(transfer_started_ns: u64, transfer_ended_ns: u64, bytes: u64) -> (s: Self)
        ensures
            s.started_ns() == transfer_started_ns,
            s.ended_ns() == transfer_ended_ns,
            s.byte_count() == bytes,
    {
        TransferStat { transfer_started_ns, transfer_ended_ns, bytes }
    }

    /// The time started, with respect to when the entire operation started.
    pub fn time_started(&self) -> (d: Duration)
        ensures
            duration_nanos(d) == self.started_ns(),
    {
        duration_from_nanos(self.transfer_started_ns)
    }

    /// The time ended, with respect to when the entire operation started.
    pub fn time_ended(&self) -> (d: Duration)
        ensures
            duration_nanos(d) == self.ended_ns(),
    {
        duration_from_nanos(self.transfer_ended_ns)
    }

    /// How long this transfer took.
    pub fn duration(&self) -> (d: Duration)
        requires
            self.started_ns() <= self.ended_ns(),
        ensures
            duration_nanos(d) == self.ended_ns() - self.started_ns(),
    {
        duration_sub(self.time_ended(), self.time_started())
    }

    /// How many bytes were transferred.
    pub fn bytes(&self) -> (b: u64)
        ensures
            b == self.byte_count(),
    {
        self.bytes
    }
}

#[verifier::external_type_specification]
#[verifier::external_body]
#[verifier::reject_recursive_types(T)]
pub struct ExQueue<T>(Queue<T>);

/// A logged transfer as the queue holds it: the junction's id, then the
/// transfer's start, end and byte count.
pub type Entry = (u32, u64, u64, u64);

/// The entries a queue holds, front first.
pub uninterp spec fn queue_entries(q: Queue<Entry>) -> Seq<Entry>;

/// `Queue::new`: an empty queue.
#[verifier::external_body]
fn queue_new() -> (q: Queue<Entry>)
    ensures
        queue_entries(q) == Seq::<Entry>::empty(),
{
    Queue::new()
}

/// `Queue::push`: adds `e` at the back.
#[verifier::external_body]
fn queue_push(q: &mut Queue<Entry>, e: Entry)
    ensures
        queue_entries(*final(q)) == queue_entries(*old(q)).push(e),
{
    q.push(e)
}

/// `Queue::pop_iter`, collected: pops every entry, front first.
#[verifier::external_body]
fn queue_drain(q: Queue<Entry>) -> (v: Vec<Entry>)
    ensures
        v@ == queue_entries(q),
{
    q.pop_iter().collect()
}

/// The logged transfer that an entry stands for.
pub closed spec fn entry_transfer(e: Entry) -> (u32, TransferStat) {
    (e.0, TransferStat { transfer_started_ns: e.1, transfer_ended_ns: e.2, bytes: e.3 })
}

/// Holds the transfers logged at its junctions since the last snapshot.
pub struct JunctionStorage {
    transfers: Queue<Entry>,
    next_id: u32,
}

/// The id that follows `id`, wrapping around past `u32::MAX`.
pub open spec fn next_junction_id(id: u32) -> u32 {
    ((id + 1) % 0x1_0000_0000) as u32
}

impl JunctionStorage {
    /// The transfers logged since the last snapshot, oldest first.
    pub closed spec fn transfers(&self) -> Seq<(u32, TransferStat)> {
        queue_entries(self.transfers).map_values(|e: Entry| entry_transfer(e))
    }

    /// The id that the next junction created here gets.
    pub closed spec fn next_id(&self) -> u32 {
        self.next_id
    }

    /// An empty storage whose first junction gets id 0.
    pub fn new() -> (s: Self)
        ensures
            s.transfers() == Seq::<(u32, TransferStat)>::empty(),
            s.next_id() == 0,
    {
        let s = JunctionStorage { transfers: queue_new(), next_id: 0 };
        assert(s.transfers() =~= Seq::<(u32, TransferStat)>::empty());
        s
    }

    /// A new [`Junction`] that logs its transfers to this storage.
    pub fn create(&mut self) -> (j: Junction)
        ensures
            j.id() == old(self).next_id(),
            final(self).next_id() == next_junction_id(old(self).next_id()),
            final(self).transfers() == old(self).transfers(),
    {
        let id = self.next_id;
        self.next_id = self.next_id.wrapping_add(1);
        Junction { id }
    }

    /// Everything logged since the last snapshot, oldest first; the storage
    /// is left empty.
    pub fn take_transfers(&mut self) -> (v: Vec<(u32, TransferStat)>)
        ensures
            v@ == old(self).transfers(),
            final(self).transfers() == Seq::<(u32, TransferStat)>::empty(),
            final(self).next_id() == old(self).next_id(),
    {
        let mut taken = queue_new();
        std::mem::swap(&mut taken, &mut self.transfers);
        let entries = queue_drain(taken);
        let mut v: Vec<(u32, TransferStat)> = Vec::new();
        let mut i: usize = 0;
        while i < entries.len()
            invariant
                0 <= i <= entries.len(),
                v@ == entries@.take(i as int).map_values(|e: Entry| entry_transfer(e)),
            decreases entries.len() - i,
        {
            let e = entries[i];
            v.push((e.0, TransferStat { transfer_started_ns: e.1, transfer_ended_ns: e.2, bytes: e.3 }));
            assert(entries@.take(i + 1) == entries@.take(i as int).push(e));
            i = i + 1;
        }
        assert(entries@.take(entries.len() as int) == entries@);
        assert(self.transfers() =~= Seq::<(u32, TransferStat)>::empty());
        v
    }
}

/// A point at which data is transferred. Its transfers are logged to the
/// [`JunctionStorage`] that created it.
pub struct Junction {
    id: u32,
}

impl Junction {
    pub closed spec fn id(&self) -> u32 {
        self.id
    }

    /// This junction's id.
    pub fn get_id(&self) -> (id: u32)
        ensures
            id == self.id(),
    {
        self.id
    }

    /// Logs a transfer at this junction.
    pub fn log(&self, storage: &mut JunctionStorage, stat: TransferStat)
        ensures
            final(storage).transfers() == old(storage).transfers().push((self.id(), stat)),
            final(storage).next_id() == old(storage).next_id(),
    {
        queue_push(
            &mut storage.transfers,
            (self.id, stat.transfer_started_ns, stat.transfer_ended_ns, stat.bytes),
        );
        assert(entry_transfer((self.id, stat.transfer_started_ns, stat.transfer_ended_ns, stat.bytes))
            == (self.id, stat));
        assert(storage.transfers() =~= old(storage).transfers().push((self.id, stat)));
    }
}

/// The transfers pending after the junction with id `id` logs `stats`, one
/// after another, to a storage holding `pending`: each [`Junction::log`]
/// appends one.
pub open spec fn after_logging(pending: Seq<(u32, TransferStat)>, id: u32, stats: Seq<TransferStat>) -> Seq<
    (u32, TransferStat),
>
    decreases stats.len(),
{
    if stats.len() == 0 {
        pending
    } else {
        after_logging(pending.push((id, stats[0])), id, stats.drop_first())
    }
}

/// Logging transfers at a junction adds them after what was pending, in
/// the order logged, each tagged with the junction's id; so a snapshot taken
/// after logging `stats` to an empty storage is exactly `stats`, in order.
pub proof fn lemma_snapshot_in_log_order(
    pending: Seq<(u32, TransferStat)>,
    id: u32,
    stats: Seq<TransferStat>,
)
    ensures
        after_logging(pending, id, stats) == pending + stats.map_values(
            |s: TransferStat| (id, s),
        ),
    decreases stats.len(),
{
    let tagged = stats.map_values(|s: TransferStat| (id, s));
    if stats.len() == 0 {
        assert(pending + tagged =~= pending);
    } else {
        lemma_snapshot_in_log_order(pending.push((id, stats[0])), id, stats.drop_first());
        let rest = stats.drop_first().map_values(|s: TransferStat| (id, s));
        assert(pending.push((id, stats[0])) + rest =~= pending + tagged);
    }
}

/// The id handed out `k` junctions after the one with id `start`.
pub open spec fn id_after(start: u32, k: nat) -> u32
    decreases k,
{
    if k == 0 {
        start
    } else {
        next_junction_id(id_after(start, (k - 1) as nat))
    }
}

/// The `k`-th id after `start` is `start + k`, wrapped.
pub proof fn lemma_id_after(start: u32, k: nat)
    ensures
        id_after(start, k) == (start + k) % 0x1_0000_0000,
    decreases k,
{
    if k > 0 {
        lemma_id_after(start, (k - 1) as nat);
    }
}

/// Junctions created one after another get distinct ids, as long as fewer
/// than `2^32` of them are created.
pub proof fn lemma_ids_distinct(start: u32, i: nat, j: nat)
    requires
        i < j,
        j - i < 0x1_0000_0000,
    ensures
        id_after(start, i) != id_after(start, j),
{
    lemma_id_after(start, i);
    lemma_id_after(start, j);
}

} // verus!
