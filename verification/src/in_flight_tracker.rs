//! Work in flight on each thread.
use crate::batch_id::{following_id, BatchIdGenerator, TransactionBatchId};
use std::collections::HashMap;
use vstd::prelude::*;

verus! {

broadcast use vstd::std_specs::hash::group_hash_axioms;

/// Index of a worker thread.
pub type ThreadId = usize;

/// What is remembered of a batch in flight.
#[derive(Debug, Clone, Copy)]
pub struct BatchEntry {
    /// Thread that the batch was handed to.
    pub thread_id: ThreadId,
    /// Transactions in the batch.
    pub num_transactions: usize,
    /// Compute units of the batch.
    pub total_cus: u64,
}

/// The sum of a weight over all batches of a map.
pub open spec fn total(batches: Map<u64, BatchEntry>, weight: spec_fn(BatchEntry) -> int) -> int
    decreases batches.dom().len(),
    when batches.dom().finite()
{
    if batches.dom().len() == 0 {
        0
    } else {
        let id = batches.dom().choose();
        weight(batches[id]) + total(batches.remove(id), weight)
    }
}

/// The transactions that a batch puts on a thread.
pub open spec fn transactions_on(thread_id: int) -> spec_fn(BatchEntry) -> int {
    |entry: BatchEntry|
        if entry.thread_id == thread_id {
            entry.num_transactions as int
        } else {
            0
        }
}

/// The compute units that a batch puts on a thread.
pub open spec fn cus_on(thread_id: int) -> spec_fn(BatchEntry) -> int {
    |entry: BatchEntry|
        if entry.thread_id == thread_id {
            entry.total_cus as int
        } else {
            0
        }
}

/// What a tracker knows.
#[verifier::ext_equal]
pub struct InFlightState {
    /// Transactions in flight on each thread.
    pub transactions: Seq<usize>,
    /// Compute units in flight on each thread.
    pub cus: Seq<u64>,
    /// Batches in flight, by the number of their identifier.
    pub batches: Map<u64, BatchEntry>,
    /// Number of the identifier that the next batch gets.
    pub next_id: u64,
}

impl InFlightState {
    /// The counters cover the batches in flight: every batch is on a thread that
    /// exists, and no counter is below the sum over its thread's batches.
    pub open spec fn valid(self) -> bool {
        &&& self.transactions.len() == self.cus.len()
        &&& self.batches.dom().finite()
        &&& forall|id: u64| #[trigger]
            self.batches.contains_key(id) ==> self.batches[id].thread_id < self.transactions.len()
        &&& forall|t: int|
            0 <= t < self.transactions.len() ==> #[trigger] self.transactions[t] >= total(
                self.batches,
                transactions_on(t),
            )
        &&& forall|t: int|
            0 <= t < self.cus.len() ==> #[trigger] self.cus[t] >= total(self.batches, cus_on(t))
    }

    /// Each counter is the sum over its thread's batches.
    pub open spec fn exact(self) -> bool {
        &&& forall|t: int|
            0 <= t < self.transactions.len() ==> #[trigger] self.transactions[t] == total(
                self.batches,
                transactions_on(t),
            )
        &&& forall|t: int|
            0 <= t < self.cus.len() ==> #[trigger] self.cus[t] == total(self.batches, cus_on(t))
    }

    /// Every identifier in use is below the next one: none has come round again.
    pub open spec fn ids_ascend(self) -> bool {
        forall|id: u64| #[trigger] self.batches.contains_key(id) ==> id < self.next_id
    }

    /// Whether a batch can be put on a thread: the thread exists and its
    /// counters can hold the batch.
    pub open spec fn has_room(self, entry: BatchEntry) -> bool {
        &&& entry.thread_id < self.transactions.len()
        &&& self.transactions[entry.thread_id as int] + entry.num_transactions <= usize::MAX
        &&& self.cus[entry.thread_id as int] + entry.total_cus <= u64::MAX
    }

    /// The state after a batch is handed out.
    pub open spec fn with_batch(self, entry: BatchEntry) -> InFlightState {
        let t = entry.thread_id as int;
        InFlightState {
            transactions: self.transactions.update(
                t,
                (self.transactions[t] + entry.num_transactions) as usize,
            ),
            cus: self.cus.update(t, (self.cus[t] + entry.total_cus) as u64),
            batches: self.batches.insert(self.next_id, entry),
            next_id: following_id(self.next_id),
        }
    }

    /// The state after a batch comes back.
    pub open spec fn without_batch(self, id: u64) -> InFlightState {
        let entry = self.batches[id];
        let t = entry.thread_id as int;
        InFlightState {
            transactions: self.transactions.update(
                t,
                (self.transactions[t] - entry.num_transactions) as usize,
            ),
            cus: self.cus.update(t, (self.cus[t] - entry.total_cus) as u64),
            batches: self.batches.remove(id),
            next_id: self.next_id,
        }
    }
}

/// A sum loses exactly the weight of the batch that leaves.
proof fn lemma_total_remove(
    batches: Map<u64, BatchEntry>,
    id: u64,
    weight: spec_fn(BatchEntry) -> int,
)
    requires
        batches.dom().finite(),
        batches.contains_key(id),
    ensures
        total(batches, weight) == weight(batches[id]) + total(batches.remove(id), weight),
    decreases batches.dom().len(),
{
    let first = batches.dom().choose();
    if batches.dom().len() == 0 {
        assert(!batches.dom().contains(id));
    }
    if first != id {
        lemma_total_remove(batches.remove(first), id, weight);
        lemma_total_remove(batches.remove(id), first, weight);
        assert(batches.remove(first).remove(id) =~= batches.remove(id).remove(first));
    }
}

/// A sum gains the weight of a batch with a new identifier; a batch that takes
/// over an identifier gains its own weight and loses the old one's.
proof fn lemma_total_insert(
    batches: Map<u64, BatchEntry>,
    id: u64,
    entry: BatchEntry,
    weight: spec_fn(BatchEntry) -> int,
)
    requires
        batches.dom().finite(),
    ensures
        total(batches.insert(id, entry), weight) == weight(entry) + total(batches, weight) - (
        if batches.contains_key(id) {
            weight(batches[id])
        } else {
            0
        }),
{
    lemma_total_remove(batches.insert(id, entry), id, weight);
    assert(batches.insert(id, entry).remove(id) =~= batches.remove(id));
    if batches.contains_key(id) {
        lemma_total_remove(batches, id, weight);
    } else {
        assert(batches.remove(id) =~= batches);
    }
}

/// A sum is at least the weight of each of its batches.
proof fn lemma_total_covers(
    batches: Map<u64, BatchEntry>,
    id: u64,
    weight: spec_fn(BatchEntry) -> int,
)
    requires
        batches.dom().finite(),
        batches.contains_key(id),
        forall|entry: BatchEntry| #[trigger] weight(entry) >= 0,
    ensures
        total(batches, weight) >= weight(batches[id]),
{
    lemma_total_remove(batches, id, weight);
    lemma_total_not_negative(batches.remove(id), weight);
}

proof fn lemma_total_not_negative(
    batches: Map<u64, BatchEntry>,
    weight: spec_fn(BatchEntry) -> int,
)
    requires
        batches.dom().finite(),
        forall|entry: BatchEntry| #[trigger] weight(entry) >= 0,
    ensures
        total(batches, weight) >= 0,
    decreases batches.dom().len(),
{
    if batches.dom().len() != 0 {
        lemma_total_not_negative(batches.remove(batches.dom().choose()), weight);
    }
}

/// Handing out a batch keeps the counters covering the batches in flight. They
/// stay exact as long as the identifier is not still in use.
pub proof fn law_tracking_keeps_counts(state: InFlightState, entry: BatchEntry)
    requires
        state.valid(),
        state.has_room(entry),
    ensures
        state.with_batch(entry).valid(),
        state.exact() && !state.batches.contains_key(state.next_id) ==> state.with_batch(
            entry,
        ).exact(),
{
    let after = state.with_batch(entry);
    let id = state.next_id;
    assert forall|t: int| 0 <= t < after.transactions.len() implies {
        &&& #[trigger] after.transactions[t] >= total(after.batches, transactions_on(t))
        &&& state.exact() && !state.batches.contains_key(id) ==> after.transactions[t] == total(
            after.batches,
            transactions_on(t),
        )
    } by {
        lemma_total_insert(state.batches, id, entry, transactions_on(t));
        assert(state.transactions[t] >= total(state.batches, transactions_on(t)));
    }
    assert forall|t: int| 0 <= t < after.cus.len() implies {
        &&& #[trigger] after.cus[t] >= total(after.batches, cus_on(t))
        &&& state.exact() && !state.batches.contains_key(id) ==> after.cus[t] == total(
            after.batches,
            cus_on(t),
        )
    } by {
        lemma_total_insert(state.batches, id, entry, cus_on(t));
        assert(state.cus[t] >= total(state.batches, cus_on(t)));
    }
}

/// A batch in flight is covered by its thread's counters, and taking it back
/// keeps them covering the others, and exact if they were.
pub proof fn law_completing_keeps_counts(state: InFlightState, id: u64)
    requires
        state.valid(),
        state.batches.contains_key(id),
    ensures
        state.transactions[state.batches[id].thread_id as int]
            >= state.batches[id].num_transactions,
        state.cus[state.batches[id].thread_id as int] >= state.batches[id].total_cus,
        state.without_batch(id).valid(),
        state.exact() ==> state.without_batch(id).exact(),
{
    let entry = state.batches[id];
    let thread = entry.thread_id as int;
    let after = state.without_batch(id);
    lemma_total_covers(state.batches, id, transactions_on(thread));
    lemma_total_covers(state.batches, id, cus_on(thread));
    assert(state.transactions[thread] >= total(state.batches, transactions_on(thread)));
    assert(state.cus[thread] >= total(state.batches, cus_on(thread)));
    assert forall|t: int| 0 <= t < after.transactions.len() implies {
        &&& #[trigger] after.transactions[t] >= total(after.batches, transactions_on(t))
        &&& state.exact() ==> after.transactions[t] == total(after.batches, transactions_on(t))
    } by {
        lemma_total_remove(state.batches, id, transactions_on(t));
        assert(state.transactions[t] >= total(state.batches, transactions_on(t)));
    }
    assert forall|t: int| 0 <= t < after.cus.len() implies {
        &&& #[trigger] after.cus[t] >= total(after.batches, cus_on(t))
        &&& state.exact() ==> after.cus[t] == total(after.batches, cus_on(t))
    } by {
        lemma_total_remove(state.batches, id, cus_on(t));
        assert(state.cus[t] >= total(state.batches, cus_on(t)));
    }
}

/// Taking back a batch undoes handing it out: the counters and the batches in
/// flight are what they were.
pub proof fn law_completing_undoes_tracking(state: InFlightState, entry: BatchEntry)
    requires
        state.valid(),
        state.has_room(entry),
        !state.batches.contains_key(state.next_id),
    ensures
        state.with_batch(entry).without_batch(state.next_id) == (InFlightState {
            next_id: following_id(state.next_id),
            ..state
        }),
{
    assert(state.with_batch(entry).without_batch(state.next_id) =~= (InFlightState {
        next_id: following_id(state.next_id),
        ..state
    }));
}

/// Two batches can come back in either order.
pub proof fn law_completion_order_does_not_matter(state: InFlightState, a: u64, b: u64)
    requires
        state.valid(),
        state.batches.contains_key(a),
        state.batches.contains_key(b),
        a != b,
    ensures
        state.without_batch(a).without_batch(b) == state.without_batch(b).without_batch(a),
{
    law_completing_keeps_counts(state, a);
    law_completing_keeps_counts(state, b);
    law_completing_keeps_counts(state.without_batch(a), b);
    law_completing_keeps_counts(state.without_batch(b), a);
    assert(state.without_batch(a).batches.contains_key(b));
    assert(state.without_batch(b).batches.contains_key(a));
    assert(state.without_batch(a).without_batch(b) =~= state.without_batch(b).without_batch(a));
}

/// With no batch in flight, exact counters are all zero.
pub proof fn law_idle_threads_count_zero(state: InFlightState)
    requires
        state.valid(),
        state.exact(),
        state.batches.dom().len() == 0,
    ensures
        forall|t: int| 0 <= t < state.transactions.len() ==> #[trigger] state.transactions[t] == 0,
        forall|t: int| 0 <= t < state.cus.len() ==> #[trigger] state.cus[t] == 0,
{
}

/// Identifiers stay fresh until the last `u64` has been handed out, whatever
/// batches come back in between.
pub proof fn law_identifiers_are_fresh(state: InFlightState, entry: BatchEntry, id: u64)
    requires
        state.ids_ascend(),
    ensures
        !state.batches.contains_key(state.next_id),
        state.next_id < u64::MAX ==> state.with_batch(entry).ids_ascend(),
        state.without_batch(id).ids_ascend(),
{
}

/// Tracks the number of transactions that are in flight for each thread.
pub struct InFlightTracker {
    num_in_flight_per_thread: Vec<usize>,
    cus_in_flight_per_thread: Vec<u64>,
    batches: HashMap<u64, BatchEntry>,
    batch_id_generator: BatchIdGenerator,
}

impl View for InFlightTracker {
    type V = InFlightState;

    closed spec fn view(&self) -> InFlightState {
        InFlightState {
            transactions: self.num_in_flight_per_thread@,
            cus: self.cus_in_flight_per_thread@,
            batches: self.batches@,
            next_id: self.batch_id_generator.next_id,
        }
    }
}

impl InFlightTracker {
    /// A tracker for `num_threads` threads, with nothing in flight.
    pub fn new(num_threads: usize) -> (tracker: Self)
        requires
            num_threads * 8 <= isize::MAX,
        ensures
            tracker@.valid(),
            tracker@.exact(),
            tracker@.ids_ascend(),
            tracker@.transactions == Seq::new(num_threads as nat, |t: int| 0usize),
            tracker@.cus == Seq::new(num_threads as nat, |t: int| 0u64),
            tracker@.batches == Map::<u64, BatchEntry>::empty(),
            tracker@.next_id == 0,
    {
        let tracker = InFlightTracker {
            num_in_flight_per_thread: vec![0usize; num_threads],
            cus_in_flight_per_thread: vec![0u64; num_threads],
            batches: HashMap::new(),
            batch_id_generator: BatchIdGenerator::default(),
        };
        assert(tracker@.transactions =~= Seq::new(num_threads as nat, |t: int| 0usize));
        assert(tracker@.cus =~= Seq::new(num_threads as nat, |t: int| 0u64));
        tracker
    }

    /// Returns the number of transactions that are in flight for each thread.
    pub fn num_in_flight_per_thread(&self) -> (counts: &[usize])
        ensures
            counts@ == self@.transactions,
    {
        self.num_in_flight_per_thread.as_slice()
    }

    /// Returns the number of cus that are in flight for each thread.
    pub fn cus_in_flight_per_thread(&self) -> (counts: &[u64])
        ensures
            counts@ == self@.cus,
    {
        self.cus_in_flight_per_thread.as_slice()
    }

    /// Tracks number of transactions and CUs in-flight for the `thread_id`.
    /// Returns a `TransactionBatchId` that can be used to stop tracking the batch
    /// when it is complete.
    pub fn track_batch(
        &mut self,
        num_transactions: usize,
        total_cus: u64,
        thread_id: ThreadId,
    ) -> (batch_id: TransactionBatchId)
        requires
            old(self)@.valid(),
            old(self)@.has_room(BatchEntry { thread_id, num_transactions, total_cus }),
        ensures
            batch_id.0 == old(self)@.next_id,
            final(self)@ == old(self)@.with_batch(
                BatchEntry { thread_id, num_transactions, total_cus },
            ),
            final(self)@.valid(),
    {
        let entry = BatchEntry { thread_id, num_transactions, total_cus };
        proof {
            law_tracking_keeps_counts(self@, entry);
        }
        let batch_id = self.batch_id_generator.next();
        let transactions: usize = self.num_in_flight_per_thread[thread_id];
        let cus: u64 = self.cus_in_flight_per_thread[thread_id];
        self.num_in_flight_per_thread.set(thread_id, transactions + num_transactions);
        self.cus_in_flight_per_thread.set(thread_id, cus + total_cus);
        self.batches.insert(batch_id.0, entry);
        assert(self@ =~= old(self)@.with_batch(entry));
        batch_id
    }

    /// Stop tracking the batch with given `batch_id`, which must be in flight.
    /// Removes the number of transactions for the scheduled thread.
    /// Returns the thread id that the batch was scheduled on.
    pub fn complete_batch(&mut self, batch_id: TransactionBatchId) -> (thread_id: ThreadId)
        requires
            old(self)@.valid(),
            old(self)@.batches.contains_key(batch_id.0),
        ensures
            thread_id == old(self)@.batches[batch_id.0].thread_id,
            final(self)@ == old(self)@.without_batch(batch_id.0),
            final(self)@.valid(),
    {
        proof {
            law_completing_keeps_counts(self@, batch_id.0);
        }
        let entry = self.batches.remove(&batch_id.0).expect("batch id is not being tracked");
        let thread_id: usize = entry.thread_id;
        let transactions: usize = self.num_in_flight_per_thread[thread_id];
        let cus: u64 = self.cus_in_flight_per_thread[thread_id];
        self.num_in_flight_per_thread.set(thread_id, transactions - entry.num_transactions);
        self.cus_in_flight_per_thread.set(thread_id, cus - entry.total_cus);
        assert(self@ =~= old(self)@.without_batch(batch_id.0));
        thread_id
    }
}

/// A batch that is handed out adds its transactions and compute units to its own
/// thread and to no other, is remembered as it is under the next number, and leaves
/// all other batches as they are.
pub proof fn law_a_batch_counts_on_its_own_thread(
    state: InFlightState,
    entry: BatchEntry,
    t: int,
    id: u64,
)
    requires
        state.valid(),
        state.has_room(entry),
        0 <= t < state.transactions.len(),
    ensures
        ({
            let after = state.with_batch(entry);
            let here = t == entry.thread_id;
            &&& after.transactions.len() == state.transactions.len()
            &&& after.cus.len() == state.cus.len()
            &&& here ==> after.transactions[t] == state.transactions[t] + entry.num_transactions
            &&& here ==> after.cus[t] == state.cus[t] + entry.total_cus
            &&& !here ==> after.transactions[t] == state.transactions[t]
            &&& !here ==> after.cus[t] == state.cus[t]
            &&& after.batches.contains_key(state.next_id)
            &&& after.batches[state.next_id] == entry
            &&& id != state.next_id ==> (after.batches.contains_key(id)
                <==> state.batches.contains_key(id))
            &&& id != state.next_id && state.batches.contains_key(id) ==> after.batches[id]
                == state.batches[id]
            &&& state.next_id < u64::MAX ==> after.next_id == state.next_id + 1
            &&& state.next_id == u64::MAX ==> after.next_id == 0
        }),
{
}

/// A batch that comes back takes its transactions and compute units from its own
/// thread and from no other, is forgotten, and leaves all other batches and the next
/// number as they are.
pub proof fn law_a_completed_batch_leaves_its_own_thread(
    state: InFlightState,
    id: u64,
    t: int,
    other: u64,
)
    requires
        state.valid(),
        state.batches.contains_key(id),
        0 <= t < state.transactions.len(),
    ensures
        ({
            let entry = state.batches[id];
            let after = state.without_batch(id);
            let here = t == entry.thread_id;
            &&& after.transactions.len() == state.transactions.len()
            &&& after.cus.len() == state.cus.len()
            &&& here ==> after.transactions[t] + entry.num_transactions == state.transactions[t]
            &&& here ==> after.cus[t] + entry.total_cus == state.cus[t]
            &&& !here ==> after.transactions[t] == state.transactions[t]
            &&& !here ==> after.cus[t] == state.cus[t]
            &&& !after.batches.contains_key(id)
            &&& other != id ==> (after.batches.contains_key(other)
                <==> state.batches.contains_key(other))
            &&& other != id && state.batches.contains_key(other) ==> after.batches[other]
                == state.batches[other]
            &&& after.next_id == state.next_id
        }),
{
    law_completing_keeps_counts(state, id);
}

} // verus!
