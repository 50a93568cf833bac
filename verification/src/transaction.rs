//! Benchmark transactions: one-lamport transfers between two disjoint pools.
use crate::pairing::{
    dest_at, law_consecutive_transfers_differ, law_long_batches_reuse_sources,
    law_pairs_are_unique_until_they_repeat, law_pairs_repeat_with_the_cycle,
    law_short_batches_have_no_conflicts, lemma_close_remainders_differ, source_at, PairCursor,
};
use crate::parallel::par_map;
use crate::solana::{
    compiled_message, data_size_limit_instruction, keypair_pubkey, new_message, new_transaction,
    pubkey_of, set_compute_unit_limit, set_compute_unit_price, set_loaded_accounts_data_size_limit,
    signed_transaction, transfer, transfer_instruction, unit_limit_instruction,
    unit_price_instruction,
};
use solana_sdk::instruction::Instruction;
use solana_sdk::pubkey::Pubkey;
use solana_sdk::signature::Keypair;
use solana_sdk::transaction::Transaction;
use vstd::arithmetic::div_mod::{lemma_add_mod_noop_right, lemma_mod_bound, lemma_small_mod};
use vstd::prelude::*;

verus! {

/// Compute units that a transfer transaction asks for when it pays a priority fee.
pub const TRANSFER_TRANSACTION_COMPUTE_UNIT: u32 = 600;

/// Account data, in bytes, that a transfer transaction may load.
pub const TRANSFER_TRANSACTION_LOADED_ACCOUNTS_DATA_SIZE: u32 = 30 * 1024;

/// Lamports that every transfer moves.
pub const TRANSFER_LAMPORTS: u64 = 1;

/// The instructions of a transfer transaction, in order: the data size limit
/// unless it is skipped, the transfer, and the compute unit limit and price if
/// there is a price.
pub open spec fn transfer_instructions(
    from: Pubkey,
    to: Pubkey,
    compute_unit_price: Option<u64>,
    skip_data_size_limit: bool,
) -> Seq<Instruction> {
    let limit = if skip_data_size_limit {
        Seq::empty()
    } else {
        seq![data_size_limit_instruction(TRANSFER_TRANSACTION_LOADED_ACCOUNTS_DATA_SIZE)]
    };
    let fee = match compute_unit_price {
        Some(price) => seq![
            unit_limit_instruction(TRANSFER_TRANSACTION_COMPUTE_UNIT),
            unit_price_instruction(price),
        ],
        None => Seq::empty(),
    };
    limit + seq![transfer_instruction(from, to, TRANSFER_LAMPORTS)] + fee
}

/// The transfer transaction from one key pair to an address: paid for and
/// signed by the sender.
pub open spec fn transfer_transaction(
    from: Keypair,
    to: Pubkey,
    compute_unit_price: Option<u64>,
    skip_data_size_limit: bool,
    blockhash: solana_sdk::hash::Hash,
) -> Transaction {
    signed_transaction(
        from,
        compiled_message(
            transfer_instructions(pubkey_of(from), to, compute_unit_price, skip_data_size_limit),
            pubkey_of(from),
        ),
        blockhash,
    )
}

/// Build and sign one transfer transaction.
pub fn build_transfer(
    from: &Keypair,
    to: &Pubkey,
    compute_unit_price: Option<u64>,
    skip_data_size_limit: bool,
    blockhash: &solana_sdk::hash::Hash,
) -> (tx: Transaction)
    ensures
        tx == transfer_transaction(
            *from,
            *to,
            compute_unit_price,
            skip_data_size_limit,
            *blockhash,
        ),
{
    let payer = keypair_pubkey(from);
    let mut instructions: Vec<Instruction> = Vec::new();
    if !skip_data_size_limit {
        instructions.push(
            set_loaded_accounts_data_size_limit(TRANSFER_TRANSACTION_LOADED_ACCOUNTS_DATA_SIZE),
        );
    }
    instructions.push(transfer(&payer, to, TRANSFER_LAMPORTS));
    if let Some(price) = compute_unit_price {
        instructions.push(set_compute_unit_limit(TRANSFER_TRANSACTION_COMPUTE_UNIT));
        instructions.push(set_compute_unit_price(price));
    }
    assert(instructions@ =~= transfer_instructions(
        payer,
        *to,
        compute_unit_price,
        skip_data_size_limit,
    ));
    let message = new_message(&instructions, &payer);
    new_transaction(from, message, blockhash)
}

/// What a generator is, apart from how it stores it.
#[verifier::ext_equal]
pub struct GeneratorState {
    /// Key pairs that sign and pay.
    pub sources: Seq<Keypair>,
    /// Addresses that are paid.
    pub dests: Seq<Pubkey>,
    /// Transfers since the start of the pair sequence, modulo its length.
    pub position: int,
    /// Priority fee in micro-lamports per compute unit.
    pub compute_unit_price: Option<u64>,
    /// Whether transactions leave out the data size limit.
    pub skip_data_size_limit: bool,
    /// Transactions generated, modulo 2^64.
    pub nonce: int,
}

impl GeneratorState {
    /// Number of pairs of a source and a destination.
    pub open spec fn cycle(self) -> int {
        (self.sources.len() * self.dests.len()) as int
    }

    /// Two pools of at least two, the second at most one larger, and a position
    /// and a count in range.
    pub open spec fn valid(self) -> bool {
        &&& 2 <= self.sources.len() <= self.dests.len() <= self.sources.len() + 1
        &&& 0 <= self.position < self.cycle()
        &&& 0 <= self.nonce < 0x1_0000_0000_0000_0000
    }

    /// The payer of the transfer at a position.
    pub open spec fn source(self, position: int) -> Keypair {
        self.sources[source_at(position, self.sources.len() as int)]
    }

    /// The address that the transfer at a position pays.
    pub open spec fn dest(self, position: int) -> Pubkey {
        self.dests[dest_at(position, self.sources.len() as int, self.dests.len() as int)]
    }

    /// The transaction for the transfer at a position.
    pub open spec fn transaction(
        self,
        position: int,
        blockhash: solana_sdk::hash::Hash,
    ) -> Transaction {
        transfer_transaction(
            self.source(position),
            self.dest(position),
            self.compute_unit_price,
            self.skip_data_size_limit,
            blockhash,
        )
    }

    /// The generator `count` transactions later.
    pub open spec fn advanced(self, count: int) -> GeneratorState {
        GeneratorState {
            position: (self.position + count) % self.cycle(),
            nonce: (self.nonce + count) % 0x1_0000_0000_0000_0000,
            ..self
        }
    }

    /// The next `count` transactions.
    pub open spec fn transactions(self, count: nat, blockhash: solana_sdk::hash::Hash) -> Seq<
        Transaction,
    > {
        Seq::new(count, |i: int| self.transaction(self.position + i, blockhash))
    }
}

/// A generator that has generated nothing.
pub open spec fn new_state(
    keypairs: Seq<Keypair>,
    compute_unit_price: Option<u64>,
    skip_data_size_limit: bool,
) -> GeneratorState {
    let half = keypairs.len() as int / 2;
    GeneratorState {
        sources: keypairs.take(half),
        dests: keypairs.skip(half).map_values(|keypair: Keypair| pubkey_of(keypair)),
        position: 0,
        compute_unit_price,
        skip_data_size_limit,
        nonce: 0,
    }
}

/// Generator for benchmark transactions using disjoint keypair pools.
///
/// Creates simple transfer transactions between keypairs, using separate
/// source and destination pools to eliminate account lock contention:
/// - Source keypairs (first half) are only used as signers/fee payers
/// - Destination pubkeys (second half) are only used as transfer recipients
/// - This ensures no circular dependencies where TX(n)'s destination is TX(n+1)'s source
///
/// With N total keypairs there are N/2 sources; the others are destinations,
/// and every source pays every destination before a pair repeats.
pub struct TransactionGenerator {
    /// Source keypairs - used for signing transactions (first half of input keypairs)
    pub source_keypairs: Vec<Keypair>,
    /// Destination pubkeys - transfer recipients (second half of input keypairs)
    pub dest_pubkeys: Vec<Pubkey>,
    /// Place in the sequence of source and destination pairs
    pub cursor: PairCursor,
    /// Optional priority fee in micro-lamports per compute unit
    pub compute_unit_price: Option<u64>,
    /// Whether to leave out the loaded accounts data size limit
    pub skip_data_size_limit: bool,
    /// Counter tracking number of transactions generated
    pub nonce: u64,
}

impl View for TransactionGenerator {
    type V = GeneratorState;

    open spec fn view(&self) -> GeneratorState {
        GeneratorState {
            sources: self.source_keypairs@,
            dests: self.dest_pubkeys@,
            position: self.cursor.position(self.source_keypairs@.len() as int),
            compute_unit_price: self.compute_unit_price,
            skip_data_size_limit: self.skip_data_size_limit,
            nonce: self.nonce as int,
        }
    }
}

impl TransactionGenerator {
    /// The pools have the sizes that `new` gives them and the cursor fits them.
    pub open spec fn wf(&self) -> bool {
        &&& self@.valid()
        &&& self.cursor.fits(self@.sources.len() as int, self@.dests.len() as int)
        &&& self@.sources.len() + self@.dests.len() <= usize::MAX
    }

    /// Create a new transaction generator with disjoint source/destination pools.
    ///
    /// # Arguments
    /// * `keypairs` - Funded keypairs to use for transactions (must have at least 4).
    ///   The first half will be used as sources (signers), the second half as destinations.
    /// * `compute_unit_price` - Optional priority fee in micro-lamports per compute unit
    /// * `skip_data_size_limit` - Whether to skip setting the loaded accounts data size limit
    pub fn new(
        keypairs: Vec<Keypair>,
        compute_unit_price: Option<u64>,
        skip_data_size_limit: bool,
    ) -> (generator: Self)
        requires
            keypairs@.len() >= 4,
        ensures
            generator.wf(),
            generator@ == new_state(keypairs@, compute_unit_price, skip_data_size_limit),
            generator@.sources == keypairs@.take(keypairs@.len() as int / 2),
            generator@.dests == keypairs@.skip(keypairs@.len() as int / 2).map_values(
                |keypair: Keypair| pubkey_of(keypair),
            ),
            generator@.position == 0,
            generator@.compute_unit_price == compute_unit_price,
            generator@.skip_data_size_limit == skip_data_size_limit,
            generator@.nonce == 0,
    {
        let mut source_keypairs = keypairs;
        let half: usize = source_keypairs.len() / 2;
        let rest = source_keypairs.split_off(half);
        let mut dest_pubkeys: Vec<Pubkey> = Vec::new();
        let mut i: usize = 0;
        while i < rest.len()
            invariant
                i <= rest@.len(),
                dest_pubkeys@.len() == i,
                forall|k: int| 0 <= k < i ==> #[trigger] dest_pubkeys@[k] == pubkey_of(rest@[k]),
            decreases rest@.len() - i,
        {
            dest_pubkeys.push(keypair_pubkey(&rest[i]));
            i = i + 1;
        }
        let generator = TransactionGenerator {
            source_keypairs,
            dest_pubkeys,
            cursor: PairCursor::start(),
            compute_unit_price,
            skip_data_size_limit,
            nonce: 0,
        };
        assert(generator@.dests =~= keypairs@.skip(keypairs@.len() as int / 2).map_values(
            |keypair: Keypair| pubkey_of(keypair),
        ));
        assert(generator@ =~= new_state(keypairs@, compute_unit_price, skip_data_size_limit));
        proof {
            vstd::arithmetic::mul::lemma_mul_strictly_positive(
                generator@.sources.len() as int,
                generator@.dests.len() as int,
            );
        }
        generator
    }

    /// Generate the next transaction with the given blockhash.
    ///
    /// Uses disjoint source/destination pools:
    /// - Cycles through source keypairs in round-robin fashion
    /// - Destination is computed as (source_index + dest_offset) % num_dests
    /// - After each full cycle through sources, dest_offset increments
    /// - This creates num_sources * num_dests unique pairs before repeating
    /// - Since sources and destinations never overlap, consecutive transactions
    ///   don't create account lock dependencies; with only two sources, the last
    ///   transaction of a cycle and the first of the next pay the same destination
    pub fn next_transaction(&mut self, blockhash: &solana_sdk::hash::Hash) -> (tx: Transaction)
        requires
            old(self).wf(),
        ensures
            final(self).wf(),
            tx == old(self)@.transaction(old(self)@.position, *blockhash),
            final(self)@ == old(self)@.advanced(1),
    {
        let num_sources: usize = self.source_keypairs.len();
        let num_dests: usize = self.dest_pubkeys.len();
        let (source_index, dest_index) = self.cursor.next_pair(num_sources, num_dests);
        let tx = build_transfer(
            &self.source_keypairs[source_index],
            &self.dest_pubkeys[dest_index],
            self.compute_unit_price,
            self.skip_data_size_limit,
            blockhash,
        );
        self.nonce = self.nonce.wrapping_add(1);
        proof {
            lemma_mod_bound(old(self)@.position + 1, old(self)@.cycle());
        }
        tx
    }

    /// Get the number of source keypairs available.
    pub fn source_count(&self) -> (count: usize)
        ensures
            count == self@.sources.len(),
    {
        self.source_keypairs.len()
    }

    /// Get the number of destination pubkeys available.
    pub fn dest_count(&self) -> (count: usize)
        ensures
            count == self@.dests.len(),
    {
        self.dest_pubkeys.len()
    }

    /// Get the total number of keypairs (sources + destinations).
    pub fn keypair_count(&self) -> (count: usize)
        requires
            self.wf(),
        ensures
            count == self@.sources.len() + self@.dests.len(),
    {
        self.source_keypairs.len() + self.dest_pubkeys.len()
    }

    /// Get the current nonce value (number of transactions generated).
    pub fn nonce(&self) -> (nonce: u64)
        ensures
            nonce == self@.nonce,
    {
        self.nonce
    }

    /// Reset the generator to start from the first keypair. The nonce goes on
    /// counting.
    pub fn reset(&mut self)
        requires
            old(self).wf(),
        ensures
            final(self).wf(),
            final(self)@ == (GeneratorState { position: 0, ..old(self)@ }),
    {
        self.cursor = PairCursor::start();
    }

    /// Generate a batch of transactions with parallel signing.
    ///
    /// This pre-computes source/destination indices for the batch, then
    /// parallelizes transaction creation and signing across CPU cores.
    ///
    /// Returns a vector of signed transactions ready to send.
    pub fn generate_batch(
        &mut self,
        blockhash: &solana_sdk::hash::Hash,
        batch_size: usize,
    ) -> (batch: Vec<Transaction>)
        requires
            old(self).wf(),
        ensures
            final(self).wf(),
            batch@ == old(self)@.transactions(batch_size as nat, *blockhash),
            final(self)@ == old(self)@.advanced(batch_size as int),
    {
        let num_sources: usize = self.source_keypairs.len();
        let num_dests: usize = self.dest_pubkeys.len();
        let indices = self.cursor.next_pairs(num_sources, num_dests, batch_size);
        self.nonce = self.nonce.wrapping_add(batch_size as u64);
        proof {
            lemma_mod_bound(old(self)@.position + batch_size, old(self)@.cycle());
        }

        let source_keypairs = &self.source_keypairs;
        let dest_pubkeys = &self.dest_pubkeys;
        let compute_unit_price = self.compute_unit_price;
        let skip_data_size_limit = self.skip_data_size_limit;
        let build = |pair: (usize, usize)| -> (tx: Transaction)
            requires
                pair.0 < source_keypairs@.len(),
                pair.1 < dest_pubkeys@.len(),
            ensures
                tx == transfer_transaction(
                    source_keypairs@[pair.0 as int],
                    dest_pubkeys@[pair.1 as int],
                    compute_unit_price,
                    skip_data_size_limit,
                    *blockhash,
                ),
            {
                build_transfer(
                    &source_keypairs[pair.0],
                    &dest_pubkeys[pair.1],
                    compute_unit_price,
                    skip_data_size_limit,
                    blockhash,
                )
            };
        let batch = par_map(indices, build);
        assert(batch@ =~= old(self)@.transactions(batch_size as nat, *blockhash));
        batch
    }
}

impl GeneratorState {
    /// What `count` single steps give: their transactions and the state after them.
    pub open spec fn stepped(self, count: nat, blockhash: solana_sdk::hash::Hash) -> (
        Seq<Transaction>,
        GeneratorState,
    )
        decreases count,
    {
        if count == 0 {
            (Seq::empty(), self)
        } else {
            let (txs, state) = self.stepped((count - 1) as nat, blockhash);
            (txs.push(state.transaction(state.position, blockhash)), state.advanced(1))
        }
    }

    /// Whether no address of the destination pool belongs to a source.
    pub open spec fn pools_disjoint(self) -> bool {
        forall|s: int, d: int|
            #![trigger self.sources[s], self.dests[d]]
            0 <= s < self.sources.len() && 0 <= d < self.dests.len() ==> pubkey_of(self.sources[s])
                != self.dests[d]
    }

    /// Whether no two sources have the same address and no two destinations are
    /// the same.
    pub open spec fn pools_distinct(self) -> bool {
        &&& forall|s: int, t: int|
            #![trigger self.sources[s], self.sources[t]]
            0 <= s < t < self.sources.len() ==> pubkey_of(self.sources[s]) != pubkey_of(
                self.sources[t],
            )
        &&& forall|d: int, e: int|
            #![trigger self.dests[d], self.dests[e]]
            0 <= d < e < self.dests.len() ==> self.dests[d] != self.dests[e]
    }

    /// Whether the transfers at two positions touch no account in common.
    pub open spec fn conflict_free(self, p: int, q: int) -> bool {
        &&& pubkey_of(self.source(p)) != pubkey_of(self.source(q))
        &&& self.dest(p) != self.dest(q)
        &&& self.dest(p) != pubkey_of(self.source(q))
        &&& self.dest(q) != pubkey_of(self.source(p))
    }
}

/// The indices at any position lie in the pools.
proof fn lemma_indices_in_pools(state: GeneratorState, position: int)
    requires
        state.valid(),
    ensures
        0 <= source_at(position, state.sources.len() as int) < state.sources.len(),
        0 <= dest_at(position, state.sources.len() as int, state.dests.len() as int)
            < state.dests.len(),
{
    let (s, d) = (state.sources.len() as int, state.dests.len() as int);
    lemma_mod_bound(position, s);
    lemma_mod_bound(position % s + position / s, d);
}

/// A batch holds the same transactions, in the same order, as single steps give,
/// and leaves the generator in the same state.
pub proof fn law_batch_matches_single_steps(
    state: GeneratorState,
    count: nat,
    blockhash: solana_sdk::hash::Hash,
)
    requires
        state.valid(),
    ensures
        state.stepped(count, blockhash).0 == state.transactions(count, blockhash),
        state.stepped(count, blockhash).1 == state.advanced(count as int),
    decreases count,
{
    let cycle = state.cycle();
    let wrap = 0x1_0000_0000_0000_0000int;
    if count == 0 {
        lemma_small_mod(state.position as nat, cycle as nat);
        lemma_small_mod(state.nonce as nat, wrap as nat);
        assert(state.stepped(count, blockhash).0 =~= state.transactions(count, blockhash));
        assert(state.stepped(count, blockhash).1 =~= state.advanced(count as int));
    } else {
        let before = (count - 1) as nat;
        law_batch_matches_single_steps(state, before, blockhash);
        let mid = state.advanced(before as int);
        law_pairs_repeat_with_the_cycle(
            state.position + before,
            state.sources.len() as int,
            state.dests.len() as int,
        );
        lemma_add_mod_noop_right(1, state.position + before, cycle);
        lemma_add_mod_noop_right(1, state.nonce + before, wrap);
        assert(mid.transaction(mid.position, blockhash) == state.transaction(
            state.position + before,
            blockhash,
        ));
        assert(state.transactions(count, blockhash) =~= state.transactions(before, blockhash).push(
            state.transaction(state.position + before, blockhash),
        ));
        assert(mid.advanced(1) =~= state.advanced(count as int));
    }
}

/// If no key pair of the first half of a list shares its address with one of the
/// second half, the pools that the list is split into are disjoint.
pub proof fn law_pools_are_disjoint(keypairs: Seq<Keypair>, state: GeneratorState)
    requires
        state.sources == keypairs.take(keypairs.len() as int / 2),
        state.dests == keypairs.skip(keypairs.len() as int / 2).map_values(
            |keypair: Keypair| pubkey_of(keypair),
        ),
        forall|i: int, j: int|
            #![trigger keypairs[i], keypairs[j]]
            0 <= i < keypairs.len() as int / 2 <= j < keypairs.len() ==> pubkey_of(keypairs[i])
                != pubkey_of(keypairs[j]),
    ensures
        state.pools_disjoint(),
{
    let half = keypairs.len() as int / 2;
    assert forall|s: int, d: int|
        #![trigger state.sources[s], state.dests[d]]
        0 <= s < state.sources.len() && 0 <= d < state.dests.len() implies pubkey_of(
        state.sources[s],
    ) != state.dests[d] by {
        assert(state.sources[s] == keypairs[s]);
        assert(state.dests[d] == pubkey_of(keypairs[half + d]));
    }
}

/// Generating transactions and starting over leave the pools as they are, so
/// what holds of them holds for the generator's whole life.
pub proof fn law_pools_never_change(state: GeneratorState, count: int)
    ensures
        state.advanced(count).sources == state.sources,
        state.advanced(count).dests == state.dests,
        state.pools_disjoint() ==> state.advanced(count).pools_disjoint(),
        state.pools_distinct() ==> state.advanced(count).pools_distinct(),
        state.pools_disjoint() ==> (GeneratorState { position: 0, ..state }).pools_disjoint(),
        state.pools_distinct() ==> (GeneratorState { position: 0, ..state }).pools_distinct(),
{
}

/// No transaction pays an account that this or any other transaction of the
/// generator pays from: there are no circular dependencies.
pub proof fn law_no_circular_dependencies(state: GeneratorState, p: int, q: int)
    requires
        state.valid(),
        state.pools_disjoint(),
    ensures
        state.dest(p) != pubkey_of(state.source(q)),
{
    lemma_indices_in_pools(state, p);
    lemma_indices_in_pools(state, q);
}

/// Two transactions in a row touch no account in common, except at the step from
/// one round to the next with two sources, where both pay the same destination.
pub proof fn law_consecutive_transactions_do_not_conflict(state: GeneratorState, position: int)
    requires
        state.valid(),
        state.pools_disjoint(),
        state.pools_distinct(),
    ensures
        pubkey_of(state.source(position)) != pubkey_of(state.source(position + 1)),
        state.conflict_free(position, position + 1) <==> !(state.sources.len() == 2 && position
            % (state.sources.len() as int) == 1),
{
    lemma_indices_in_pools(state, position);
    lemma_indices_in_pools(state, position + 1);
    law_consecutive_transfers_differ(
        position,
        state.sources.len() as int,
        state.dests.len() as int,
    );
}

/// In a batch that is no longer than the source pool no two transactions have the
/// same payer. If it is shorter, or starts with the first source, no two touch an
/// account in common.
pub proof fn law_short_batches_do_not_conflict(state: GeneratorState, count: int, i: int, j: int)
    requires
        state.valid(),
        state.pools_disjoint(),
        state.pools_distinct(),
        0 <= i < j < count <= state.sources.len(),
    ensures
        pubkey_of(state.source(state.position + i)) != pubkey_of(state.source(state.position + j)),
        count < state.sources.len() || state.position % (state.sources.len() as int) == 0
            ==> state.conflict_free(state.position + i, state.position + j),
{
    lemma_indices_in_pools(state, state.position + i);
    lemma_indices_in_pools(state, state.position + j);
    law_short_batches_have_no_conflicts(
        state.position,
        count,
        i,
        j,
        state.sources.len() as int,
        state.dests.len() as int,
    );
}

/// Within one cycle of pairs, two transactions never have both their source
/// and their destination in common.
pub proof fn law_pairs_do_not_repeat_within_a_cycle(state: GeneratorState, i: int, j: int)
    requires
        state.valid(),
        state.pools_distinct(),
        0 <= i < j < state.cycle(),
    ensures
        pubkey_of(state.source(state.position + i)) != pubkey_of(state.source(state.position + j))
            || state.dest(state.position + i) != state.dest(state.position + j),
{
    let (p, q) = (state.position + i, state.position + j);
    lemma_indices_in_pools(state, p);
    lemma_indices_in_pools(state, q);
    law_pairs_are_unique_until_they_repeat(
        p,
        q,
        state.sources.len() as int,
        state.dests.len() as int,
    );
    lemma_close_remainders_differ(p, q, state.cycle());
}

/// Transactions cycle through the sources in order: a full round later the same
/// source pays again.
pub proof fn law_sources_take_turns(state: GeneratorState, position: int)
    requires
        state.valid(),
        0 <= position < state.sources.len(),
    ensures
        state.source(position) == state.sources[position],
        state.source(position + state.sources.len()) == state.source(position),
{
    lemma_small_mod(position as nat, state.sources.len());
    law_long_batches_reuse_sources(position, state.sources.len() as int);
}

/// The number of instructions in a transfer transaction: the transfer, one for
/// the data size limit unless it is skipped, and two for a priority fee.
pub proof fn law_instruction_count(
    from: Pubkey,
    to: Pubkey,
    compute_unit_price: Option<u64>,
    skip_data_size_limit: bool,
)
    ensures
        transfer_instructions(from, to, compute_unit_price, skip_data_size_limit).len() == 1 + (
        if skip_data_size_limit {
            0int
        } else {
            1
        }) + (if compute_unit_price is Some {
            2int
        } else {
            0
        }),
{
}

/// A transfer transaction is signed and paid for by its sender alone and holds, in
/// this order: a data size limit of 30 KiB unless it is skipped, a transfer of one
/// lamport from the sender, and, exactly if there is a price, a limit of 600 compute
/// units and that price.
pub proof fn law_what_a_transfer_transaction_holds(
    from: Keypair,
    to: Pubkey,
    compute_unit_price: Option<u64>,
    skip_data_size_limit: bool,
    blockhash: solana_sdk::hash::Hash,
) -> (instructions: Seq<Instruction>)
    ensures
        transfer_transaction(from, to, compute_unit_price, skip_data_size_limit, blockhash)
            == signed_transaction(from, compiled_message(instructions, pubkey_of(from)), blockhash),
        ({
            let at = if skip_data_size_limit {
                0int
            } else {
                1int
            };
            &&& !skip_data_size_limit ==> instructions[0] == data_size_limit_instruction(30_720)
            &&& instructions[at] == transfer_instruction(pubkey_of(from), to, 1)
            &&& compute_unit_price is None ==> instructions.len() == at + 1
            &&& compute_unit_price is Some ==> {
                &&& instructions.len() == at + 3
                &&& instructions[at + 1] == unit_limit_instruction(600)
                &&& instructions[at + 2] == unit_price_instruction(compute_unit_price->0)
            }
        }),
{
    transfer_instructions(pubkey_of(from), to, compute_unit_price, skip_data_size_limit)
}

/// Every transaction of a generator, at whatever position, is a transfer from the
/// source whose turn it is to the destination that lies as many places further as
/// there were full rounds, with the generator's own fee and limit. The fee does not
/// depend on the position.
pub proof fn law_what_the_transaction_at_a_position_holds(
    state: GeneratorState,
    position: int,
    blockhash: solana_sdk::hash::Hash,
) -> (instructions: Seq<Instruction>)
    requires
        state.valid(),
    ensures
        ({
            let (n, m) = (state.sources.len() as int, state.dests.len() as int);
            let from = state.sources[position % n];
            let to = state.dests[(position % n + position / n) % m];
            let at = if state.skip_data_size_limit {
                0int
            } else {
                1int
            };
            &&& state.transaction(position, blockhash) == signed_transaction(
                from,
                compiled_message(instructions, pubkey_of(from)),
                blockhash,
            )
            &&& !state.skip_data_size_limit ==> instructions[0] == data_size_limit_instruction(
                30_720,
            )
            &&& instructions[at] == transfer_instruction(pubkey_of(from), to, 1)
            &&& state.compute_unit_price is None ==> instructions.len() == at + 1
            &&& state.compute_unit_price is Some ==> {
                &&& instructions.len() == at + 3
                &&& instructions[at + 1] == unit_limit_instruction(600)
                &&& instructions[at + 2] == unit_price_instruction(state.compute_unit_price->0)
            }
        }),
{
    let (n, m) = (state.sources.len() as int, state.dests.len() as int);
    law_what_a_transfer_transaction_holds(
        state.sources[position % n],
        state.dests[(position % n + position / n) % m],
        state.compute_unit_price,
        state.skip_data_size_limit,
        blockhash,
    )
}

/// A batch holds as many transactions as asked for, each of them made as a single
/// one at its place: all pay the generator's fee.
pub proof fn law_what_a_batch_holds(
    state: GeneratorState,
    count: nat,
    i: int,
    blockhash: solana_sdk::hash::Hash,
) -> (instructions: Seq<Instruction>)
    requires
        state.valid(),
        0 <= i < count,
    ensures
        state.transactions(count, blockhash).len() == count,
        ({
            let (n, m) = (state.sources.len() as int, state.dests.len() as int);
            let position = state.position + i;
            let from = state.sources[position % n];
            let to = state.dests[(position % n + position / n) % m];
            let at = if state.skip_data_size_limit {
                0int
            } else {
                1int
            };
            &&& state.transactions(count, blockhash)[i] == signed_transaction(
                from,
                compiled_message(instructions, pubkey_of(from)),
                blockhash,
            )
            &&& !state.skip_data_size_limit ==> instructions[0] == data_size_limit_instruction(
                30_720,
            )
            &&& instructions[at] == transfer_instruction(pubkey_of(from), to, 1)
            &&& state.compute_unit_price is None ==> instructions.len() == at + 1
            &&& state.compute_unit_price is Some ==> {
                &&& instructions.len() == at + 3
                &&& instructions[at + 1] == unit_limit_instruction(600)
                &&& instructions[at + 2] == unit_price_instruction(state.compute_unit_price->0)
            }
        }),
{
    law_what_the_transaction_at_a_position_holds(state, state.position + i, blockhash)
}

/// Generating transactions moves a generator on by their number and counts them: it
/// goes on with the pair that follows, keeps its pools, its fee and its limit, and
/// its count goes up by as many, modulo 2^64.
pub proof fn law_generating_moves_on(
    state: GeneratorState,
    count: int,
    ahead: int,
    blockhash: solana_sdk::hash::Hash,
)
    requires
        state.valid(),
        count >= 0,
    ensures
        ({
            let after = state.advanced(count);
            let wrap = 0x1_0000_0000_0000_0000int;
            &&& after.valid()
            &&& after.transaction(after.position + ahead, blockhash) == state.transaction(
                state.position + count + ahead,
                blockhash,
            )
            &&& after.sources == state.sources
            &&& after.dests == state.dests
            &&& after.compute_unit_price == state.compute_unit_price
            &&& after.skip_data_size_limit == state.skip_data_size_limit
            &&& state.nonce + count < wrap ==> after.nonce == state.nonce + count
            &&& (after.nonce - state.nonce - count) % wrap == 0
        }),
{
    let cycle = state.cycle();
    let (n, m) = (state.sources.len() as int, state.dests.len() as int);
    let wrap = 0x1_0000_0000_0000_0000int;
    let after = state.advanced(count);
    lemma_mod_bound(state.position + count, cycle);
    lemma_mod_bound(state.nonce + count, wrap);
    law_pairs_repeat_with_the_cycle(state.position + count + ahead, n, m);
    law_pairs_repeat_with_the_cycle(after.position + ahead, n, m);
    lemma_add_mod_noop_right(ahead, state.position + count, cycle);
}

/// A new generator pays from the first half of its key pairs, rounded down, to the
/// addresses of all others, each in their order, with the fee and the limit that it
/// was given, and has counted nothing.
pub proof fn law_a_new_generator_splits_its_key_pairs(
    keypairs: Seq<Keypair>,
    compute_unit_price: Option<u64>,
    skip_data_size_limit: bool,
)
    requires
        keypairs.len() >= 4,
    ensures
        ({
            let state = new_state(keypairs, compute_unit_price, skip_data_size_limit);
            let n = state.sources.len();
            &&& state.valid()
            &&& n + state.dests.len() == keypairs.len()
            &&& 2 * n == keypairs.len() || 2 * n + 1 == keypairs.len()
            &&& forall|i: int| 0 <= i < n ==> #[trigger] state.sources[i] == keypairs[i]
            &&& forall|j: int|
                0 <= j < state.dests.len() ==> #[trigger] state.dests[j] == pubkey_of(
                    keypairs[n + j],
                )
            &&& state.position == 0
            &&& state.nonce == 0
            &&& state.compute_unit_price == compute_unit_price
            &&& state.skip_data_size_limit == skip_data_size_limit
        }),
{
    let state = new_state(keypairs, compute_unit_price, skip_data_size_limit);
    vstd::arithmetic::mul::lemma_mul_strictly_positive(
        state.sources.len() as int,
        state.dests.len() as int,
    );
}

} // verus!
