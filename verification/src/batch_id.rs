//! Identifiers of transaction batches.
use vstd::prelude::*;

verus! {

/// Identifier of a batch that was handed to a thread.
#[derive(Debug, Clone, Copy, PartialEq, Eq, Hash, Structural)]
pub struct TransactionBatchId(pub u64);

impl TransactionBatchId {
    /// The identifier with this number.
    pub fn new(id: u64) -> (batch_id: Self)
        ensures
            batch_id.0 == id,
    {
        TransactionBatchId(id)
    }
}

/// Hands out identifiers in ascending order, starting over after the last `u64`.
#[derive(Debug)]
pub struct BatchIdGenerator {
    /// Number of the identifier that comes next.
    pub next_id: u64,
}

/// The number after `id`.
pub open spec fn following_id(id: u64) -> u64 {
    if id == u64::MAX {
        0
    } else {
        (id + 1) as u64
    }
}

impl Default for BatchIdGenerator {
    fn default() -> (generator: Self)
        ensures
            generator.next_id == 0,
    {
        BatchIdGenerator { next_id: 0 }
    }
}

impl BatchIdGenerator {
    /// The next identifier.
    pub fn next(&mut self) -> (batch_id: TransactionBatchId)
        ensures
            batch_id.0 == old(self).next_id,
            final(self).next_id == following_id(old(self).next_id),
    {
        let id: u64 = self.next_id;
        self.next_id = id.wrapping_add(1);
        TransactionBatchId::new(id)
    }
}

} // verus!
