use solana_bench_tps_rate::transaction::{build_transfer, TransactionGenerator};
use solana_sdk::pubkey::Pubkey;
use solana_sdk::signature::{Keypair, Signer};
use solana_sdk::system_instruction;
use solana_sdk::transaction::Transaction;
use std::collections::HashSet;

#[test]
fn test_transaction_generator_creation() {
    let keypairs: Vec<Keypair> = (0..8).map(|_| Keypair::new()).collect();
    let generator = TransactionGenerator::new(keypairs, None, false);
    // 8 keypairs split into 4 sources + 4 destinations
    assert_eq!(generator.source_count(), 4);
    assert_eq!(generator.dest_count(), 4);
    assert_eq!(generator.keypair_count(), 8);
}

#[test]
fn test_disjoint_pools() {
    // Verify that source and destination pools don't overlap
    let keypairs: Vec<Keypair> = (0..10).map(|_| Keypair::new()).collect();
    let pubkeys: Vec<Pubkey> = keypairs.iter().map(|kp| kp.pubkey()).collect();

    let generator = TransactionGenerator::new(keypairs, None, false);

    // Get all source pubkeys
    let source_pubkeys: HashSet<Pubkey> = generator
        .source_keypairs
        .iter()
        .map(|kp| kp.pubkey())
        .collect();

    // Get all dest pubkeys
    let dest_pubkeys: HashSet<Pubkey> = generator.dest_pubkeys.iter().copied().collect();

    // Verify no overlap
    assert!(
        source_pubkeys.is_disjoint(&dest_pubkeys),
        "Source and destination pools must be disjoint"
    );

    // Verify sources come from first half
    for (i, pubkey) in source_pubkeys.iter().enumerate() {
        assert!(
            pubkeys[..5].contains(pubkey),
            "Source {} should be from first half",
            i
        );
    }

    // Verify destinations come from second half
    for (i, pubkey) in dest_pubkeys.iter().enumerate() {
        assert!(
            pubkeys[5..].contains(pubkey),
            "Destination {} should be from second half",
            i
        );
    }
}

#[test]
fn test_no_circular_dependencies() {
    // The key test: verify that consecutive transactions don't share accounts
    let keypairs: Vec<Keypair> = (0..20).map(|_| Keypair::new()).collect();
    let mut generator = TransactionGenerator::new(keypairs, None, false);
    let blockhash = solana_sdk::hash::Hash::new_unique();

    // Generate several transactions and check for conflicts
    let transactions: Vec<Transaction> = (0..10)
        .map(|_| generator.next_transaction(&blockhash))
        .collect();

    // Check each consecutive pair
    for i in 0..transactions.len() - 1 {
        let tx1 = &transactions[i];
        let tx2 = &transactions[i + 1];

        // Get writable accounts from each transaction
        // For a transfer: account_keys[0] = source (writable), account_keys[1] = dest (writable)
        let tx1_source = tx1.message.account_keys[0];
        let tx1_dest = tx1.message.account_keys[1];
        let tx2_source = tx2.message.account_keys[0];
        let tx2_dest = tx2.message.account_keys[1];

        // The critical check: tx1's destination should NOT be tx2's source
        // This was the circular dependency in the old implementation
        assert_ne!(
            tx1_dest, tx2_source,
            "TX{}'s destination should not be TX{}'s source (circular dep)",
            i,
            i + 1
        );

        // Also verify no other overlaps between writable accounts
        assert_ne!(
            tx1_source, tx2_source,
            "TX{} and TX{} should have different sources",
            i,
            i + 1
        );
        assert_ne!(
            tx1_source, tx2_dest,
            "TX{}'s source should not be TX{}'s destination",
            i,
            i + 1
        );
        assert_ne!(
            tx1_dest, tx2_dest,
            "TX{} and TX{} should have different destinations",
            i,
            i + 1
        );
    }
}

#[test]
fn test_transaction_generator_round_robin() {
    let keypairs: Vec<Keypair> = (0..8).map(|_| Keypair::new()).collect();
    let source_pubkeys: Vec<Pubkey> = keypairs[..4].iter().map(|kp| kp.pubkey()).collect();
    let mut generator = TransactionGenerator::new(keypairs, None, false);
    let blockhash = solana_sdk::hash::Hash::new_unique();

    // Generate transactions and verify they cycle through source keypairs
    let tx1 = generator.next_transaction(&blockhash);
    assert_eq!(tx1.message.account_keys[0], source_pubkeys[0]);

    let tx2 = generator.next_transaction(&blockhash);
    assert_eq!(tx2.message.account_keys[0], source_pubkeys[1]);

    let tx3 = generator.next_transaction(&blockhash);
    assert_eq!(tx3.message.account_keys[0], source_pubkeys[2]);

    let tx4 = generator.next_transaction(&blockhash);
    assert_eq!(tx4.message.account_keys[0], source_pubkeys[3]);

    // Should wrap around to first source
    let tx5 = generator.next_transaction(&blockhash);
    assert_eq!(tx5.message.account_keys[0], source_pubkeys[0]);
}

#[test]
fn test_transaction_generator_unique_transactions() {
    let keypairs: Vec<Keypair> = (0..20).map(|_| Keypair::new()).collect();
    let mut generator = TransactionGenerator::new(keypairs, None, false);
    let blockhash = solana_sdk::hash::Hash::new_unique();

    // Generate transactions - all should be unique
    let transactions: Vec<_> = (0..20)
        .map(|_| generator.next_transaction(&blockhash))
        .collect();

    // All transactions should have unique signatures
    let signatures: HashSet<_> = transactions.iter().map(|tx| tx.signatures[0]).collect();
    assert_eq!(
        signatures.len(),
        20,
        "All 20 transactions should have unique signatures"
    );
}

#[test]
fn test_transaction_generator_with_priority_fee() {
    let keypairs: Vec<Keypair> = (0..4).map(|_| Keypair::new()).collect();
    let mut generator = TransactionGenerator::new(keypairs, Some(1000), false);
    let blockhash = solana_sdk::hash::Hash::new_unique();

    let tx = generator.next_transaction(&blockhash);

    // Should have 4 instructions: data size limit, transfer, compute limit, compute price
    assert_eq!(tx.message.instructions.len(), 4);
}

#[test]
fn test_transaction_generator_skip_data_size() {
    let keypairs: Vec<Keypair> = (0..4).map(|_| Keypair::new()).collect();
    let mut generator = TransactionGenerator::new(keypairs, None, true);
    let blockhash = solana_sdk::hash::Hash::new_unique();

    let tx = generator.next_transaction(&blockhash);

    // Should only have 1 instruction: transfer
    assert_eq!(tx.message.instructions.len(), 1);
}

#[test]
fn test_transaction_generator_reset() {
    let keypairs: Vec<Keypair> = (0..8).map(|_| Keypair::new()).collect();
    let first_source_pubkey = keypairs[0].pubkey();
    let mut generator = TransactionGenerator::new(keypairs, None, false);
    let blockhash = solana_sdk::hash::Hash::new_unique();

    // Advance a few times
    generator.next_transaction(&blockhash);
    generator.next_transaction(&blockhash);
    let nonce_before_reset = generator.nonce();

    // Reset
    generator.reset();

    // Should start from first source keypair again
    let tx = generator.next_transaction(&blockhash);
    assert_eq!(tx.message.account_keys[0], first_source_pubkey);

    // But nonce should have continued (for uniqueness)
    assert_eq!(generator.nonce(), nonce_before_reset + 1);
}

#[test]
fn test_generate_batch() {
    let keypairs: Vec<Keypair> = (0..20).map(|_| Keypair::new()).collect();
    let mut generator = TransactionGenerator::new(keypairs, None, false);
    let blockhash = solana_sdk::hash::Hash::new_unique();

    // Generate a batch of 30 transactions
    let batch = generator.generate_batch(&blockhash, 30);

    assert_eq!(batch.len(), 30);

    // All transactions should be unique
    let signatures: HashSet<_> = batch.iter().map(|tx| tx.signatures[0]).collect();
    assert_eq!(signatures.len(), 30, "All batch transactions should be unique");

    // Nonce should have advanced by batch size
    assert_eq!(generator.nonce(), 30);
}

#[test]
fn test_generate_batch_no_circular_deps() {
    // Verify batch generation produces non-conflicting transactions
    // when batch_size <= min(num_sources, num_dests)
    let keypairs: Vec<Keypair> = (0..100).map(|_| Keypair::new()).collect();
    let mut generator = TransactionGenerator::new(keypairs, None, false);
    let blockhash = solana_sdk::hash::Hash::new_unique();

    // With 100 keypairs = 50 sources + 50 dests, batch of 50 should have zero conflicts
    let batch = generator.generate_batch(&blockhash, 50);

    // Check ALL types of conflicts
    for i in 0..batch.len() {
        for j in (i + 1)..batch.len() {
            let tx1 = &batch[i];
            let tx2 = &batch[j];

            let tx1_source = tx1.message.account_keys[0];
            let tx1_dest = tx1.message.account_keys[1];
            let tx2_source = tx2.message.account_keys[0];
            let tx2_dest = tx2.message.account_keys[1];

            // Check for source conflicts (both transactions write to same source)
            assert_ne!(
                tx1_source, tx2_source,
                "TX{} and TX{} conflict on source {}",
                i, j, tx1_source
            );

            // Check for destination conflicts (both transactions write to same dest)
            assert_ne!(
                tx1_dest, tx2_dest,
                "TX{} and TX{} conflict on destination {}",
                i, j, tx1_dest
            );

            // Check for cross-pool contamination (shouldn't happen with disjoint pools)
            assert_ne!(
                tx1_dest, tx2_source,
                "TX{}'s dest should not be TX{}'s source",
                i, j
            );
            assert_ne!(
                tx2_dest, tx1_source,
                "TX{}'s dest should not be TX{}'s source",
                j, i
            );
        }
    }
}

#[test]
fn test_batch_size_vs_keypairs_conflict_rate() {
    // Demonstrate that batch_size > num_sources causes source conflicts
    let keypairs: Vec<Keypair> = (0..20).map(|_| Keypair::new()).collect();
    // 20 keypairs = 10 sources + 10 dests
    let mut generator = TransactionGenerator::new(keypairs, None, false);
    let blockhash = solana_sdk::hash::Hash::new_unique();

    // Generate 30 transactions with only 10 sources - WILL have conflicts
    let batch = generator.generate_batch(&blockhash, 30);

    // Count source conflicts
    let mut source_conflicts = 0;
    for i in 0..batch.len() {
        for j in (i + 1)..batch.len() {
            if batch[i].message.account_keys[0] == batch[j].message.account_keys[0] {
                source_conflicts += 1;
            }
        }
    }

    // With 30 txs and 10 sources, each source is used 3 times
    // Conflicts per source: C(3,2) = 3 pairs
    // Total conflicts: 10 sources * 3 = 30
    assert!(
        source_conflicts > 0,
        "Expected source conflicts when batch_size > num_sources"
    );
    println!(
        "With 30 txs and 10 sources: {} source conflict pairs",
        source_conflicts
    );
}

#[test]
fn test_generate_batch_matches_sequential() {
    // Verify that batch generation produces the same transactions as sequential generation
    let keypairs1: Vec<Keypair> = (0..10).map(|_| Keypair::new()).collect();
    let keypairs2: Vec<Keypair> = keypairs1
        .iter()
        .map(|kp| Keypair::from_bytes(&kp.to_bytes()).unwrap())
        .collect();

    let mut gen1 = TransactionGenerator::new(keypairs1, None, false);
    let mut gen2 = TransactionGenerator::new(keypairs2, None, false);
    let blockhash = solana_sdk::hash::Hash::new_unique();

    // Generate 10 transactions sequentially
    let sequential: Vec<_> = (0..10)
        .map(|_| gen1.next_transaction(&blockhash))
        .collect();

    // Generate 10 transactions in batch
    let batch = gen2.generate_batch(&blockhash, 10);

    // They should have the same signatures (same source-dest pairs, same blockhash)
    for i in 0..10 {
        assert_eq!(
            sequential[i].signatures[0], batch[i].signatures[0],
            "Transaction {} should match between sequential and batch",
            i
        );
    }
}

#[test]
fn odd_keypair_goes_to_the_destinations() {
    let keypairs: Vec<Keypair> = (0..9).map(|_| Keypair::new()).collect();
    let last = keypairs[8].pubkey();
    let generator = TransactionGenerator::new(keypairs, None, false);
    assert_eq!(generator.source_count(), 4);
    assert_eq!(generator.dest_count(), 5);
    assert_eq!(generator.keypair_count(), 9);
    assert_eq!(generator.dest_pubkeys[4], last);
}

#[test]
fn every_pair_comes_once_per_cycle() {
    let keypairs: Vec<Keypair> = (0..9).map(|_| Keypair::new()).collect();
    let mut generator = TransactionGenerator::new(keypairs, None, true);
    let blockhash = solana_sdk::hash::Hash::new_unique();
    let batch = generator.generate_batch(&blockhash, 40);
    let pairs: Vec<(Pubkey, Pubkey)> = batch
        .iter()
        .map(|tx| (tx.message.account_keys[0], tx.message.account_keys[1]))
        .collect();
    let distinct: HashSet<(Pubkey, Pubkey)> = pairs.iter().copied().collect();
    assert_eq!(distinct.len(), 20);
    for i in 0..20 {
        assert_eq!(pairs[i], pairs[i + 20]);
    }
}

#[test]
fn two_sources_share_a_destination_between_rounds() {
    let keypairs: Vec<Keypair> = (0..4).map(|_| Keypair::new()).collect();
    let mut generator = TransactionGenerator::new(keypairs, None, true);
    let blockhash = solana_sdk::hash::Hash::new_unique();
    let batch = generator.generate_batch(&blockhash, 3);
    assert_ne!(batch[0].message.account_keys[1], batch[1].message.account_keys[1]);
    assert_eq!(batch[1].message.account_keys[1], batch[2].message.account_keys[1]);
}

#[test]
fn transfer_is_built_as_by_hand() {
    let from = Keypair::new();
    let to = Keypair::new().pubkey();
    let blockhash = solana_sdk::hash::Hash::new_unique();

    let plain = build_transfer(&from, &to, None, true, &blockhash);
    let transfer = system_instruction::transfer(&from.pubkey(), &to, 1);
    let expected = Transaction::new_signed_with_payer(
        &[transfer],
        Some(&from.pubkey()),
        &[&from],
        blockhash,
    );
    assert_eq!(plain, expected);
    assert!(plain.verify().is_ok());
}

#[test]
fn priority_fee_follows_the_transfer() {
    let from = Keypair::new();
    let to = Keypair::new().pubkey();
    let blockhash = solana_sdk::hash::Hash::new_unique();
    let tx = build_transfer(&from, &to, Some(7), false, &blockhash);

    let data: Vec<Vec<u8>> = tx.message.instructions.iter().map(|i| i.data.clone()).collect();
    // Data size limit of 30 KiB, transfer of one lamport, 600 units, price 7.
    assert_eq!(data[0], vec![4, 0, 120, 0, 0]);
    assert_eq!(data[1], vec![2, 0, 0, 0, 1, 0, 0, 0, 0, 0, 0, 0]);
    assert_eq!(data[2], vec![2, 88, 2, 0, 0]);
    assert_eq!(data[3], vec![3, 7, 0, 0, 0, 0, 0, 0, 0]);
    assert_eq!(tx.message.recent_blockhash, blockhash);
}

#[test]
fn long_batches_reuse_sources_in_turn() {
    let keypairs: Vec<Keypair> = (0..6).map(|_| Keypair::new()).collect();
    let mut generator = TransactionGenerator::new(keypairs, None, true);
    let blockhash = solana_sdk::hash::Hash::new_unique();
    let batch = generator.generate_batch(&blockhash, 7);
    for i in 0..4 {
        assert_eq!(batch[i].message.account_keys[0], batch[i + 3].message.account_keys[0]);
    }
    assert_eq!(generator.generate_batch(&blockhash, 0).len(), 0);
    assert_eq!(generator.nonce(), 7);
}
