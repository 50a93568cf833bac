use solana_bench_tps_rate::funding::{
    funding_transaction, Airdrop, AirdropEvent, AirdropPhase, Funding, FundingError, FundingEvent,
    FundingPhase,
};
use solana_sdk::signature::{Keypair, Signer};
use solana_sdk::system_instruction;
use solana_sdk::transaction::Transaction;

#[test]
fn airdrop_is_skipped_with_enough_balance() {
    let mut airdrop = Airdrop::new(100);
    airdrop.advance(AirdropEvent::Balance(100));
    assert_eq!(airdrop.phase, AirdropPhase::Done);
}

#[test]
fn airdrop_requests_what_is_missing() {
    let mut airdrop = Airdrop::new(100);
    airdrop.advance(AirdropEvent::Balance(30));
    assert_eq!(airdrop.phase, AirdropPhase::Request(70));
    airdrop.advance(AirdropEvent::Requested(true));
    assert_eq!(airdrop.phase, AirdropPhase::Settle { granted: true });
    // The balance does not matter once the request was granted.
    airdrop.advance(AirdropEvent::Balance(31));
    assert_eq!(airdrop.phase, AirdropPhase::Done);
}

#[test]
fn refused_airdrop_depends_on_the_balance() {
    let mut airdrop = Airdrop::new(100);
    airdrop.advance(AirdropEvent::Balance(0));
    airdrop.advance(AirdropEvent::Requested(false));
    let mut lucky = airdrop;
    lucky.advance(AirdropEvent::Balance(100));
    assert_eq!(lucky.phase, AirdropPhase::Done);
    airdrop.advance(AirdropEvent::Balance(99));
    assert_eq!(airdrop.phase, AirdropPhase::Failed(99));
    // Nothing more is asked.
    airdrop.advance(AirdropEvent::Balance(1_000));
    assert_eq!(airdrop.phase, AirdropPhase::Failed(99));
}

#[test]
fn funding_without_faucet_needs_the_balance() {
    let mut funding = Funding::new(10, 45, false);
    assert_eq!(funding.total_needed, 450);
    funding.advance(FundingEvent::Balance(449));
    assert_eq!(
        funding.phase,
        FundingPhase::Failed(FundingError::Insufficient { have: 449, need: 450 })
    );
}

#[test]
fn funding_rechecks_after_an_airdrop() {
    let mut funding = Funding::new(10, 45, true);
    funding.advance(FundingEvent::Balance(0));
    assert_eq!(funding.phase, FundingPhase::Airdrop);
    funding.advance(FundingEvent::AirdropDone);
    assert_eq!(funding.phase, FundingPhase::RecheckBalance);
    funding.advance(FundingEvent::Balance(449));
    assert_eq!(
        funding.phase,
        FundingPhase::Failed(FundingError::StillInsufficient { have: 449, need: 450 })
    );
}

/// Funding of 45 accounts whose transactions are all sent.
fn settled() -> Funding {
    let mut funding = Funding::new(10, 45, false);
    funding.advance(FundingEvent::Balance(450));
    assert_eq!(funding.phase, FundingPhase::RecheckBalance);
    funding.advance(FundingEvent::Balance(450));
    assert_eq!(funding.phase, FundingPhase::SendBatch { start: 0, end: 20 });
    funding.advance(FundingEvent::BatchSent);
    assert_eq!(funding.phase, FundingPhase::SendBatch { start: 20, end: 40 });
    funding.advance(FundingEvent::BatchSent);
    assert_eq!(funding.phase, FundingPhase::SendBatch { start: 40, end: 45 });
    funding.advance(FundingEvent::BatchSent);
    assert_eq!(funding.phase, FundingPhase::Settle);
    funding
}

#[test]
fn half_of_the_accounts_suffice() {
    let mut funding = settled();
    funding.advance(FundingEvent::Settled);
    for account in 0..45 {
        assert_eq!(funding.phase, FundingPhase::Verify(account));
        let balance = if account < 22 { Some(10) } else { Some(9) };
        funding.advance(FundingEvent::AccountBalance(balance));
    }
    assert_eq!(funding.phase, FundingPhase::Done);
}

#[test]
fn fewer_than_half_fail() {
    let mut funding = settled();
    funding.advance(FundingEvent::Settled);
    for account in 0..45 {
        let balance = if account < 21 { Some(11) } else { None };
        funding.advance(FundingEvent::AccountBalance(balance));
    }
    assert_eq!(
        funding.phase,
        FundingPhase::Failed(FundingError::TooFewFunded { funded: 21, total: 45 })
    );
}

#[test]
fn funding_of_no_account_succeeds() {
    let mut funding = Funding::new(10, 0, false);
    funding.advance(FundingEvent::Balance(0));
    funding.advance(FundingEvent::Balance(0));
    assert_eq!(funding.phase, FundingPhase::Settle);
    funding.advance(FundingEvent::Settled);
    assert_eq!(funding.phase, FundingPhase::Done);
}

#[test]
fn funding_transaction_pays_each_account() {
    let authority = Keypair::new();
    let keypairs: Vec<Keypair> = (0..5).map(|_| Keypair::new()).collect();
    let blockhash = solana_sdk::hash::Hash::new_unique();
    let tx = funding_transaction(&authority, &keypairs, 1, 4, 77, &blockhash);
    let transfers: Vec<_> = keypairs[1..4]
        .iter()
        .map(|kp| system_instruction::transfer(&authority.pubkey(), &kp.pubkey(), 77))
        .collect();
    let expected = Transaction::new_signed_with_payer(
        &transfers,
        Some(&authority.pubkey()),
        &[&authority],
        blockhash,
    );
    assert_eq!(tx, expected);
    assert!(tx.verify().is_ok());
}
