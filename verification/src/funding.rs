//! Funding of the benchmark accounts.
//!
//! The state machines decide; their caller queries balances, sends transactions
//! and sleeps, and reports back what it found.
use crate::solana::{
    compiled_message, keypair_pubkey, new_message, new_transaction, pubkey_of, signed_transaction,
    transfer, transfer_instruction,
};
use solana_sdk::instruction::Instruction;
use solana_sdk::pubkey::Pubkey;
use solana_sdk::signature::Keypair;
use solana_sdk::transaction::Transaction;
use vstd::prelude::*;

verus! {

/// Accounts that one funding transaction pays, to stay within the size limit.
pub const FUNDING_BATCH_SIZE: usize = 20;

/// Pause after an airdrop request, in seconds.
pub const AIRDROP_SETTLE_SECS: u64 = 2;

/// Pause after the funding transactions, in seconds.
pub const FUNDING_SETTLE_SECS: u64 = 3;

/// Where an airdrop stands.
#[derive(Debug, Clone, Copy, PartialEq, Eq, Structural)]
pub enum AirdropPhase {
    /// The balance is to be queried.
    CheckBalance,
    /// This many lamports are to be requested.
    Request(u64),
    /// The request was made, and the balance is to be queried after a pause.
    Settle {
        /// Whether the request was granted.
        granted: bool,
    },
    /// There was nothing to do, or the airdrop is through.
    Done,
    /// The airdrop failed and left this balance.
    Failed(u64),
}

/// What an airdrop is told.
#[derive(Debug, Clone, Copy, PartialEq, Eq, Structural)]
pub enum AirdropEvent {
    /// The balance that was queried.
    Balance(u64),
    /// Whether the request was granted.
    Requested(bool),
}

/// Brings an account up to an amount, by an airdrop if need be.
#[derive(Debug, Clone, Copy, PartialEq, Eq, Structural)]
pub struct Airdrop {
    /// The balance that the account shall have.
    pub amount: u64,
    /// Where the airdrop stands.
    pub phase: AirdropPhase,
}

impl Airdrop {
    /// The airdrop after an event.
    ///
    /// An account with enough is left alone; else the difference is requested.
    /// A request that was granted counts as success, whatever the balance then
    /// is; one that was not may still have gone through, which the balance
    /// shows. An event that nothing was asked about changes nothing.
    pub open spec fn after(self, event: AirdropEvent) -> Airdrop {
        let phase = match (self.phase, event) {
            (AirdropPhase::CheckBalance, AirdropEvent::Balance(balance)) => {
                if balance >= self.amount {
                    AirdropPhase::Done
                } else {
                    AirdropPhase::Request((self.amount - balance) as u64)
                }
            },
            (AirdropPhase::Request(_), AirdropEvent::Requested(granted)) => AirdropPhase::Settle {
                granted,
            },
            (AirdropPhase::Settle { granted }, AirdropEvent::Balance(balance)) => {
                if granted || balance >= self.amount {
                    AirdropPhase::Done
                } else {
                    AirdropPhase::Failed(balance)
                }
            },
            _ => self.phase,
        };
        Airdrop { phase, ..self }
    }

    /// An airdrop that has not begun.
    pub fn new(amount: u64) -> (airdrop: Self)
        ensures
            airdrop.amount == amount,
            airdrop.phase == AirdropPhase::CheckBalance,
    {
        Airdrop { amount, phase: AirdropPhase::CheckBalance }
    }

    /// Take in an event; the new phase says what to do next.
    pub fn advance(&mut self, event: AirdropEvent)
        ensures
            *final(self) == old(self).after(event),
    {
        match (self.phase, event) {
            (AirdropPhase::CheckBalance, AirdropEvent::Balance(balance)) => {
                if balance >= self.amount {
                    self.phase = AirdropPhase::Done;
                } else {
                    self.phase = AirdropPhase::Request(self.amount - balance);
                }
            },
            (AirdropPhase::Request(_), AirdropEvent::Requested(granted)) => {
                self.phase = AirdropPhase::Settle { granted };
            },
            (AirdropPhase::Settle { granted }, AirdropEvent::Balance(balance)) => {
                if granted || balance >= self.amount {
                    self.phase = AirdropPhase::Done;
                } else {
                    self.phase = AirdropPhase::Failed(balance);
                }
            },
            _ => {},
        }
    }
}

/// An airdrop never asks for more than is missing: the balance and the request
/// together are the amount.
pub proof fn law_airdrop_requests_the_difference(airdrop: Airdrop, balance: u64)
    requires
        airdrop.phase == AirdropPhase::CheckBalance,
    ensures
        match airdrop.after(AirdropEvent::Balance(balance)).phase {
            AirdropPhase::Request(lamports) => lamports > 0 && balance + lamports
                == airdrop.amount,
            AirdropPhase::Done => balance >= airdrop.amount,
            _ => false,
        },
{
}

/// An airdrop that fails was refused and left the account short.
pub proof fn law_failed_airdrops_leave_too_little(airdrop: Airdrop, event: AirdropEvent)
    requires
        !(airdrop.phase is Failed),
        airdrop.after(event).phase is Failed,
    ensures
        airdrop.phase == (AirdropPhase::Settle { granted: false }),
        airdrop.after(event).phase->Failed_0 < airdrop.amount,
{
}

/// Why funding failed.
#[derive(Debug, Clone, Copy, PartialEq, Eq, Structural)]
pub enum FundingError {
    /// The funding account has too little, and there is no faucet.
    Insufficient {
        /// Lamports in the funding account.
        have: u64,
        /// Lamports needed.
        need: u64,
    },
    /// The funding account still has too little after an airdrop.
    StillInsufficient {
        /// Lamports in the funding account.
        have: u64,
        /// Lamports needed.
        need: u64,
    },
    /// Fewer than half of the accounts arrived at their balance.
    TooFewFunded {
        /// Accounts with their balance.
        funded: usize,
        /// Accounts in all.
        total: usize,
    },
}

/// Where the funding stands.
#[derive(Debug, Clone, Copy, PartialEq, Eq, Structural)]
pub enum FundingPhase {
    /// The balance of the funding account is to be queried.
    CheckBalance,
    /// The funding account is to be brought up to the total by an airdrop.
    Airdrop,
    /// The balance of the funding account is to be queried once more.
    RecheckBalance,
    /// The accounts from `start` up to `end` are to be paid by one transaction.
    SendBatch {
        /// First account of the batch.
        start: usize,
        /// First account after the batch.
        end: usize,
    },
    /// The transactions are sent and need a pause.
    Settle,
    /// The balance of this account is to be queried.
    Verify(usize),
    /// Enough accounts are funded.
    Done,
    /// The funding failed.
    Failed(FundingError),
}

/// What the funding is told.
#[derive(Debug, Clone, Copy, PartialEq, Eq, Structural)]
pub enum FundingEvent {
    /// The balance of the funding account.
    Balance(u64),
    /// The airdrop went through.
    AirdropDone,
    /// The batch was handed to the cluster, whether or not that worked.
    BatchSent,
    /// The pause is over.
    Settled,
    /// The balance of the account that was queried, or nothing if it could not
    /// be had.
    AccountBalance(Option<u64>),
}

/// Brings a number of accounts to a balance each, from one funding account.
#[derive(Debug, Clone, Copy, PartialEq, Eq, Structural)]
pub struct Funding {
    /// Lamports for each account.
    pub lamports_per_account: u64,
    /// Accounts to fund.
    pub num_accounts: usize,
    /// Whether an airdrop can be had.
    pub has_faucet: bool,
    /// Lamports for all accounts.
    pub total_needed: u64,
    /// Accounts found with their balance.
    pub funded: usize,
    /// Where the funding stands.
    pub phase: FundingPhase,
}

/// Funding that has not begun.
pub open spec fn new_funding(
    lamports_per_account: u64,
    num_accounts: usize,
    has_faucet: bool,
) -> Funding {
    Funding {
        lamports_per_account,
        num_accounts,
        has_faucet,
        total_needed: (lamports_per_account * num_accounts) as u64,
        funded: 0,
        phase: FundingPhase::CheckBalance,
    }
}

/// The end of the batch that starts at an account.
pub open spec fn batch_end(start: int, num_accounts: int) -> int {
    if start + FUNDING_BATCH_SIZE <= num_accounts {
        start + FUNDING_BATCH_SIZE
    } else {
        num_accounts
    }
}

impl Funding {
    /// The total is that of all accounts, and batches, accounts to verify and
    /// accounts found funded lie within the accounts.
    pub open spec fn valid(self) -> bool {
        &&& self.total_needed == self.lamports_per_account * self.num_accounts
        &&& match self.phase {
            FundingPhase::SendBatch { start, end } => {
                &&& start < self.num_accounts
                &&& end == batch_end(start as int, self.num_accounts as int)
                &&& self.funded == 0
            },
            FundingPhase::Verify(account) => self.funded <= account < self.num_accounts,
            FundingPhase::Done | FundingPhase::Failed(_) => self.funded <= self.num_accounts,
            _ => self.funded == 0,
        }
    }

    /// The phase that pays the accounts from `start` on.
    pub open spec fn paying_from(self, start: int) -> FundingPhase {
        if start < self.num_accounts {
            FundingPhase::SendBatch {
                start: start as usize,
                end: batch_end(start, self.num_accounts as int) as usize,
            }
        } else {
            FundingPhase::Settle
        }
    }

    /// The phase that verifies the accounts from `account` on, with `funded`
    /// found before. In the end at least half of the accounts must be funded.
    pub open spec fn verifying_from(self, account: int, funded: usize) -> FundingPhase {
        if account < self.num_accounts {
            FundingPhase::Verify(account as usize)
        } else if funded < self.num_accounts / 2 {
            FundingPhase::Failed(
                FundingError::TooFewFunded { funded, total: self.num_accounts },
            )
        } else {
            FundingPhase::Done
        }
    }

    /// Accounts found funded once the balance of one more is known.
    pub open spec fn funded_with(self, balance: Option<u64>) -> usize {
        match balance {
            Some(lamports) if lamports >= self.lamports_per_account => (self.funded + 1) as usize,
            _ => self.funded,
        }
    }

    /// The funding after an event. An event that nothing was asked about changes
    /// nothing.
    pub open spec fn after(self, event: FundingEvent) -> Funding {
        match (self.phase, event) {
            (FundingPhase::CheckBalance, FundingEvent::Balance(have)) => Funding {
                phase: if have >= self.total_needed {
                    FundingPhase::RecheckBalance
                } else if self.has_faucet {
                    FundingPhase::Airdrop
                } else {
                    FundingPhase::Failed(
                        FundingError::Insufficient { have, need: self.total_needed },
                    )
                },
                ..self
            },
            (FundingPhase::Airdrop, FundingEvent::AirdropDone) => Funding {
                phase: FundingPhase::RecheckBalance,
                ..self
            },
            (FundingPhase::RecheckBalance, FundingEvent::Balance(have)) => Funding {
                phase: if have >= self.total_needed {
                    self.paying_from(0)
                } else {
                    FundingPhase::Failed(
                        FundingError::StillInsufficient { have, need: self.total_needed },
                    )
                },
                ..self
            },
            (FundingPhase::SendBatch { start: _, end }, FundingEvent::BatchSent) => Funding {
                phase: self.paying_from(end as int),
                ..self
            },
            (FundingPhase::Settle, FundingEvent::Settled) => Funding {
                phase: self.verifying_from(0, self.funded),
                ..self
            },
            (FundingPhase::Verify(account), FundingEvent::AccountBalance(balance)) => Funding {
                funded: self.funded_with(balance),
                phase: self.verifying_from(account + 1, self.funded_with(balance)),
                ..self
            },
            _ => self,
        }
    }

    /// Funding that has not begun.
    pub fn new(lamports_per_account: u64, num_accounts: usize, has_faucet: bool) -> (funding: Self)
        requires
            lamports_per_account * num_accounts <= u64::MAX,
        ensures
            funding == new_funding(lamports_per_account, num_accounts, has_faucet),
            funding == (Funding {
                lamports_per_account,
                num_accounts,
                has_faucet,
                total_needed: (lamports_per_account * num_accounts) as u64,
                funded: 0,
                phase: FundingPhase::CheckBalance,
            }),
            funding.valid(),
    {
        Funding {
            lamports_per_account,
            num_accounts,
            has_faucet,
            total_needed: lamports_per_account * num_accounts as u64,
            funded: 0,
            phase: FundingPhase::CheckBalance,
        }
    }

    fn pay_from(&mut self, start: usize)
        requires
            start <= old(self).num_accounts,
        ensures
            *final(self) == (Funding {
                phase: old(self).paying_from(start as int),
                ..*old(self)
            }),
    {
        if start < self.num_accounts {
            let end: usize = if self.num_accounts - start >= FUNDING_BATCH_SIZE {
                start + FUNDING_BATCH_SIZE
            } else {
                self.num_accounts
            };
            self.phase = FundingPhase::SendBatch { start, end };
        } else {
            self.phase = FundingPhase::Settle;
        }
    }

    fn verify_from(&mut self, account: usize)
        ensures
            *final(self) == (Funding {
                phase: old(self).verifying_from(account as int, old(self).funded),
                ..*old(self)
            }),
    {
        if account < self.num_accounts {
            self.phase = FundingPhase::Verify(account);
        } else if self.funded < self.num_accounts / 2 {
            self.phase = FundingPhase::Failed(
                FundingError::TooFewFunded { funded: self.funded, total: self.num_accounts },
            );
        } else {
            self.phase = FundingPhase::Done;
        }
    }

    /// Take in an event; the new phase says what to do next.
    pub fn advance(&mut self, event: FundingEvent)
        requires
            old(self).valid(),
        ensures
            final(self).valid(),
            *final(self) == old(self).after(event),
    {
        match (self.phase, event) {
            (FundingPhase::CheckBalance, FundingEvent::Balance(have)) => {
                if have >= self.total_needed {
                    self.phase = FundingPhase::RecheckBalance;
                } else if self.has_faucet {
                    self.phase = FundingPhase::Airdrop;
                } else {
                    self.phase = FundingPhase::Failed(
                        FundingError::Insufficient { have, need: self.total_needed },
                    );
                }
            },
            (FundingPhase::Airdrop, FundingEvent::AirdropDone) => {
                self.phase = FundingPhase::RecheckBalance;
            },
            (FundingPhase::RecheckBalance, FundingEvent::Balance(have)) => {
                if have >= self.total_needed {
                    self.pay_from(0);
                } else {
                    self.phase = FundingPhase::Failed(
                        FundingError::StillInsufficient { have, need: self.total_needed },
                    );
                }
            },
            (FundingPhase::SendBatch { start: _, end }, FundingEvent::BatchSent) => {
                self.pay_from(end);
            },
            (FundingPhase::Settle, FundingEvent::Settled) => {
                self.verify_from(0);
            },
            (FundingPhase::Verify(account), FundingEvent::AccountBalance(balance)) => {
                if let Some(lamports) = balance {
                    if lamports >= self.lamports_per_account {
                        self.funded = self.funded + 1;
                    }
                }
                self.verify_from(account + 1);
            },
            _ => {},
        }
    }
}

/// The funding after a number of batches were sent.
pub open spec fn after_batches(funding: Funding, count: int) -> Funding
    decreases count,
{
    if count <= 0 {
        funding
    } else {
        after_batches(funding, count - 1).after(FundingEvent::BatchSent)
    }
}

/// The funding after the balances of a number of accounts were found.
pub open spec fn after_balances(funding: Funding, balances: Seq<Option<u64>>) -> Funding
    decreases balances.len(),
{
    if balances.len() == 0 {
        funding
    } else {
        after_balances(funding, balances.drop_last()).after(
            FundingEvent::AccountBalance(balances.last()),
        )
    }
}

/// How many balances were found and reach an amount.
pub open spec fn count_funded(balances: Seq<Option<u64>>, lamports: u64) -> int
    decreases balances.len(),
{
    if balances.len() == 0 {
        0
    } else {
        count_funded(balances.drop_last(), lamports) + match balances.last() {
            Some(balance) if balance >= lamports => 1int,
            _ => 0,
        }
    }
}

/// No account is paid unless the funding account was last seen with enough for
/// all of them.
pub proof fn law_payments_are_covered(funding: Funding, event: FundingEvent)
    requires
        funding.valid(),
        !(funding.phase is SendBatch),
        funding.after(event).phase is SendBatch,
    ensures
        funding.phase == FundingPhase::RecheckBalance,
        event matches FundingEvent::Balance(have) && have >= funding.lamports_per_account
            * funding.num_accounts,
        funding.after(event).phase->SendBatch_start == 0,
{
}

/// The batches follow one another without a gap: batch number `count` starts at
/// account `count * 20`, and once that many accounts are paid the funding waits
/// for the payments to settle.
pub proof fn law_batches_follow_one_another(funding: Funding, count: int)
    requires
        funding.valid(),
        funding.phase == funding.paying_from(0),
        0 <= count,
        (count - 1) * FUNDING_BATCH_SIZE < funding.num_accounts,
    ensures
        after_batches(funding, count) == (Funding {
            phase: funding.paying_from(count * FUNDING_BATCH_SIZE),
            ..funding
        }),
        count * FUNDING_BATCH_SIZE >= funding.num_accounts ==> after_batches(funding, count).phase
            == FundingPhase::Settle,
        count * FUNDING_BATCH_SIZE < funding.num_accounts ==> after_batches(funding, count).phase
            is SendBatch,
    decreases count,
{
    if count > 0 {
        law_batches_follow_one_another(funding, count - 1);
    }
}

/// How many batches it takes to pay a number of accounts.
pub open spec fn num_batches(num_accounts: int) -> int {
    (num_accounts + FUNDING_BATCH_SIZE - 1) / FUNDING_BATCH_SIZE as int
}

/// Whether a batch that is to be sent pays an account.
pub open spec fn pays(phase: FundingPhase, account: int) -> bool {
    phase matches FundingPhase::SendBatch { start, end } && start <= account < end
}

/// Every account is paid by exactly one batch, and after the last batch the
/// funding waits for the payments to settle.
pub proof fn law_batches_pay_every_account_once(funding: Funding, account: int, batch: int)
    requires
        funding.valid(),
        funding.phase == funding.paying_from(0),
        0 <= account < funding.num_accounts,
        0 <= batch < num_batches(funding.num_accounts as int),
    ensures
        pays(after_batches(funding, batch).phase, account) <==> batch == account
            / FUNDING_BATCH_SIZE as int,
        0 <= account / FUNDING_BATCH_SIZE as int,
        account / (FUNDING_BATCH_SIZE as int) < num_batches(funding.num_accounts as int),
        after_batches(funding, num_batches(funding.num_accounts as int)).phase
            == FundingPhase::Settle,
{
    law_batches_follow_one_another(funding, batch);
    law_batches_follow_one_another(funding, num_batches(funding.num_accounts as int));
}

/// What the verification finds: each account whose balance reaches its share
/// counts once.
proof fn lemma_verification(funding: Funding, balances: Seq<Option<u64>>)
    requires
        funding.valid(),
        funding.phase == FundingPhase::Settle,
        balances.len() <= funding.num_accounts,
    ensures
        0 <= count_funded(balances, funding.lamports_per_account) <= balances.len(),
        after_balances(funding.after(FundingEvent::Settled), balances) == (Funding {
            funded: count_funded(balances, funding.lamports_per_account) as usize,
            phase: funding.verifying_from(
                balances.len() as int,
                count_funded(balances, funding.lamports_per_account) as usize,
            ),
            ..funding
        }),
    decreases balances.len(),
{
    if balances.len() != 0 {
        lemma_verification(funding, balances.drop_last());
    }
}

/// The funding succeeds exactly if at least half of the accounts, rounded down,
/// are found with their balance; otherwise it fails with the number that are.
pub proof fn law_half_of_the_accounts_suffice(funding: Funding, balances: Seq<Option<u64>>)
    requires
        funding.valid(),
        funding.phase == FundingPhase::Settle,
        balances.len() == funding.num_accounts,
    ensures
        ({
            let funded = count_funded(balances, funding.lamports_per_account);
            after_balances(funding.after(FundingEvent::Settled), balances).phase == if funded
                >= funding.num_accounts / 2 {
                FundingPhase::Done
            } else {
                FundingPhase::Failed(
                    FundingError::TooFewFunded {
                        funded: funded as usize,
                        total: funding.num_accounts,
                    },
                )
            }
        }),
{
    lemma_verification(funding, balances);
}

/// The instructions that pay a list of accounts, one transfer each.
pub open spec fn funding_instructions(
    payer: Pubkey,
    accounts: Seq<Keypair>,
    lamports: u64,
) -> Seq<Instruction> {
    Seq::new(
        accounts.len(),
        |i: int| transfer_instruction(payer, pubkey_of(accounts[i]), lamports),
    )
}

/// Build and sign the transaction that pays the accounts from `start` up to
/// `end`.
pub fn funding_transaction(
    funding_keypair: &Keypair,
    keypairs: &Vec<Keypair>,
    start: usize,
    end: usize,
    lamports_per_account: u64,
    blockhash: &solana_sdk::hash::Hash,
) -> (tx: Transaction)
    requires
        start <= end <= keypairs@.len(),
        end - start <= FUNDING_BATCH_SIZE,
    ensures
        tx == signed_transaction(
            *funding_keypair,
            compiled_message(
                funding_instructions(
                    pubkey_of(*funding_keypair),
                    keypairs@.subrange(start as int, end as int),
                    lamports_per_account,
                ),
                pubkey_of(*funding_keypair),
            ),
            *blockhash,
        ),
{
    let payer = keypair_pubkey(funding_keypair);
    let mut instructions: Vec<Instruction> = Vec::new();
    let mut i: usize = start;
    while i < end
        invariant
            start <= i <= end <= keypairs@.len(),
            instructions@.len() == i - start,
            forall|k: int|
                0 <= k < i - start ==> #[trigger] instructions@[k] == transfer_instruction(
                    payer,
                    pubkey_of(keypairs@[start + k]),
                    lamports_per_account,
                ),
        decreases end - i,
    {
        let account = keypair_pubkey(&keypairs[i]);
        instructions.push(transfer(&payer, &account, lamports_per_account));
        i = i + 1;
    }
    assert(instructions@ =~= funding_instructions(
        payer,
        keypairs@.subrange(start as int, end as int),
        lamports_per_account,
    ));
    let message = new_message(&instructions, &payer);
    new_transaction(funding_keypair, message, blockhash)
}

/// A balance that covers all accounts is always paid out, starting with the first
/// accounts, twenty of them or as many as there are; the funding fails for too
/// little after an airdrop exactly if the balance falls short.
pub proof fn law_a_sufficient_balance_is_paid_out(funding: Funding, have: u64)
    requires
        funding.valid(),
        funding.phase is RecheckBalance,
    ensures
        ({
            let after = funding.after(FundingEvent::Balance(have));
            let need = funding.lamports_per_account * funding.num_accounts;
            &&& have >= need && funding.num_accounts > 0 <==> after.phase is SendBatch
            &&& have >= need && funding.num_accounts == 0 <==> after.phase is Settle
            &&& have < need <==> after.phase is Failed
            &&& after.phase is SendBatch ==> {
                &&& after.phase->start == 0
                &&& after.phase->end <= 20
                &&& after.phase->end <= funding.num_accounts
                &&& after.phase->end == 20 || after.phase->end == funding.num_accounts
            }
            &&& after.phase is Failed ==> after.phase->Failed_0 == (
            FundingError::StillInsufficient { have, need: need as u64 })
        }),
{
}

/// The first look at the balance leads on to the second exactly if it covers all
/// accounts. Otherwise an airdrop is due if there is a faucet, and the funding fails
/// for too little if there is none. An airdrop leads on to the second look, too.
pub proof fn law_a_short_balance_needs_a_faucet(funding: Funding, have: u64)
    requires
        funding.valid(),
    ensures
        ({
            let after = funding.after(FundingEvent::Balance(have));
            let need = funding.lamports_per_account * funding.num_accounts;
            funding.phase is CheckBalance ==> {
                &&& after.phase is RecheckBalance <==> have >= need
                &&& after.phase is Airdrop <==> have < need && funding.has_faucet
                &&& after.phase is Failed <==> have < need && !funding.has_faucet
                &&& after.phase is Failed ==> after.phase->Failed_0 == (
                FundingError::Insufficient { have, need: need as u64 })
            }
        }),
        funding.phase is Airdrop ==> funding.after(FundingEvent::AirdropDone).phase
            is RecheckBalance,
{
}

/// The batches of a covered funding: number `batch` pays the accounts from
/// `20 * batch` on, twenty of them or what is left, and after the last one the
/// payments settle.
pub proof fn law_batches_of_twenty_run_through_the_accounts(
    funding: Funding,
    have: u64,
    batch: int,
)
    requires
        funding.valid(),
        funding.phase is RecheckBalance,
        have >= funding.lamports_per_account * funding.num_accounts,
        0 <= batch,
        20 * (batch - 1) < funding.num_accounts,
    ensures
        ({
            let phase = after_batches(funding.after(FundingEvent::Balance(have)), batch).phase;
            let n = funding.num_accounts;
            &&& phase is SendBatch <==> 20 * batch < n
            &&& phase is Settle <==> 20 * batch >= n
            &&& phase is SendBatch ==> phase->start == 20 * batch && phase->end == if 20 * batch
                + 20 <= n {
                20 * batch + 20
            } else {
                n as int
            }
        }),
{
    law_batches_follow_one_another(funding.after(FundingEvent::Balance(have)), batch);
}

/// The verification asks for every account, in order, and counts those with their
/// balance; it ends after the last one.
pub proof fn law_every_account_is_verified(funding: Funding, balances: Seq<Option<u64>>)
    requires
        funding.valid(),
        funding.phase is Settle,
        balances.len() <= funding.num_accounts,
    ensures
        ({
            let after = after_balances(funding.after(FundingEvent::Settled), balances);
            &&& balances.len() < funding.num_accounts <==> after.phase is Verify
            &&& after.phase is Verify ==> after.phase->Verify_0 == balances.len()
            &&& after.funded == count_funded(balances, funding.lamports_per_account)
        }),
{
    lemma_verification(funding, balances);
}

/// One account more is found funded exactly if its balance is known and reaches its
/// share; the funding succeeds in the end exactly if that makes half of the accounts
/// or more, rounded down.
pub proof fn law_one_account_counts_once(funding: Funding, account: usize, balance: Option<u64>)
    requires
        funding.valid(),
        funding.phase == FundingPhase::Verify(account),
    ensures
        ({
            let after = funding.after(FundingEvent::AccountBalance(balance));
            let reached = balance is Some && balance->0 >= funding.lamports_per_account;
            let n = funding.num_accounts;
            &&& reached ==> after.funded == funding.funded + 1
            &&& !reached ==> after.funded == funding.funded
            &&& account + 1 < n ==> after.phase == FundingPhase::Verify((account + 1) as usize)
            &&& account + 1 == n && 2 * after.funded + 1 >= n ==> after.phase is Done
            &&& account + 1 == n && 2 * after.funded + 1 < n ==> after.phase
                == FundingPhase::Failed(FundingError::TooFewFunded { funded: after.funded, total: n })
        }),
{
}

/// Whether an event is what a funding in a phase waits for.
pub open spec fn funding_waits_for(phase: FundingPhase, event: FundingEvent) -> bool {
    match event {
        FundingEvent::Balance(_) => phase is CheckBalance || phase is RecheckBalance,
        FundingEvent::AirdropDone => phase is Airdrop,
        FundingEvent::BatchSent => phase is SendBatch,
        FundingEvent::Settled => phase is Settle,
        FundingEvent::AccountBalance(_) => phase is Verify,
    }
}

/// A funding moves on exactly when it is told what it waits for, and whatever it is
/// told, what is to be funded stays the same.
pub proof fn law_only_answers_move_the_funding(funding: Funding, event: FundingEvent)
    requires
        funding.valid(),
    ensures
        funding.after(event).phase != funding.phase <==> funding_waits_for(funding.phase, event),
        !funding_waits_for(funding.phase, event) ==> funding.after(event) == funding,
        funding.after(event).lamports_per_account == funding.lamports_per_account,
        funding.after(event).num_accounts == funding.num_accounts,
        funding.after(event).has_faucet == funding.has_faucet,
        funding.after(event).total_needed == funding.lamports_per_account * funding.num_accounts,
        !(event is AccountBalance) ==> funding.after(event).funded == funding.funded,
{
}

/// An airdrop from its start: with enough nothing is requested; otherwise what is
/// missing is, and it then succeeds exactly if it was granted or the account has
/// enough after all, and fails with the balance it was left with if not.
pub proof fn law_an_airdrop_from_start_to_end(amount: u64, have: u64, granted: bool, later: u64)
    ensures
        ({
            let fresh = Airdrop { amount, phase: AirdropPhase::CheckBalance };
            let checked = fresh.after(AirdropEvent::Balance(have));
            let requested = checked.after(AirdropEvent::Requested(granted));
            let settled = requested.after(AirdropEvent::Balance(later));
            &&& checked.phase is Done <==> have >= amount
            &&& checked.phase is Request <==> have < amount
            &&& have < amount ==> {
                &&& have + checked.phase->Request_0 == amount
                &&& requested.phase is Settle
                &&& settled.phase is Done <==> granted || later >= amount
                &&& settled.phase is Failed <==> !granted && later < amount
                &&& settled.phase is Failed ==> settled.phase->Failed_0 == later
            }
        }),
{
}

/// An airdrop keeps its amount, moves on exactly when it is told what it waits for,
/// and is through once it is done or has failed.
pub proof fn law_only_answers_move_an_airdrop(airdrop: Airdrop, event: AirdropEvent)
    ensures
        airdrop.after(event).amount == airdrop.amount,
        airdrop.after(event).phase != airdrop.phase <==> match event {
            AirdropEvent::Balance(_) => airdrop.phase is CheckBalance || airdrop.phase is Settle,
            AirdropEvent::Requested(_) => airdrop.phase is Request,
        },
        airdrop.phase is Request && event is Requested ==> airdrop.after(event).phase
            == (AirdropPhase::Settle { granted: event->Requested_0 }),
{
}

/// A funding transaction moves the same share from the payer to every account, one
/// transfer each and in order, and nothing else.
pub proof fn law_a_funding_transaction_pays_every_account(
    payer: Pubkey,
    accounts: Seq<Keypair>,
    lamports: u64,
)
    ensures
        funding_instructions(payer, accounts, lamports).len() == accounts.len(),
        forall|i: int|
            0 <= i < accounts.len() ==> #[trigger] funding_instructions(
                payer,
                accounts,
                lamports,
            )[i] == transfer_instruction(payer, pubkey_of(accounts[i]), lamports),
{
}

/// Funding from its start: with a faucet, or with enough at the first look, the first
/// batch is paid exactly if the second look finds enough for all accounts.
pub proof fn law_funding_from_its_start(
    lamports_per_account: u64,
    num_accounts: usize,
    has_faucet: bool,
    first: u64,
    second: u64,
)
    requires
        lamports_per_account * num_accounts <= u64::MAX,
        num_accounts > 0,
    ensures
        ({
            let need = lamports_per_account * num_accounts;
            let fresh = new_funding(lamports_per_account, num_accounts, has_faucet);
            let looked = fresh.after(FundingEvent::Balance(first));
            let ready = if looked.phase is Airdrop {
                looked.after(FundingEvent::AirdropDone)
            } else {
                looked
            };
            let after = ready.after(FundingEvent::Balance(second));
            &&& fresh.valid()
            &&& fresh.funded == 0
            &&& after.phase is SendBatch <==> (first >= need || has_faucet) && second >= need
            &&& !(after.phase is SendBatch) ==> after.phase is Failed
        }),
{
}

} // verus!
