//! The Solana SDK as the rest of the library sees it: opaque value types, one
//! name per SDK computation, and the thin functions that make the calls.
use solana_sdk::compute_budget::ComputeBudgetInstruction;
use solana_sdk::instruction::Instruction;
use solana_sdk::message::Message;
use solana_sdk::pubkey::Pubkey;
use solana_sdk::signature::{Keypair, Signer};
use solana_sdk::transaction::Transaction;
use vstd::prelude::*;

verus! {

/// An ed25519 key pair of the SDK, carried through unread.
#[verifier::external_type_specification]
#[verifier::external_body]
pub struct ExKeypair(solana_sdk::signature::Keypair);

/// An account address of the SDK, carried through unread.
#[verifier::external_type_specification]
#[verifier::external_body]
pub struct ExPubkey(solana_sdk::pubkey::Pubkey);

/// A blockhash of the SDK, carried through unread.
#[verifier::external_type_specification]
#[verifier::external_body]
pub struct ExHash(solana_sdk::hash::Hash);

/// An instruction of the SDK, carried through unread.
#[verifier::external_type_specification]
#[verifier::external_body]
pub struct ExInstruction(solana_sdk::instruction::Instruction);

/// A compiled message of the SDK, carried through unread.
#[verifier::external_type_specification]
#[verifier::external_body]
pub struct ExMessage(solana_sdk::message::Message);

/// A signed transaction of the SDK, carried through unread.
#[verifier::external_type_specification]
#[verifier::external_body]
pub struct ExTransaction(solana_sdk::transaction::Transaction);

/// The address that `Keypair::pubkey` gives for a key pair.
pub uninterp spec fn pubkey_of(keypair: Keypair) -> Pubkey;

/// The instruction that `system_instruction::transfer` builds.
pub uninterp spec fn transfer_instruction(from: Pubkey, to: Pubkey, lamports: u64) -> Instruction;

/// The instruction that
/// `ComputeBudgetInstruction::set_loaded_accounts_data_size_limit` builds.
pub uninterp spec fn data_size_limit_instruction(bytes: u32) -> Instruction;

/// The instruction that `ComputeBudgetInstruction::set_compute_unit_limit` builds.
pub uninterp spec fn unit_limit_instruction(units: u32) -> Instruction;

/// The instruction that `ComputeBudgetInstruction::set_compute_unit_price` builds.
pub uninterp spec fn unit_price_instruction(micro_lamports: u64) -> Instruction;

/// The message that `Message::new` compiles for a fee payer.
pub uninterp spec fn compiled_message(instructions: Seq<Instruction>, payer: Pubkey) -> Message;

/// The transaction that `Transaction::new` signs with one key pair.
pub uninterp spec fn signed_transaction(
    keypair: Keypair,
    message: Message,
    blockhash: solana_sdk::hash::Hash,
) -> Transaction;

/// Whether an instruction is one of those built here and asks for no signature
/// but the payer's.
pub open spec fn payer_instruction(instruction: Instruction, payer: Pubkey) -> bool {
    ||| exists|to: Pubkey, lamports: u64|
        instruction == #[trigger] transfer_instruction(payer, to, lamports)
    ||| exists|bytes: u32| instruction == #[trigger] data_size_limit_instruction(bytes)
    ||| exists|units: u32| instruction == #[trigger] unit_limit_instruction(units)
    ||| exists|price: u64| instruction == #[trigger] unit_price_instruction(price)
}

/// Whether a list of instructions compiles into a message that the payer alone
/// can sign: every instruction is the payer's, and all accounts can be indexed
/// by one byte.
pub open spec fn payer_instructions(instructions: Seq<Instruction>, payer: Pubkey) -> bool {
    &&& instructions.len() < 250
    &&& forall|i: int|
        0 <= i < instructions.len() ==> payer_instruction(#[trigger] instructions[i], payer)
}

/// Whether a message came out of the compilation of such a list for `payer`.
pub open spec fn signable_by(message: Message, payer: Pubkey) -> bool {
    exists|instructions: Seq<Instruction>|
        payer_instructions(instructions, payer) && message == #[trigger] compiled_message(
            instructions,
            payer,
        )
}

/// `Keypair::pubkey`: the address of a key pair, a function of the key pair.
#[verifier::external_body]
pub(crate) fn keypair_pubkey(keypair: &Keypair) -> (pubkey: Pubkey)
    ensures
        pubkey == pubkey_of(*keypair),
{
    keypair.pubkey()
}

/// `system_instruction::transfer`: the instruction that moves `lamports` from
/// one account to another, a function of the three arguments.
#[verifier::external_body]
pub(crate) fn transfer(from: &Pubkey, to: &Pubkey, lamports: u64) -> (instruction: Instruction)
    ensures
        instruction == transfer_instruction(*from, *to, lamports),
{
    solana_sdk::system_instruction::transfer(from, to, lamports)
}

/// `ComputeBudgetInstruction::set_loaded_accounts_data_size_limit`: the
/// instruction that caps the account data a transaction loads, a function of
/// the number of bytes.
#[verifier::external_body]
pub(crate) fn set_loaded_accounts_data_size_limit(bytes: u32) -> (instruction: Instruction)
    ensures
        instruction == data_size_limit_instruction(bytes),
{
    ComputeBudgetInstruction::set_loaded_accounts_data_size_limit(bytes)
}

/// `ComputeBudgetInstruction::set_compute_unit_limit`: the instruction that
/// caps the compute units of a transaction, a function of the cap.
#[verifier::external_body]
pub(crate) fn set_compute_unit_limit(units: u32) -> (instruction: Instruction)
    ensures
        instruction == unit_limit_instruction(units),
{
    ComputeBudgetInstruction::set_compute_unit_limit(units)
}

/// `ComputeBudgetInstruction::set_compute_unit_price`: the instruction that
/// sets a priority fee, a function of the price in micro-lamports.
#[verifier::external_body]
pub(crate) fn set_compute_unit_price(micro_lamports: u64) -> (instruction: Instruction)
    ensures
        instruction == unit_price_instruction(micro_lamports),
{
    ComputeBudgetInstruction::set_compute_unit_price(micro_lamports)
}

/// `Message::new` with a fee payer: the compiled message, a function of the
/// instructions in their order and of the payer.
///
/// The call fails on a message with too many signers or programs for its
/// header; the precondition admits only lists with one signer and two programs.
#[verifier::external_body]
pub(crate) fn new_message(instructions: &Vec<Instruction>, payer: &Pubkey) -> (message: Message)
    requires
        payer_instructions(instructions@, *payer),
    ensures
        message == compiled_message(instructions@, *payer),
{
    Message::new(instructions, Some(payer))
}

/// `Transaction::new` with one key pair: the signed transaction, a function of
/// the key pair, the message and the blockhash (ed25519 signatures take no
/// random input).
///
/// The call fails when the key pair is not the one signer that the message
/// asks for; the precondition leaves those messages out.
#[verifier::external_body]
pub(crate) fn new_transaction(
    keypair: &Keypair,
    message: Message,
    blockhash: &solana_sdk::hash::Hash,
) -> (tx: Transaction)
    requires
        signable_by(message, pubkey_of(*keypair)),
    ensures
        tx == signed_transaction(*keypair, message, *blockhash),
{
    Transaction::new(&[keypair], message, *blockhash)
}

} // verus!
