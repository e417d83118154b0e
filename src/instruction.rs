use vstd::prelude::*;

use anchor_lang::prelude::Pubkey;
use anchor_lang::solana_program::program_error::ProgramError;

#[allow(unused_imports)]
use crate::account::token_program_key;

verus! {

#[verifier::external_type_specification]
#[verifier::external_body]
pub struct ExProgramError(ProgramError);

/// The first byte of a token-program instruction that mints.
pub const MINT_TO_TAG: u8 = 7;

/// The first byte of a token-program instruction that transfers.
pub const TRANSFER_TAG: u8 = 3;

/// The first `n` bytes of `v` in little-endian order.
pub open spec fn le_bytes(v: nat, n: nat) -> Seq<u8>
    decreases n,
{
    if n == 0 {
        seq![]
    } else {
        seq![(v % 256) as u8].add(le_bytes(v / 256, (n - 1) as nat))
    }
}

/// The number that the bytes `b` spell in little-endian order.
pub open spec fn le_value(b: Seq<u8>) -> nat
    decreases b.len(),
{
    if b.len() == 0 {
        0
    } else {
        b[0] as nat + 256 * le_value(b.drop_first())
    }
}

/// One account of an instruction, with the access the instruction asks for.
#[derive(Clone, Copy, Debug, PartialEq, Eq)]
pub struct InstructionAccount {
    pub key: [u8; 32],
    pub is_signer: bool,
    pub is_writable: bool,
}

pub struct AccountModel {
    pub key: Seq<u8>,
    pub is_signer: bool,
    pub is_writable: bool,
}

impl View for InstructionAccount {
    type V = AccountModel;

    open spec fn view(&self) -> AccountModel {
        AccountModel { key: self.key@, is_signer: self.is_signer, is_writable: self.is_writable }
    }
}

/// An instruction addressed to a program: the accounts it touches and its data.
#[derive(Clone, Debug, PartialEq, Eq)]
pub struct Instruction {
    pub program_id: [u8; 32],
    pub accounts: Vec<InstructionAccount>,
    pub data: Vec<u8>,
}

pub struct InstructionModel {
    pub program_id: Seq<u8>,
    pub accounts: Seq<AccountModel>,
    pub data: Seq<u8>,
}

impl View for Instruction {
    type V = InstructionModel;

    open spec fn view(&self) -> InstructionModel {
        InstructionModel {
            program_id: self.program_id@,
            accounts: self.accounts@.map_values(|a: InstructionAccount| a@),
            data: self.data@,
        }
    }
}

/// The token-program instruction with the given tag, acting on `first` and
/// `second` (both written) under `authority` (a read-only signer), with the
/// amount in the eight bytes after the tag.
pub open spec fn token_instruction(
    tag: u8,
    first: Seq<u8>,
    second: Seq<u8>,
    authority: Seq<u8>,
    amount: u64,
) -> InstructionModel {
    InstructionModel {
        program_id: token_program_key(),
        accounts: seq![
            AccountModel { key: first, is_signer: false, is_writable: true },
            AccountModel { key: second, is_signer: false, is_writable: true },
            AccountModel { key: authority, is_signer: true, is_writable: false },
        ],
        data: seq![tag].add(le_bytes(amount as nat, 8)),
    }
}

/// Relies on `spl_token::instruction::mint_to` (through `anchor_spl::token`),
/// called with no multisignature signers: it refuses any program address but
/// the token program's, and otherwise lists mint, destination and authority
/// and packs the tag with the amount.
#[verifier::external_body]
pub(crate) fn build_mint_to(
    program_id: &[u8; 32],
    mint: &[u8; 32],
    to: &[u8; 32],
    authority: &[u8; 32],
    amount: u64,
) -> (r: Result<Instruction, ProgramError>)
    ensures
        r is Ok <==> program_id@ == token_program_key(),
        r matches Ok(ix) ==> ix@ == token_instruction(MINT_TO_TAG, mint@, to@, authority@, amount),
{
    let ix = anchor_spl::token::spl_token::instruction::mint_to(
        &Pubkey::new_from_array(*program_id),
        &Pubkey::new_from_array(*mint),
        &Pubkey::new_from_array(*to),
        &Pubkey::new_from_array(*authority),
        &[],
        amount,
    )?;
    let accounts = ix.accounts.iter().map(|m| InstructionAccount {
        key: m.pubkey.to_bytes(), is_signer: m.is_signer, is_writable: m.is_writable,
    }).collect();
    Ok(Instruction { program_id: ix.program_id.to_bytes(), accounts, data: ix.data })
}

/// Relies on `spl_token::instruction::transfer` (through `anchor_spl::token`),
/// called with no multisignature signers: it refuses any program address but
/// the token program's, and otherwise lists source, destination and authority
/// and packs the tag with the amount.
#[verifier::external_body]
pub(crate) fn build_transfer(
    program_id: &[u8; 32],
    from: &[u8; 32],
    to: &[u8; 32],
    authority: &[u8; 32],
    amount: u64,
) -> (r: Result<Instruction, ProgramError>)
    ensures
        r is Ok <==> program_id@ == token_program_key(),
        r matches Ok(ix) ==> ix@ == token_instruction(TRANSFER_TAG, from@, to@, authority@, amount),
{
    let ix = anchor_spl::token::spl_token::instruction::transfer(
        &Pubkey::new_from_array(*program_id),
        &Pubkey::new_from_array(*from),
        &Pubkey::new_from_array(*to),
        &Pubkey::new_from_array(*authority),
        &[],
        amount,
    )?;
    let accounts = ix.accounts.iter().map(|m| InstructionAccount {
        key: m.pubkey.to_bytes(), is_signer: m.is_signer, is_writable: m.is_writable,
    }).collect();
    Ok(Instruction { program_id: ix.program_id.to_bytes(), accounts, data: ix.data })
}

} // verus!
