use vstd::prelude::*;

use crate::account::{AccountView, ShimError};
#[allow(unused_imports)]
use crate::account::{program_check, signer_check, writable_check};
use crate::instruction::{build_mint_to, build_transfer, Instruction};
#[allow(unused_imports)]
use crate::instruction::{token_instruction, InstructionModel, MINT_TO_TAG, TRANSFER_TAG};

verus! {

/// The number of base units that one mint instruction creates.
pub const MINT_AMOUNT: u64 = 10;

/// The number of base units that one transfer instruction moves.
pub const TRANSFER_AMOUNT: u64 = 5;

/// The first failure of two checks made in turn.
pub open spec fn then_check(first: Result<(), ShimError>, next: Result<(), ShimError>) -> Result<
    (),
    ShimError,
> {
    if first is Err {
        first
    } else {
        next
    }
}

/// The accounts of a mint: the mint (written), the token program, the
/// destination token account (written) and the minting authority (a
/// writable signer).
#[derive(Clone, Copy, Debug, PartialEq, Eq)]
pub struct MintToken {
    pub mint: AccountView,
    pub token_program: AccountView,
    pub token_account: AccountView,
    pub payer: AccountView,
}

impl MintToken {
    /// The outcome of the account checks: the account types in field order
    /// (program, then signer), then the mutability of each marked account.
    pub open spec fn validation(self) -> Result<(), ShimError> {
        then_check(
            program_check(self.token_program),
            then_check(
                signer_check(self.payer),
                then_check(
                    writable_check(self.mint),
                    then_check(writable_check(self.token_account), writable_check(self.payer)),
                ),
            ),
        )
    }

    /// The instruction handed to the token program once the checks pass.
    pub open spec fn instruction(self) -> InstructionModel {
        token_instruction(
            MINT_TO_TAG,
            self.mint.key@,
            self.token_account.key@,
            self.payer.key@,
            MINT_AMOUNT,
        )
    }

    /// Runs the account checks.
    pub fn validate(&self) -> (r: Result<(), ShimError>)
        ensures
            r == self.validation(),
    {
        self.token_program.require_token_program()?;
        self.payer.require_signer()?;
        self.mint.require_writable()?;
        self.token_account.require_writable()?;
        self.payer.require_writable()
    }
}

/// The accounts of a transfer: the token program, the source and destination
/// token accounts (both written) and the authority (a writable signer).
#[derive(Clone, Copy, Debug, PartialEq, Eq)]
pub struct TransferToken {
    pub token_program: AccountView,
    pub from: AccountView,
    pub to: AccountView,
    pub signer: AccountView,
}

impl TransferToken {
    /// The outcome of the account checks: the account types in field order
    /// (program, then signer), then the mutability of each marked account.
    pub open spec fn validation(self) -> Result<(), ShimError> {
        then_check(
            program_check(self.token_program),
            then_check(
                signer_check(self.signer),
                then_check(
                    writable_check(self.from),
                    then_check(writable_check(self.to), writable_check(self.signer)),
                ),
            ),
        )
    }

    /// The instruction handed to the token program once the checks pass.
    pub open spec fn instruction(self) -> InstructionModel {
        token_instruction(
            TRANSFER_TAG,
            self.from.key@,
            self.to.key@,
            self.signer.key@,
            TRANSFER_AMOUNT,
        )
    }

    /// Runs the account checks.
    pub fn validate(&self) -> (r: Result<(), ShimError>)
        ensures
            r == self.validation(),
    {
        self.token_program.require_token_program()?;
        self.signer.require_signer()?;
        self.from.require_writable()?;
        self.to.require_writable()?;
        self.signer.require_writable()
    }
}

/// Checks the accounts of a mint and, if they pass, builds the token-program
/// instruction that mints `MINT_AMOUNT` units to the token account under the
/// payer's authority. A failed check is returned and nothing is built.
pub fn mint_token(accounts: &MintToken) -> (r: Result<Instruction, ShimError>)
    ensures
        r is Ok <==> accounts.validation() is Ok,
        r matches Err(e) ==> accounts.validation() == Err::<(), ShimError>(e),
        r matches Ok(ix) ==> ix@ == accounts.instruction(),
{
    accounts.validate()?;
    match build_mint_to(
        &accounts.token_program.key,
        &accounts.mint.key,
        &accounts.token_account.key,
        &accounts.payer.key,
        MINT_AMOUNT,
    ) {
        Ok(ix) => Ok(ix),
        Err(_) => Err(ShimError::IncorrectProgramId),
    }
}

/// Checks the accounts of a transfer and, if they pass, builds the
/// token-program instruction that moves `TRANSFER_AMOUNT` units from the
/// source to the destination under the signer's authority. A failed check is
/// returned and nothing is built.
pub fn transfer_token(accounts: &TransferToken) -> (r: Result<Instruction, ShimError>)
    ensures
        r is Ok <==> accounts.validation() is Ok,
        r matches Err(e) ==> accounts.validation() == Err::<(), ShimError>(e),
        r matches Ok(ix) ==> ix@ == accounts.instruction(),
{
    accounts.validate()?;
    match build_transfer(
        &accounts.token_program.key,
        &accounts.from.key,
        &accounts.to.key,
        &accounts.signer.key,
        TRANSFER_AMOUNT,
    ) {
        Ok(ix) => Ok(ix),
        Err(_) => Err(ShimError::IncorrectProgramId),
    }
}

} // verus!
