use vstd::prelude::*;

verus! {

/// The 32 bytes of the SPL token program's address
/// (`TokenkegQfeZyiNwAJbNbGKPFXCWuBvf9Ss623VQ5DA`).
pub open spec fn token_program_key() -> Seq<u8> {
    seq![
        6u8, 221u8, 246u8, 225u8, 215u8, 101u8, 161u8, 147u8,
        217u8, 203u8, 225u8, 70u8, 206u8, 235u8, 121u8, 172u8,
        28u8, 180u8, 133u8, 237u8, 95u8, 91u8, 55u8, 145u8,
        58u8, 140u8, 245u8, 133u8, 126u8, 255u8, 0u8, 169u8,
    ]
}

/// Relies on `anchor_spl::token::Token`'s `Id::id()`, the address that an
/// account typed `Program<Token>` must carry.
#[verifier::external_body]
fn is_token_program_id(key: &[u8; 32]) -> (r: bool)
    ensures
        r == (key@ == token_program_key()),
{
    <anchor_spl::token::Token as anchor_lang::Id>::id()
        == anchor_lang::prelude::Pubkey::new_from_array(*key)
}

/// What an instruction can read of one account handed to it.
#[derive(Clone, Copy, Debug, PartialEq, Eq)]
pub struct AccountView {
    pub key: [u8; 32],
    pub is_signer: bool,
    pub is_writable: bool,
    pub executable: bool,
}

/// Why an account set is rejected, or the instruction could not be built.
#[derive(Clone, Copy, Debug, PartialEq, Eq, Structural)]
pub enum ShimError {
    /// An account that must be writable is not.
    ConstraintMut,
    /// An account that must sign did not.
    AccountNotSigner,
    /// The program account is not the token program.
    InvalidProgramId,
    /// The program account is not executable.
    InvalidProgramExecutable,
    /// The instruction builder refused the program address.
    IncorrectProgramId,
}

/// The check that a `Program<Token>` account undergoes.
pub open spec fn program_check(a: AccountView) -> Result<(), ShimError> {
    if a.key@ != token_program_key() {
        Err(ShimError::InvalidProgramId)
    } else if !a.executable {
        Err(ShimError::InvalidProgramExecutable)
    } else {
        Ok(())
    }
}

/// The check that a signing account undergoes.
pub open spec fn signer_check(a: AccountView) -> Result<(), ShimError> {
    if a.is_signer {
        Ok(())
    } else {
        Err(ShimError::AccountNotSigner)
    }
}

/// The check that an account marked mutable undergoes.
pub open spec fn writable_check(a: AccountView) -> Result<(), ShimError> {
    if a.is_writable {
        Ok(())
    } else {
        Err(ShimError::ConstraintMut)
    }
}

impl AccountView {
    /// Accepts the account as the token program: its address must be the
    /// token program's and it must be executable.
    pub fn require_token_program(&self) -> (r: Result<(), ShimError>)
        ensures
            r == program_check(*self),
    {
        if !is_token_program_id(&self.key) {
            Err(ShimError::InvalidProgramId)
        } else if !self.executable {
            Err(ShimError::InvalidProgramExecutable)
        } else {
            Ok(())
        }
    }

    /// Accepts the account only if it signed the transaction.
    pub fn require_signer(&self) -> (r: Result<(), ShimError>)
        ensures
            r == signer_check(*self),
    {
        if self.is_signer {
            Ok(())
        } else {
            Err(ShimError::AccountNotSigner)
        }
    }

    /// Accepts the account only if it is writable in the transaction.
    pub fn require_writable(&self) -> (r: Result<(), ShimError>)
        ensures
            r == writable_check(*self),
    {
        if self.is_writable {
            Ok(())
        } else {
            Err(ShimError::ConstraintMut)
        }
    }
}

} // verus!
