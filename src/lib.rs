//! A token shim: two instructions that check the accounts they are handed
//! and then ask the SPL token program to mint ten units to an account, or to
//! move five units between two accounts.
use vstd::prelude::*;

pub mod account;
pub mod instruction;
pub mod laws;
pub mod ledger;
pub mod shim;

pub use account::{AccountView, ShimError};
pub use instruction::{Instruction, InstructionAccount, MINT_TO_TAG, TRANSFER_TAG};
pub use shim::{mint_token, transfer_token, MintToken, TransferToken, MINT_AMOUNT, TRANSFER_AMOUNT};

verus! {

} // verus!
