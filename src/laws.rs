use vstd::prelude::*;

#[allow(unused_imports)]
use crate::account::{program_check, ShimError};
#[allow(unused_imports)]
use crate::instruction::{MINT_TO_TAG, TRANSFER_TAG};
#[allow(unused_imports)]
use crate::ledger::{lemma_decode_token_instruction, Ledger};
#[allow(unused_imports)]
use crate::shim::{MintToken, TransferToken, MINT_AMOUNT, TRANSFER_AMOUNT};

verus! {

/// A mint whose accounts pass the checks raises the destination's balance
/// and the mint's supply by exactly ten units and touches nothing else; the
/// token program's accounting accepts it exactly when both accounts are known
/// and neither count would pass `u64::MAX`.
pub proof fn lemma_mint_credits_ten(accounts: MintToken, before: Ledger)
    requires
        accounts.validation() is Ok,
    ensures
        ({
            let mint = accounts.mint.key@;
            let to = accounts.token_account.key@;
            &&& before.execute(accounts.instruction()) is Some <==> {
                &&& before.supply.contains_key(mint)
                &&& before.balance.contains_key(to)
                &&& before.supply[mint] + 10 <= u64::MAX
                &&& before.balance[to] + 10 <= u64::MAX
            }
            &&& before.execute(accounts.instruction()) matches Some(after) ==> {
                &&& after.balance == before.balance.insert(to, before.balance[to] + 10)
                &&& after.supply == before.supply.insert(mint, before.supply[mint] + 10)
            }
        }),
{
    lemma_decode_token_instruction(
        MINT_TO_TAG,
        accounts.mint.key@,
        accounts.token_account.key@,
        accounts.payer.key@,
        MINT_AMOUNT,
    );
}

/// A transfer between two distinct accounts whose accounts pass the checks
/// lowers the source's balance by exactly five units and raises the
/// destination's by five, so their sum is kept, and changes no supply; the
/// accounting accepts it exactly when both accounts are known, the source
/// holds at least five units and the destination's balance stays within
/// `u64::MAX`.
pub proof fn lemma_transfer_moves_five(accounts: TransferToken, before: Ledger)
    requires
        accounts.validation() is Ok,
        accounts.from.key@ != accounts.to.key@,
    ensures
        ({
            let from = accounts.from.key@;
            let to = accounts.to.key@;
            &&& before.execute(accounts.instruction()) is Some <==> {
                &&& before.balance.contains_key(from)
                &&& before.balance.contains_key(to)
                &&& before.balance[from] >= 5
                &&& before.balance[to] + 5 <= u64::MAX
            }
            &&& before.execute(accounts.instruction()) matches Some(after) ==> {
                &&& after.balance[from] == before.balance[from] - 5
                &&& after.balance[to] == before.balance[to] + 5
                &&& after.balance[from] + after.balance[to] == before.balance[from]
                    + before.balance[to]
                &&& forall|k: Seq<u8>|
                    k != from && k != to ==> #[trigger] after.balance.contains_key(k)
                        == before.balance.contains_key(k) && after.balance[k]
                        == before.balance[k]
                &&& after.supply == before.supply
            }
        }),
{
    lemma_decode_token_instruction(
        TRANSFER_TAG,
        accounts.from.key@,
        accounts.to.key@,
        accounts.signer.key@,
        TRANSFER_AMOUNT,
    );
}

/// A transfer whose authority did not sign is rejected, so no instruction
/// reaches the token program and no balance changes; once the program
/// account passes, the reason given is the missing signature.
pub proof fn lemma_unsigned_transfer_rejected(accounts: TransferToken)
    requires
        !accounts.signer.is_signer,
    ensures
        accounts.validation() is Err,
        program_check(accounts.token_program) is Ok ==> accounts.validation() == Err::<
            (),
            ShimError,
        >(ShimError::AccountNotSigner),
{
}

/// A mint with a read-only account where a writable one is required is
/// rejected before the token program is called.
pub proof fn lemma_read_only_mint_rejected(accounts: MintToken)
    requires
        !accounts.mint.is_writable || !accounts.token_account.is_writable
            || !accounts.payer.is_writable,
    ensures
        accounts.validation() is Err,
{
}

/// A transfer with a read-only account where a writable one is required is
/// rejected before the token program is called.
pub proof fn lemma_read_only_transfer_rejected(accounts: TransferToken)
    requires
        !accounts.from.is_writable || !accounts.to.is_writable || !accounts.signer.is_writable,
    ensures
        accounts.validation() is Err,
{
}

/// Running the same mint twice credits twenty units, not ten: each run adds
/// its own amount to the balance and to the supply.
pub proof fn lemma_mint_twice_accumulates(
    accounts: MintToken,
    first: Ledger,
    second: Ledger,
    third: Ledger,
)
    requires
        accounts.validation() is Ok,
        first.execute(accounts.instruction()) == Some(second),
        second.execute(accounts.instruction()) == Some(third),
    ensures
        third.balance[accounts.token_account.key@] == first.balance[accounts.token_account.key@]
            + 20,
        third.supply[accounts.mint.key@] == first.supply[accounts.mint.key@] + 20,
{
    lemma_mint_credits_ten(accounts, first);
    lemma_mint_credits_ten(accounts, second);
}

/// Running the same transfer twice between distinct accounts moves ten
/// units, not five.
pub proof fn lemma_transfer_twice_accumulates(
    accounts: TransferToken,
    first: Ledger,
    second: Ledger,
    third: Ledger,
)
    requires
        accounts.validation() is Ok,
        accounts.from.key@ != accounts.to.key@,
        first.execute(accounts.instruction()) == Some(second),
        second.execute(accounts.instruction()) == Some(third),
    ensures
        third.balance[accounts.from.key@] == first.balance[accounts.from.key@] - 10,
        third.balance[accounts.to.key@] == first.balance[accounts.to.key@] + 10,
{
    lemma_transfer_moves_five(accounts, first);
    lemma_transfer_moves_five(accounts, second);
}

/// Minting to an account and then transferring from it to another leaves the
/// first account five units richer and the second five units richer.
pub proof fn lemma_mint_then_transfer(
    mint: MintToken,
    transfer: TransferToken,
    start: Ledger,
    minted: Ledger,
    done: Ledger,
)
    requires
        mint.validation() is Ok,
        transfer.validation() is Ok,
        transfer.from.key@ == mint.token_account.key@,
        transfer.from.key@ != transfer.to.key@,
        start.execute(mint.instruction()) == Some(minted),
        minted.execute(transfer.instruction()) == Some(done),
    ensures
        done.balance[transfer.from.key@] == start.balance[transfer.from.key@] + 5,
        done.balance[transfer.to.key@] == start.balance[transfer.to.key@] + 5,
{
    lemma_mint_credits_ten(mint, start);
    lemma_transfer_moves_five(transfer, minted);
}

} // verus!
