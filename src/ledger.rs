use vstd::prelude::*;

#[allow(unused_imports)]
use crate::account::token_program_key;
#[allow(unused_imports)]
use crate::instruction::{
    le_bytes, le_value, token_instruction, InstructionModel, MINT_TO_TAG, TRANSFER_TAG,
};

verus! {

/// `256` raised to the power `n`.
pub open spec fn pow256(n: nat) -> nat
    decreases n,
{
    if n == 0 {
        1
    } else {
        256 * pow256((n - 1) as nat)
    }
}

/// The balance change that a token-program instruction asks for.
pub enum TokenOp {
    MintTo { mint: Seq<u8>, to: Seq<u8>, amount: nat },
    Transfer { from: Seq<u8>, to: Seq<u8>, amount: nat },
}

/// What a token-program instruction asks for, read from its address, its
/// first two accounts and its tag and eight amount bytes; `None` for any
/// other instruction.
pub open spec fn decode(ix: InstructionModel) -> Option<TokenOp> {
    if ix.program_id != token_program_key() || ix.accounts.len() < 3 || ix.data.len() != 9 {
        None
    } else {
        let amount = le_value(ix.data.drop_first());
        if ix.data[0] == MINT_TO_TAG {
            Some(TokenOp::MintTo { mint: ix.accounts[0].key, to: ix.accounts[1].key, amount })
        } else if ix.data[0] == TRANSFER_TAG {
            Some(TokenOp::Transfer { from: ix.accounts[0].key, to: ix.accounts[1].key, amount })
        } else {
            None
        }
    }
}

/// The supply of each mint and the balance of each token account, keyed by
/// address, as the token program keeps them.
pub struct Ledger {
    pub supply: Map<Seq<u8>, nat>,
    pub balance: Map<Seq<u8>, nat>,
}

impl Ledger {
    /// The accounting of the token program: a mint raises the mint's supply
    /// and the destination's balance by the amount; a transfer lowers the
    /// source's balance and raises the destination's, and one from an account
    /// to itself changes nothing. It refuses (`None`) an unknown account, a
    /// balance short of the amount and a count beyond `u64::MAX`. The program's
    /// other grounds of refusal (authority, frozen accounts, mismatched mints)
    /// are not modelled: where it accepts, the effect is this.
    pub open spec fn apply(self, op: TokenOp) -> Option<Ledger> {
        match op {
            TokenOp::MintTo { mint, to, amount } => {
                if !self.supply.contains_key(mint) || !self.balance.contains_key(to)
                    || self.supply[mint] + amount > u64::MAX || self.balance[to] + amount
                    > u64::MAX {
                    None
                } else {
                    Some(
                        Ledger {
                            supply: self.supply.insert(mint, self.supply[mint] + amount),
                            balance: self.balance.insert(to, self.balance[to] + amount),
                        },
                    )
                }
            },
            TokenOp::Transfer { from, to, amount } => {
                if !self.balance.contains_key(from) || !self.balance.contains_key(to)
                    || self.balance[from] < amount {
                    None
                } else if from == to {
                    Some(self)
                } else if self.balance[to] + amount > u64::MAX {
                    None
                } else {
                    Some(
                        Ledger {
                            supply: self.supply,
                            balance: self.balance.insert(
                                from,
                                (self.balance[from] - amount) as nat,
                            ).insert(to, self.balance[to] + amount),
                        },
                    )
                }
            },
        }
    }

    /// The ledger after the token program runs the instruction, or `None`
    /// where it refuses it.
    pub open spec fn execute(self, ix: InstructionModel) -> Option<Ledger> {
        match decode(ix) {
            Some(op) => self.apply(op),
            None => None,
        }
    }
}

/// `n` little-endian bytes are `n` bytes long.
pub proof fn lemma_le_bytes_len(v: nat, n: nat)
    ensures
        le_bytes(v, n).len() == n,
    decreases n,
{
    if n > 0 {
        lemma_le_bytes_len(v / 256, (n - 1) as nat);
    }
}

/// Reading back `n` little-endian bytes of a number below `256^n` gives the
/// number.
pub proof fn lemma_le_round_trip(v: nat, n: nat)
    requires
        v < pow256(n),
    ensures
        le_value(le_bytes(v, n)) == v,
    decreases n,
{
    if n > 0 {
        let rest = le_bytes(v / 256, (n - 1) as nat);
        assert(v / 256 < pow256((n - 1) as nat)) by (nonlinear_arith)
            requires
                v < 256 * pow256((n - 1) as nat),
        ;
        lemma_le_round_trip(v / 256, (n - 1) as nat);
        assert(le_bytes(v, n).drop_first() =~= rest);
    }
}

/// The instruction built for a token-program tag decodes to that operation,
/// with the same accounts and amount.
pub proof fn lemma_decode_token_instruction(
    tag: u8,
    first: Seq<u8>,
    second: Seq<u8>,
    authority: Seq<u8>,
    amount: u64,
)
    ensures
        tag == MINT_TO_TAG ==> decode(token_instruction(tag, first, second, authority, amount))
            == Some(TokenOp::MintTo { mint: first, to: second, amount: amount as nat }),
        tag == TRANSFER_TAG ==> decode(token_instruction(tag, first, second, authority, amount))
            == Some(TokenOp::Transfer { from: first, to: second, amount: amount as nat }),
{
    let ix = token_instruction(tag, first, second, authority, amount);
    lemma_le_bytes_len(amount as nat, 8);
    assert(pow256(8) == 0x1_0000_0000_0000_0000nat) by {
        reveal_with_fuel(pow256, 9);
    }
    lemma_le_round_trip(amount as nat, 8);
    assert(ix.data.drop_first() =~= le_bytes(amount as nat, 8));
}

} // verus!
