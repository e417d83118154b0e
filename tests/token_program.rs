use anchor_lang::prelude::{AccountInfo, ProgramError, Pubkey};
use anchor_lang::solana_program::program_option::COption;
use anchor_lang::solana_program::program_pack::Pack;
use anchor_spl::token::spl_token;
use anchor_spl::token::spl_token::processor::Processor;
use anchor_spl::token::spl_token::state::{Account, AccountState, Mint};
use token_contract::{mint_token, transfer_token, AccountView, Instruction, MintToken, TransferToken};

struct Slot {
    key: Pubkey,
    owner: Pubkey,
    lamports: u64,
    data: Vec<u8>,
}

const MINT: u8 = 1;
const ALICE: u8 = 2;
const BOB: u8 = 3;
const AUTHORITY: u8 = 4;

fn key(seed: u8) -> Pubkey {
    Pubkey::new_from_array([seed; 32])
}

fn mint_slot(supply: u64) -> Slot {
    let mut data = vec![0u8; Mint::LEN];
    let mint = Mint {
        mint_authority: COption::Some(key(AUTHORITY)),
        supply,
        decimals: 0,
        is_initialized: true,
        freeze_authority: COption::None,
    };
    Mint::pack(mint, &mut data).unwrap();
    Slot { key: key(MINT), owner: spl_token::id(), lamports: 1, data }
}

fn token_slot(seed: u8, amount: u64) -> Slot {
    let mut data = vec![0u8; Account::LEN];
    let account = Account {
        mint: key(MINT),
        owner: key(AUTHORITY),
        amount,
        delegate: COption::None,
        state: AccountState::Initialized,
        is_native: COption::None,
        delegated_amount: 0,
        close_authority: COption::None,
    };
    Account::pack(account, &mut data).unwrap();
    Slot { key: key(seed), owner: spl_token::id(), lamports: 1, data }
}

fn authority_slot() -> Slot {
    Slot { key: key(AUTHORITY), owner: Pubkey::default(), lamports: 1, data: vec![] }
}

fn world(alice: u64, bob: u64) -> Vec<Slot> {
    vec![mint_slot(alice + bob), token_slot(ALICE, alice), token_slot(BOB, bob), authority_slot()]
}

/// Hands the instruction to the token program's processor, with each account
/// given the access that the instruction asks for.
fn run(ix: &Instruction, slots: &mut [Slot]) -> Result<(), ProgramError> {
    let program_id = Pubkey::new_from_array(ix.program_id);
    let infos: Vec<AccountInfo> = slots
        .iter_mut()
        .map(|slot| {
            let Slot { key, owner, lamports, data } = slot;
            let meta = ix.accounts.iter().find(|m| m.key == key.to_bytes());
            let is_signer = meta.map_or(false, |m| m.is_signer);
            let is_writable = meta.map_or(false, |m| m.is_writable);
            AccountInfo::new(key, is_signer, is_writable, lamports, data, owner, false, 0)
        })
        .collect();
    let ordered: Vec<AccountInfo> = ix
        .accounts
        .iter()
        .map(|m| infos.iter().find(|i| i.key.to_bytes() == m.key).unwrap().clone())
        .collect();
    Processor::process(&program_id, &ordered, &ix.data)
}

fn balance(slots: &[Slot], seed: u8) -> u64 {
    let slot = slots.iter().find(|s| s.key == key(seed)).unwrap();
    Account::unpack(&slot.data).unwrap().amount
}

fn supply(slots: &[Slot]) -> u64 {
    Mint::unpack(&slots[0].data).unwrap().supply
}

fn view(seed: u8, is_signer: bool, is_writable: bool) -> AccountView {
    AccountView { key: [seed; 32], is_signer, is_writable, executable: false }
}

fn program_view() -> AccountView {
    AccountView { key: spl_token::id().to_bytes(), is_signer: false, is_writable: false, executable: true }
}

fn mint_to(seed: u8) -> Instruction {
    let accounts = MintToken {
        mint: view(MINT, false, true),
        token_program: program_view(),
        token_account: view(seed, false, true),
        payer: view(AUTHORITY, true, true),
    };
    mint_token(&accounts).unwrap()
}

fn transfer(from: u8, to: u8) -> Instruction {
    let accounts = TransferToken {
        token_program: program_view(),
        from: view(from, false, true),
        to: view(to, false, true),
        signer: view(AUTHORITY, true, true),
    };
    transfer_token(&accounts).unwrap()
}

#[test]
fn mint_credits_ten_units_and_raises_supply() {
    let mut slots = world(0, 0);
    run(&mint_to(ALICE), &mut slots).unwrap();
    assert_eq!(balance(&slots, ALICE), 10);
    assert_eq!(supply(&slots), 10);
    assert_eq!(balance(&slots, BOB), 0);
}

#[test]
fn transfer_moves_five_units_and_keeps_the_sum() {
    let mut slots = world(20, 3);
    run(&transfer(ALICE, BOB), &mut slots).unwrap();
    assert_eq!(balance(&slots, ALICE), 15);
    assert_eq!(balance(&slots, BOB), 8);
    assert_eq!(balance(&slots, ALICE) + balance(&slots, BOB), 23);
    assert_eq!(supply(&slots), 23);
}

#[test]
fn repeated_mint_accumulates() {
    let mut slots = world(0, 0);
    let ix = mint_to(BOB);
    run(&ix, &mut slots).unwrap();
    run(&ix, &mut slots).unwrap();
    assert_eq!(balance(&slots, BOB), 20);
    assert_eq!(supply(&slots), 20);
}

#[test]
fn repeated_transfer_accumulates() {
    let mut slots = world(12, 0);
    let ix = transfer(ALICE, BOB);
    run(&ix, &mut slots).unwrap();
    run(&ix, &mut slots).unwrap();
    assert_eq!(balance(&slots, ALICE), 2);
    assert_eq!(balance(&slots, BOB), 10);
}

#[test]
fn mint_then_transfer_leaves_five_on_each_side() {
    let mut slots = world(0, 0);
    run(&mint_to(ALICE), &mut slots).unwrap();
    run(&transfer(ALICE, BOB), &mut slots).unwrap();
    assert_eq!(balance(&slots, ALICE), 5);
    assert_eq!(balance(&slots, BOB), 5);
}

#[test]
fn transfer_short_of_funds_fails_and_changes_nothing() {
    let mut slots = world(4, 0);
    assert!(run(&transfer(ALICE, BOB), &mut slots).is_err());
    assert_eq!(balance(&slots, ALICE), 4);
    assert_eq!(balance(&slots, BOB), 0);
}

#[test]
fn self_transfer_changes_nothing() {
    let mut slots = world(7, 0);
    run(&transfer(ALICE, ALICE), &mut slots).unwrap();
    assert_eq!(balance(&slots, ALICE), 7);
}
