use std::collections::HashMap;
use std::str::FromStr;

use solana_escrow::processor::{AccountState, LedgerCall, LedgerStep, Processor};
use solana_escrow::state::{Escrow, ESCROW_LEN};
use solana_program::program_pack::Pack;
use solana_program::pubkey::Pubkey;
use solana_program::rent::Rent;

type Key = [u8; 32];

/// A token account of the simulated ledger.
struct Slot {
    authority: Key,
    amount: u64,
    lamports: u64,
}

/// Applies one planned ledger call, checking its authorization the way the
/// ledger would.
fn apply(step: &LedgerStep, slots: &mut HashMap<Key, Slot>, lamports: &mut HashMap<Key, u64>, custodian: (Key, u8)) {
    assert_eq!(step.token_program, spl_token::id().to_bytes());
    let authorized = |authority: Key| match step.custodian_bump {
        Some(bump) => authority == custodian.0 && bump == custodian.1,
        None => authority != custodian.0,
    };
    match step.call {
        LedgerCall::SetAuthority { account, new_authority, current_authority } => {
            assert!(authorized(current_authority));
            let slot = slots.get_mut(&account).unwrap();
            assert_eq!(slot.authority, current_authority);
            slot.authority = new_authority;
        }
        LedgerCall::Transfer { source, destination, authority, amount } => {
            assert!(authorized(authority));
            let from = slots.get_mut(&source).unwrap();
            assert_eq!(from.authority, authority);
            from.amount = from.amount.checked_sub(amount).unwrap();
            let to = slots.get_mut(&destination).unwrap();
            to.amount = to.amount.checked_add(amount).unwrap();
        }
        LedgerCall::CloseAccount { account, destination, authority } => {
            assert!(authorized(authority));
            let closed = slots.remove(&account).unwrap();
            assert_eq!(closed.authority, authority);
            assert_eq!(closed.amount, 0);
            *lamports.get_mut(&destination).unwrap() += closed.lamports;
        }
    }
}

fn token_data(authority: Key, amount: u64) -> Vec<u8> {
    let state = spl_token::state::Account {
        mint: Pubkey::new_unique(),
        owner: Pubkey::new_from_array(authority),
        amount,
        state: spl_token::state::AccountState::Initialized,
        ..spl_token::state::Account::default()
    };
    let mut data = vec![0; spl_token::state::Account::LEN];
    spl_token::state::Account::pack(state, &mut data).unwrap();
    data
}

fn state(key: Key, is_signer: bool, owner: Key, lamports: u64, data: Vec<u8>) -> AccountState {
    AccountState { key, is_signer, owner, lamports, data }
}

#[test]
fn initialize_then_exchange_swaps_both_assets() {
    let program_id = Pubkey::from_str("escrow1111111111111111111111111111111111111").unwrap().to_bytes();
    let custodian = Processor::find_custodian(&program_id).unwrap();
    let token = spl_token::id().to_bytes();
    let key = || Pubkey::new_unique().to_bytes();
    let (initializer, holding, receive, record) = (key(), key(), key(), key());
    let (taker, taker_send, taker_receive) = (key(), key(), key());
    let deposit = Rent::default().minimum_balance(ESCROW_LEN);
    let slot_rent = Rent::default().minimum_balance(spl_token::state::Account::LEN);
    let initializer_start = 5_000_000u64;

    let mut slots: HashMap<Key, Slot> = HashMap::new();
    slots.insert(holding, Slot { authority: initializer, amount: 123, lamports: slot_rent });
    slots.insert(receive, Slot { authority: initializer, amount: 0, lamports: slot_rent });
    slots.insert(taker_send, Slot { authority: taker, amount: 123, lamports: slot_rent });
    slots.insert(taker_receive, Slot { authority: taker, amount: 0, lamports: slot_rent });
    let mut lamports: HashMap<Key, u64> = HashMap::new();
    lamports.insert(initializer, initializer_start);
    lamports.insert(record, deposit);
    let mut record_data = vec![0u8; ESCROW_LEN];

    let init_accounts = vec![
        state(initializer, true, key(), initializer_start, vec![]),
        state(holding, false, token, slot_rent, token_data(initializer, 123)),
        state(receive, false, token, slot_rent, token_data(initializer, 0)),
        state(record, false, program_id, deposit, record_data.clone()),
        state(solana_program::sysvar::rent::id().to_bytes(), false, key(), 1, vec![]),
        state(token, false, key(), 1, vec![]),
    ];
    let rent = Some(Rent::default().is_exempt(deposit, ESCROW_LEN));
    let plan = Processor::process_init_escrow(&init_accounts, 123, &program_id, rent).unwrap();
    apply(&plan.step, &mut slots, &mut lamports, custodian);
    record_data = plan.record_data;
    assert_eq!(slots[&holding].authority, custodian.0);
    assert!(Escrow::unpack(&record_data).unwrap().is_initialized);

    let exchange_accounts = vec![
        state(taker, true, key(), 0, vec![]),
        state(taker_send, false, token, slot_rent, token_data(taker, 123)),
        state(taker_receive, false, token, slot_rent, token_data(taker, 0)),
        state(holding, false, token, slot_rent, token_data(slots[&holding].authority, slots[&holding].amount)),
        state(initializer, false, key(), lamports[&initializer], vec![]),
        state(receive, false, token, slot_rent, token_data(initializer, 0)),
        state(record, false, program_id, lamports[&record], record_data.clone()),
        state(token, false, key(), 1, vec![]),
        state(custodian.0, false, key(), 0, vec![]),
    ];
    let plan = Processor::process_exchange(&exchange_accounts, 123, &program_id).unwrap();
    for step in &plan.steps {
        apply(step, &mut slots, &mut lamports, custodian);
    }
    let before = lamports[&initializer];
    let (initializer_after, record_after) =
        Processor::reclaim_escrow_deposit(before, lamports[&record]).unwrap();

    assert_eq!(slots[&taker_receive].amount, 123);
    assert_eq!(slots[&receive].amount, 123);
    assert_eq!(slots[&taker_send].amount, 0);
    assert!(!slots.contains_key(&holding));
    assert_eq!(record_after, 0);
    assert_eq!(initializer_after, before + deposit);
    assert_eq!(initializer_after, initializer_start + slot_rent + deposit);
}
