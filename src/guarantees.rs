//! What holds of the escrow across inputs and across its transitions.
use vstd::prelude::*;
use vstd::bytes::spec_u64_from_le_bytes;

use crate::error::{EscrowError, ProcessError};
use crate::instruction::spec_unpack_instruction;
use crate::ledger::spec_token_amount;
use crate::processor::{
    exchange_outcome, init_outcome, process_outcome, reclaim_outcome, spec_custodian,
    spec_init_record, AccountState, ExchangePlan, InitPlan, LedgerCall, Transition,
};
use crate::state::{lemma_pack_unpack, spec_pack, spec_unpack, ESCROW_LEN};

verus! {

/// A buffer shorter than nine bytes, or one whose tag byte is neither 0 nor
/// 1, is no instruction; otherwise the tag picks the command and the next
/// eight bytes are its amount.
pub proof fn lemma_instruction_decoding(input: Seq<u8>)
    ensures
        input.len() < 9 || input[0] > 1 ==> spec_unpack_instruction(input) is None,
        input.len() >= 9 && input[0] <= 1 ==> spec_unpack_instruction(input) is Some,
        input.len() >= 9 && input[0] <= 1 ==> (match spec_unpack_instruction(input) {
            Some(crate::instruction::EscrowInstruction::InitEscrow { amount }) => input[0] == 0
                && amount == spec_u64_from_le_bytes(input.subrange(1, 9)),
            Some(crate::instruction::EscrowInstruction::Exchange { amount }) => input[0] == 1
                && amount == spec_u64_from_le_bytes(input.subrange(1, 9)),
            None => false,
        }),
{
}

/// Initialize refuses an initializer who did not sign, whatever the other
/// accounts, the amount, the program and the rent schedule's answer.
pub proof fn lemma_init_requires_signer(
    r: Result<InitPlan, ProcessError>,
    accounts: Seq<AccountState>,
    amount: u64,
    program_id: Seq<u8>,
    rent_exempt: Option<bool>,
)
    requires
        accounts.len() >= 1,
        !accounts[0].is_signer,
        init_outcome(r, accounts, amount, program_id, rent_exempt),
    ensures
        r == Err::<InitPlan, ProcessError>(ProcessError::MissingRequiredSignature),
{
}

/// Once Initialize has opened a record, Initialize called again with the
/// same accounts, the record now holding what the first call stored, is
/// refused with `AccountAlreadyInitialized`, whatever the new amount.
pub proof fn lemma_init_twice_refused(
    first: Result<InitPlan, ProcessError>,
    accounts: Seq<AccountState>,
    amount: u64,
    program_id: Seq<u8>,
    rent_exempt: Option<bool>,
    second: Result<InitPlan, ProcessError>,
    accounts_again: Seq<AccountState>,
    amount_again: u64,
)
    requires
        init_outcome(first, accounts, amount, program_id, rent_exempt),
        first is Ok,
        accounts_again.len() == accounts.len(),
        forall|i: int| 0 <= i < accounts.len() && i != 3 ==> accounts_again[i] == accounts[i],
        accounts_again[3].data@ == (first->Ok_0).record_data@,
        init_outcome(second, accounts_again, amount_again, program_id, rent_exempt),
    ensures
        second == Err::<InitPlan, ProcessError>(ProcessError::AccountAlreadyInitialized),
{
    let record = spec_init_record(accounts, amount);
    lemma_pack_unpack(record);
    assert(spec_pack(record)[0] == 1u8);
    assert(accounts_again[0] == accounts[0]);
    assert(accounts_again[2] == accounts[2]);
}

/// Exchange refuses, before any ledger call, a taker whose expected amount
/// differs from what the holding slot holds.
pub proof fn lemma_exchange_amount_mismatch(
    r: Result<ExchangePlan, ProcessError>,
    accounts: Seq<AccountState>,
    amount_expected_by_taker: u64,
    program_id: Seq<u8>,
    held: u64,
)
    requires
        accounts.len() >= 4,
        accounts[0].is_signer,
        spec_token_amount(accounts[3].data@) == Ok::<u64, ProcessError>(held),
        held != amount_expected_by_taker,
        exchange_outcome(r, accounts, amount_expected_by_taker, program_id),
    ensures
        r == Err::<ExchangePlan, ProcessError>(
            ProcessError::Custom(EscrowError::ExpectedAmountMismatch),
        ),
{
}

/// Exchange refuses, before any ledger call, a holding slot, initializer or
/// receive account other than the one the open record names.
pub proof fn lemma_exchange_substitution_refused(
    r: Result<ExchangePlan, ProcessError>,
    accounts: Seq<AccountState>,
    amount_expected_by_taker: u64,
    program_id: Seq<u8>,
)
    requires
        accounts.len() >= 7,
        accounts[0].is_signer,
        spec_token_amount(accounts[3].data@) == Ok::<u64, ProcessError>(amount_expected_by_taker),
        accounts[6].data@.len() == ESCROW_LEN,
        accounts[6].data@[0] != 0,
        spec_unpack(accounts[6].data@).holding != accounts[3].key@ || spec_unpack(
            accounts[6].data@,
        ).initializer != accounts[4].key@ || spec_unpack(accounts[6].data@).receive
            != accounts[5].key@,
        exchange_outcome(r, accounts, amount_expected_by_taker, program_id),
    ensures
        r == Err::<ExchangePlan, ProcessError>(ProcessError::InvalidAccountData),
{
}

/// After Initialize opened a record, an Exchange that presents the accounts
/// the record names and the holding slot's whole
/// balance as its expectation passes every check. What is left is the credit
/// of the record's deposit, which overflows only when the initializer's
/// balance and the deposit sum to more than 64 bits hold.
pub proof fn lemma_init_then_exchange(
    opened: Result<InitPlan, ProcessError>,
    init_accounts: Seq<AccountState>,
    amount: u64,
    program_id: Seq<u8>,
    rent_exempt: Option<bool>,
    exchanged: Result<ExchangePlan, ProcessError>,
    accounts: Seq<AccountState>,
    held: u64,
    reclaimed: Result<(u64, u64), ProcessError>,
    initializer_lamports: u64,
    escrow_lamports: u64,
)
    requires
        init_outcome(opened, init_accounts, amount, program_id, rent_exempt),
        opened is Ok,
        accounts.len() >= 9,
        accounts[0].is_signer,
        accounts[3].key == init_accounts[1].key,
        spec_token_amount(accounts[3].data@) == Ok::<u64, ProcessError>(held),
        accounts[4].key == init_accounts[0].key,
        accounts[5].key == init_accounts[2].key,
        accounts[6].data@ == (opened->Ok_0).record_data@,
        exchange_outcome(exchanged, accounts, held, program_id),
        reclaim_outcome(reclaimed, initializer_lamports, escrow_lamports),
    ensures
        exchanged is Ok,
        reclaimed == Err::<(u64, u64), ProcessError>(
            ProcessError::Custom(EscrowError::AmountOverflow),
        ) <==> initializer_lamports + escrow_lamports > u64::MAX,
{
    let record = spec_init_record(init_accounts, amount);
    lemma_pack_unpack(record);
    assert(spec_pack(record)[0] == 1u8);
}

/// The holding slot's authority only ever goes to the custodian: the one
/// authority change a transition asks for is Initialize's, to the address
/// derived from the program's identity, and Exchange asks for none.
pub proof fn lemma_custody_only_to_custodian(
    r: Result<Transition, ProcessError>,
    program_id: Seq<u8>,
    accounts: Seq<AccountState>,
    instruction_data: Seq<u8>,
    rent_exempt: Option<bool>,
)
    requires
        process_outcome(r, program_id, accounts, instruction_data, rent_exempt),
    ensures
        r matches Ok(Transition::Initialize(plan)) ==> (spec_custodian(program_id) is Some
            && plan.step.call == (LedgerCall::SetAuthority {
            account: accounts[1].key,
            new_authority: (spec_custodian(program_id)->Some_0).0,
            current_authority: accounts[0].key,
        })),
        r matches Ok(Transition::Exchange(plan)) ==> forall|i: int|
            0 <= i < plan.steps@.len() ==> !(plan.steps@[i].call is SetAuthority),
{
}

} // verus!
