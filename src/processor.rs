//! The escrow's two transitions. Each one validates the accounts it is handed
//! and answers with the ledger calls to make and the record to store, or with
//! the first check that failed.
use vstd::prelude::*;

use crate::error::{EscrowError, ProcessError};
use crate::instruction::{spec_unpack_instruction, EscrowInstruction};
use crate::ledger::{
    find_program_address, program_address_of, spec_token_amount, token_account_amount,
    token_program_id, token_program_key,
};
use crate::state::{spec_pack, spec_unpack, Escrow, EscrowView, ESCROW_LEN};

verus! {

/// What a transition reads of one account handed to it.
#[derive(Debug)]
pub struct AccountState {
    pub key: [u8; 32],
    pub is_signer: bool,
    /// The program that owns the account.
    pub owner: [u8; 32],
    pub lamports: u64,
    pub data: Vec<u8>,
}

/// A request to the token ledger.
#[derive(Debug, Clone, Copy, PartialEq, Eq)]
pub enum LedgerCall {
    /// Hands the ownership of `account` from `current_authority` to `new_authority`.
    SetAuthority { account: [u8; 32], new_authority: [u8; 32], current_authority: [u8; 32] },
    /// Moves `amount` units from `source` to `destination`, on `authority`'s word.
    Transfer { source: [u8; 32], destination: [u8; 32], authority: [u8; 32], amount: u64 },
    /// Closes the empty `account`, its deposit going to `destination`.
    CloseAccount { account: [u8; 32], destination: [u8; 32], authority: [u8; 32] },
}

/// One ledger call with the ledger program that serves it and how it is
/// authorized. `token_program` is the account handed in for the ledger
/// program; the ledger's crate builds no call for any other identity.
#[derive(Debug, Clone, Copy, PartialEq, Eq)]
pub struct LedgerStep {
    pub token_program: [u8; 32],
    pub call: LedgerCall,
    /// `Some(bump)` when the custodian authorizes the call by proof of
    /// derivation; `None` when the authority's own signature does.
    pub custodian_bump: Option<u8>,
}

/// The effects of a successful Initialize.
#[derive(Debug)]
pub struct InitPlan {
    /// The bytes to store in the escrow record's account.
    pub record_data: Vec<u8>,
    /// The change of the holding slot's authority to the custodian.
    pub step: LedgerStep,
}

/// The effects of a successful Exchange, in the order they must be made.
/// After them the record's deposit goes to the initializer, see
/// `Processor::reclaim_escrow_deposit`.
#[derive(Debug)]
pub struct ExchangePlan {
    pub steps: Vec<LedgerStep>,
}

/// The effects of a successful transition.
#[derive(Debug)]
pub enum Transition {
    Initialize(InitPlan),
    Exchange(ExchangePlan),
}

/// The fixed label of the custodian's derivation: the bytes of `escrow`.
pub open spec fn custodian_seed() -> Seq<u8> {
    seq![101u8, 115, 99, 114, 111, 119]
}

/// The custodian's address and bump for a program, when one exists.
pub open spec fn spec_custodian(program_id: Seq<u8>) -> Option<([u8; 32], u8)> {
    program_address_of(custodian_seed(), program_id)
}

// Initialize reads: 0 initializer (signer), 1 holding slot, 2 initializer's
// receive account, 3 escrow record, 4 rent schedule, 5 token program.
/// The first check of Initialize that fails, if any. `rent_exempt` is the
/// rent schedule's answer for the record account, `None` when account 4
/// could not be read as the rent schedule.
pub open spec fn spec_init_failure(
    accounts: Seq<AccountState>,
    program_id: Seq<u8>,
    rent_exempt: Option<bool>,
) -> Option<ProcessError> {
    if accounts.len() < 1 {
        Some(ProcessError::NotEnoughAccountKeys)
    } else if !accounts[0].is_signer {
        Some(ProcessError::MissingRequiredSignature)
    } else if accounts.len() < 3 {
        Some(ProcessError::NotEnoughAccountKeys)
    } else if accounts[2].owner@ != token_program_key() {
        Some(ProcessError::IncorrectProgramId)
    } else if accounts.len() < 5 {
        Some(ProcessError::NotEnoughAccountKeys)
    } else if rent_exempt is None {
        Some(ProcessError::InvalidArgument)
    } else if rent_exempt == Some(false) {
        Some(ProcessError::Custom(EscrowError::NotRentExempt))
    } else if accounts[3].data@.len() != ESCROW_LEN {
        Some(ProcessError::InvalidAccountData)
    } else if accounts[3].data@[0] != 0 {
        Some(ProcessError::AccountAlreadyInitialized)
    } else if spec_custodian(program_id) is None {
        Some(ProcessError::InvalidSeeds)
    } else if accounts.len() < 6 {
        Some(ProcessError::NotEnoughAccountKeys)
    } else {
        None
    }
}

/// The record that Initialize opens.
pub open spec fn spec_init_record(accounts: Seq<AccountState>, amount: u64) -> EscrowView {
    EscrowView {
        is_initialized: true,
        initializer: accounts[0].key@,
        holding: accounts[1].key@,
        receive: accounts[2].key@,
        expected_amount: amount,
    }
}

/// The ledger call of Initialize: the initializer hands the holding slot to the custodian.
pub open spec fn spec_init_step(accounts: Seq<AccountState>, program_id: Seq<u8>) -> LedgerStep {
    LedgerStep {
        token_program: accounts[5].key,
        call: LedgerCall::SetAuthority {
            account: accounts[1].key,
            new_authority: (spec_custodian(program_id)->Some_0).0,
            current_authority: accounts[0].key,
        },
        custodian_bump: None,
    }
}

pub open spec fn init_plan_is(
    plan: InitPlan,
    accounts: Seq<AccountState>,
    amount: u64,
    program_id: Seq<u8>,
) -> bool {
    &&& plan.record_data@ == spec_pack(spec_init_record(accounts, amount))
    &&& plan.step == spec_init_step(accounts, program_id)
}

// Exchange reads: 0 taker (signer), 1 taker's sending account, 2 taker's
// receiving account, 3 holding slot, 4 initializer's main account,
// 5 initializer's receive account, 6 escrow record, 7 token program,
// 8 custodian.
/// The first check of Exchange that fails, if any.
pub open spec fn spec_exchange_failure(
    accounts: Seq<AccountState>,
    amount_expected_by_taker: u64,
    program_id: Seq<u8>,
) -> Option<ProcessError> {
    if accounts.len() < 1 {
        Some(ProcessError::NotEnoughAccountKeys)
    } else if !accounts[0].is_signer {
        Some(ProcessError::MissingRequiredSignature)
    } else if accounts.len() < 4 {
        Some(ProcessError::NotEnoughAccountKeys)
    } else if spec_token_amount(accounts[3].data@) is Err {
        Some(spec_token_amount(accounts[3].data@)->Err_0)
    } else if amount_expected_by_taker != spec_token_amount(accounts[3].data@)->Ok_0 {
        Some(ProcessError::Custom(EscrowError::ExpectedAmountMismatch))
    } else if accounts.len() < 7 {
        Some(ProcessError::NotEnoughAccountKeys)
    } else if accounts[6].data@.len() != ESCROW_LEN {
        Some(ProcessError::InvalidAccountData)
    } else if accounts[6].data@[0] == 0 {
        Some(ProcessError::UninitializedAccount)
    } else if spec_unpack(accounts[6].data@).holding != accounts[3].key@ {
        Some(ProcessError::InvalidAccountData)
    } else if spec_unpack(accounts[6].data@).initializer != accounts[4].key@ {
        Some(ProcessError::InvalidAccountData)
    } else if spec_unpack(accounts[6].data@).receive != accounts[5].key@ {
        Some(ProcessError::InvalidAccountData)
    } else if accounts.len() < 9 {
        Some(ProcessError::NotEnoughAccountKeys)
    } else if spec_custodian(program_id) is None {
        Some(ProcessError::InvalidSeeds)
    } else {
        None
    }
}

/// The ledger calls of Exchange: the taker pays the initializer what the
/// record asks, the custodian releases the whole holding slot to the taker,
/// then closes it in favour of the initializer.
pub open spec fn spec_exchange_steps(accounts: Seq<AccountState>, program_id: Seq<u8>) -> Seq<
    LedgerStep,
> {
    let record = spec_unpack(accounts[6].data@);
    let held = spec_token_amount(accounts[3].data@)->Ok_0;
    let custodian = spec_custodian(program_id)->Some_0;
    let token_program = accounts[7].key;
    seq![
        LedgerStep {
            token_program,
            call: LedgerCall::Transfer {
                source: accounts[1].key,
                destination: accounts[5].key,
                authority: accounts[0].key,
                amount: record.expected_amount,
            },
            custodian_bump: None,
        },
        LedgerStep {
            token_program,
            call: LedgerCall::Transfer {
                source: accounts[3].key,
                destination: accounts[2].key,
                authority: custodian.0,
                amount: held,
            },
            custodian_bump: Some(custodian.1),
        },
        LedgerStep {
            token_program,
            call: LedgerCall::CloseAccount {
                account: accounts[3].key,
                destination: accounts[4].key,
                authority: custodian.0,
            },
            custodian_bump: Some(custodian.1),
        },
    ]
}

pub open spec fn init_outcome(
    r: Result<InitPlan, ProcessError>,
    accounts: Seq<AccountState>,
    amount: u64,
    program_id: Seq<u8>,
    rent_exempt: Option<bool>,
) -> bool {
    match spec_init_failure(accounts, program_id, rent_exempt) {
        Some(e) => r == Err::<InitPlan, ProcessError>(e),
        None => r matches Ok(plan) && init_plan_is(plan, accounts, amount, program_id),
    }
}

pub open spec fn exchange_outcome(
    r: Result<ExchangePlan, ProcessError>,
    accounts: Seq<AccountState>,
    amount_expected_by_taker: u64,
    program_id: Seq<u8>,
) -> bool {
    match spec_exchange_failure(accounts, amount_expected_by_taker, program_id) {
        Some(e) => r == Err::<ExchangePlan, ProcessError>(e),
        None => r matches Ok(plan) && plan.steps@ == spec_exchange_steps(accounts, program_id),
    }
}

/// What `Processor::process` answers: the decoding failure, or what the
/// decoded transition answers.
pub open spec fn process_outcome(
    r: Result<Transition, ProcessError>,
    program_id: Seq<u8>,
    accounts: Seq<AccountState>,
    instruction_data: Seq<u8>,
    rent_exempt: Option<bool>,
) -> bool {
    match spec_unpack_instruction(instruction_data) {
        None => r == Err::<Transition, ProcessError>(
            ProcessError::Custom(EscrowError::InvalidInstruction),
        ),
        Some(EscrowInstruction::InitEscrow { amount }) => match spec_init_failure(
            accounts,
            program_id,
            rent_exempt,
        ) {
            Some(e) => r == Err::<Transition, ProcessError>(e),
            None => r matches Ok(Transition::Initialize(plan)) && init_plan_is(
                plan,
                accounts,
                amount,
                program_id,
            ),
        },
        Some(EscrowInstruction::Exchange { amount }) => match spec_exchange_failure(
            accounts,
            amount,
            program_id,
        ) {
            Some(e) => r == Err::<Transition, ProcessError>(e),
            None => r matches Ok(Transition::Exchange(plan)) && plan.steps@ == spec_exchange_steps(
                accounts,
                program_id,
            ),
        },
    }
}

/// What `Processor::reclaim_escrow_deposit` answers: the two new balances,
/// or `AmountOverflow` when their sum does not fit in 64 bits.
pub open spec fn reclaim_outcome(
    r: Result<(u64, u64), ProcessError>,
    initializer_lamports: u64,
    escrow_lamports: u64,
) -> bool {
    if initializer_lamports + escrow_lamports <= u64::MAX {
        r == Ok::<(u64, u64), ProcessError>(
            ((initializer_lamports + escrow_lamports) as u64, 0u64),
        )
    } else {
        r == Err::<(u64, u64), ProcessError>(ProcessError::Custom(EscrowError::AmountOverflow))
    }
}

/// Whether two identities are the same.
pub fn same_key(a: &[u8; 32], b: &[u8; 32]) -> (r: bool)
    ensures
        r == (a@ == b@),
{
    let mut i: usize = 0;
    while i < 32
        invariant
            i <= 32,
            forall|j: int| 0 <= j < i ==> a@[j] == b@[j],
        decreases 32 - i,
    {
        if a[i] != b[i] {
            return false;
        }
        i = i + 1;
    }
    assert(a@ =~= b@);
    true
}

pub struct Processor;

impl Processor {
    /// The label the custodian is derived from, also the seed that signs
    /// for it together with its bump.
    pub fn custodian_label() -> (r: Vec<u8>)
        ensures
            r@ == custodian_seed(),
    {
        let seed: Vec<u8> = vec![101u8, 115, 99, 114, 111, 119];
        assert(seed@ =~= custodian_seed());
        seed
    }

    /// Derives the custodian's address and bump from the program's identity.
    pub fn find_custodian(program_id: &[u8; 32]) -> (r: Option<([u8; 32], u8)>)
        ensures
            r == spec_custodian(program_id@),
    {
        let seed = Self::custodian_label();
        find_program_address(seed.as_slice(), program_id)
    }

    /// Validates an Initialize and answers with the record to store and the
    /// ledger call to make. `rent_exempt` is the rent schedule's answer for
    /// the record account, `None` when account 4 cannot be read as the rent
    /// schedule.
    pub fn process_init_escrow(
        accounts: &[AccountState],
        amount: u64,
        program_id: &[u8; 32],
        rent_exempt: Option<bool>,
    ) -> (r: Result<InitPlan, ProcessError>)
        ensures
            init_outcome(r, accounts@, amount, program_id@, rent_exempt),
    {
        if accounts.len() < 1 {
            return Err(ProcessError::NotEnoughAccountKeys);
        }
        let initializer = &accounts[0];
        if !initializer.is_signer {
            return Err(ProcessError::MissingRequiredSignature);
        }
        if accounts.len() < 3 {
            return Err(ProcessError::NotEnoughAccountKeys);
        }
        let temp_token_account = &accounts[1];
        let token_to_receive_account = &accounts[2];
        if !same_key(&token_to_receive_account.owner, &token_program_id()) {
            return Err(ProcessError::IncorrectProgramId);
        }
        if accounts.len() < 5 {
            return Err(ProcessError::NotEnoughAccountKeys);
        }
        let escrow_account = &accounts[3];
        match rent_exempt {
            None => {
                return Err(ProcessError::InvalidArgument);
            },
            Some(false) => {
                return Err(ProcessError::Custom(EscrowError::NotRentExempt));
            },
            Some(true) => {},
        }
        let mut escrow_info = Escrow::unpack_unchecked(escrow_account.data.as_slice())?;
        if escrow_info.is_initialized() {
            return Err(ProcessError::AccountAlreadyInitialized);
        }
        escrow_info.is_initialized = true;
        escrow_info.initializer_pubkey = initializer.key;
        escrow_info.temp_token_account_pubkey = temp_token_account.key;
        escrow_info.initializer_token_to_receive_account_pubkey = token_to_receive_account.key;
        escrow_info.expected_amount = amount;
        let record_data = escrow_info.to_bytes();
        let custodian = match Self::find_custodian(program_id) {
            Some(c) => c,
            None => {
                return Err(ProcessError::InvalidSeeds);
            },
        };
        if accounts.len() < 6 {
            return Err(ProcessError::NotEnoughAccountKeys);
        }
        let token_program = &accounts[5];
        let step = LedgerStep {
            token_program: token_program.key,
            call: LedgerCall::SetAuthority {
                account: temp_token_account.key,
                new_authority: custodian.0,
                current_authority: initializer.key,
            },
            custodian_bump: None,
        };
        proof {
            assert(escrow_info@ == spec_init_record(accounts@, amount));
        }
        Ok(InitPlan { record_data, step })
    }

    /// Validates an Exchange and answers with the ledger calls to make, in order.
    pub fn process_exchange(
        accounts: &[AccountState],
        amount_expected_by_taker: u64,
        program_id: &[u8; 32],
    ) -> (r: Result<ExchangePlan, ProcessError>)
        ensures
            exchange_outcome(r, accounts@, amount_expected_by_taker, program_id@),
    {
        if accounts.len() < 1 {
            return Err(ProcessError::NotEnoughAccountKeys);
        }
        let taker = &accounts[0];
        if !taker.is_signer {
            return Err(ProcessError::MissingRequiredSignature);
        }
        if accounts.len() < 4 {
            return Err(ProcessError::NotEnoughAccountKeys);
        }
        let takers_sending_token_account = &accounts[1];
        let takers_token_to_receive_account = &accounts[2];
        let pdas_temp_token_account = &accounts[3];
        let held = token_account_amount(pdas_temp_token_account.data.as_slice())?;
        if amount_expected_by_taker != held {
            return Err(ProcessError::Custom(EscrowError::ExpectedAmountMismatch));
        }
        if accounts.len() < 7 {
            return Err(ProcessError::NotEnoughAccountKeys);
        }
        let initializers_main_account = &accounts[4];
        let initializers_token_to_receive_account = &accounts[5];
        let escrow_account = &accounts[6];
        let escrow_info = Escrow::unpack(escrow_account.data.as_slice())?;
        if !same_key(&escrow_info.temp_token_account_pubkey, &pdas_temp_token_account.key) {
            return Err(ProcessError::InvalidAccountData);
        }
        if !same_key(&escrow_info.initializer_pubkey, &initializers_main_account.key) {
            return Err(ProcessError::InvalidAccountData);
        }
        if !same_key(
            &escrow_info.initializer_token_to_receive_account_pubkey,
            &initializers_token_to_receive_account.key,
        ) {
            return Err(ProcessError::InvalidAccountData);
        }
        if accounts.len() < 9 {
            return Err(ProcessError::NotEnoughAccountKeys);
        }
        let token_program = &accounts[7];
        let (pda, bump_seed) = match Self::find_custodian(program_id) {
            Some(c) => c,
            None => {
                return Err(ProcessError::InvalidSeeds);
            },
        };
        let mut steps: Vec<LedgerStep> = Vec::new();
        steps.push(
            LedgerStep {
                token_program: token_program.key,
                call: LedgerCall::Transfer {
                    source: takers_sending_token_account.key,
                    destination: initializers_token_to_receive_account.key,
                    authority: taker.key,
                    amount: escrow_info.expected_amount,
                },
                custodian_bump: None,
            },
        );
        steps.push(
            LedgerStep {
                token_program: token_program.key,
                call: LedgerCall::Transfer {
                    source: pdas_temp_token_account.key,
                    destination: takers_token_to_receive_account.key,
                    authority: pda,
                    amount: held,
                },
                custodian_bump: Some(bump_seed),
            },
        );
        steps.push(
            LedgerStep {
                token_program: token_program.key,
                call: LedgerCall::CloseAccount {
                    account: pdas_temp_token_account.key,
                    destination: initializers_main_account.key,
                    authority: pda,
                },
                custodian_bump: Some(bump_seed),
            },
        );
        assert(steps@ =~= spec_exchange_steps(accounts@, program_id@));
        Ok(ExchangePlan { steps })
    }

    /// The last effect of Exchange, once its ledger calls are made: the
    /// record's whole deposit is added to the initializer's main balance,
    /// refusing to overflow, and the record's balance becomes zero. Answers
    /// with the new balances of the two accounts.
    pub fn reclaim_escrow_deposit(initializer_lamports: u64, escrow_lamports: u64) -> (r: Result<
        (u64, u64),
        ProcessError,
    >)
        ensures
            reclaim_outcome(r, initializer_lamports, escrow_lamports),
    {
        match initializer_lamports.checked_add(escrow_lamports) {
            Some(total) => Ok((total, 0)),
            None => Err(ProcessError::Custom(EscrowError::AmountOverflow)),
        }
    }

    /// Decodes an instruction and runs the transition it names; `rent_exempt`
    /// is read by Initialize only.
    pub fn process(
        program_id: &[u8; 32],
        accounts: &[AccountState],
        instruction_data: &[u8],
        rent_exempt: Option<bool>,
    ) -> (r: Result<Transition, ProcessError>)
        ensures
            process_outcome(r, program_id@, accounts@, instruction_data@, rent_exempt),
    {
        let instruction = EscrowInstruction::unpack(instruction_data)?;
        match instruction {
            EscrowInstruction::InitEscrow { amount } => {
                let plan = Self::process_init_escrow(accounts, amount, program_id, rent_exempt)?;
                Ok(Transition::Initialize(plan))
            },
            EscrowInstruction::Exchange { amount } => {
                let plan = Self::process_exchange(accounts, amount, program_id)?;
                Ok(Transition::Exchange(plan))
            },
        }
    }
}

} // verus!
