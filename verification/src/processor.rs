//! The program's rules: what each instruction checks, changes and reports.
//!
//! Reading the rent schedule and creating an account are the host's work. An
//! initialization therefore runs in three steps, each a function of what the
//! host has answered so far: the first checks the invocation and asks for
//! the balance that the new account needs; the second takes that balance
//! and says which account the host must create; the third takes the host's
//! answer to that and stores the record.

use vstd::prelude::*;
use crate::account::{views, AccountInfo, AccountView, Pubkey};
use crate::error::ProgramError;
use crate::instruction::CounterInstruction;
use crate::state::{lemma_record_encoding_unique, lemma_record_round_trip, CounterAccount,
    RECORD_LEN};
use crate::wire::le_value;

verus! {

/// The size of the account that an initialization asks for, in bytes.
pub const RECORD_SPACE: u64 = 8;

/// The account that the host is asked to create.
#[derive(Clone, Copy, Debug, PartialEq, Eq)]
pub struct CreateAccount {
    /// The account that pays.
    pub from: Pubkey,
    /// The address of the new account.
    pub to: Pubkey,
    /// The balance that the new account receives from the payer.
    pub lamports: u64,
    /// The size of the new account's storage, in bytes.
    pub space: u64,
    /// The program that will own the new account.
    pub owner: Pubkey,
}

/// How far an invocation has come.
#[derive(Clone, Copy, Debug, PartialEq, Eq)]
pub enum Progress {
    /// The instruction is carried out; nothing is left to do.
    Finished,
    /// The host must say which balance exempts an account of `space` bytes
    /// from rent for good, and hand its answer, with `initial_value`, to
    /// `fund_initialize_counter`.
    AwaitingRent { space: u64, initial_value: u64 },
    /// The host must carry out `request` and hand its answer, with
    /// `initial_value`, to `finish_initialize_counter`.
    AwaitingAccount { request: CreateAccount, initial_value: u64 },
}

/// The result of a step that hands nothing back: the failure it met, or
/// success.
pub open spec fn settled(failure: Option<ProgramError>) -> Result<(), ProgramError> {
    match failure {
        Some(error) => Err(error),
        None => Ok(()),
    }
}

/// The result of a step that hands back how far it came: the failure it
/// met, or `progress`.
pub open spec fn advanced(failure: Option<ProgramError>, progress: Progress) -> Result<
    Progress,
    ProgramError,
> {
    match failure {
        Some(error) => Err(error),
        None => Ok(progress),
    }
}

/// The failure that an initialization meets on `accounts` before it asks the
/// host for anything, if any: the new account, the payer and the system
/// program must all be named.
pub open spec fn initialize_error(accounts: Seq<AccountView>) -> Option<ProgramError> {
    if accounts.len() < 3 {
        Some(ProgramError::NotEnoughAccountKeys)
    } else {
        None
    }
}

/// The failure that the second step of an initialization meets, if any. A
/// rent schedule that cannot be read decides before the accounts are looked
/// at.
pub open spec fn funding_error(accounts: Seq<AccountView>, minimum_balance: Result<u64, u64>)
    -> Option<ProgramError> {
    match minimum_balance {
        Err(code) => Some(ProgramError::Nested(code)),
        Ok(_) => initialize_error(accounts),
    }
}

/// The request that an initialization makes: the second account pays
/// `lamports` for the first, which gets room for one record and the program
/// as its owner.
pub open spec fn initialize_request(program_id: Pubkey, accounts: Seq<AccountInfo>, lamports: u64)
    -> CreateAccount {
    CreateAccount {
        from: accounts[1].key,
        to: accounts[0].key,
        lamports,
        space: 8,
        owner: program_id,
    }
}

/// The failure that the third step of an initialization meets, if any. A
/// failed creation decides before the accounts are looked at.
pub open spec fn finish_error(accounts: Seq<AccountView>, created: Result<(), u64>) -> Option<
    ProgramError,
> {
    match created {
        Err(code) => Some(ProgramError::Nested(code)),
        Ok(_) => if accounts.len() == 0 {
            Some(ProgramError::NotEnoughAccountKeys)
        } else if accounts[0].data.len() < 8 {
            Some(ProgramError::BorshIoError)
        } else {
            None
        },
    }
}

/// The count that the first account stores.
pub open spec fn stored_count(accounts: Seq<AccountView>) -> nat {
    le_value(accounts[0].data)
}

/// The failure that an increment meets on `accounts`, if it meets one. The
/// checks run in this order, and the first that fails decides.
pub open spec fn increment_error(program_id: Seq<u8>, accounts: Seq<AccountView>) -> Option<
    ProgramError,
> {
    if accounts.len() == 0 {
        Some(ProgramError::NotEnoughAccountKeys)
    } else if accounts[0].owner != program_id {
        Some(ProgramError::IncorrectProgramId)
    } else if accounts[0].data.len() != 8 {
        Some(ProgramError::InvalidAccountData)
    } else if stored_count(accounts) == u64::MAX {
        Some(ProgramError::InvalidAccountData)
    } else {
        None
    }
}

/// `accounts` with `record` written over the first eight bytes of the first
/// account, and nothing else changed.
pub open spec fn with_record(accounts: Seq<AccountView>, record: CounterAccount) -> Seq<
    AccountView,
> {
    accounts.update(
        0,
        AccountView { data: record.encoding() + accounts[0].data.skip(8), ..accounts[0] },
    )
}

/// `accounts` after one increment that met no failure: the stored count is
/// one higher.
pub open spec fn incremented(accounts: Seq<AccountView>) -> Seq<AccountView> {
    with_record(accounts, CounterAccount { count: (stored_count(accounts) + 1) as u64 })
}

/// Decodes `instruction_data` and carries the instruction out as far as the
/// program can by itself: an increment to its end, an initialization up to
/// its first question to the host. A buffer that encodes no instruction is
/// refused before any account is looked at, and so is every buffer whose
/// first byte is neither tag.
pub fn process_instruction(
    program_id: &Pubkey,
    accounts: &mut Vec<AccountInfo>,
    instruction_data: &[u8],
) -> (out: Result<Progress, ProgramError>)
    ensures
        out == match CounterInstruction::decoding(instruction_data@) {
            None => Err(ProgramError::InvalidInstructionData),
            Some(CounterInstruction::InitializeCounter { initial_value }) => advanced(
                initialize_error(views(old(accounts)@)),
                Progress::AwaitingRent { space: 8, initial_value },
            ),
            Some(CounterInstruction::IncrementCounter) => advanced(
                increment_error(program_id@, views(old(accounts)@)),
                Progress::Finished,
            ),
        },
        final(accounts)@.len() == old(accounts)@.len(),
        out == Ok::<Progress, ProgramError>(Progress::Finished) ==> views(final(accounts)@)
            == incremented(views(old(accounts)@)),
        out != Ok::<Progress, ProgramError>(Progress::Finished) ==> final(accounts)@ == old(
            accounts,
        )@,
        instruction_data@.len() == 0 || (instruction_data@[0] != 0 && instruction_data@[0] != 1)
            ==> out == Err::<Progress, ProgramError>(ProgramError::InvalidInstructionData)
            && final(accounts)@ == old(accounts)@,
{
    let instruction = match CounterInstruction::try_from_slice(instruction_data) {
        Ok(instruction) => instruction,
        Err(_) => {
            return Err(ProgramError::InvalidInstructionData);
        },
    };
    match instruction {
        CounterInstruction::InitializeCounter { initial_value } => {
            process_initialize_counter(accounts.as_slice(), initial_value)
        },
        CounterInstruction::IncrementCounter => {
            process_increment_counter(program_id, accounts)?;
            Ok(Progress::Finished)
        },
    }
}

/// The first step of an initialization: checks that the new account, the
/// payer and the system program are named, in this order, and asks for the
/// balance that exempts one record's storage from rent.
pub fn process_initialize_counter(accounts: &[AccountInfo], initial_value: u64) -> (out: Result<
    Progress,
    ProgramError,
>)
    ensures
        out == advanced(
            initialize_error(views(accounts@)),
            Progress::AwaitingRent { space: 8, initial_value },
        ),
{
    if accounts.len() < 3 {
        return Err(ProgramError::NotEnoughAccountKeys);
    }
    Ok(Progress::AwaitingRent { space: RECORD_SPACE, initial_value })
}

/// The second step of an initialization: `minimum_balance` is the host's
/// answer to `AwaitingRent`, the balance or the code with which the rent
/// schedule could not be read. The request that comes back funds the new
/// account with exactly that balance.
pub fn fund_initialize_counter(
    program_id: &Pubkey,
    accounts: &[AccountInfo],
    initial_value: u64,
    minimum_balance: Result<u64, u64>,
) -> (out: Result<Progress, ProgramError>)
    ensures
        out == advanced(
            funding_error(views(accounts@), minimum_balance),
            Progress::AwaitingAccount {
                request: initialize_request(*program_id, accounts@, minimum_balance->Ok_0),
                initial_value,
            },
        ),
{
    let lamports = match minimum_balance {
        Ok(lamports) => lamports,
        Err(code) => {
            return Err(ProgramError::Nested(code));
        },
    };
    if accounts.len() < 3 {
        return Err(ProgramError::NotEnoughAccountKeys);
    }
    let request = CreateAccount {
        from: accounts[1].key,
        to: accounts[0].key,
        lamports,
        space: RECORD_SPACE,
        owner: *program_id,
    };
    Ok(Progress::AwaitingAccount { request, initial_value })
}

/// The third step of an initialization: `created` is the host's answer to
/// the request, and `accounts` are the invocation's accounts as the host has
/// left them. A failed creation is reported with the host's own code. After a
/// successful one the record is written over the first eight bytes of the
/// first account; where that account has a record's size, as the request
/// asked, it then holds `initial_value`. On any failure the accounts stay as
/// they were.
pub fn finish_initialize_counter(
    accounts: &mut Vec<AccountInfo>,
    initial_value: u64,
    created: Result<(), u64>,
) -> (out: Result<(), ProgramError>)
    ensures
        out == settled(finish_error(views(old(accounts)@), created)),
        final(accounts)@.len() == old(accounts)@.len(),
        out is Err ==> final(accounts)@ == old(accounts)@,
        out is Ok ==> views(final(accounts)@) == with_record(
            views(old(accounts)@),
            CounterAccount { count: initial_value },
        ),
        out is Ok && old(accounts)@[0].data@.len() == 8 ==> CounterAccount::decoding(
            final(accounts)@[0].data@,
        ) == Some(CounterAccount { count: initial_value }),
{
    let ghost before = accounts@;
    if let Err(code) = created {
        return Err(ProgramError::Nested(code));
    }
    if accounts.len() == 0 {
        return Err(ProgramError::NotEnoughAccountKeys);
    }
    proof {
        assert(views(before)[0] == before[0]@);
    }
    if accounts[0].data.len() < RECORD_LEN {
        return Err(ProgramError::BorshIoError);
    }
    let record = CounterAccount { count: initial_value };
    record.serialize(&mut accounts[0].data)?;
    proof {
        assert(views(accounts@) =~= with_record(views(before), record));
        lemma_record_round_trip(record);
        if before[0].data@.len() == 8 {
            assert(accounts@[0].data@ =~= record.encoding());
        }
    }
    Ok(())
}

/// Adds one to the count stored in the first account, which must be owned by
/// `program_id` and hold a record. An account of another owner is refused as
/// such whatever it holds, and the largest count cannot grow. On any failure
/// the accounts stay as they were.
pub fn process_increment_counter(program_id: &Pubkey, accounts: &mut Vec<AccountInfo>) -> (out:
    Result<(), ProgramError>)
    ensures
        out == settled(increment_error(program_id@, views(old(accounts)@))),
        final(accounts)@.len() == old(accounts)@.len(),
        out is Err ==> final(accounts)@ == old(accounts)@,
        out is Ok ==> views(final(accounts)@) == incremented(views(old(accounts)@)),
        old(accounts)@.len() > 0 && old(accounts)@[0].owner@ != program_id@ ==> out == Err::<
            (),
            ProgramError,
        >(ProgramError::IncorrectProgramId),
        old(accounts)@.len() > 0 && old(accounts)@[0].owner@ == program_id@ && old(
            accounts,
        )@[0].data@.len() == 8 && le_value(old(accounts)@[0].data@) == u64::MAX ==> out == Err::<
            (),
            ProgramError,
        >(ProgramError::InvalidAccountData),
{
    let ghost before = accounts@;
    if accounts.len() == 0 {
        return Err(ProgramError::NotEnoughAccountKeys);
    }
    proof {
        assert(views(before)[0] == before[0]@);
        if before[0].data@.len() == 8 {
            lemma_record_encoding_unique(before[0].data@);
        }
    }
    if !accounts[0].owner.same(program_id) {
        return Err(ProgramError::IncorrectProgramId);
    }
    let record = match CounterAccount::try_from_slice(accounts[0].data.as_slice()) {
        Ok(record) => record,
        Err(error) => {
            return Err(error);
        },
    };
    let count = match record.count.checked_add(1) {
        Some(count) => count,
        None => {
            return Err(ProgramError::InvalidAccountData);
        },
    };
    let updated = CounterAccount { count };
    updated.serialize(&mut accounts[0].data)?;
    assert(views(accounts@) =~= with_record(views(before), updated));
    Ok(())
}

} // verus!
