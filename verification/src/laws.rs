//! What holds of the program over whole runs: a value stored is the value
//! read, and increments add up.

use vstd::prelude::*;
use crate::account::AccountView;
use crate::error::ProgramError;
use crate::processor::{finish_error, increment_error, incremented, stored_count, with_record};
use crate::state::{lemma_record_encoding_unique, lemma_record_round_trip, CounterAccount};

verus! {

/// `accounts` after `times` increments in a row, each applied to what the
/// one before left. An increment that fails changes nothing, and neither do
/// those after it.
pub open spec fn after_increments(program_id: Seq<u8>, accounts: Seq<AccountView>, times: nat)
    -> Seq<AccountView>
    decreases times,
{
    if times == 0 || increment_error(program_id, accounts) is Some {
        accounts
    } else {
        after_increments(program_id, incremented(accounts), (times - 1) as nat)
    }
}

/// Whether the first account is a counter of `program_id`: owned by it and
/// holding a record.
pub open spec fn holds_counter(program_id: Seq<u8>, accounts: Seq<AccountView>) -> bool {
    &&& accounts.len() > 0
    &&& accounts[0].owner == program_id
    &&& accounts[0].data.len() == 8
}

/// Initializing an account of a record's size, then reading it, yields the
/// initial value: once the host has created the account, the last step of
/// the initialization meets no failure, and the record it leaves decodes to
/// `initial_value`.
pub proof fn law_initialize_then_read(accounts: Seq<AccountView>, initial_value: u64)
    requires
        accounts.len() > 0,
        accounts[0].data.len() == 8,
    ensures
        finish_error(accounts, Ok(())) is None,
        CounterAccount::decoding(
            with_record(accounts, CounterAccount { count: initial_value })[0].data,
        ) == Some(CounterAccount { count: initial_value }),
{
    let record = CounterAccount { count: initial_value };
    lemma_record_round_trip(record);
    assert(with_record(accounts, record)[0].data =~= record.encoding());
}

/// One increment of a counter below the largest count meets no failure and
/// stores the count plus one, in an account that is still a counter.
pub proof fn law_increment_adds_one(program_id: Seq<u8>, accounts: Seq<AccountView>)
    requires
        holds_counter(program_id, accounts),
        stored_count(accounts) < u64::MAX,
    ensures
        increment_error(program_id, accounts) is None,
        holds_counter(program_id, incremented(accounts)),
        stored_count(incremented(accounts)) == stored_count(accounts) + 1,
        CounterAccount::decoding(incremented(accounts)[0].data) == Some(
            CounterAccount { count: (stored_count(accounts) + 1) as u64 },
        ),
{
    let record = CounterAccount { count: (stored_count(accounts) + 1) as u64 };
    lemma_record_round_trip(record);
    assert(incremented(accounts)[0].data =~= record.encoding());
    lemma_record_encoding_unique(record.encoding());
}

/// Increments add up: `times` increments of a counter that stores `n` leave
/// a counter that stores `n + times`, provided that this is a count. No
/// other account and nothing else of the first one has changed.
pub proof fn law_increments_add_up(program_id: Seq<u8>, accounts: Seq<AccountView>, times: nat)
    requires
        holds_counter(program_id, accounts),
        stored_count(accounts) + times <= u64::MAX,
    ensures
        holds_counter(program_id, after_increments(program_id, accounts, times)),
        stored_count(after_increments(program_id, accounts, times)) == stored_count(accounts)
            + times,
        after_increments(program_id, accounts, times) == with_record(
            accounts,
            CounterAccount { count: (stored_count(accounts) + times) as u64 },
        ),
    decreases times,
{
    let total = CounterAccount { count: (stored_count(accounts) + times) as u64 };
    if times == 0 {
        lemma_record_encoding_unique(accounts[0].data);
        assert(total.encoding() + accounts[0].data.skip(8) =~= accounts[0].data);
        assert(with_record(accounts, total) =~= accounts);
    } else {
        law_increment_adds_one(program_id, accounts);
        let next = incremented(accounts);
        law_increments_add_up(program_id, next, (times - 1) as nat);
        assert(total.encoding() + next[0].data.skip(8) =~= total.encoding() + accounts[0].data.skip(
            8,
        ));
        assert(with_record(next, total) =~= with_record(accounts, total));
    }
}

/// At the largest count every increment fails as invalid account data, and
/// however many are tried, the accounts stay as they were.
pub proof fn law_increment_stops_at_max(
    program_id: Seq<u8>,
    accounts: Seq<AccountView>,
    times: nat,
)
    requires
        holds_counter(program_id, accounts),
        stored_count(accounts) == u64::MAX,
    ensures
        increment_error(program_id, accounts) == Some(ProgramError::InvalidAccountData),
        after_increments(program_id, accounts, times) == accounts,
{
}

} // verus!
