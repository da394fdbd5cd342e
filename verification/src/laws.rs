//! What holds of every session, proved from the model over which the
//! contracts of the operations are stated.

use vstd::prelude::*;
use crate::console::{branch_code, command_of, Awaiting, Command, ConsoleState};
use crate::error::BankError;
use crate::model::SessionState;
use crate::money::{
    amount_of,
    amount_text,
    decimal_text,
    digit_char,
    fraction_part,
    is_decimal,
    is_digit,
    lemma_decimal_text_value,
    lemma_digits_then_point,
    unsigned_part,
    whole_part,
};
use crate::rules::deposit_verdict;
use crate::text::{lemma_trim_end_takes, lemma_trim_start_skips, lemma_trimmed_is_bare, trimmed};

verus! {

/// The sum of `amounts`.
pub open spec fn total(amounts: Seq<int>) -> int
    decreases amounts.len(),
{
    if amounts.len() == 0 {
        0
    } else {
        total(amounts.drop_last()) + amounts.last()
    }
}

/// The session after each of `amounts` was deposited in turn through `account`.
pub open spec fn after_deposits(
    session: SessionState,
    account: int,
    amounts: Seq<int>,
) -> SessionState
    decreases amounts.len(),
{
    if amounts.len() == 0 {
        session
    } else {
        after_deposits(session, account, amounts.drop_last()).after_deposit(
            account,
            amounts.last(),
        )
    }
}

/// Deposits of positive amounts raise the balance by their sum: made on a
/// balance of zero, they leave their sum as the balance. They leave the
/// session consistent and its accounts as they were.
pub proof fn deposits_add_up(session: SessionState, account: int, amounts: Seq<int>)
    requires
        session.valid(),
        session.has_account(account),
        forall|i: int| 0 <= i < amounts.len() ==> amounts[i] > 0,
    ensures
        after_deposits(session, account, amounts).owner_balance(account) == session.owner_balance(
            account,
        ) + total(amounts),
        session.owner_balance(account) == 0 ==> after_deposits(
            session,
            account,
            amounts,
        ).owner_balance(account) == total(amounts),
        after_deposits(session, account, amounts).valid(),
        after_deposits(session, account, amounts).accounts == session.accounts,
    decreases amounts.len(),
{
    if amounts.len() > 0 {
        let earlier = amounts.drop_last();
        assert forall|i: int| 0 <= i < earlier.len() implies earlier[i] > 0 by {
            assert(earlier[i] == amounts[i]);
        }
        deposits_add_up(session, account, earlier);
        let before = after_deposits(session, account, earlier);
        assert(amounts.last() > 0);
        assert(0 <= before.accounts[account].owner < before.users.len());
        before.lemma_deposit_valid(account, amounts.last());
    }
}

/// A withdrawal that goes through takes no more than the balance holds, and
/// leaves what the balance held less the amount, which is not negative.
pub proof fn withdrawal_never_overdraws(session: SessionState, account: int, amount: int)
    requires
        session.valid(),
        session.has_account(account),
        session.withdraw_verdict(account, amount) is Ok,
    ensures
        0 < amount <= session.owner_balance(account),
        session.after_withdraw(account, amount).owner_balance(account) == session.owner_balance(
            account,
        ) - amount,
        session.after_withdraw(account, amount).owner_balance(account) >= 0,
{
    assert(0 <= session.accounts[account].owner < session.users.len());
}

/// The count of withdrawals never passes the limit of the session: a
/// withdrawal that goes through counts one and still leaves the count within
/// the limit, and once the limit is reached every withdrawal is refused.
pub proof fn withdrawals_stay_within_limit(session: SessionState, account: int, amount: int)
    requires
        session.valid(),
        session.has_account(account),
    ensures
        session.after_withdraw(account, amount).withdrawal_count <= session.withdrawal_limit,
        session.withdraw_verdict(account, amount) is Ok ==> session.after_withdraw(
            account,
            amount,
        ).withdrawal_count == session.withdrawal_count + 1,
        session.withdrawal_count >= session.withdrawal_limit ==> session.withdraw_verdict(
            account,
            amount,
        ) is Err,
{
}

/// Once the limit of withdrawals is reached, a withdrawal that the balance
/// and the limit per withdrawal would allow is refused for the count, be the
/// amount valid or not.
pub proof fn withdrawal_past_limit_is_refused(session: SessionState, account: int, amount: int)
    requires
        session.valid(),
        session.has_account(account),
        session.withdrawal_count >= session.withdrawal_limit,
        amount <= session.owner_balance(account),
        amount <= session.limit_per_operation,
    ensures
        session.withdraw_verdict(account, amount) == Err::<(), BankError>(
            BankError::WithdrawalLimitExceeded,
        ),
        session.after_withdraw(account, amount) == session,
{
}

/// An operation that is refused leaves the users, the accounts, the statement
/// and the count of withdrawals exactly as they were.
pub proof fn refusals_change_nothing(
    session: SessionState,
    account: int,
    amount: int,
    owner: Option<int>,
    branch_code: Seq<char>,
    tax_id: Seq<char>,
    full_name: Seq<char>,
    birth_date: Seq<char>,
    address: Seq<char>,
)
    ensures
        session.create_user_verdict(tax_id) is Err ==> session.after_create_user(
            tax_id,
            full_name,
            birth_date,
            address,
        ) == session,
        session.create_account_verdict(owner) is Err ==> session.after_create_account(
            branch_code,
            owner,
        ) == session,
        deposit_verdict(amount) is Err ==> session.after_deposit(account, amount) == session,
        session.withdraw_verdict(account, amount) is Err ==> session.after_withdraw(
            account,
            amount,
        ) == session,
{
}

/// A line that the console refuses, or that only moves it on to the next
/// field, leaves the session exactly as it was: so does every command of the
/// menu, a transaction without an account or against a rule, an account for
/// an unknown user, and a user under a tax id that is taken.
pub proof fn refused_lines_change_no_record(console: ConsoleState, line: Seq<char>)
    ensures
        ({
            let session = console.session;
            let next = console.feed(line).state.session;
            let refused = match console.awaiting {
                Awaiting::Command => true,
                Awaiting::DepositAmount => session.first_account() is Err || deposit_verdict(
                    amount_of(line),
                ) is Err,
                Awaiting::WithdrawalAmount => match session.first_account() {
                    Ok(account) => session.withdraw_verdict(account, amount_of(line)) is Err,
                    Err(_) => true,
                },
                Awaiting::AccountTaxId => session.create_account_verdict(
                    session.find_by_tax_id(line),
                ) is Err,
                Awaiting::UserTaxId => true,
                Awaiting::UserName => true,
                Awaiting::UserBirthDate => true,
                Awaiting::UserAddress => session.create_user_verdict(console.tax_id) is Err,
            };
            console.finished || refused ==> next == session
        }),
{
}

/// Whether `next` holds everything that `session` held: every user, with at
/// most the balance changed, every account as it was, the statement as it
/// began, and the limits.
pub open spec fn keeps_records(session: SessionState, next: SessionState) -> bool {
    &&& session.users.len() <= next.users.len()
    &&& forall|i: int|
        0 <= i < session.users.len() ==> (#[trigger] next.users[i]).tax_id
            == session.users[i].tax_id && next.users[i].full_name == session.users[i].full_name
            && next.users[i].birth_date == session.users[i].birth_date && next.users[i].address
            == session.users[i].address
    &&& session.accounts.is_prefix_of(next.accounts)
    &&& session.statement.is_prefix_of(next.statement)
    &&& session.withdrawal_count <= next.withdrawal_count
    &&& session.withdrawal_limit == next.withdrawal_limit
    &&& session.limit_per_operation == next.limit_per_operation
}

/// Nothing is ever removed: no operation takes a user or an account away or
/// changes who a user is, and the statement is only added to.
pub proof fn records_are_kept(
    session: SessionState,
    account: int,
    amount: int,
    owner: Option<int>,
    branch_code: Seq<char>,
    tax_id: Seq<char>,
    full_name: Seq<char>,
    birth_date: Seq<char>,
    address: Seq<char>,
)
    requires
        session.valid(),
        session.has_account(account),
    ensures
        keeps_records(
            session,
            session.after_create_user(tax_id, full_name, birth_date, address),
        ),
        keeps_records(session, session.after_create_account(branch_code, owner)),
        keeps_records(session, session.after_deposit(account, amount)),
        keeps_records(session, session.after_withdraw(account, amount)),
{
    assert(0 <= session.accounts[account].owner < session.users.len());
}

/// The accounts are numbered in the order of their creation, whoever owns
/// them: the account created when there are `n` gets the number `n + 1`, and
/// every account of a session has its position, counted from one, as number.
pub proof fn accounts_are_numbered_in_order(
    session: SessionState,
    branch_code: Seq<char>,
    owner: Option<int>,
)
    requires
        session.valid(),
        session.knows(owner),
    ensures
        session.create_account_verdict(owner) == Ok::<int, BankError>(
            session.accounts.len() as int + 1,
        ),
        session.after_create_account(branch_code, owner).accounts.len() == session.accounts.len()
            + 1,
        session.after_create_account(branch_code, owner).accounts.last().account_number
            == session.accounts.len() + 1,
        forall|k: int|
            0 <= k < session.accounts.len() ==> (#[trigger] session.after_create_account(
                branch_code,
                owner,
            ).accounts[k]) == session.accounts[k] && session.accounts[k].account_number == k + 1,
{
}

/// A tax id names one user at most: registering under a tax id that a user
/// has is refused as a duplicate, and leaves that user, and every other
/// record, as it was.
pub proof fn tax_ids_stay_unique(
    session: SessionState,
    existing: int,
    full_name: Seq<char>,
    birth_date: Seq<char>,
    address: Seq<char>,
)
    requires
        session.valid(),
        0 <= existing < session.users.len(),
    ensures
        session.create_user_verdict(session.users[existing].tax_id) == Err::<(), BankError>(
            BankError::DuplicateUser,
        ),
        session.after_create_user(
            session.users[existing].tax_id,
            full_name,
            birth_date,
            address,
        ) == session,
{
    assert(session.has_tax_id(session.users[existing].tax_id));
}

/// The console ends on the command to quit and on nothing else, and stays
/// ended.
pub proof fn only_quit_ends(console: ConsoleState, line: Seq<char>)
    ensures
        console.feed(line).state.finished <==> console.finished || (console.awaiting
            == Awaiting::Command && command_of(line) == Ok::<Command, BankError>(Command::Quit)),
{
}

/// The console keeps its session consistent.
pub proof fn console_keeps_session_valid(console: ConsoleState, line: Seq<char>)
    requires
        console.session.valid(),
    ensures
        console.feed(line).state.session.valid(),
{
    let session = console.session;
    if !console.finished {
        match console.awaiting {
            Awaiting::DepositAmount => {
                if session.first_account() is Ok {
                    session.lemma_deposit_valid(0, amount_of(line));
                }
            },
            Awaiting::WithdrawalAmount => {
                if session.first_account() is Ok {
                    session.lemma_withdraw_valid(0, amount_of(line));
                }
            },
            Awaiting::AccountTaxId => {
                session.lemma_create_account_valid(
                    branch_code(),
                    session.find_by_tax_id(line),
                );
            },
            Awaiting::UserAddress => {
                session.lemma_create_user_valid(
                    console.tax_id,
                    console.full_name,
                    console.birth_date,
                    trimmed(line),
                );
            },
            _ => {},
        }
    }
}

/// An amount reads back from the way it is written: what a statement shows
/// is the amount that was recorded, to the cent.
pub proof fn written_amounts_read_back(cents: nat)
    requires
        cents <= i64::MAX,
    ensures
        amount_of(amount_text(cents)) == cents,
{
    let units = decimal_text(cents / 100);
    let tens = digit_char((cents / 10 % 10) as int);
    let ones = digit_char((cents % 10) as int);
    let text = amount_text(cents);
    lemma_decimal_text_value(cents / 100);
    assert(text.len() == units.len() + 3);
    assert(text[0] == units[0]);
    assert(text[units.len() as int] == '.');
    assert(text[units.len() as int + 1] == tens);
    assert(text[units.len() as int + 2] == ones);
    assert(trimmed(text) == text) by {
        lemma_trim_start_skips(text, 0);
        assert(text.skip(0) =~= text);
        lemma_trim_end_takes(text, text.len() as int);
        assert(text.take(text.len() as int) =~= text);
    }
    assert(unsigned_part(text) == text);
    assert forall|j: int| 0 <= j < units.len() implies is_digit(text[j]) by {
        assert(text[j] == units[j]);
    }
    lemma_digits_then_point(text, units.len() as int);
    assert(whole_part(text) =~= units);
    assert(fraction_part(text) =~= seq![tens, ones]);
    assert(is_decimal(text));
}

/// A user is found under the tax id that was registered, whether it was
/// registered as given or, as the console does, without the white space at
/// its ends; and under any text that differs from it by such white space only.
pub proof fn registered_user_is_found(
    session: SessionState,
    tax_id: Seq<char>,
    full_name: Seq<char>,
    birth_date: Seq<char>,
    address: Seq<char>,
    query: Seq<char>,
)
    requires
        trimmed(query) == trimmed(tax_id),
    ensures
        session.after_create_user(tax_id, full_name, birth_date, address).knows(
            session.after_create_user(tax_id, full_name, birth_date, address).find_by_tax_id(
                query,
            ),
        ),
        session.after_create_user(trimmed(tax_id), full_name, birth_date, address).knows(
            session.after_create_user(
                trimmed(tax_id),
                full_name,
                birth_date,
                address,
            ).find_by_tax_id(query),
        ),
{
    lemma_trimmed_is_bare(tax_id);
    lemma_registered_is_found(session, tax_id, full_name, birth_date, address, trimmed(query));
    lemma_registered_is_found(
        session,
        trimmed(tax_id),
        full_name,
        birth_date,
        address,
        trimmed(query),
    );
}

proof fn lemma_registered_is_found(
    session: SessionState,
    tax_id: Seq<char>,
    full_name: Seq<char>,
    birth_date: Seq<char>,
    address: Seq<char>,
    key: Seq<char>,
)
    requires
        key == trimmed(tax_id),
    ensures
        session.after_create_user(tax_id, full_name, birth_date, address).knows(
            session.after_create_user(tax_id, full_name, birth_date, address).find_from(key, 0),
        ),
{
    let next = session.after_create_user(tax_id, full_name, birth_date, address);
    next.lemma_find_from(key, 0);
    if session.has_tax_id(tax_id) {
        let i = choose|i: int|
            0 <= i < session.users.len() && (#[trigger] session.users[i]).tax_id == tax_id;
        assert(trimmed(next.users[i].tax_id) == key);
    } else {
        assert(next.users[next.users.len() - 1].tax_id == tax_id);
    }
}

} // verus!
