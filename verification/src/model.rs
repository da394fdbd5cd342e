//! The session as mathematics: its records as plain values, what makes them
//! consistent, and what each operation decides and leaves behind.
//!
//! The contracts of the executable session are stated over this model: every
//! operation returns the model's verdict and ends in the model's next state.

use vstd::prelude::*;
use crate::error::BankError;
use crate::rules::{deposit_verdict, withdrawal_verdict};
use crate::statement::{entry_line, statement_text, EntryKind, SummaryRecord};
use crate::text::trimmed;

verus! {

/// A registered user. The balance, in cents, is shared by every account of
/// the user.
pub struct UserRecord {
    pub full_name: Seq<char>,
    pub birth_date: Seq<char>,
    pub tax_id: Seq<char>,
    pub address: Seq<char>,
    pub balance: int,
}

/// An account: its branch, its number, and the position of its owner in the
/// registry of users.
pub struct AccountRecord {
    pub branch_code: Seq<char>,
    pub account_number: int,
    pub owner: int,
}

/// Everything a session holds.
pub struct SessionState {
    /// The users, oldest first.
    pub users: Seq<UserRecord>,
    /// The accounts, oldest first.
    pub accounts: Seq<AccountRecord>,
    /// The lines of the completed transactions, oldest first.
    pub statement: Seq<char>,
    /// How many withdrawals the session has made.
    pub withdrawal_count: int,
    /// How many withdrawals the session may make.
    pub withdrawal_limit: int,
    /// The most, in cents, that one withdrawal may take.
    pub limit_per_operation: int,
}

impl SessionState {
    /// A session that has just begun, with the given limits.
    pub open spec fn opening(limit_per_operation: int, withdrawal_limit: int) -> SessionState {
        SessionState {
            users: Seq::empty(),
            accounts: Seq::empty(),
            statement: Seq::empty(),
            withdrawal_count: 0,
            withdrawal_limit,
            limit_per_operation,
        }
    }

    /// What holds of a session at all times: no two users share a tax id, no
    /// balance is negative, the accounts are numbered from one in the order
    /// of their creation, each is owned by a registered user, and no more
    /// withdrawals were made than the session allows.
    pub open spec fn valid(self) -> bool {
        &&& forall|i: int, j: int|
            0 <= i < j < self.users.len() ==> (#[trigger] self.users[i]).tax_id != (
            #[trigger] self.users[j]).tax_id
        &&& forall|i: int| 0 <= i < self.users.len() ==> (#[trigger] self.users[i]).balance >= 0
        &&& forall|k: int|
            0 <= k < self.accounts.len() ==> {
                &&& (#[trigger] self.accounts[k]).account_number == k + 1
                &&& 0 <= self.accounts[k].owner < self.users.len()
            }
        &&& 0 <= self.withdrawal_count <= self.withdrawal_limit
    }

    /// Whether a user is registered under exactly this tax id.
    pub open spec fn has_tax_id(self, tax_id: Seq<char>) -> bool {
        exists|i: int| 0 <= i < self.users.len() && (#[trigger] self.users[i]).tax_id == tax_id
    }

    /// The first user at or after position `from` whose tax id, trimmed, is `key`.
    pub open spec fn find_from(self, key: Seq<char>, from: int) -> Option<int>
        decreases self.users.len() - from,
    {
        if from < 0 || from >= self.users.len() {
            None
        } else if trimmed(self.users[from].tax_id) == key {
            Some(from)
        } else {
            self.find_from(key, from + 1)
        }
    }

    /// The first user whose tax id is `tax_id`, white space at either end of
    /// both left aside.
    pub open spec fn find_by_tax_id(self, tax_id: Seq<char>) -> Option<int> {
        self.find_from(trimmed(tax_id), 0)
    }

    /// The verdict on registering a user under `tax_id`.
    pub open spec fn create_user_verdict(self, tax_id: Seq<char>) -> Result<(), BankError> {
        if self.has_tax_id(tax_id) {
            Err(BankError::DuplicateUser)
        } else {
            Ok(())
        }
    }

    /// The session after an attempt to register a user: with the user added
    /// last, at a balance of zero, unless the tax id is taken.
    pub open spec fn after_create_user(
        self,
        tax_id: Seq<char>,
        full_name: Seq<char>,
        birth_date: Seq<char>,
        address: Seq<char>,
    ) -> SessionState {
        if self.has_tax_id(tax_id) {
            self
        } else {
            SessionState {
                users: self.users.push(
                    UserRecord { full_name, birth_date, tax_id, address, balance: 0 },
                ),
                ..self
            }
        }
    }

    /// Whether `owner` names a registered user.
    pub open spec fn knows(self, owner: Option<int>) -> bool {
        owner matches Some(i) && 0 <= i < self.users.len()
    }

    /// The verdict on creating an account for `owner`: the number of the new
    /// account, one more than there are accounts, or that no user was found.
    pub open spec fn create_account_verdict(self, owner: Option<int>) -> Result<int, BankError> {
        if self.knows(owner) {
            Ok(self.accounts.len() as int + 1)
        } else {
            Err(BankError::UserNotFound)
        }
    }

    /// The session after an attempt to create an account: with the account
    /// added last, unless no user was found.
    pub open spec fn after_create_account(
        self,
        branch_code: Seq<char>,
        owner: Option<int>,
    ) -> SessionState {
        if self.knows(owner) {
            SessionState {
                accounts: self.accounts.push(
                    AccountRecord {
                        branch_code,
                        account_number: self.accounts.len() as int + 1,
                        owner: owner->0,
                    },
                ),
                ..self
            }
        } else {
            self
        }
    }

    /// The accounts as they are listed, oldest first.
    pub open spec fn summaries(self) -> Seq<SummaryRecord> {
        Seq::new(
            self.accounts.len(),
            |k: int|
                SummaryRecord {
                    branch_code: self.accounts[k].branch_code,
                    account_number: self.accounts[k].account_number,
                    owner_name: self.users[self.accounts[k].owner].full_name,
                },
        )
    }

    /// The account that the menu's transactions work on: the oldest.
    pub open spec fn first_account(self) -> Result<int, BankError> {
        if self.accounts.len() > 0 {
            Ok(0int)
        } else {
            Err(BankError::NoAccounts)
        }
    }

    /// Whether `account` is the position of an account.
    pub open spec fn has_account(self, account: int) -> bool {
        0 <= account < self.accounts.len()
    }

    /// The balance that `account` draws on: its owner's.
    pub open spec fn owner_balance(self, account: int) -> int {
        self.users[self.accounts[account].owner].balance
    }

    /// The session with `cents` added to the balance of the owner of `account`.
    pub open spec fn credit(self, account: int, cents: int) -> SessionState {
        let owner = self.accounts[account].owner;
        SessionState {
            users: self.users.update(
                owner,
                UserRecord { balance: self.users[owner].balance + cents, ..self.users[owner] },
            ),
            ..self
        }
    }

    /// The session with a line added to its statement.
    pub open spec fn record(self, kind: EntryKind, cents: int) -> SessionState {
        SessionState { statement: self.statement + entry_line(kind, cents as nat), ..self }
    }

    /// The session after an attempt to deposit `amount` cents through
    /// `account`: the owner's balance raised and the deposit recorded, unless
    /// the deposit is refused.
    pub open spec fn after_deposit(self, account: int, amount: int) -> SessionState {
        if deposit_verdict(amount) is Ok {
            self.credit(account, amount).record(EntryKind::Deposit, amount)
        } else {
            self
        }
    }

    /// The verdict on withdrawing `amount` cents through `account`.
    pub open spec fn withdraw_verdict(self, account: int, amount: int) -> Result<(), BankError> {
        withdrawal_verdict(
            amount,
            self.owner_balance(account),
            self.limit_per_operation,
            self.withdrawal_count,
            self.withdrawal_limit,
        )
    }

    /// The session after an attempt to withdraw `amount` cents through
    /// `account`: the owner's balance lowered, the withdrawal recorded and
    /// counted, unless the withdrawal is refused.
    pub open spec fn after_withdraw(self, account: int, amount: int) -> SessionState {
        if self.withdraw_verdict(account, amount) is Ok {
            let paid = self.credit(account, -amount).record(EntryKind::Withdrawal, amount);
            SessionState { withdrawal_count: self.withdrawal_count + 1, ..paid }
        } else {
            self
        }
    }

    /// The text that shows the statement and the balance that `account` draws on.
    pub open spec fn statement_of(self, account: int) -> Seq<char> {
        statement_text(self.statement, self.owner_balance(account) as nat)
    }

    /// `find_from` gives the first match, and nothing only where none is left.
    pub proof fn lemma_find_from(self, key: Seq<char>, from: int)
        requires
            0 <= from,
        ensures
            match self.find_from(key, from) {
                Some(i) => {
                    &&& from <= i < self.users.len()
                    &&& trimmed(self.users[i].tax_id) == key
                    &&& forall|j: int| from <= j < i ==> trimmed(self.users[j].tax_id) != key
                },
                None => forall|j: int|
                    from <= j < self.users.len() ==> trimmed(self.users[j].tax_id) != key,
            },
        decreases self.users.len() - from,
    {
        if from < self.users.len() && trimmed(self.users[from].tax_id) != key {
            self.lemma_find_from(key, from + 1);
        }
    }

    /// Registering a user keeps the session consistent.
    pub proof fn lemma_create_user_valid(
        self,
        tax_id: Seq<char>,
        full_name: Seq<char>,
        birth_date: Seq<char>,
        address: Seq<char>,
    )
        requires
            self.valid(),
        ensures
            self.after_create_user(tax_id, full_name, birth_date, address).valid(),
    {
        let next = self.after_create_user(tax_id, full_name, birth_date, address);
        if !self.has_tax_id(tax_id) {
            assert forall|i: int, j: int| 0 <= i < j < next.users.len() implies (
            #[trigger] next.users[i]).tax_id != (#[trigger] next.users[j]).tax_id by {
                if j == self.users.len() {
                    assert(self.users[i].tax_id != tax_id);
                } else {
                    assert(self.users[i].tax_id != self.users[j].tax_id);
                }
            }
        }
    }

    /// Creating an account keeps the session consistent.
    pub proof fn lemma_create_account_valid(self, branch_code: Seq<char>, owner: Option<int>)
        requires
            self.valid(),
        ensures
            self.after_create_account(branch_code, owner).valid(),
    {
        let next = self.after_create_account(branch_code, owner);
        if self.knows(owner) {
            assert forall|k: int| 0 <= k < next.accounts.len() implies {
                &&& (#[trigger] next.accounts[k]).account_number == k + 1
                &&& 0 <= next.accounts[k].owner < next.users.len()
            } by {
                if k < self.accounts.len() {
                    assert(next.accounts[k] == self.accounts[k]);
                }
            }
        }
    }

    /// A deposit keeps the session consistent.
    pub proof fn lemma_deposit_valid(self, account: int, amount: int)
        requires
            self.valid(),
            self.has_account(account),
        ensures
            self.after_deposit(account, amount).valid(),
    {
        let next = self.after_deposit(account, amount);
        if deposit_verdict(amount) is Ok {
            let owner = self.accounts[account].owner;
            assert(0 <= owner < self.users.len());
            assert forall|i: int, j: int| 0 <= i < j < next.users.len() implies (
            #[trigger] next.users[i]).tax_id != (#[trigger] next.users[j]).tax_id by {
                assert(next.users[i].tax_id == self.users[i].tax_id);
                assert(next.users[j].tax_id == self.users[j].tax_id);
            }
            assert forall|i: int| 0 <= i < next.users.len() implies (
            #[trigger] next.users[i]).balance >= 0 by {
                assert(self.users[i].balance >= 0);
            }
            assert forall|k: int| 0 <= k < next.accounts.len() implies {
                &&& (#[trigger] next.accounts[k]).account_number == k + 1
                &&& 0 <= next.accounts[k].owner < next.users.len()
            } by {
                assert(next.accounts[k] == self.accounts[k]);
            }
        }
    }

    /// A withdrawal keeps the session consistent.
    pub proof fn lemma_withdraw_valid(self, account: int, amount: int)
        requires
            self.valid(),
            self.has_account(account),
        ensures
            self.after_withdraw(account, amount).valid(),
    {
        let next = self.after_withdraw(account, amount);
        if self.withdraw_verdict(account, amount) is Ok {
            let owner = self.accounts[account].owner;
            assert(0 <= owner < self.users.len());
            assert forall|i: int, j: int| 0 <= i < j < next.users.len() implies (
            #[trigger] next.users[i]).tax_id != (#[trigger] next.users[j]).tax_id by {
                assert(next.users[i].tax_id == self.users[i].tax_id);
                assert(next.users[j].tax_id == self.users[j].tax_id);
            }
            assert forall|i: int| 0 <= i < next.users.len() implies (
            #[trigger] next.users[i]).balance >= 0 by {
                assert(self.users[i].balance >= 0);
            }
            assert forall|k: int| 0 <= k < next.accounts.len() implies {
                &&& (#[trigger] next.accounts[k]).account_number == k + 1
                &&& 0 <= next.accounts[k].owner < next.users.len()
            } by {
                assert(next.accounts[k] == self.accounts[k]);
            }
        }
    }
}

} // verus!
