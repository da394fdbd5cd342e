//! The session: the registry of users, the registry of accounts, the
//! statement and the count of withdrawals, and the operations on them.

use vstd::prelude::*;
use crate::error::BankError;
use crate::model::{AccountRecord, SessionState, UserRecord};
use crate::rules::{check_deposit, check_withdrawal, deposit_verdict};
use crate::statement::{
    format_entry,
    render_statement,
    summary_records,
    AccountSummary,
    EntryKind,
};
use crate::text::{same_text, trim, trimmed};

verus! {

/// The most, in cents, that one withdrawal may take unless the session was
/// opened with another limit.
pub const DEFAULT_LIMIT_PER_OPERATION: i64 = 50_000;

/// How many withdrawals a session may make unless it was opened with another
/// limit.
pub const DEFAULT_WITHDRAWAL_LIMIT: usize = 3;

/// A registered user.
pub struct User {
    full_name: String,
    birth_date: String,
    tax_id: String,
    address: String,
    balance: i64,
}

/// An account of a registered user.
pub struct Account {
    branch_code: String,
    account_number: usize,
    owner: usize,
}

/// A banking session.
pub struct Session {
    users: Vec<User>,
    accounts: Vec<Account>,
    statement: String,
    withdrawal_count: usize,
    withdrawal_limit: usize,
    limit_per_operation: i64,
}

impl View for User {
    type V = UserRecord;

    closed spec fn view(&self) -> UserRecord {
        UserRecord {
            full_name: self.full_name@,
            birth_date: self.birth_date@,
            tax_id: self.tax_id@,
            address: self.address@,
            balance: self.balance as int,
        }
    }
}

impl View for Account {
    type V = AccountRecord;

    closed spec fn view(&self) -> AccountRecord {
        AccountRecord {
            branch_code: self.branch_code@,
            account_number: self.account_number as int,
            owner: self.owner as int,
        }
    }
}

impl View for Session {
    type V = SessionState;

    closed spec fn view(&self) -> SessionState {
        SessionState {
            users: Seq::new(self.users@.len(), |i: int| self.users@[i]@),
            accounts: Seq::new(self.accounts@.len(), |k: int| self.accounts@[k]@),
            statement: self.statement@,
            withdrawal_count: self.withdrawal_count as int,
            withdrawal_limit: self.withdrawal_limit as int,
            limit_per_operation: self.limit_per_operation as int,
        }
    }
}

impl User {
    /// The user's full name.
    pub fn full_name(&self) -> (name: &str)
        ensures
            name@ == self@.full_name,
    {
        self.full_name.as_str()
    }

    /// The user's date of birth, as it was given.
    pub fn birth_date(&self) -> (date: &str)
        ensures
            date@ == self@.birth_date,
    {
        self.birth_date.as_str()
    }

    /// The tax id under which the user is registered.
    pub fn tax_id(&self) -> (id: &str)
        ensures
            id@ == self@.tax_id,
    {
        self.tax_id.as_str()
    }

    /// The user's address.
    pub fn address(&self) -> (address: &str)
        ensures
            address@ == self@.address,
    {
        self.address.as_str()
    }

    /// The user's balance, in cents.
    pub fn balance(&self) -> (cents: i64)
        ensures
            cents == self@.balance,
    {
        self.balance
    }
}

impl Account {
    /// The code of the account's branch.
    pub fn branch_code(&self) -> (code: &str)
        ensures
            code@ == self@.branch_code,
    {
        self.branch_code.as_str()
    }

    /// The account's number.
    pub fn account_number(&self) -> (number: usize)
        ensures
            number == self@.account_number,
    {
        self.account_number
    }

    /// The position of the account's owner in the registry of users.
    pub fn owner(&self) -> (owner: usize)
        ensures
            owner == self@.owner,
    {
        self.owner
    }
}

impl Session {
    /// Whether the session is consistent. Every operation keeps it so.
    pub open spec fn wf(&self) -> bool {
        self@.valid()
    }

    /// A session that has just begun, with the usual limits.
    pub open spec fn new_state() -> SessionState {
        SessionState::opening(DEFAULT_LIMIT_PER_OPERATION as int, DEFAULT_WITHDRAWAL_LIMIT as int)
    }

    /// Opens a session with the usual limits.
    pub fn new() -> (session: Session)
        ensures
            session.wf(),
            session@ == Session::new_state(),
    {
        Session::with_limits(DEFAULT_LIMIT_PER_OPERATION, DEFAULT_WITHDRAWAL_LIMIT)
    }

    /// Opens a session in which one withdrawal may take `limit_per_operation`
    /// cents at most, and `withdrawal_limit` withdrawals may be made.
    pub fn with_limits(limit_per_operation: i64, withdrawal_limit: usize) -> (session: Session)
        ensures
            session.wf(),
            session@ == SessionState::opening(limit_per_operation as int, withdrawal_limit as int),
    {
        let session = Session {
            users: Vec::new(),
            accounts: Vec::new(),
            statement: String::new(),
            withdrawal_count: 0,
            withdrawal_limit,
            limit_per_operation,
        };
        proof {
            let opening = SessionState::opening(
                limit_per_operation as int,
                withdrawal_limit as int,
            );
            assert(session@.users =~= opening.users);
            assert(session@.accounts =~= opening.accounts);
        }
        session
    }

    /// How many users are registered.
    pub fn user_count(&self) -> (count: usize)
        ensures
            count == self@.users.len(),
    {
        self.users.len()
    }

    /// The user at position `index` of the registry, oldest first.
    pub fn user(&self, index: usize) -> (user: &User)
        requires
            index < self@.users.len(),
        ensures
            user@ == self@.users[index as int],
    {
        &self.users[index]
    }

    /// How many accounts there are.
    pub fn account_count(&self) -> (count: usize)
        ensures
            count == self@.accounts.len(),
    {
        self.accounts.len()
    }

    /// The account at position `index` of the registry, oldest first.
    pub fn account(&self, index: usize) -> (account: &Account)
        requires
            index < self@.accounts.len(),
        ensures
            account@ == self@.accounts[index as int],
    {
        &self.accounts[index]
    }

    /// The lines of the completed transactions, oldest first.
    pub fn statement_log(&self) -> (log: &str)
        ensures
            log@ == self@.statement,
    {
        self.statement.as_str()
    }

    /// How many withdrawals the session has made.
    pub fn withdrawal_count(&self) -> (count: usize)
        ensures
            count == self@.withdrawal_count,
    {
        self.withdrawal_count
    }

    /// How many withdrawals the session may make.
    pub fn withdrawal_limit(&self) -> (limit: usize)
        ensures
            limit == self@.withdrawal_limit,
    {
        self.withdrawal_limit
    }

    /// The most, in cents, that one withdrawal may take.
    pub fn limit_per_operation(&self) -> (limit: i64)
        ensures
            limit == self@.limit_per_operation,
    {
        self.limit_per_operation
    }

    /// Tells whether a user is registered under exactly this tax id.
    pub fn has_user(&self, tax_id: &str) -> (found: bool)
        ensures
            found == self@.has_tax_id(tax_id@),
    {
        let mut i: usize = 0;
        while i < self.users.len()
            invariant
                i <= self.users.len(),
                forall|j: int| 0 <= j < i ==> (#[trigger] self@.users[j]).tax_id != tax_id@,
            decreases self.users.len() - i,
        {
            if same_text(self.users[i].tax_id.as_str(), tax_id) {
                assert(self@.users[i as int].tax_id == tax_id@);
                return true;
            }
            i += 1;
        }
        false
    }

    /// Registers a user with a balance of zero, unless one is registered
    /// under the same tax id.
    pub fn create_user(
        &mut self,
        tax_id: &str,
        full_name: &str,
        birth_date: &str,
        address: &str,
    ) -> (verdict: Result<(), BankError>)
        requires
            old(self).wf(),
        ensures
            final(self).wf(),
            verdict == old(self)@.create_user_verdict(tax_id@),
            final(self)@ == old(self)@.after_create_user(
                tax_id@,
                full_name@,
                birth_date@,
                address@,
            ),
    {
        if self.has_user(tax_id) {
            return Err(BankError::DuplicateUser);
        }
        let user = User {
            full_name: String::from_str(full_name),
            birth_date: String::from_str(birth_date),
            tax_id: String::from_str(tax_id),
            address: String::from_str(address),
            balance: 0,
        };
        self.users.push(user);
        proof {
            let next = old(self)@.after_create_user(tax_id@, full_name@, birth_date@, address@);
            assert(self@.users =~= next.users);
            assert(self@.accounts =~= next.accounts);
            old(self)@.lemma_create_user_valid(tax_id@, full_name@, birth_date@, address@);
        }
        Ok(())
    }

    /// Finds the first user whose tax id is `tax_id`, white space at either
    /// end of both left aside.
    pub fn find_by_tax_id(&self, tax_id: &str) -> (found: Option<usize>)
        ensures
            owner_position(found) == self@.find_by_tax_id(tax_id@),
    {
        let key = trim(tax_id);
        let mut i: usize = 0;
        while i < self.users.len()
            invariant
                i <= self.users.len(),
                key@ == trimmed(tax_id@),
                self@.find_from(key@, 0) == self@.find_from(key@, i as int),
            decreases self.users.len() - i,
        {
            let candidate = trim(self.users[i].tax_id.as_str());
            assert(candidate@ == trimmed(self@.users[i as int].tax_id));
            if same_text(candidate, key) {
                return Some(i);
            }
            i += 1;
        }
        None
    }

    /// Creates an account for the user at position `owner`, numbered one
    /// more than there are accounts, unless `owner` names no registered user.
    pub fn create_account(&mut self, branch_code: &str, owner: Option<usize>) -> (verdict: Result<
        usize,
        BankError,
    >)
        requires
            old(self).wf(),
            old(self)@.knows(owner_position(owner)) ==> old(self)@.accounts.len() < usize::MAX,
        ensures
            final(self).wf(),
            numbered(verdict) == old(self)@.create_account_verdict(owner_position(owner)),
            final(self)@ == old(self)@.after_create_account(branch_code@, owner_position(owner)),
    {
        let position = match owner {
            Some(position) => position,
            None => {
                return Err(BankError::UserNotFound);
            },
        };
        if position >= self.users.len() {
            return Err(BankError::UserNotFound);
        }
        let account_number = self.accounts.len() + 1;
        let account = Account {
            branch_code: String::from_str(branch_code),
            account_number,
            owner: position,
        };
        self.accounts.push(account);
        proof {
            let next = old(self)@.after_create_account(branch_code@, owner_position(owner));
            assert(self@.users =~= next.users);
            assert(self@.accounts =~= next.accounts);
            old(self)@.lemma_create_account_valid(branch_code@, owner_position(owner));
        }
        Ok(account_number)
    }

    /// Lists the accounts, oldest first: the branch, the number and the
    /// owner's name of each.
    pub fn list_accounts(&self) -> (list: Vec<AccountSummary>)
        requires
            self.wf(),
        ensures
            summary_records(list@) == self@.summaries(),
    {
        let mut list: Vec<AccountSummary> = Vec::new();
        let mut k: usize = 0;
        while k < self.accounts.len()
            invariant
                self.wf(),
                k <= self.accounts.len(),
                list@.len() == k,
                forall|j: int| 0 <= j < k ==> (#[trigger] list@[j])@ == self@.summaries()[j],
            decreases self.accounts.len() - k,
        {
            let account = &self.accounts[k];
            assert(self@.accounts[k as int] == account@);
            let owner = &self.users[account.owner];
            list.push(
                AccountSummary {
                    branch_code: account.branch_code.clone(),
                    account_number: account.account_number,
                    owner_name: owner.full_name.clone(),
                },
            );
            k += 1;
        }
        assert(summary_records(list@) =~= self@.summaries());
        list
    }

    /// The account that the menu's transactions work on, the oldest; none
    /// while no account was created.
    pub fn first_account(&self) -> (verdict: Result<usize, BankError>)
        ensures
            numbered(verdict) == self@.first_account(),
    {
        if self.accounts.len() > 0 {
            Ok(0)
        } else {
            Err(BankError::NoAccounts)
        }
    }

    /// Tells whether the balance that `account` draws on can take a deposit
    /// of `amount` cents without leaving what an `i64` holds.
    pub fn deposit_fits(&self, account: usize, amount: i64) -> (fits: bool)
        requires
            self.wf(),
            self@.has_account(account as int),
        ensures
            fits == (amount > 0 ==> self@.owner_balance(account as int) + amount <= i64::MAX),
    {
        let owner = self.accounts[account].owner;
        assert(self@.accounts[account as int].owner == owner);
        assert(self@.users[owner as int].balance == self.users[owner as int].balance);
        amount <= 0 || self.users[owner].balance <= i64::MAX - amount
    }

    /// Deposits `amount` cents through `account`: raises its owner's balance
    /// and records the deposit, unless the amount is not more than nothing.
    pub fn deposit(&mut self, account: usize, amount: i64) -> (verdict: Result<(), BankError>)
        requires
            old(self).wf(),
            old(self)@.has_account(account as int),
            amount > 0 ==> old(self)@.owner_balance(account as int) + amount <= i64::MAX,
        ensures
            final(self).wf(),
            verdict == deposit_verdict(amount as int),
            final(self)@ == old(self)@.after_deposit(account as int, amount as int),
    {
        match check_deposit(amount) {
            Err(e) => Err(e),
            Ok(()) => {
                let owner = self.accounts[account].owner;
                assert(old(self)@.accounts[account as int].owner == owner);
                assert(old(self)@.users[owner as int].balance == self.users[owner as int].balance);
                let balance = self.users[owner].balance + amount;
                self.users[owner].balance = balance;
                let line = format_entry(EntryKind::Deposit, amount as u64);
                self.statement.append(line.as_str());
                proof {
                    let next = old(self)@.after_deposit(account as int, amount as int);
                    assert(self@.users =~= next.users);
                    assert(self@.accounts =~= next.accounts);
                    old(self)@.lemma_deposit_valid(account as int, amount as int);
                }
                Ok(())
            },
        }
    }

    /// Withdraws `amount` cents through `account`: lowers its owner's
    /// balance, records the withdrawal and counts it, unless a rule refuses it.
    pub fn withdraw(&mut self, account: usize, amount: i64) -> (verdict: Result<(), BankError>)
        requires
            old(self).wf(),
            old(self)@.has_account(account as int),
        ensures
            final(self).wf(),
            verdict == old(self)@.withdraw_verdict(account as int, amount as int),
            final(self)@ == old(self)@.after_withdraw(account as int, amount as int),
    {
        let owner = self.accounts[account].owner;
        assert(old(self)@.accounts[account as int].owner == owner);
        assert(old(self)@.users[owner as int].balance == self.users[owner as int].balance);
        let balance = self.users[owner].balance;
        match check_withdrawal(
            amount,
            balance,
            self.limit_per_operation,
            self.withdrawal_count,
            self.withdrawal_limit,
        ) {
            Err(e) => Err(e),
            Ok(()) => {
                self.users[owner].balance = balance - amount;
                let line = format_entry(EntryKind::Withdrawal, amount as u64);
                self.statement.append(line.as_str());
                self.withdrawal_count = self.withdrawal_count + 1;
                proof {
                    let next = old(self)@.after_withdraw(account as int, amount as int);
                    assert(self@.users =~= next.users);
                    assert(self@.accounts =~= next.accounts);
                    old(self)@.lemma_withdraw_valid(account as int, amount as int);
                }
                Ok(())
            },
        }
    }

    /// Writes the text that shows the statement and the balance that
    /// `account` draws on.
    pub fn statement(&self, account: usize) -> (text: String)
        requires
            self.wf(),
            self@.has_account(account as int),
        ensures
            text@ == self@.statement_of(account as int),
    {
        let owner = self.accounts[account].owner;
        assert(self@.accounts[account as int].owner == owner);
        assert(self@.users[owner as int].balance == self.users[owner as int].balance);
        render_statement(self.statement.as_str(), self.users[owner].balance as u64)
    }
}

/// A verdict that carries a position or a number, as a plain value.
pub open spec fn numbered(verdict: Result<usize, BankError>) -> Result<int, BankError> {
    match verdict {
        Ok(number) => Ok(number as int),
        Err(e) => Err(e),
    }
}

/// The position that `owner` names, as a plain value.
pub open spec fn owner_position(owner: Option<usize>) -> Option<int> {
    match owner {
        Some(position) => Some(position as int),
        None => None,
    }
}

} // verus!
