//! The menu: what the operator is asked, what each line of input leads to,
//! and what is answered.
//!
//! The console is a state machine. It awaits a command or a field of a
//! command; `feed` takes one line of input, carries out what the line
//! completes, and returns the text to show. Reading and showing are the
//! caller's part.

use vstd::prelude::*;
use crate::error::BankError;
use crate::model::SessionState;
use crate::money::{amount_of, parse_amount};
use crate::rules::deposit_verdict;
use crate::session::Session;
use crate::statement::{listing_text, render_listing};
use crate::text::{same_text, trim, trimmed};

verus! {

/// What the menu offers.
#[derive(Clone, Copy, Debug, PartialEq, Eq, Structural)]
pub enum Command {
    Deposit,
    Withdraw,
    Statement,
    NewAccount,
    ListAccounts,
    NewUser,
    Quit,
}

/// What the console is waiting for.
#[derive(Clone, Copy, Debug, PartialEq, Eq, Structural)]
pub enum Awaiting {
    /// A command of the menu.
    Command,
    /// The amount of a deposit.
    DepositAmount,
    /// The amount of a withdrawal.
    WithdrawalAmount,
    /// The tax id of the user that a new account is for.
    AccountTaxId,
    /// The tax id of a new user.
    UserTaxId,
    /// The full name of a new user.
    UserName,
    /// The date of birth of a new user.
    UserBirthDate,
    /// The address of a new user.
    UserAddress,
}

/// Everything a console holds, as plain values.
pub struct ConsoleState {
    pub session: SessionState,
    pub awaiting: Awaiting,
    /// The tax id given for a new user, while its later fields are awaited.
    pub tax_id: Seq<char>,
    /// The name given for a new user, while its later fields are awaited.
    pub full_name: Seq<char>,
    /// The date of birth given for a new user, while its address is awaited.
    pub birth_date: Seq<char>,
    /// Whether the operator has quit.
    pub finished: bool,
}

/// What a line of input leads to: the console after it, and the text to show.
pub struct Step {
    pub state: ConsoleState,
    pub reply: Seq<char>,
}

/// The command that `token` names, white space at either end left aside.
pub open spec fn command_of(token: Seq<char>) -> Result<Command, BankError> {
    let t = trimmed(token);
    if t == "d"@ {
        Ok(Command::Deposit)
    } else if t == "s"@ {
        Ok(Command::Withdraw)
    } else if t == "e"@ {
        Ok(Command::Statement)
    } else if t == "nc"@ {
        Ok(Command::NewAccount)
    } else if t == "lc"@ {
        Ok(Command::ListAccounts)
    } else if t == "nu"@ {
        Ok(Command::NewUser)
    } else if t == "q"@ {
        Ok(Command::Quit)
    } else {
        Err(BankError::UnrecognizedCommand)
    }
}

/// The branch of every account that the console creates.
pub open spec fn branch_code() -> Seq<char> {
    "0001"@
}

/// The text that asks for what is awaited.
pub open spec fn prompt_text(awaiting: Awaiting) -> Seq<char> {
    match awaiting {
        Awaiting::Command => "\n================ MENU ================\n[d]\tDeposit\n[s]\tWithdraw\n[e]\tStatement\n[nc]\tNew account\n[lc]\tList accounts\n[nu]\tNew user\n[q]\tQuit\n=> "@,
        Awaiting::DepositAmount => "Enter the amount of the deposit: "@,
        Awaiting::WithdrawalAmount => "Enter the amount of the withdrawal: "@,
        Awaiting::AccountTaxId => "Enter the tax id of the user: "@,
        Awaiting::UserTaxId => "Enter the tax id (digits only): "@,
        Awaiting::UserName => "Enter the full name: "@,
        Awaiting::UserBirthDate => "Enter the date of birth (dd-mm-yyyy): "@,
        Awaiting::UserAddress => "Enter the address (street, number - district - city/state): "@,
    }
}

/// The text that reports a refusal.
pub open spec fn refusal_text(e: BankError) -> Seq<char> {
    e.message_text() + "\n"@
}

/// The text that reports how a transaction or a creation went: `done` where
/// it went through, the refusal where it did not.
pub open spec fn outcome_text(verdict: Result<(), BankError>, done: Seq<char>) -> Seq<char> {
    match verdict {
        Ok(_) => done,
        Err(e) => refusal_text(e),
    }
}

/// The text that shows a statement under its heading.
pub open spec fn headed_statement(statement: Seq<char>) -> Seq<char> {
    "================ STATEMENT ================\n"@ + statement
}

impl ConsoleState {
    /// A console that has just been started on `session`.
    pub open spec fn starting(session: SessionState) -> ConsoleState {
        ConsoleState {
            session,
            awaiting: Awaiting::Command,
            tax_id: Seq::empty(),
            full_name: Seq::empty(),
            birth_date: Seq::empty(),
            finished: false,
        }
    }

    /// The console back at the menu, with `session` in place of its own.
    pub open spec fn back_to_menu(self, session: SessionState) -> ConsoleState {
        ConsoleState { session, awaiting: Awaiting::Command, ..self }
    }

    /// The console awaiting something else.
    pub open spec fn now_awaiting(self, awaiting: Awaiting) -> ConsoleState {
        ConsoleState { awaiting, ..self }
    }

    /// What a command leads to. The commands that need a field make the
    /// console await it; the others are answered at once.
    pub open spec fn on_command(self, line: Seq<char>) -> Step {
        match command_of(line) {
            Err(e) => Step { state: self, reply: refusal_text(e) },
            Ok(Command::Deposit) => Step {
                state: self.now_awaiting(Awaiting::DepositAmount),
                reply: Seq::empty(),
            },
            Ok(Command::Withdraw) => Step {
                state: self.now_awaiting(Awaiting::WithdrawalAmount),
                reply: Seq::empty(),
            },
            Ok(Command::Statement) => Step {
                state: self,
                reply: match self.session.first_account() {
                    Ok(account) => headed_statement(self.session.statement_of(account)),
                    Err(e) => refusal_text(e),
                },
            },
            Ok(Command::NewAccount) => Step {
                state: self.now_awaiting(Awaiting::AccountTaxId),
                reply: Seq::empty(),
            },
            Ok(Command::ListAccounts) => Step {
                state: self,
                reply: listing_text(self.session.summaries()),
            },
            Ok(Command::NewUser) => Step {
                state: self.now_awaiting(Awaiting::UserTaxId),
                reply: Seq::empty(),
            },
            Ok(Command::Quit) => Step {
                state: ConsoleState { finished: true, ..self },
                reply: Seq::empty(),
            },
        }
    }

    /// What the amount of a deposit leads to: the deposit through the first
    /// account, and back to the menu.
    pub open spec fn on_deposit_amount(self, line: Seq<char>) -> Step {
        let amount = amount_of(line);
        match self.session.first_account() {
            Err(e) => Step { state: self.back_to_menu(self.session), reply: refusal_text(e) },
            Ok(account) => Step {
                state: self.back_to_menu(self.session.after_deposit(account, amount)),
                reply: outcome_text(deposit_verdict(amount), "Deposit completed.\n"@),
            },
        }
    }

    /// What the amount of a withdrawal leads to: the withdrawal through the
    /// first account, and back to the menu.
    pub open spec fn on_withdrawal_amount(self, line: Seq<char>) -> Step {
        let amount = amount_of(line);
        match self.session.first_account() {
            Err(e) => Step { state: self.back_to_menu(self.session), reply: refusal_text(e) },
            Ok(account) => Step {
                state: self.back_to_menu(self.session.after_withdraw(account, amount)),
                reply: outcome_text(
                    self.session.withdraw_verdict(account, amount),
                    "Withdrawal completed.\n"@,
                ),
            },
        }
    }

    /// What the tax id for a new account leads to: the account for the user
    /// found under it, and back to the menu.
    pub open spec fn on_account_tax_id(self, line: Seq<char>) -> Step {
        let owner = self.session.find_by_tax_id(line);
        Step {
            state: self.back_to_menu(self.session.after_create_account(branch_code(), owner)),
            reply: match self.session.create_account_verdict(owner) {
                Ok(_) => "Account created.\n"@,
                Err(e) => refusal_text(e),
            },
        }
    }

    /// What the tax id of a new user leads to: back to the menu where it is
    /// taken, on to the name where it is free.
    pub open spec fn on_user_tax_id(self, line: Seq<char>) -> Step {
        let tax_id = trimmed(line);
        match self.session.create_user_verdict(tax_id) {
            Err(e) => Step { state: self.back_to_menu(self.session), reply: refusal_text(e) },
            Ok(_) => Step {
                state: ConsoleState { awaiting: Awaiting::UserName, tax_id, ..self },
                reply: Seq::empty(),
            },
        }
    }

    /// What the address of a new user, the last field, leads to: the user
    /// registered with the fields given, and back to the menu.
    pub open spec fn on_user_address(self, line: Seq<char>) -> Step {
        Step {
            state: self.back_to_menu(
                self.session.after_create_user(
                    self.tax_id,
                    self.full_name,
                    self.birth_date,
                    trimmed(line),
                ),
            ),
            reply: outcome_text(self.session.create_user_verdict(self.tax_id), "User created.\n"@),
        }
    }

    /// What a line of input leads to. Once the operator has quit, nothing.
    pub open spec fn feed(self, line: Seq<char>) -> Step {
        if self.finished {
            Step { state: self, reply: Seq::empty() }
        } else {
            match self.awaiting {
                Awaiting::Command => self.on_command(line),
                Awaiting::DepositAmount => self.on_deposit_amount(line),
                Awaiting::WithdrawalAmount => self.on_withdrawal_amount(line),
                Awaiting::AccountTaxId => self.on_account_tax_id(line),
                Awaiting::UserTaxId => self.on_user_tax_id(line),
                Awaiting::UserName => Step {
                    state: ConsoleState {
                        awaiting: Awaiting::UserBirthDate,
                        full_name: trimmed(line),
                        ..self
                    },
                    reply: Seq::empty(),
                },
                Awaiting::UserBirthDate => Step {
                    state: ConsoleState {
                        awaiting: Awaiting::UserAddress,
                        birth_date: trimmed(line),
                        ..self
                    },
                    reply: Seq::empty(),
                },
                Awaiting::UserAddress => self.on_user_address(line),
            }
        }
    }

    /// Whether what `line` asks for stays within what the machine can hold:
    /// a deposit that goes through must leave a balance that fits an `i64`,
    /// and an account that is created a count of accounts that fits a `usize`.
    pub open spec fn within_limits(self, line: Seq<char>) -> bool {
        if self.finished {
            true
        } else {
            match self.awaiting {
                Awaiting::DepositAmount => self.session.first_account() matches Ok(account)
                    ==> amount_of(line) > 0 ==> self.session.owner_balance(account) + amount_of(
                    line,
                ) <= i64::MAX,
                Awaiting::AccountTaxId => self.session.knows(self.session.find_by_tax_id(line))
                    ==> self.session.accounts.len() < usize::MAX,
                _ => true,
            }
        }
    }
}

/// Reads a command of the menu.
pub fn parse_command(token: &str) -> (command: Result<Command, BankError>)
    ensures
        command == command_of(token@),
{
    let t = trim(token);
    if same_text(t, "d") {
        Ok(Command::Deposit)
    } else if same_text(t, "s") {
        Ok(Command::Withdraw)
    } else if same_text(t, "e") {
        Ok(Command::Statement)
    } else if same_text(t, "nc") {
        Ok(Command::NewAccount)
    } else if same_text(t, "lc") {
        Ok(Command::ListAccounts)
    } else if same_text(t, "nu") {
        Ok(Command::NewUser)
    } else if same_text(t, "q") {
        Ok(Command::Quit)
    } else {
        Err(BankError::UnrecognizedCommand)
    }
}

/// Writes the text that asks for what is awaited.
pub fn prompt_for(awaiting: Awaiting) -> (text: &'static str)
    ensures
        text@ == prompt_text(awaiting),
{
    match awaiting {
        Awaiting::Command => "\n================ MENU ================\n[d]\tDeposit\n[s]\tWithdraw\n[e]\tStatement\n[nc]\tNew account\n[lc]\tList accounts\n[nu]\tNew user\n[q]\tQuit\n=> ",
        Awaiting::DepositAmount => "Enter the amount of the deposit: ",
        Awaiting::WithdrawalAmount => "Enter the amount of the withdrawal: ",
        Awaiting::AccountTaxId => "Enter the tax id of the user: ",
        Awaiting::UserTaxId => "Enter the tax id (digits only): ",
        Awaiting::UserName => "Enter the full name: ",
        Awaiting::UserBirthDate => "Enter the date of birth (dd-mm-yyyy): ",
        Awaiting::UserAddress => "Enter the address (street, number - district - city/state): ",
    }
}

/// Writes the text that reports a refusal.
pub fn refusal(e: BankError) -> (text: String)
    ensures
        text@ == refusal_text(e),
{
    let mut text = String::from_str(e.message());
    text.append("\n");
    text
}

/// Writes the text that reports how a transaction or a creation went.
pub fn outcome(verdict: Result<(), BankError>, done: &str) -> (text: String)
    ensures
        text@ == outcome_text(verdict, done@),
{
    match verdict {
        Ok(_) => String::from_str(done),
        Err(e) => refusal(e),
    }
}

/// The menu of a banking session.
pub struct Console {
    session: Session,
    awaiting: Awaiting,
    tax_id: String,
    full_name: String,
    birth_date: String,
    finished: bool,
}

impl View for Console {
    type V = ConsoleState;

    closed spec fn view(&self) -> ConsoleState {
        ConsoleState {
            session: self.session@,
            awaiting: self.awaiting,
            tax_id: self.tax_id@,
            full_name: self.full_name@,
            birth_date: self.birth_date@,
            finished: self.finished,
        }
    }
}

impl Console {
    /// Whether the console is consistent: its session is.
    pub open spec fn wf(&self) -> bool {
        self@.session.valid()
    }

    /// Starts a console on a session with the usual limits.
    pub fn new() -> (console: Console)
        ensures
            console.wf(),
            console@ == ConsoleState::starting(Session::new_state()),
    {
        Console::on(Session::new())
    }

    /// Starts a console on `session`.
    pub fn on(session: Session) -> (console: Console)
        requires
            session.wf(),
        ensures
            console.wf(),
            console@ == ConsoleState::starting(session@),
    {
        Console {
            session,
            awaiting: Awaiting::Command,
            tax_id: String::new(),
            full_name: String::new(),
            birth_date: String::new(),
            finished: false,
        }
    }

    /// The session that the console works on.
    pub fn session(&self) -> (session: &Session)
        ensures
            session@ == self@.session,
    {
        &self.session
    }

    /// What the console is waiting for.
    pub fn awaiting(&self) -> (awaiting: Awaiting)
        ensures
            awaiting == self@.awaiting,
    {
        self.awaiting
    }

    /// Whether the operator has quit.
    pub fn finished(&self) -> (finished: bool)
        ensures
            finished == self@.finished,
    {
        self.finished
    }

    /// Writes the text that asks for what the console awaits.
    pub fn prompt(&self) -> (text: &'static str)
        ensures
            text@ == prompt_text(self@.awaiting),
    {
        prompt_for(self.awaiting)
    }

    /// Answers a command of the menu.
    fn feed_command(&mut self, line: &str) -> (reply: String)
        requires
            old(self).wf(),
        ensures
            final(self).wf(),
            final(self)@ == old(self)@.on_command(line@).state,
            reply@ == old(self)@.on_command(line@).reply,
    {
        match parse_command(line) {
            Err(e) => refusal(e),
            Ok(Command::Deposit) => {
                self.awaiting = Awaiting::DepositAmount;
                String::new()
            },
            Ok(Command::Withdraw) => {
                self.awaiting = Awaiting::WithdrawalAmount;
                String::new()
            },
            Ok(Command::Statement) => match self.session.first_account() {
                Err(e) => refusal(e),
                Ok(account) => {
                    let mut text = String::from_str(
                        "================ STATEMENT ================\n",
                    );
                    let statement = self.session.statement(account);
                    text.append(statement.as_str());
                    text
                },
            },
            Ok(Command::NewAccount) => {
                self.awaiting = Awaiting::AccountTaxId;
                String::new()
            },
            Ok(Command::ListAccounts) => {
                let list = self.session.list_accounts();
                render_listing(&list)
            },
            Ok(Command::NewUser) => {
                self.awaiting = Awaiting::UserTaxId;
                String::new()
            },
            Ok(Command::Quit) => {
                self.finished = true;
                String::new()
            },
        }
    }

    /// Makes the deposit whose amount is `line`, through the first account.
    /// Does nothing, and says so by returning nothing, where the balance
    /// would leave what an `i64` holds.
    fn feed_deposit_amount(&mut self, line: &str) -> (reply: Option<String>)
        requires
            old(self).wf(),
            !old(self)@.finished,
            old(self)@.awaiting == Awaiting::DepositAmount,
        ensures
            final(self).wf(),
            reply is Some <==> old(self)@.within_limits(line@),
            reply matches Some(text) ==> final(self)@ == old(self)@.on_deposit_amount(line@).state
                && text@ == old(self)@.on_deposit_amount(line@).reply,
            reply is None ==> final(self)@ == old(self)@,
    {
        let amount = parse_amount(line);
        match self.session.first_account() {
            Err(e) => {
                self.awaiting = Awaiting::Command;
                Some(refusal(e))
            },
            Ok(account) => {
                if !self.session.deposit_fits(account, amount) {
                    return None;
                }
                let verdict = self.session.deposit(account, amount);
                self.awaiting = Awaiting::Command;
                Some(outcome(verdict, "Deposit completed.\n"))
            },
        }
    }

    /// Makes the withdrawal whose amount is `line`, through the first account.
    fn feed_withdrawal_amount(&mut self, line: &str) -> (reply: String)
        requires
            old(self).wf(),
        ensures
            final(self).wf(),
            final(self)@ == old(self)@.on_withdrawal_amount(line@).state,
            reply@ == old(self)@.on_withdrawal_amount(line@).reply,
    {
        let amount = parse_amount(line);
        self.awaiting = Awaiting::Command;
        match self.session.first_account() {
            Err(e) => refusal(e),
            Ok(account) => {
                let verdict = self.session.withdraw(account, amount);
                outcome(verdict, "Withdrawal completed.\n")
            },
        }
    }

    /// Creates the account for the user whose tax id is `line`. Does
    /// nothing, and says so by returning nothing, where the count of accounts
    /// would leave what a `usize` holds.
    fn feed_account_tax_id(&mut self, line: &str) -> (reply: Option<String>)
        requires
            old(self).wf(),
            !old(self)@.finished,
            old(self)@.awaiting == Awaiting::AccountTaxId,
        ensures
            final(self).wf(),
            reply is Some <==> old(self)@.within_limits(line@),
            reply matches Some(text) ==> final(self)@ == old(self)@.on_account_tax_id(line@).state
                && text@ == old(self)@.on_account_tax_id(line@).reply,
            reply is None ==> final(self)@ == old(self)@,
    {
        let owner = self.session.find_by_tax_id(line);
        proof {
            self@.session.lemma_find_from(trimmed(line@), 0);
        }
        if owner.is_some() && self.session.account_count() == usize::MAX {
            return None;
        }
        let verdict = self.session.create_account("0001", owner);
        self.awaiting = Awaiting::Command;
        match verdict {
            Ok(_) => Some(String::from_str("Account created.\n")),
            Err(e) => Some(refusal(e)),
        }
    }

    /// Takes the tax id of a new user.
    fn feed_user_tax_id(&mut self, line: &str) -> (reply: String)
        requires
            old(self).wf(),
        ensures
            final(self).wf(),
            final(self)@ == old(self)@.on_user_tax_id(line@).state,
            reply@ == old(self)@.on_user_tax_id(line@).reply,
    {
        let tax_id = trim(line);
        if self.session.has_user(tax_id) {
            self.awaiting = Awaiting::Command;
            refusal(BankError::DuplicateUser)
        } else {
            self.tax_id = String::from_str(tax_id);
            self.awaiting = Awaiting::UserName;
            String::new()
        }
    }

    /// Takes the address of a new user, the last field, and registers the user.
    fn feed_user_address(&mut self, line: &str) -> (reply: String)
        requires
            old(self).wf(),
        ensures
            final(self).wf(),
            final(self)@ == old(self)@.on_user_address(line@).state,
            reply@ == old(self)@.on_user_address(line@).reply,
    {
        let verdict = self.session.create_user(
            self.tax_id.as_str(),
            self.full_name.as_str(),
            self.birth_date.as_str(),
            trim(line),
        );
        self.awaiting = Awaiting::Command;
        outcome(verdict, "User created.\n")
    }

    /// Takes one line of input, carries out what it completes, and returns
    /// the text to show. Where the line asks for more than the machine can
    /// hold (see `within_limits`), nothing is done and nothing returned.
    pub fn feed(&mut self, line: &str) -> (reply: Option<String>)
        requires
            old(self).wf(),
        ensures
            final(self).wf(),
            reply is Some <==> old(self)@.within_limits(line@),
            reply matches Some(text) ==> final(self)@ == old(self)@.feed(line@).state && text@
                == old(self)@.feed(line@).reply,
            reply is None ==> final(self)@ == old(self)@,
    {
        if self.finished {
            return Some(String::new());
        }
        match self.awaiting {
            Awaiting::Command => Some(self.feed_command(line)),
            Awaiting::DepositAmount => self.feed_deposit_amount(line),
            Awaiting::WithdrawalAmount => Some(self.feed_withdrawal_amount(line)),
            Awaiting::AccountTaxId => self.feed_account_tax_id(line),
            Awaiting::UserTaxId => Some(self.feed_user_tax_id(line)),
            Awaiting::UserName => {
                self.full_name = String::from_str(trim(line));
                self.awaiting = Awaiting::UserBirthDate;
                Some(String::new())
            },
            Awaiting::UserBirthDate => {
                self.birth_date = String::from_str(trim(line));
                self.awaiting = Awaiting::UserAddress;
                Some(String::new())
            },
            Awaiting::UserAddress => Some(self.feed_user_address(line)),
        }
    }
}

} // verus!
