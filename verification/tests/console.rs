use bank::console::{outcome, parse_command, prompt_for, refusal, Awaiting, Command, Console};
use bank::error::BankError;
use bank::session::Session;

const MENU: &str = "\n================ MENU ================\n[d]\tDeposit\n[s]\tWithdraw\n[e]\tStatement\n[nc]\tNew account\n[lc]\tList accounts\n[nu]\tNew user\n[q]\tQuit\n=> ";

fn say(console: &mut Console, line: &str) -> String {
    console.feed(line).expect("within what the machine holds")
}

fn console_with_account() -> Console {
    let mut console = Console::new();
    for line in ["nu", "111", "Ana Lima", "01-02-1990", "Rua A, 1", "nc", "111"] {
        say(&mut console, line);
    }
    assert_eq!(console.awaiting(), Awaiting::Command);
    assert_eq!(console.session().account_count(), 1);
    console
}

#[test]
fn commands_are_read_exactly() {
    assert_eq!(parse_command("d"), Ok(Command::Deposit));
    assert_eq!(parse_command("s"), Ok(Command::Withdraw));
    assert_eq!(parse_command("e"), Ok(Command::Statement));
    assert_eq!(parse_command("nc"), Ok(Command::NewAccount));
    assert_eq!(parse_command("lc"), Ok(Command::ListAccounts));
    assert_eq!(parse_command("nu"), Ok(Command::NewUser));
    assert_eq!(parse_command("q"), Ok(Command::Quit));
    assert_eq!(parse_command("  nc \r\n"), Ok(Command::NewAccount));
    for token in ["", " ", "D", "Q", "dd", "n c", "nc1", "x", "quit", "deposit", "d.", "\u{200b}d"] {
        assert_eq!(parse_command(token), Err(BankError::UnrecognizedCommand), "{:?}", token);
    }
}

#[test]
fn each_state_has_its_prompt() {
    assert_eq!(prompt_for(Awaiting::Command), MENU);
    assert_eq!(prompt_for(Awaiting::DepositAmount), "Enter the amount of the deposit: ");
    assert_eq!(prompt_for(Awaiting::WithdrawalAmount), "Enter the amount of the withdrawal: ");
    assert_eq!(prompt_for(Awaiting::AccountTaxId), "Enter the tax id of the user: ");
    assert_eq!(prompt_for(Awaiting::UserTaxId), "Enter the tax id (digits only): ");
    assert_eq!(prompt_for(Awaiting::UserName), "Enter the full name: ");
    assert_eq!(prompt_for(Awaiting::UserBirthDate), "Enter the date of birth (dd-mm-yyyy): ");
    assert_eq!(
        prompt_for(Awaiting::UserAddress),
        "Enter the address (street, number - district - city/state): "
    );
}

#[test]
fn outcomes_are_reported() {
    assert_eq!(refusal(BankError::NoAccounts), "Operation failed: no accounts available.\n");
    assert_eq!(outcome(Ok(()), "Done.\n"), "Done.\n");
    assert_eq!(
        outcome(Err(BankError::InvalidAmount), "Done.\n"),
        "Operation failed: invalid amount.\n"
    );
}

#[test]
fn a_console_starts_at_the_menu() {
    let console = Console::new();
    assert_eq!(console.awaiting(), Awaiting::Command);
    assert!(!console.finished());
    assert_eq!(console.prompt(), MENU);
    assert_eq!(console.session().user_count(), 0);
    assert_eq!(console.session().account_count(), 0);
    assert_eq!(console.session().withdrawal_limit(), 3);
    assert_eq!(console.session().limit_per_operation(), 50_000);
}

#[test]
fn a_console_can_start_on_a_session_under_way() {
    let mut session = Session::with_limits(10_000, 2);
    assert_eq!(session.create_user("111", "Ana", "", ""), Ok(()));
    assert_eq!(session.create_account("0001", Some(0)), Ok(1));
    assert_eq!(session.deposit(0, 30_000), Ok(()));
    let mut console = Console::on(session);
    say(&mut console, "s");
    assert_eq!(
        say(&mut console, "100.01"),
        "Operation failed: the amount exceeds limit per withdrawal.\n"
    );
    say(&mut console, "s");
    assert_eq!(say(&mut console, "100"), "Withdrawal completed.\n");
    assert_eq!(console.session().user(0).balance(), 20_000);
}

#[test]
fn an_unknown_command_is_refused_and_the_menu_stays() {
    let mut console = Console::new();
    assert_eq!(say(&mut console, "x\n"), "Invalid operation, please choose again.\n");
    assert_eq!(console.awaiting(), Awaiting::Command);
    assert!(!console.finished());
    assert_eq!(say(&mut console, "\n"), "Invalid operation, please choose again.\n");
    assert_eq!(console.prompt(), MENU);
}

#[test]
fn only_quitting_ends_the_console() {
    let mut console = Console::new();
    for line in ["d", "5", "s", "5", "e", "lc", "nc", "9", "nu", "1", "n", "b", "a", "zzz"] {
        say(&mut console, line);
        assert!(!console.finished());
    }
    assert_eq!(say(&mut console, " q \n"), "");
    assert!(console.finished());
    assert_eq!(say(&mut console, "nu"), "");
    assert!(console.finished());
    assert_eq!(console.awaiting(), Awaiting::Command);
    assert_eq!(console.session().user_count(), 1);
}

#[test]
fn quitting_while_a_field_is_awaited_is_input_for_the_field() {
    let mut console = Console::new();
    say(&mut console, "nu");
    assert_eq!(say(&mut console, "q"), "");
    assert!(!console.finished());
    assert_eq!(console.awaiting(), Awaiting::UserName);
}

#[test]
fn transactions_without_an_account_are_refused() {
    let mut console = Console::new();
    assert_eq!(say(&mut console, "d\n"), "");
    assert_eq!(console.awaiting(), Awaiting::DepositAmount);
    assert_eq!(console.prompt(), "Enter the amount of the deposit: ");
    assert_eq!(say(&mut console, "100\n"), "Operation failed: no accounts available.\n");
    assert_eq!(console.awaiting(), Awaiting::Command);
    assert_eq!(say(&mut console, "s\n"), "");
    assert_eq!(console.awaiting(), Awaiting::WithdrawalAmount);
    assert_eq!(say(&mut console, "100\n"), "Operation failed: no accounts available.\n");
    assert_eq!(console.awaiting(), Awaiting::Command);
    assert_eq!(say(&mut console, "e\n"), "Operation failed: no accounts available.\n");
    assert_eq!(console.awaiting(), Awaiting::Command);
    assert_eq!(say(&mut console, "lc\n"), "");
    assert_eq!(console.session().statement_log(), "");
}

#[test]
fn a_user_is_created_field_by_field() {
    let mut console = Console::new();
    assert_eq!(say(&mut console, "nu\n"), "");
    assert_eq!(console.awaiting(), Awaiting::UserTaxId);
    assert_eq!(say(&mut console, " 111 \n"), "");
    assert_eq!(console.awaiting(), Awaiting::UserName);
    assert_eq!(console.prompt(), "Enter the full name: ");
    assert_eq!(say(&mut console, "Ana Lima\n"), "");
    assert_eq!(console.awaiting(), Awaiting::UserBirthDate);
    assert_eq!(say(&mut console, "01-02-1990\n"), "");
    assert_eq!(console.awaiting(), Awaiting::UserAddress);
    assert_eq!(console.session().user_count(), 0);
    assert_eq!(say(&mut console, "  Rua A, 1 - Centro - Recife/PE\r\n"), "User created.\n");
    assert_eq!(console.awaiting(), Awaiting::Command);
    let session = console.session();
    assert_eq!(session.user_count(), 1);
    assert_eq!(session.user(0).tax_id(), "111");
    assert_eq!(session.user(0).full_name(), "Ana Lima");
    assert_eq!(session.user(0).birth_date(), "01-02-1990");
    assert_eq!(session.user(0).address(), "Rua A, 1 - Centro - Recife/PE");
    assert_eq!(session.user(0).balance(), 0);
}

#[test]
fn a_taken_tax_id_ends_the_creation_at_once() {
    let mut console = console_with_account();
    assert_eq!(say(&mut console, "nu"), "");
    assert_eq!(
        say(&mut console, "111\n"),
        "Operation failed: a user with this tax id already exists.\n"
    );
    assert_eq!(console.awaiting(), Awaiting::Command);
    assert_eq!(console.session().user_count(), 1);
    assert_eq!(console.session().user(0).full_name(), "Ana Lima");
}

#[test]
fn an_account_is_created_for_a_known_user_only() {
    let mut console = Console::new();
    assert_eq!(say(&mut console, "nc"), "");
    assert_eq!(console.awaiting(), Awaiting::AccountTaxId);
    assert_eq!(
        say(&mut console, "111"),
        "Operation failed: user not found, no account was created.\n"
    );
    assert_eq!(console.awaiting(), Awaiting::Command);
    assert_eq!(console.session().account_count(), 0);
    for line in ["nu", "111", "Ana Lima", "01-02-1990", "Rua A, 1"] {
        say(&mut console, line);
    }
    assert_eq!(say(&mut console, "nc"), "");
    assert_eq!(say(&mut console, "\t111\n"), "Account created.\n");
    assert_eq!(say(&mut console, "nc"), "");
    assert_eq!(say(&mut console, "111"), "Account created.\n");
    let session = console.session();
    assert_eq!(session.account_count(), 2);
    assert_eq!(session.account(0).account_number(), 1);
    assert_eq!(session.account(1).account_number(), 2);
    assert_eq!(session.account(0).branch_code(), "0001");
    assert_eq!(session.account(1).owner(), 0);
    assert_eq!(
        say(&mut console, "lc"),
        "========================================\nBranch:\t\t0001\nAccount:\t1\nHolder:\t\tAna Lima\n\
         ========================================\nBranch:\t\t0001\nAccount:\t2\nHolder:\t\tAna Lima\n"
    );
}

#[test]
fn a_deposit_is_made_and_shown() {
    let mut console = console_with_account();
    assert_eq!(
        say(&mut console, "e"),
        "================ STATEMENT ================\nNo movements recorded.\nBalance:\tR$ 0.00\n"
    );
    assert_eq!(say(&mut console, "d"), "");
    assert_eq!(say(&mut console, "100.00\n"), "Deposit completed.\n");
    assert_eq!(console.awaiting(), Awaiting::Command);
    assert_eq!(
        say(&mut console, "e"),
        "================ STATEMENT ================\nDeposit:\tR$ 100.00\nBalance:\tR$ 100.00\n"
    );
}

#[test]
fn an_amount_that_is_no_number_is_an_invalid_amount() {
    let mut console = console_with_account();
    for text in ["abc", "", "0", "-5", "1e3", "12,50"] {
        assert_eq!(say(&mut console, "d"), "");
        assert_eq!(say(&mut console, text), "Operation failed: invalid amount.\n", "{:?}", text);
        assert_eq!(console.awaiting(), Awaiting::Command);
    }
    say(&mut console, "d");
    say(&mut console, "10");
    for text in ["abc", "", "0", "-5"] {
        assert_eq!(say(&mut console, "s"), "");
        assert_eq!(say(&mut console, text), "Operation failed: invalid amount.\n", "{:?}", text);
    }
    assert_eq!(console.session().user(0).balance(), 1_000);
    assert_eq!(console.session().statement_log(), "Deposit:\tR$ 10.00\n");
    assert_eq!(console.session().withdrawal_count(), 0);
}

#[test]
fn withdrawals_follow_the_rules() {
    let mut console = console_with_account();
    say(&mut console, "d");
    assert_eq!(say(&mut console, "1000"), "Deposit completed.\n");
    say(&mut console, "s");
    assert_eq!(say(&mut console, "1000.01"), "Operation failed: insufficient balance.\n");
    say(&mut console, "s");
    assert_eq!(
        say(&mut console, "600"),
        "Operation failed: the amount exceeds limit per withdrawal.\n"
    );
    for _ in 0..3 {
        say(&mut console, "s");
        assert_eq!(say(&mut console, "200"), "Withdrawal completed.\n");
    }
    say(&mut console, "s");
    assert_eq!(say(&mut console, "1"), "Operation failed: too many withdrawals.\n");
    assert_eq!(
        say(&mut console, "e"),
        "================ STATEMENT ================\nDeposit:\tR$ 1000.00\n\
         Withdrawal:\tR$ 200.00\nWithdrawal:\tR$ 200.00\nWithdrawal:\tR$ 200.00\n\
         Balance:\tR$ 400.00\n"
    );
    assert_eq!(console.session().withdrawal_count(), 3);
}

#[test]
fn a_deposit_beyond_what_the_balance_can_hold_is_not_made() {
    let mut console = console_with_account();
    say(&mut console, "d");
    assert_eq!(say(&mut console, "92233720368547758.07"), "Deposit completed.\n");
    assert_eq!(console.session().user(0).balance(), i64::MAX);
    say(&mut console, "d");
    assert_eq!(console.feed("0.01"), None);
    assert_eq!(console.awaiting(), Awaiting::DepositAmount);
    assert_eq!(console.session().user(0).balance(), i64::MAX);
    assert_eq!(console.session().statement_log(), "Deposit:\tR$ 92233720368547758.07\n");
    assert_eq!(say(&mut console, "0"), "Operation failed: invalid amount.\n");
    assert_eq!(console.awaiting(), Awaiting::Command);
}
