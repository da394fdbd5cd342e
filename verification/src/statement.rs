//! The statement: the line that each completed transaction adds to it, and
//! the text in which the statement and the list of accounts are shown.

use vstd::prelude::*;
use crate::money::{amount_text, decimal_text, format_amount, push_decimal};

verus! {

/// The two kinds of transaction that a statement records.
#[derive(Clone, Copy, Debug, PartialEq, Eq, Structural)]
pub enum EntryKind {
    Deposit,
    Withdrawal,
}

/// An account as it is listed: its branch, its number and its owner's name.
pub struct AccountSummary {
    pub branch_code: String,
    pub account_number: usize,
    pub owner_name: String,
}

/// What an `AccountSummary` holds, as plain values.
pub struct SummaryRecord {
    pub branch_code: Seq<char>,
    pub account_number: int,
    pub owner_name: Seq<char>,
}

impl View for AccountSummary {
    type V = SummaryRecord;

    open spec fn view(&self) -> SummaryRecord {
        SummaryRecord {
            branch_code: self.branch_code@,
            account_number: self.account_number as int,
            owner_name: self.owner_name@,
        }
    }
}

/// The views of `list`, item by item.
pub open spec fn summary_records(list: Seq<AccountSummary>) -> Seq<SummaryRecord> {
    Seq::new(list.len(), |i: int| list[i]@)
}

/// The name under which a kind of transaction is recorded.
pub open spec fn kind_label(kind: EntryKind) -> Seq<char> {
    match kind {
        EntryKind::Deposit => "Deposit"@,
        EntryKind::Withdrawal => "Withdrawal"@,
    }
}

/// The line that a transaction of `cents` adds to the statement.
pub open spec fn entry_line(kind: EntryKind, cents: nat) -> Seq<char> {
    kind_label(kind) + ":\tR$ "@ + amount_text(cents) + "\n"@
}

/// The text that shows a statement `log` and the `balance` it led to: the
/// log as it stands, or a notice where nothing was recorded, and the balance
/// on the last line.
pub open spec fn statement_text(log: Seq<char>, balance: nat) -> Seq<char> {
    (if log.len() == 0 {
        "No movements recorded.\n"@
    } else {
        log
    }) + "Balance:\tR$ "@ + amount_text(balance) + "\n"@
}

/// The text that shows one listed account.
pub open spec fn summary_text(summary: SummaryRecord) -> Seq<char> {
    "========================================\nBranch:\t\t"@ + summary.branch_code
        + "\nAccount:\t"@ + decimal_text(summary.account_number as nat) + "\nHolder:\t\t"@
        + summary.owner_name + "\n"@
}

/// The text that shows the listed accounts, in their order.
pub open spec fn listing_text(list: Seq<SummaryRecord>) -> Seq<char>
    decreases list.len(),
{
    if list.len() == 0 {
        Seq::empty()
    } else {
        listing_text(list.drop_last()) + summary_text(list.last())
    }
}

/// Writes the line that a transaction of `cents` adds to the statement.
pub fn format_entry(kind: EntryKind, cents: u64) -> (line: String)
    ensures
        line@ == entry_line(kind, cents as nat),
{
    let label = match kind {
        EntryKind::Deposit => "Deposit",
        EntryKind::Withdrawal => "Withdrawal",
    };
    let mut line = String::from_str(label);
    line.append(":\tR$ ");
    let amount = format_amount(cents);
    line.append(amount.as_str());
    line.append("\n");
    line
}

/// Writes the text that shows a statement `log` and the `balance` it led to.
pub fn render_statement(log: &str, balance: u64) -> (text: String)
    ensures
        text@ == statement_text(log@, balance as nat),
{
    let mut text = if log.is_empty() {
        String::from_str("No movements recorded.\n")
    } else {
        String::from_str(log)
    };
    text.append("Balance:\tR$ ");
    let amount = format_amount(balance);
    text.append(amount.as_str());
    text.append("\n");
    text
}

/// Writes the text that shows the listed accounts, in their order.
pub fn render_listing(list: &Vec<AccountSummary>) -> (text: String)
    ensures
        text@ == listing_text(summary_records(list@)),
{
    let mut text = String::new();
    let ghost records = summary_records(list@);
    let mut i: usize = 0;
    while i < list.len()
        invariant
            i <= list.len(),
            records == summary_records(list@),
            text@ == listing_text(records.take(i as int)),
        decreases list.len() - i,
    {
        let summary = &list[i];
        proof {
            assert(records.take(i + 1).drop_last() =~= records.take(i as int));
            assert(records.take(i + 1).last() == summary@);
        }
        text.append("========================================\nBranch:\t\t");
        text.append(summary.branch_code.as_str());
        text.append("\nAccount:\t");
        push_decimal(&mut text, summary.account_number as u64);
        text.append("\nHolder:\t\t");
        text.append(summary.owner_name.as_str());
        text.append("\n");
        proof {
            assert(text@ =~= listing_text(records.take(i as int)) + summary_text(summary@));
        }
        i += 1;
    }
    proof {
        assert(records.take(list.len() as int) =~= records);
    }
    text
}

} // verus!
