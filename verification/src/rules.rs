//! The rules that decide whether a deposit or a withdrawal goes through.
//!
//! A withdrawal is checked against an ordered list of rules, and the first
//! rule that is broken names the refusal.

use vstd::prelude::*;
use crate::error::BankError;

verus! {

/// One rule of a check: whether it is broken, and the refusal it then gives.
#[derive(Clone, Copy, Debug, PartialEq, Eq, Structural)]
pub struct Rule {
    pub broken: bool,
    pub error: BankError,
}

/// The verdict on a deposit of `amount` cents: it must be more than nothing.
pub open spec fn deposit_verdict(amount: int) -> Result<(), BankError> {
    if amount > 0 {
        Ok(())
    } else {
        Err(BankError::InvalidAmount)
    }
}

/// The verdict on a withdrawal of `amount` cents from `balance`, where one
/// withdrawal may take `limit_per_operation` at most and `withdrawal_count`
/// of the `withdrawal_limit` withdrawals of the session have been made. Of
/// several reasons to refuse, the earliest below is given.
pub open spec fn withdrawal_verdict(
    amount: int,
    balance: int,
    limit_per_operation: int,
    withdrawal_count: int,
    withdrawal_limit: int,
) -> Result<(), BankError> {
    if amount > balance {
        Err(BankError::InsufficientBalance)
    } else if amount > limit_per_operation {
        Err(BankError::ExceedsPerOperationLimit)
    } else if withdrawal_count >= withdrawal_limit {
        Err(BankError::WithdrawalLimitExceeded)
    } else if amount <= 0 {
        Err(BankError::InvalidAmount)
    } else {
        Ok(())
    }
}

/// The rules of a withdrawal, in the order in which they are checked.
pub open spec fn withdrawal_rules(
    amount: int,
    balance: int,
    limit_per_operation: int,
    withdrawal_count: int,
    withdrawal_limit: int,
) -> Seq<Rule> {
    seq![
        Rule { broken: amount > balance, error: BankError::InsufficientBalance },
        Rule { broken: amount > limit_per_operation, error: BankError::ExceedsPerOperationLimit },
        Rule {
            broken: withdrawal_count >= withdrawal_limit,
            error: BankError::WithdrawalLimitExceeded,
        },
        Rule { broken: amount <= 0, error: BankError::InvalidAmount },
    ]
}

/// The refusal of the first broken rule of `rules`, if any is broken.
pub open spec fn first_broken(rules: Seq<Rule>) -> Result<(), BankError>
    decreases rules.len(),
{
    if rules.len() == 0 {
        Ok(())
    } else if rules[0].broken {
        Err(rules[0].error)
    } else {
        first_broken(rules.drop_first())
    }
}

/// Checking the rules of a withdrawal in their order gives its verdict.
pub proof fn lemma_rules_give_verdict(
    amount: int,
    balance: int,
    limit_per_operation: int,
    withdrawal_count: int,
    withdrawal_limit: int,
)
    ensures
        first_broken(
            withdrawal_rules(
                amount,
                balance,
                limit_per_operation,
                withdrawal_count,
                withdrawal_limit,
            ),
        ) == withdrawal_verdict(
            amount,
            balance,
            limit_per_operation,
            withdrawal_count,
            withdrawal_limit,
        ),
{
    let r0 = withdrawal_rules(
        amount,
        balance,
        limit_per_operation,
        withdrawal_count,
        withdrawal_limit,
    );
    let r1 = r0.drop_first();
    let r2 = r1.drop_first();
    let r3 = r2.drop_first();
    let r4 = r3.drop_first();
    assert(r1[0] == r0[1] && r2[0] == r0[2] && r3[0] == r0[3] && r4.len() == 0);
    assert(first_broken(r4) == Ok::<(), BankError>(()));
    assert(first_broken(r3) == if r0[3].broken {
        Err(r0[3].error)
    } else {
        Ok(())
    });
    assert(first_broken(r2) == if r0[2].broken {
        Err(r0[2].error)
    } else {
        first_broken(r3)
    });
    assert(first_broken(r1) == if r0[1].broken {
        Err(r0[1].error)
    } else {
        first_broken(r2)
    });
}

/// Decides on a deposit of `amount` cents.
pub fn check_deposit(amount: i64) -> (verdict: Result<(), BankError>)
    ensures
        verdict == deposit_verdict(amount as int),
{
    if amount > 0 {
        Ok(())
    } else {
        Err(BankError::InvalidAmount)
    }
}

/// Lists the rules of a withdrawal, in the order in which they are checked.
pub fn list_withdrawal_rules(
    amount: i64,
    balance: i64,
    limit_per_operation: i64,
    withdrawal_count: usize,
    withdrawal_limit: usize,
) -> (rules: [Rule; 4])
    ensures
        rules@ == withdrawal_rules(
            amount as int,
            balance as int,
            limit_per_operation as int,
            withdrawal_count as int,
            withdrawal_limit as int,
        ),
{
    let rules = [
        Rule { broken: amount > balance, error: BankError::InsufficientBalance },
        Rule { broken: amount > limit_per_operation, error: BankError::ExceedsPerOperationLimit },
        Rule {
            broken: withdrawal_count >= withdrawal_limit,
            error: BankError::WithdrawalLimitExceeded,
        },
        Rule { broken: amount <= 0, error: BankError::InvalidAmount },
    ];
    assert(rules@ =~= withdrawal_rules(
        amount as int,
        balance as int,
        limit_per_operation as int,
        withdrawal_count as int,
        withdrawal_limit as int,
    ));
    rules
}

/// Goes through `rules` in order and stops at the first that is broken.
pub fn check_rules(rules: &[Rule]) -> (verdict: Result<(), BankError>)
    ensures
        verdict == first_broken(rules@),
{
    let mut i: usize = 0;
    assert(rules@.skip(0) =~= rules@);
    while i < rules.len()
        invariant
            i <= rules.len(),
            first_broken(rules@) == first_broken(rules@.skip(i as int)),
        decreases rules.len() - i,
    {
        let rule = rules[i];
        proof {
            assert(rules@.skip(i as int)[0] == rules@[i as int]);
            assert(rules@.skip(i as int).drop_first() =~= rules@.skip(i + 1));
        }
        if rule.broken {
            return Err(rule.error);
        }
        i += 1;
    }
    Ok(())
}

/// Decides on a withdrawal of `amount` cents from `balance`.
pub fn check_withdrawal(
    amount: i64,
    balance: i64,
    limit_per_operation: i64,
    withdrawal_count: usize,
    withdrawal_limit: usize,
) -> (verdict: Result<(), BankError>)
    ensures
        verdict == withdrawal_verdict(
            amount as int,
            balance as int,
            limit_per_operation as int,
            withdrawal_count as int,
            withdrawal_limit as int,
        ),
{
    let rules = list_withdrawal_rules(
        amount,
        balance,
        limit_per_operation,
        withdrawal_count,
        withdrawal_limit,
    );
    proof {
        lemma_rules_give_verdict(
            amount as int,
            balance as int,
            limit_per_operation as int,
            withdrawal_count as int,
            withdrawal_limit as int,
        );
    }
    check_rules(rules.as_slice())
}

} // verus!
