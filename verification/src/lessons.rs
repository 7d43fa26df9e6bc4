//! The checks and helpers of the lessons: a transfer's pre-checks, and the
//! longer of two keys.
use vstd::prelude::*;

verus! {

/// The errors of a transfer's pre-checks.
#[derive(Clone, Copy, Debug, PartialEq, Eq, Structural)]
pub enum MyError {
    /// The caller may not transfer.
    Unauthorized,
    /// The balance is smaller than the amount.
    InsufficientFunds,
    /// The amount is zero.
    AmountTooSmall,
}

/// The pre-checks of a transfer of `amount` out of `balance`: the amount is
/// not zero, then the balance covers it.
pub open spec fn transfer_check(amount: u64, balance: u64) -> Result<(), MyError> {
    if amount == 0 {
        Err(MyError::AmountTooSmall)
    } else if balance < amount {
        Err(MyError::InsufficientFunds)
    } else {
        Ok(())
    }
}

/// Checks that `amount` can be transferred out of `balance`.
pub fn transfer_logic(amount: u64, balance: u64) -> (r: Result<(), MyError>)
    ensures
        r == transfer_check(amount, balance),
{
    if !(amount > 0) {
        return Err(MyError::AmountTooSmall);
    }
    if !(balance >= amount) {
        return Err(MyError::InsufficientFunds);
    }
    Ok(())
}

/// A transfer passes its pre-checks exactly when the amount is positive and
/// the balance covers it.
pub proof fn lemma_transfer_passes(amount: u64, balance: u64)
    ensures
        transfer_check(amount, balance) is Ok <==> 0 < amount <= balance,
{
}

/// Which error a refused transfer gets: a zero amount is too small whatever
/// the balance; a positive amount above the balance is short of funds.
pub proof fn lemma_transfer_errors(amount: u64, balance: u64)
    ensures
        amount == 0 ==> transfer_check(amount, balance) == Err::<(), MyError>(
            MyError::AmountTooSmall,
        ),
        0 < amount && balance < amount ==> transfer_check(amount, balance) == Err::<(), MyError>(
            MyError::InsufficientFunds,
        ),
{
}

/// The key whose text is longer in bytes; `y` where they are as long.
pub fn longest_key<'a>(x: &'a str, y: &'a str) -> (r: &'a str)
    ensures
        r == (if x.len() > y.len() {
            x
        } else {
            y
        }),
{
    if x.len() > y.len() {
        x
    } else {
        y
    }
}

} // verus!
