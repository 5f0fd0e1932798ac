use vstd::prelude::*;
use crate::account::Account;
use crate::error::ErrorCode;

verus! {

/// Why moving `amount` from a balance of `from` to a balance of `to` is
/// rejected, if it is: the source must hold the amount, and the target must
/// have room for it.
pub open spec fn transfer_error(from: u64, to: u64, amount: u64) -> Option<ErrorCode> {
    if from < amount {
        Some(ErrorCode::InsufficientFunds)
    } else if to + amount > u64::MAX {
        Some(ErrorCode::ArithmeticOverflow)
    } else {
        None
    }
}

/// Moves `amount` from the balance of one account to that of another.
///
/// Either both balances change or neither does. Nothing else of the two
/// accounts is touched.
pub fn transfer(from: &mut Account, to: &mut Account, amount: u64) -> (r: Result<(), ErrorCode>)
    ensures
        match transfer_error(old(from).balance, old(to).balance, amount) {
            Some(e) => {
                &&& r == Err::<(), ErrorCode>(e)
                &&& *final(from) == *old(from)
                &&& *final(to) == *old(to)
            },
            None => {
                &&& r is Ok
                &&& *final(from) == (Account {
                    balance: (old(from).balance - amount) as u64,
                    ..*old(from)
                })
                &&& *final(to) == (Account { balance: (old(to).balance + amount) as u64, ..*old(to) })
            },
        },
{
    let reduced = match from.balance.checked_sub(amount) {
        Some(v) => v,
        None => {
            return Err(ErrorCode::InsufficientFunds);
        },
    };
    let raised = match to.balance.checked_add(amount) {
        Some(v) => v,
        None => {
            return Err(ErrorCode::ArithmeticOverflow);
        },
    };
    from.balance = reduced;
    to.balance = raised;
    Ok(())
}

} // verus!
