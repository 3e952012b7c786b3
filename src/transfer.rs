use vstd::prelude::*;
use crate::error::ErrorCode;
use crate::identity::Identity;

verus! {

/// A balance-holding account as the host storage hands it to an operation.
#[derive(Clone, Copy, Debug)]
pub struct Account {
    pub key: Identity,
    pub lamports: u64,
}

/// A transfer of `amount` from a balance of `from` to one of `to` neither
/// underflows nor overflows.
pub open spec fn transfer_ok(from: u64, to: u64, amount: u64) -> bool {
    amount <= from && to + amount <= u64::MAX
}

/// Moves `amount` lamports from `from` to `to` with checked arithmetic.
/// Either both balances change or neither does.
pub fn transfer_lamports(from: &mut Account, to: &mut Account, amount: u64) -> (r: Result<(), ErrorCode>)
    ensures
        r is Ok <==> transfer_ok(old(from).lamports, old(to).lamports, amount),
        r is Ok ==> final(from).lamports == old(from).lamports - amount
            && final(to).lamports == old(to).lamports + amount,
        r is Err ==> r == Err::<(), ErrorCode>(ErrorCode::ArithmeticError)
            && final(from).lamports == old(from).lamports
            && final(to).lamports == old(to).lamports,
        final(from).key == old(from).key,
        final(to).key == old(to).key,
{
    let debited = match from.lamports.checked_sub(amount) {
        Some(v) => v,
        None => { return Err(ErrorCode::ArithmeticError); },
    };
    let credited = match to.lamports.checked_add(amount) {
        Some(v) => v,
        None => { return Err(ErrorCode::ArithmeticError); },
    };
    from.lamports = debited;
    to.lamports = credited;
    Ok(())
}

} // verus!
