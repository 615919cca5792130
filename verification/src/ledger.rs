//! Balances as the ledger reports them, and the one movement the engine
//! asks of it: an all-or-nothing transfer under a named authority.
//!
//! The engine holds no funds. It decides on the balances that its caller
//! read from the ledger, and the caller then asks the ledger for the
//! transfers that were decided. What is written here is when the ledger
//! grants a transfer and what a granted transfer does to the two balances.

use vstd::prelude::*;
use crate::identity::Authority;
use crate::session::ZeroRouterError;

verus! {

/// A balance on the ledger together with the authority that may debit it.
#[derive(Clone, Copy, Debug, PartialEq, Eq)]
pub struct TokenAccount {
    pub authority: Authority,
    pub amount: u64,
}

impl TokenAccount {
    /// This account after `amount` has been taken out of it.
    pub open spec fn debited(self, amount: u64) -> TokenAccount {
        TokenAccount { authority: self.authority, amount: (self.amount - amount) as u64 }
    }

    /// This account after `amount` has been paid into it.
    pub open spec fn credited(self, amount: u64) -> TokenAccount {
        TokenAccount { authority: self.authority, amount: (self.amount + amount) as u64 }
    }
}

/// A transfer goes through when `signer` is the authority of the source, the
/// source holds at least `amount`, and the destination can take it.
pub open spec fn transfer_allowed(
    from: TokenAccount,
    to: TokenAccount,
    amount: u64,
    signer: Authority,
) -> bool {
    &&& from.authority == signer
    &&& amount <= from.amount
    &&& to.amount + amount <= u64::MAX
}

/// Moves `amount` from `from` to `to` under the authority `signer`.
///
/// Either the whole amount moves, or the transfer is refused with
/// `TransferFailed` and both accounts stay as they were.
pub fn transfer(
    from: &mut TokenAccount,
    to: &mut TokenAccount,
    amount: u64,
    signer: &Authority,
) -> (r: Result<(), ZeroRouterError>)
    ensures
        transfer_allowed(*old(from), *old(to), amount, *signer) ==> {
            &&& r == Ok::<(), ZeroRouterError>(())
            &&& *final(from) == old(from).debited(amount)
            &&& *final(to) == old(to).credited(amount)
        },
        !transfer_allowed(*old(from), *old(to), amount, *signer) ==> {
            &&& r == Err::<(), ZeroRouterError>(ZeroRouterError::TransferFailed)
            &&& *final(from) == *old(from)
            &&& *final(to) == *old(to)
        },
{
    if !from.authority.same(signer) {
        return Err(ZeroRouterError::TransferFailed);
    }
    if amount > from.amount {
        return Err(ZeroRouterError::TransferFailed);
    }
    if amount > u64::MAX - to.amount {
        return Err(ZeroRouterError::TransferFailed);
    }
    from.amount = from.amount - amount;
    to.amount = to.amount + amount;
    Ok(())
}

} // verus!
