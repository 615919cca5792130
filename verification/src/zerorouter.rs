//! The operations of the session engine: open, report usage, migrate, settle.
//!
//! Each operation takes the accounts it touches as plain values, and either
//! applies in full or refuses and leaves them as they were.

use vstd::prelude::*;
use crate::identity::{derive_authority, record_authority, Authority, Identity};
use crate::ledger::{transfer, transfer_allowed, TokenAccount};
use crate::session::{Location, SessionAccount, ZeroRouterError};

verus! {

/// The accounts that opening a session touches.
#[derive(Clone, Copy, Debug, PartialEq, Eq)]
pub struct InitializeSession {
    /// The slot of the record between `payer` and `provider`.
    pub session: SessionAccount,
    /// The custody account, held under the record's authority.
    pub vault: TokenAccount,
    /// The party that signs for the deposit.
    pub payer: Identity,
    /// The party to be paid.
    pub provider: Identity,
    /// The account that the deposit is taken from.
    pub payer_token: TokenAccount,
    /// The byte that completes the derivation of the record's address.
    pub bump: u8,
}

/// The account that a usage report touches.
#[derive(Clone, Copy, Debug, PartialEq, Eq)]
pub struct RecordUsage {
    pub session: SessionAccount,
}

/// The record to relocate, and the authority under which the request is made.
#[derive(Clone, Copy, Debug, PartialEq, Eq)]
pub struct MigrateSession {
    pub session: SessionAccount,
    pub caller: Authority,
}

/// The accounts that settlement touches.
#[derive(Clone, Copy, Debug, PartialEq, Eq)]
pub struct CloseSession {
    /// The record to settle.
    pub session: SessionAccount,
    /// The custody account of the record.
    pub vault: TokenAccount,
    /// The party that asks for settlement.
    pub payer: Identity,
    /// Where the provider is paid.
    pub provider_token: TokenAccount,
    /// Where the payer is refunded.
    pub payer_token: TokenAccount,
}

/// What a settlement moved out of custody.
#[derive(Clone, Copy, Debug, PartialEq, Eq, Structural)]
pub struct Settlement {
    /// Paid to the provider: the amount accumulated.
    pub to_provider: u64,
    /// Refunded to the payer: whatever custody held beyond that.
    pub to_payer: u64,
}

impl InitializeSession {
    /// The deposit can be locked when custody is under the record's own
    /// authority and the ledger lets the payer move `amount` into it.
    pub open spec fn funding_allowed(self, amount: u64) -> bool {
        &&& self.vault.authority == record_authority(self.payer, self.provider)
        &&& transfer_allowed(self.payer_token, self.vault, amount, Authority::Party(self.payer))
    }

    /// What a request to open the session is answered with.
    pub open spec fn outcome(self, amount: u64) -> Result<(), ZeroRouterError> {
        if self.session.is_active {
            Err(ZeroRouterError::DuplicateSession)
        } else if !self.funding_allowed(amount) {
            Err(ZeroRouterError::TransferFailed)
        } else {
            Ok(())
        }
    }

    /// The record that opening the session writes.
    pub open spec fn opened(self, rate: u64, amount: u64) -> SessionAccount {
        SessionAccount {
            payer: self.payer,
            provider: self.provider,
            rate_per_token: rate,
            accumulated_amount: 0,
            total_deposited: amount,
            bump: self.bump,
            is_active: true,
            location: Location::Authoritative,
        }
    }

    /// The accounts after a request to open the session: record written
    /// and deposit locked when it is granted, untouched when it is refused.
    pub open spec fn after(self, rate: u64, amount: u64) -> InitializeSession {
        if self.outcome(amount) is Ok {
            InitializeSession {
                session: self.opened(rate, amount),
                vault: self.vault.credited(amount),
                payer_token: self.payer_token.debited(amount),
                ..self
            }
        } else {
            self
        }
    }
}

impl CloseSession {
    /// What custody holds beyond the amount owed to the provider.
    pub open spec fn remainder(self) -> int {
        self.vault.amount - self.session.accumulated_amount
    }

    /// Each share goes to the party it is owed to: the account to be paid
    /// is the provider's own, and the account to be refunded is the
    /// payer's own.
    pub open spec fn destinations_owned(self) -> bool {
        &&& self.provider_token.authority == Authority::Party(self.session.provider)
        &&& self.payer_token.authority == Authority::Party(self.session.payer)
    }

    /// Both payments can be made: custody covers what is owed, and the
    /// ledger lets the record pay each party its share. A share of zero
    /// asks for no transfer.
    pub open spec fn payments_allowed(self) -> bool {
        let owed = self.session.accumulated_amount;
        let signer = self.session.authority();
        &&& owed <= self.vault.amount
        &&& owed > 0 ==> transfer_allowed(self.vault, self.provider_token, owed, signer)
        &&& self.remainder() > 0 ==> transfer_allowed(
            self.vault.debited(owed),
            self.payer_token,
            self.remainder() as u64,
            signer,
        )
    }

    /// What a request to settle is answered with.
    pub open spec fn outcome(self) -> Result<Settlement, ZeroRouterError> {
        if !self.session.is_active {
            Err(ZeroRouterError::SessionInactive)
        } else if self.session.location != Location::Authoritative {
            Err(ZeroRouterError::MigrationConflict)
        } else if self.payer != self.session.payer {
            Err(ZeroRouterError::UnauthorizedCaller)
        } else if !self.destinations_owned() {
            Err(ZeroRouterError::TransferFailed)
        } else if !self.payments_allowed() {
            Err(ZeroRouterError::TransferFailed)
        } else {
            Ok(
                Settlement {
                    to_provider: self.session.accumulated_amount,
                    to_payer: self.remainder() as u64,
                },
            )
        }
    }

    /// The accounts after a request to settle: both parties paid, custody
    /// empty and the slot vacant when it is granted, untouched when it is
    /// refused.
    pub open spec fn after(self) -> CloseSession {
        if self.outcome() is Ok {
            CloseSession {
                session: SessionAccount::spec_vacant(),
                vault: TokenAccount { authority: self.vault.authority, amount: 0 },
                provider_token: self.provider_token.credited(self.session.accumulated_amount),
                payer_token: self.payer_token.credited(self.remainder() as u64),
                ..self
            }
        } else {
            self
        }
    }
}

/// Opens the session between `ctx.payer` and `ctx.provider` at `rate` per
/// unit, locking `amount` from the payer's account into custody.
///
/// Refused with `DuplicateSession` while the slot holds an open session,
/// and with `TransferFailed` when the deposit cannot be locked. When it is
/// refused no record is written and no funds move.
pub fn initialize_session(ctx: &mut InitializeSession, rate: u64, amount: u64) -> (r: Result<
    (),
    ZeroRouterError,
>)
    ensures
        r == old(ctx).outcome(amount),
        *final(ctx) == old(ctx).after(rate, amount),
        r is Ok ==> final(ctx).session.wf(),
{
    if ctx.session.is_active {
        return Err(ZeroRouterError::DuplicateSession);
    }
    let custody = derive_authority(&ctx.payer, &ctx.provider);
    if !ctx.vault.authority.same(&custody) {
        return Err(ZeroRouterError::TransferFailed);
    }
    let signer = Authority::Party(ctx.payer);
    match transfer(&mut ctx.payer_token, &mut ctx.vault, amount, &signer) {
        Ok(()) => {},
        Err(e) => {
            return Err(e);
        },
    }
    ctx.session = SessionAccount {
        payer: ctx.payer,
        provider: ctx.provider,
        rate_per_token: rate,
        accumulated_amount: 0,
        total_deposited: amount,
        bump: ctx.bump,
        is_active: true,
        location: Location::Authoritative,
    };
    Ok(())
}

/// Records `token_count` units of usage against the session.
///
/// The charge is `token_count` times the rate. It is added in full when the
/// session is open and the deposit covers it. Otherwise the record does not
/// change: `SessionInactive` when the session is not open, and
/// `InsufficientFunds` when the deposit does not cover the charge, however
/// large the product is. No funds move.
pub fn record_usage(ctx: &mut RecordUsage, token_count: u64) -> (r: Result<(), ZeroRouterError>)
    ensures
        r == old(ctx).session.usage_outcome(token_count),
        final(ctx).session == old(ctx).session.after_usage(token_count),
        final(ctx).session.accumulated_amount == old(ctx).session.accumulated_amount + old(
            ctx,
        ).session.accepted_cost(token_count),
        old(ctx).session.accumulated_amount <= final(ctx).session.accumulated_amount,
        old(ctx).session.wf() ==> final(ctx).session.wf(),
{
    ctx.session.charge(token_count)
}

/// Moves the record to the fast context.
///
/// Refused with `SessionInactive` when the session is not open, with
/// `UnauthorizedCaller` when `ctx.caller` is not the record's own authority,
/// and with `MigrationConflict` when the record is already there. Only the
/// location changes.
pub fn delegate_session(ctx: &mut MigrateSession) -> (r: Result<(), ZeroRouterError>)
    ensures
        r == old(ctx).session.migration_outcome(Location::Fast, old(ctx).caller),
        final(ctx).session == old(ctx).session.after_migration(Location::Fast, old(ctx).caller),
        final(ctx).caller == old(ctx).caller,
{
    let caller = ctx.caller;
    ctx.session.migrate(Location::Fast, &caller)
}

/// Moves the record back to the authoritative context.
///
/// Refused with `SessionInactive` when the session is not open, with
/// `UnauthorizedCaller` when `ctx.caller` is not the record's own authority,
/// and with `MigrationConflict` when the record is already there. Only the
/// location changes.
pub fn undelegate_session(ctx: &mut MigrateSession) -> (r: Result<(), ZeroRouterError>)
    ensures
        r == old(ctx).session.migration_outcome(Location::Authoritative, old(ctx).caller),
        final(ctx).session == old(ctx).session.after_migration(
            Location::Authoritative,
            old(ctx).caller,
        ),
        final(ctx).caller == old(ctx).caller,
{
    let caller = ctx.caller;
    ctx.session.migrate(Location::Authoritative, &caller)
}

/// Settles the session: pays the provider what has accumulated, refunds
/// the payer whatever custody then still holds, and vacates the slot.
///
/// Only the payer may ask, and only while the record is in the
/// authoritative context. The provider is paid into an account of its own
/// and the payer refunded into an account of its own: any other
/// destination is refused, whatever the shares are. A share of zero moves
/// nothing. When a destination is not its party's, or either payment
/// cannot be made, the answer is `TransferFailed`, nothing has moved, and
/// the session is still open.
pub fn close_session(ctx: &mut CloseSession) -> (r: Result<Settlement, ZeroRouterError>)
    ensures
        r == old(ctx).outcome(),
        *final(ctx) == old(ctx).after(),
{
    if !ctx.session.is_active {
        return Err(ZeroRouterError::SessionInactive);
    }
    if ctx.session.location != Location::Authoritative {
        return Err(ZeroRouterError::MigrationConflict);
    }
    if !ctx.payer.same(&ctx.session.payer) {
        return Err(ZeroRouterError::UnauthorizedCaller);
    }
    let to_provider = Authority::Party(ctx.session.provider);
    if !ctx.provider_token.authority.same(&to_provider) {
        return Err(ZeroRouterError::TransferFailed);
    }
    let to_payer = Authority::Party(ctx.session.payer);
    if !ctx.payer_token.authority.same(&to_payer) {
        return Err(ZeroRouterError::TransferFailed);
    }
    let signer = derive_authority(&ctx.session.payer, &ctx.session.provider);
    let owed: u64 = ctx.session.accumulated_amount;
    let mut vault = ctx.vault;
    let mut provider_token = ctx.provider_token;
    let mut payer_token = ctx.payer_token;

    // Pay the provider what has accumulated.
    if owed > 0 {
        match transfer(&mut vault, &mut provider_token, owed, &signer) {
            Ok(()) => {},
            Err(e) => {
                return Err(e);
            },
        }
    }
    // Refund the payer whatever is left in custody.
    let remaining: u64 = vault.amount;
    if remaining > 0 {
        match transfer(&mut vault, &mut payer_token, remaining, &signer) {
            Ok(()) => {},
            Err(e) => {
                return Err(e);
            },
        }
    }
    ctx.vault = vault;
    ctx.provider_token = provider_token;
    ctx.payer_token = payer_token;
    ctx.session = SessionAccount::vacant();
    Ok(Settlement { to_provider: owed, to_payer: remaining })
}

} // verus!
