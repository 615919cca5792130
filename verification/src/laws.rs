//! What holds of the engine over whole histories of a session.

use vstd::prelude::*;
use crate::identity::Authority;
use crate::ledger::TokenAccount;
use crate::session::{Location, SessionAccount, ZeroRouterError};
use crate::zerorouter::{CloseSession, InitializeSession, Settlement};

verus! {

/// The record after the usage reports `calls`, made one after another.
pub open spec fn replay(s: SessionAccount, calls: Seq<u64>) -> SessionAccount
    decreases calls.len(),
{
    if calls.len() == 0 {
        s
    } else {
        replay(s.after_usage(calls[0]), calls.drop_first())
    }
}

/// The sum of the charges of those reports among `calls` that are accepted
/// when they are made one after another. A refused report adds nothing.
pub open spec fn accepted_total(s: SessionAccount, calls: Seq<u64>) -> int
    decreases calls.len(),
{
    if calls.len() == 0 {
        0
    } else {
        s.accepted_cost(calls[0]) + accepted_total(s.after_usage(calls[0]), calls.drop_first())
    }
}

/// The accounts that settlement finds when it follows the opening of a
/// session at once, with the provider to be paid into `provider_token`.
pub open spec fn settle_after_opening(
    opened: InitializeSession,
    provider_token: TokenAccount,
) -> CloseSession {
    CloseSession {
        session: opened.session,
        vault: opened.vault,
        payer: opened.payer,
        provider_token,
        payer_token: opened.payer_token,
    }
}

/// After any sequence of usage reports the amount owed has grown by exactly
/// the charges that were accepted, it has not shrunk, and a record that
/// kept within its deposit before still does. Nothing else in the record
/// has changed.
pub proof fn usage_adds_accepted_charges(s: SessionAccount, calls: Seq<u64>)
    ensures
        replay(s, calls).accumulated_amount == s.accumulated_amount + accepted_total(s, calls),
        accepted_total(s, calls) >= 0,
        s.wf() ==> replay(s, calls).wf(),
        replay(s, calls) == (SessionAccount {
            accumulated_amount: replay(s, calls).accumulated_amount,
            ..s
        }),
    decreases calls.len(),
{
    if calls.len() != 0 {
        let n = calls[0];
        assert(s.cost(n) >= 0) by (nonlinear_arith)
            requires
                s.cost(n) == n * s.rate_per_token,
        ;
        usage_adds_accepted_charges(s.after_usage(n), calls.drop_first());
    }
}

/// Two reports that together would overspend the deposit are never both
/// accepted, whichever is served first.
pub proof fn joint_overspend_is_never_accepted(s: SessionAccount, first: u64, second: u64)
    requires
        s.accumulated_amount + s.cost(first) + s.cost(second) > s.total_deposited,
    ensures
        !(s.usage_outcome(first) is Ok && s.after_usage(first).usage_outcome(second) is Ok),
        !(s.usage_outcome(second) is Ok && s.after_usage(second).usage_outcome(first) is Ok),
{
}

/// Of two reports on an open session that together would overspend the
/// deposit, and of which at least one could be paid alone, exactly one is
/// accepted and the other is refused with `InsufficientFunds`, whichever is
/// served first. The one served first is accepted when it can be paid
/// alone.
pub proof fn joint_overspend_accepts_exactly_one(s: SessionAccount, first: u64, second: u64)
    requires
        s.is_active,
        s.wf(),
        s.accumulated_amount + s.cost(first) + s.cost(second) > s.total_deposited,
        s.usage_outcome(first) is Ok || s.usage_outcome(second) is Ok,
    ensures
        ({
            let r1 = s.usage_outcome(first);
            let r2 = s.after_usage(first).usage_outcome(second);
            &&& (r1 is Ok) != (r2 is Ok)
            &&& r1 is Ok || r1 == Err::<(), ZeroRouterError>(ZeroRouterError::InsufficientFunds)
            &&& r2 is Ok || r2 == Err::<(), ZeroRouterError>(ZeroRouterError::InsufficientFunds)
        }),
        ({
            let r1 = s.usage_outcome(second);
            let r2 = s.after_usage(second).usage_outcome(first);
            &&& (r1 is Ok) != (r2 is Ok)
            &&& r1 is Ok || r1 == Err::<(), ZeroRouterError>(ZeroRouterError::InsufficientFunds)
            &&& r2 is Ok || r2 == Err::<(), ZeroRouterError>(ZeroRouterError::InsufficientFunds)
        }),
{
    assert(s.cost(first) >= 0 && s.cost(second) >= 0) by (nonlinear_arith)
        requires
            s.cost(first) == first * s.rate_per_token,
            s.cost(second) == second * s.rate_per_token,
    ;
}

/// Usage reports do not look at where the record lives: the same reports
/// leave the same record but for its location, which they keep.
pub proof fn usage_ignores_location(s: SessionAccount, target: Location, calls: Seq<u64>)
    ensures
        replay((SessionAccount { location: target, ..s }), calls) == (SessionAccount {
            location: target,
            ..replay(s, calls)
        }),
    decreases calls.len(),
{
    if calls.len() != 0 {
        let moved = SessionAccount { location: target, ..s };
        let n = calls[0];
        assert(moved.after_usage(n) == (SessionAccount { location: target, ..s.after_usage(n) }));
        usage_ignores_location(s.after_usage(n), target, calls.drop_first());
    }
}

/// Moving an open record to the fast context, reporting usage there and
/// moving it back leaves the very record that the same reports leave when
/// they are made in the authoritative context. Both moves are granted.
pub proof fn migration_is_transparent(s: SessionAccount, calls: Seq<u64>)
    requires
        s.is_active,
        s.location == Location::Authoritative,
    ensures
        ({
            let away = s.after_migration(Location::Fast, s.authority());
            let used = replay(away, calls);
            &&& s.migration_outcome(Location::Fast, s.authority()) is Ok
            &&& used.migration_outcome(Location::Authoritative, used.authority()) is Ok
            &&& used.after_migration(Location::Authoritative, used.authority()) == replay(s, calls)
            &&& used.accumulated_amount == replay(s, calls).accumulated_amount
        }),
{
    usage_ignores_location(s, Location::Fast, calls);
    usage_adds_accepted_charges(s, calls);
}

/// Settling a session straight after it was opened, with the provider's
/// own account named for the payout, pays the provider nothing and hands
/// the payer all that custody holds: the deposit, and whatever the custody
/// account held before. The refund is granted unless
/// that earlier balance is more than the payer's account can take. With a
/// custody account that was empty the payer's balance is what it was
/// before the session was opened.
pub proof fn opening_then_settling_refunds_all(
    ctx: InitializeSession,
    rate: u64,
    amount: u64,
    provider_token: TokenAccount,
)
    requires
        ctx.outcome(amount) is Ok,
        provider_token.authority == Authority::Party(ctx.provider),
    ensures
        ({
            let close = settle_after_opening(ctx.after(rate, amount), provider_token);
            let fits = ctx.payer_token.amount + ctx.vault.amount <= u64::MAX;
            &&& close.outcome() is Ok <==> fits
            &&& !fits ==> close.outcome() == Err::<Settlement, ZeroRouterError>(
                ZeroRouterError::TransferFailed,
            )
            &&& fits ==> {
                &&& close.outcome()->Ok_0.to_provider == 0
                &&& close.outcome()->Ok_0.to_payer == ctx.vault.amount + amount
                &&& close.after().provider_token == provider_token
                &&& close.after().payer_token.amount == ctx.payer_token.amount + ctx.vault.amount
                &&& close.after().vault.amount == 0
                &&& !close.after().session.is_active
            }
            &&& ctx.vault.amount == 0 ==> {
                &&& close.outcome() == Ok::<Settlement, ZeroRouterError>(
                    Settlement { to_provider: 0, to_payer: amount },
                )
                &&& close.after().payer_token == ctx.payer_token
            }
        }),
{
}

/// A settlement that is granted moves out of custody exactly what custody
/// held: the provider gets the amount accumulated, into an account of its
/// own, the payer the rest, into an account of its own, custody is left
/// empty, the slot vacant, and no funds appear or vanish.
/// Where custody held the deposit, the payer's share is the deposit less
/// the amount accumulated.
pub proof fn settlement_conserves_funds(ctx: CloseSession)
    requires
        ctx.outcome() is Ok,
    ensures
        ({
            let paid = ctx.outcome()->Ok_0;
            let end = ctx.after();
            &&& paid.to_provider == ctx.session.accumulated_amount
            &&& ctx.provider_token.authority == Authority::Party(ctx.session.provider)
            &&& ctx.payer_token.authority == Authority::Party(ctx.session.payer)
            &&& end.provider_token.authority == ctx.provider_token.authority
            &&& end.payer_token.authority == ctx.payer_token.authority
            &&& paid.to_provider + paid.to_payer == ctx.vault.amount
            &&& end.provider_token.amount == ctx.provider_token.amount + paid.to_provider
            &&& end.payer_token.amount == ctx.payer_token.amount + paid.to_payer
            &&& end.vault.amount == 0
            &&& end.session == SessionAccount::spec_vacant()
            &&& end.vault.amount + end.provider_token.amount + end.payer_token.amount
                == ctx.vault.amount + ctx.provider_token.amount + ctx.payer_token.amount
            &&& ctx.vault.amount == ctx.session.total_deposited ==> paid.to_payer
                == ctx.session.total_deposited - ctx.session.accumulated_amount
        }),
{
}

/// A settlement that is refused changes nothing: the session is still open
/// and can be settled again.
pub proof fn refused_settlement_changes_nothing(ctx: CloseSession)
    requires
        ctx.outcome() is Err,
    ensures
        ctx.after() == ctx,
{
}

/// Once a session is settled its slot takes no more usage, and can neither
/// be migrated nor settled again: each is refused with `SessionInactive`,
/// and the slot stays vacant.
pub proof fn settled_session_is_inactive(ctx: CloseSession, token_count: u64)
    requires
        ctx.outcome() is Ok,
    ensures
        ({
            let slot = ctx.after().session;
            &&& slot.usage_outcome(token_count) == Err::<(), ZeroRouterError>(
                ZeroRouterError::SessionInactive,
            )
            &&& slot.after_usage(token_count) == slot
            &&& ctx.after().outcome() == Err::<Settlement, ZeroRouterError>(
                ZeroRouterError::SessionInactive,
            )
        }),
{
}

/// A payout or a refund into an account that is not its party's own is
/// never granted: the settlement is refused and nothing changes.
pub proof fn foreign_destination_is_refused(ctx: CloseSession)
    requires
        ctx.provider_token.authority != Authority::Party(ctx.session.provider)
            || ctx.payer_token.authority != Authority::Party(ctx.session.payer),
    ensures
        ctx.outcome() is Err,
        ctx.after() == ctx,
        ctx.session.is_active && ctx.session.location == Location::Authoritative && ctx.payer
            == ctx.session.payer ==> ctx.outcome() == Err::<Settlement, ZeroRouterError>(
            ZeroRouterError::TransferFailed,
        ),
{
}

/// Settlement is reached from the authoritative context only.
pub proof fn settlement_needs_authoritative_context(ctx: CloseSession)
    requires
        ctx.outcome() is Ok,
    ensures
        ctx.session.is_active,
        ctx.session.location == Location::Authoritative,
{
}

/// No operation breaks the invariant of the record: after a usage report,
/// a migration, an opening or a settlement, granted or refused, a record
/// that owed no more than its deposit still owes no more than its deposit.
pub proof fn every_operation_keeps_the_invariant(
    s: SessionAccount,
    token_count: u64,
    target: Location,
    caller: Authority,
    opening: InitializeSession,
    rate: u64,
    amount: u64,
    closing: CloseSession,
)
    requires
        s.wf(),
        opening.session.wf(),
        closing.session.wf(),
    ensures
        s.after_usage(token_count).wf(),
        s.after_migration(target, caller).wf(),
        opening.after(rate, amount).session.wf(),
        closing.after().session.wf(),
{
}

/// Opening a session that is granted leaves a record that owes nothing,
/// holds `amount` as its deposit, and sits in the authoritative context;
/// custody has grown by `amount` and the payer's account has shrunk by it.
pub proof fn opening_locks_the_deposit(ctx: InitializeSession, rate: u64, amount: u64)
    requires
        ctx.outcome(amount) is Ok,
    ensures
        ({
            let end = ctx.after(rate, amount);
            &&& end.session.is_active
            &&& end.session.wf()
            &&& end.session.accumulated_amount == 0
            &&& end.session.total_deposited == amount
            &&& end.session.rate_per_token == rate
            &&& end.session.location == Location::Authoritative
            &&& end.vault.amount == ctx.vault.amount + amount
            &&& end.payer_token.amount == ctx.payer_token.amount - amount
            &&& end.vault.authority == end.session.authority()
        }),
{
}

} // verus!
