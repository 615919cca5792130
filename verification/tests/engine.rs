use zerorouter::identity::{derive_authority, signer_seeds, Authority, Identity};
use zerorouter::ledger::{transfer, TokenAccount};
use zerorouter::session::{Location, SessionAccount, ZeroRouterError};
use zerorouter::zerorouter::{
    close_session, delegate_session, initialize_session, record_usage, undelegate_session,
    CloseSession, InitializeSession, MigrateSession, RecordUsage, Settlement,
};

fn party(tag: u8) -> Identity {
    let mut bytes = [0u8; 32];
    bytes[0] = tag;
    bytes[31] = tag;
    Identity { bytes }
}

fn payer() -> Identity {
    party(1)
}

fn provider() -> Identity {
    party(2)
}

fn custody(amount: u64) -> TokenAccount {
    TokenAccount { authority: Authority::Record { payer: payer(), provider: provider() }, amount }
}

fn wallet(owner: Identity, amount: u64) -> TokenAccount {
    TokenAccount { authority: Authority::Party(owner), amount }
}

fn opening(balance: u64) -> InitializeSession {
    InitializeSession {
        session: SessionAccount::vacant(),
        vault: custody(0),
        payer: payer(),
        provider: provider(),
        payer_token: wallet(payer(), balance),
        bump: 254,
    }
}

fn opened(rate: u64, amount: u64, balance: u64) -> InitializeSession {
    let mut ctx = opening(balance);
    assert_eq!(initialize_session(&mut ctx, rate, amount), Ok(()));
    ctx
}

fn closing(from: &InitializeSession, session: SessionAccount, provider_balance: u64) -> CloseSession {
    CloseSession {
        session,
        vault: from.vault,
        payer: from.payer,
        provider_token: wallet(provider(), provider_balance),
        payer_token: from.payer_token,
    }
}

#[test]
fn initialize_writes_record_and_locks_deposit() {
    let ctx = opened(10, 1000, 5000);
    assert_eq!(ctx.session.payer, payer());
    assert_eq!(ctx.session.provider, provider());
    assert_eq!(ctx.session.rate_per_token, 10);
    assert_eq!(ctx.session.accumulated_amount, 0);
    assert_eq!(ctx.session.total_deposited, 1000);
    assert_eq!(ctx.session.bump, 254);
    assert!(ctx.session.is_active);
    assert_eq!(ctx.session.location, Location::Authoritative);
    assert_eq!(ctx.vault.amount, 1000);
    assert_eq!(ctx.payer_token.amount, 4000);
}

#[test]
fn initialize_twice_is_duplicate() {
    let mut ctx = opened(10, 1000, 5000);
    let before = ctx;
    assert_eq!(initialize_session(&mut ctx, 3, 500), Err(ZeroRouterError::DuplicateSession));
    assert_eq!(ctx, before);
}

#[test]
fn initialize_without_balance_fails_and_creates_nothing() {
    let mut ctx = opening(999);
    let before = ctx;
    assert_eq!(initialize_session(&mut ctx, 10, 1000), Err(ZeroRouterError::TransferFailed));
    assert_eq!(ctx, before);
    assert!(!ctx.session.is_active);
}

#[test]
fn initialize_from_another_partys_account_fails() {
    let mut ctx = opening(5000);
    ctx.payer_token = wallet(provider(), 5000);
    let before = ctx;
    assert_eq!(initialize_session(&mut ctx, 10, 1000), Err(ZeroRouterError::TransferFailed));
    assert_eq!(ctx, before);
}

#[test]
fn initialize_into_foreign_custody_fails() {
    let mut ctx = opening(5000);
    ctx.vault = wallet(payer(), 0);
    let before = ctx;
    assert_eq!(initialize_session(&mut ctx, 10, 1000), Err(ZeroRouterError::TransferFailed));
    assert_eq!(ctx, before);
}

#[test]
fn initialize_into_full_custody_fails() {
    let mut ctx = opening(5000);
    ctx.vault = custody(u64::MAX);
    let before = ctx;
    assert_eq!(initialize_session(&mut ctx, 10, 1), Err(ZeroRouterError::TransferFailed));
    assert_eq!(ctx, before);
}

#[test]
fn initialize_again_after_settlement() {
    let first = opened(10, 1000, 5000);
    let mut close = closing(&first, first.session, 0);
    assert!(close_session(&mut close).is_ok());
    let mut again = InitializeSession {
        session: close.session,
        vault: close.vault,
        payer: payer(),
        provider: provider(),
        payer_token: close.payer_token,
        bump: 254,
    };
    assert_eq!(initialize_session(&mut again, 2, 300), Ok(()));
    assert_eq!(again.session.total_deposited, 300);
    assert_eq!(again.vault.amount, 300);
    assert_eq!(again.payer_token.amount, 4700);
}

#[test]
fn usage_charges_count_times_rate() {
    let ctx = opened(13, 1000, 5000);
    let mut usage = RecordUsage { session: ctx.session };
    assert_eq!(record_usage(&mut usage, 7), Ok(()));
    assert_eq!(usage.session.accumulated_amount, 91);
    assert_eq!(usage.session.total_deposited, 1000);
    assert_eq!(usage.session.rate_per_token, 13);
    assert!(usage.session.is_active);
}

#[test]
fn nine_reports_succeed_and_the_tenth_overdraws() {
    let ctx = opened(10, 1000, 1000);
    let mut usage = RecordUsage { session: ctx.session };
    for k in 1..=9u64 {
        assert_eq!(record_usage(&mut usage, 10), Ok(()));
        assert_eq!(usage.session.accumulated_amount, 100 * k);
    }
    assert_eq!(usage.session.accumulated_amount, 900);
    assert_eq!(record_usage(&mut usage, 15), Err(ZeroRouterError::InsufficientFunds));
    assert_eq!(usage.session.accumulated_amount, 900);
}

#[test]
fn usage_may_exhaust_the_deposit_exactly() {
    let ctx = opened(10, 1000, 1000);
    let mut usage = RecordUsage { session: ctx.session };
    assert_eq!(record_usage(&mut usage, 100), Ok(()));
    assert_eq!(usage.session.accumulated_amount, 1000);
    assert_eq!(record_usage(&mut usage, 0), Ok(()));
    assert_eq!(record_usage(&mut usage, 1), Err(ZeroRouterError::InsufficientFunds));
    assert_eq!(usage.session.accumulated_amount, 1000);
}

#[test]
fn usage_whose_product_overflows_is_refused() {
    let ctx = opened(u64::MAX, u64::MAX, u64::MAX);
    let mut usage = RecordUsage { session: ctx.session };
    let before = usage;
    assert_eq!(record_usage(&mut usage, u64::MAX), Err(ZeroRouterError::InsufficientFunds));
    assert_eq!(usage, before);
    assert_eq!(record_usage(&mut usage, 2), Err(ZeroRouterError::InsufficientFunds));
    assert_eq!(usage, before);
    assert_eq!(record_usage(&mut usage, 1), Ok(()));
    assert_eq!(usage.session.accumulated_amount, u64::MAX);
}

#[test]
fn usage_on_vacant_slot_is_inactive() {
    let mut usage = RecordUsage { session: SessionAccount::vacant() };
    let before = usage;
    assert_eq!(record_usage(&mut usage, 0), Err(ZeroRouterError::SessionInactive));
    assert_eq!(record_usage(&mut usage, 5), Err(ZeroRouterError::SessionInactive));
    assert_eq!(usage, before);
}

#[test]
fn accumulated_equals_sum_of_accepted_charges() {
    let ctx = opened(3, 100, 100);
    let mut usage = RecordUsage { session: ctx.session };
    let calls: [u64; 6] = [10, 30, 5, 1, 0, 2];
    let mut accepted: u64 = 0;
    for n in calls {
        let before = usage.session.accumulated_amount;
        match record_usage(&mut usage, n) {
            Ok(()) => accepted += n * 3,
            Err(e) => {
                assert_eq!(e, ZeroRouterError::InsufficientFunds);
                assert_eq!(usage.session.accumulated_amount, before);
            }
        }
        assert!(usage.session.accumulated_amount <= usage.session.total_deposited);
    }
    // 30, then 90 refused, 15, 3, 0, 6.
    assert_eq!(accepted, 30 + 15 + 3 + 6);
    assert_eq!(usage.session.accumulated_amount, 54);
}

#[test]
fn joint_overspend_lets_exactly_one_through() {
    let ctx = opened(10, 1000, 1000);
    let mut start = RecordUsage { session: ctx.session };
    assert_eq!(record_usage(&mut start, 50), Ok(()));

    let mut one = start;
    assert_eq!(record_usage(&mut one, 30), Ok(()));
    assert_eq!(record_usage(&mut one, 40), Err(ZeroRouterError::InsufficientFunds));
    assert_eq!(one.session.accumulated_amount, 800);

    let mut other = start;
    assert_eq!(record_usage(&mut other, 40), Ok(()));
    assert_eq!(record_usage(&mut other, 30), Err(ZeroRouterError::InsufficientFunds));
    assert_eq!(other.session.accumulated_amount, 900);
}

#[test]
fn settle_without_usage_refunds_everything() {
    let ctx = opened(10, 1000, 5000);
    let mut close = closing(&ctx, ctx.session, 77);
    assert_eq!(close_session(&mut close), Ok(Settlement { to_provider: 0, to_payer: 1000 }));
    assert_eq!(close.provider_token.amount, 77);
    assert_eq!(close.payer_token.amount, 5000);
    assert_eq!(close.vault.amount, 0);
    assert_eq!(close.session, SessionAccount::vacant());
}

#[test]
fn settle_pays_accumulated_and_refunds_remainder() {
    let ctx = opened(10, 1000, 1000);
    let mut usage = RecordUsage { session: ctx.session };
    assert_eq!(record_usage(&mut usage, 90), Ok(()));
    assert_eq!(usage.session.accumulated_amount, 900);
    let mut close = closing(&ctx, usage.session, 0);
    assert_eq!(close_session(&mut close), Ok(Settlement { to_provider: 900, to_payer: 100 }));
    assert_eq!(close.provider_token.amount, 900);
    assert_eq!(close.payer_token.amount, 100);
    assert_eq!(close.vault.amount, 0);
    assert!(!close.session.is_active);
    assert_eq!(close.session, SessionAccount::vacant());
}

#[test]
fn settle_refunds_what_custody_holds() {
    let ctx = opened(10, 1000, 1000);
    let mut usage = RecordUsage { session: ctx.session };
    assert_eq!(record_usage(&mut usage, 25), Ok(()));
    let mut close = closing(&ctx, usage.session, 0);
    close.vault.amount = 1040;
    assert_eq!(close_session(&mut close), Ok(Settlement { to_provider: 250, to_payer: 790 }));
    assert_eq!(close.provider_token.amount, 250);
    assert_eq!(close.payer_token.amount, 790);
    assert_eq!(close.vault.amount, 0);
}

#[test]
fn usage_after_settlement_is_inactive() {
    let ctx = opened(10, 1000, 1000);
    let mut close = closing(&ctx, ctx.session, 0);
    assert!(close_session(&mut close).is_ok());
    let mut usage = RecordUsage { session: close.session };
    assert_eq!(record_usage(&mut usage, 1), Err(ZeroRouterError::SessionInactive));
    assert_eq!(usage.session.accumulated_amount, 0);
    let before = close;
    assert_eq!(close_session(&mut close), Err(ZeroRouterError::SessionInactive));
    assert_eq!(close, before);
}

#[test]
fn settle_by_another_party_is_unauthorized() {
    let ctx = opened(10, 1000, 1000);
    let mut close = closing(&ctx, ctx.session, 0);
    close.payer = provider();
    let before = close;
    assert_eq!(close_session(&mut close), Err(ZeroRouterError::UnauthorizedCaller));
    assert_eq!(close, before);
}

#[test]
fn settle_in_fast_context_is_refused() {
    let ctx = opened(10, 1000, 1000);
    let mut moved = MigrateSession {
        session: ctx.session,
        caller: derive_authority(&payer(), &provider()),
    };
    assert_eq!(delegate_session(&mut moved), Ok(()));
    let mut close = closing(&ctx, moved.session, 0);
    let before = close;
    assert_eq!(close_session(&mut close), Err(ZeroRouterError::MigrationConflict));
    assert_eq!(close, before);
}

#[test]
fn settle_fails_whole_when_provider_cannot_be_paid() {
    let ctx = opened(10, 1000, 1000);
    let mut usage = RecordUsage { session: ctx.session };
    assert_eq!(record_usage(&mut usage, 90), Ok(()));
    let mut close = closing(&ctx, usage.session, u64::MAX - 899);
    let before = close;
    assert_eq!(close_session(&mut close), Err(ZeroRouterError::TransferFailed));
    assert_eq!(close, before);
    assert!(close.session.is_active);
    close.provider_token.amount = u64::MAX - 900;
    assert_eq!(close_session(&mut close), Ok(Settlement { to_provider: 900, to_payer: 100 }));
    assert_eq!(close.provider_token.amount, u64::MAX);
}

#[test]
fn settle_fails_whole_when_payer_cannot_be_refunded() {
    let ctx = opened(10, 1000, 1000);
    let mut usage = RecordUsage { session: ctx.session };
    assert_eq!(record_usage(&mut usage, 90), Ok(()));
    let mut close = closing(&ctx, usage.session, 5);
    close.payer_token.amount = u64::MAX - 99;
    let before = close;
    assert_eq!(close_session(&mut close), Err(ZeroRouterError::TransferFailed));
    assert_eq!(close, before);
    assert_eq!(close.provider_token.amount, 5);
    assert_eq!(close.vault.amount, 1000);
}

#[test]
fn settle_fails_when_custody_is_short_or_foreign() {
    let ctx = opened(10, 1000, 1000);
    let mut usage = RecordUsage { session: ctx.session };
    assert_eq!(record_usage(&mut usage, 90), Ok(()));

    let mut short = closing(&ctx, usage.session, 0);
    short.vault.amount = 899;
    let before = short;
    assert_eq!(close_session(&mut short), Err(ZeroRouterError::TransferFailed));
    assert_eq!(short, before);

    let mut foreign = closing(&ctx, usage.session, 0);
    foreign.vault.authority = Authority::Party(payer());
    let before = foreign;
    assert_eq!(close_session(&mut foreign), Err(ZeroRouterError::TransferFailed));
    assert_eq!(foreign, before);
}

#[test]
fn settle_into_a_foreign_payout_account_is_refused() {
    let ctx = opened(10, 1000, 1000);
    let mut usage = RecordUsage { session: ctx.session };
    assert_eq!(record_usage(&mut usage, 90), Ok(()));
    for foreign in [
        wallet(payer(), 0),
        wallet(party(9), 0),
        custody(0),
        TokenAccount { authority: derive_authority(&provider(), &payer()), amount: 0 },
    ] {
        let mut close = closing(&ctx, usage.session, 0);
        close.provider_token = foreign;
        let before = close;
        assert_eq!(close_session(&mut close), Err(ZeroRouterError::TransferFailed));
        assert_eq!(close, before);
        assert!(close.session.is_active);
        assert_eq!(close.provider_token.amount, 0);
        assert_eq!(close.vault.amount, 1000);
    }
}

#[test]
fn settle_into_a_foreign_refund_account_is_refused() {
    let ctx = opened(10, 1000, 1000);
    let mut usage = RecordUsage { session: ctx.session };
    assert_eq!(record_usage(&mut usage, 90), Ok(()));
    for foreign in [wallet(provider(), 0), wallet(party(9), 0), custody(0)] {
        let mut close = closing(&ctx, usage.session, 0);
        close.payer_token = foreign;
        let before = close;
        assert_eq!(close_session(&mut close), Err(ZeroRouterError::TransferFailed));
        assert_eq!(close, before);
        assert!(close.session.is_active);
        assert_eq!(close.vault.amount, 1000);
    }
}

#[test]
fn settle_without_usage_still_checks_the_destinations() {
    let ctx = opened(10, 1000, 1000);
    let mut close = closing(&ctx, ctx.session, 0);
    close.provider_token = wallet(payer(), 0);
    let before = close;
    assert_eq!(close_session(&mut close), Err(ZeroRouterError::TransferFailed));
    assert_eq!(close, before);
    close.provider_token = wallet(provider(), 0);
    assert_eq!(close_session(&mut close), Ok(Settlement { to_provider: 0, to_payer: 1000 }));
}

#[test]
fn settle_with_nothing_in_custody_moves_nothing() {
    let ctx = opened(10, 0, 50);
    let mut close = closing(&ctx, ctx.session, 3);
    assert_eq!(close_session(&mut close), Ok(Settlement { to_provider: 0, to_payer: 0 }));
    assert_eq!(close.provider_token.amount, 3);
    assert_eq!(close.payer_token.amount, 50);
    assert_eq!(close.session, SessionAccount::vacant());
}

#[test]
fn migration_round_trip_keeps_the_charges() {
    let ctx = opened(10, 1000, 1000);
    let authority = derive_authority(&payer(), &provider());

    let mut direct = RecordUsage { session: ctx.session };
    assert_eq!(record_usage(&mut direct, 20), Ok(()));
    assert_eq!(record_usage(&mut direct, 90), Err(ZeroRouterError::InsufficientFunds));
    assert_eq!(record_usage(&mut direct, 35), Ok(()));

    let mut moved = MigrateSession { session: ctx.session, caller: authority };
    assert_eq!(delegate_session(&mut moved), Ok(()));
    assert_eq!(moved.session.location, Location::Fast);
    let mut fast = RecordUsage { session: moved.session };
    assert_eq!(record_usage(&mut fast, 20), Ok(()));
    assert_eq!(record_usage(&mut fast, 90), Err(ZeroRouterError::InsufficientFunds));
    assert_eq!(record_usage(&mut fast, 35), Ok(()));
    let mut back = MigrateSession { session: fast.session, caller: authority };
    assert_eq!(undelegate_session(&mut back), Ok(()));

    assert_eq!(back.session.accumulated_amount, 550);
    assert_eq!(back.session, direct.session);
    assert_eq!(back.session.location, Location::Authoritative);
}

#[test]
fn migration_changes_only_the_location() {
    let ctx = opened(10, 1000, 1000);
    let mut moved = MigrateSession {
        session: ctx.session,
        caller: derive_authority(&payer(), &provider()),
    };
    assert_eq!(delegate_session(&mut moved), Ok(()));
    let expected = SessionAccount { location: Location::Fast, ..ctx.session };
    assert_eq!(moved.session, expected);
}

#[test]
fn migration_to_the_current_context_conflicts() {
    let ctx = opened(10, 1000, 1000);
    let authority = derive_authority(&payer(), &provider());
    let mut moved = MigrateSession { session: ctx.session, caller: authority };
    assert_eq!(undelegate_session(&mut moved), Err(ZeroRouterError::MigrationConflict));
    assert_eq!(moved.session, ctx.session);
    assert_eq!(delegate_session(&mut moved), Ok(()));
    let before = moved;
    assert_eq!(delegate_session(&mut moved), Err(ZeroRouterError::MigrationConflict));
    assert_eq!(moved, before);
}

#[test]
fn migration_without_the_records_authority_is_unauthorized() {
    let ctx = opened(10, 1000, 1000);
    let callers = [
        Authority::Party(payer()),
        Authority::Party(provider()),
        derive_authority(&provider(), &payer()),
        derive_authority(&payer(), &party(9)),
    ];
    for caller in callers {
        let mut moved = MigrateSession { session: ctx.session, caller };
        assert_eq!(delegate_session(&mut moved), Err(ZeroRouterError::UnauthorizedCaller));
        assert_eq!(moved.session, ctx.session);
        assert_eq!(undelegate_session(&mut moved), Err(ZeroRouterError::UnauthorizedCaller));
        assert_eq!(moved.session, ctx.session);
    }
}

#[test]
fn migration_of_a_vacant_slot_is_inactive() {
    let mut moved = MigrateSession {
        session: SessionAccount::vacant(),
        caller: derive_authority(&payer(), &provider()),
    };
    assert_eq!(delegate_session(&mut moved), Err(ZeroRouterError::SessionInactive));
    assert_eq!(undelegate_session(&mut moved), Err(ZeroRouterError::SessionInactive));
    assert_eq!(moved.session, SessionAccount::vacant());
}

#[test]
fn transfer_moves_the_whole_amount_or_nothing() {
    let mut from = wallet(payer(), 10);
    let mut to = wallet(provider(), 1);
    assert_eq!(transfer(&mut from, &mut to, 4, &Authority::Party(payer())), Ok(()));
    assert_eq!((from.amount, to.amount), (6, 5));
    assert_eq!(
        transfer(&mut from, &mut to, 7, &Authority::Party(payer())),
        Err(ZeroRouterError::TransferFailed)
    );
    assert_eq!(
        transfer(&mut from, &mut to, 1, &Authority::Party(provider())),
        Err(ZeroRouterError::TransferFailed)
    );
    to.amount = u64::MAX - 5;
    assert_eq!(
        transfer(&mut from, &mut to, 6, &Authority::Party(payer())),
        Err(ZeroRouterError::TransferFailed)
    );
    assert_eq!((from.amount, to.amount), (6, u64::MAX - 5));
    assert_eq!(transfer(&mut from, &mut to, 5, &Authority::Party(payer())), Ok(()));
    assert_eq!((from.amount, to.amount), (1, u64::MAX));
    assert_eq!(from.authority, Authority::Party(payer()));
    assert_eq!(to.authority, Authority::Party(provider()));
}

#[test]
fn authority_is_derived_from_the_pair() {
    let a = derive_authority(&payer(), &provider());
    assert_eq!(a, Authority::Record { payer: payer(), provider: provider() });
    assert!(a.same(&derive_authority(&payer(), &provider())));
    assert!(!a.same(&derive_authority(&provider(), &payer())));
    assert!(!a.same(&Authority::Party(payer())));
    assert!(Authority::Party(payer()).same(&Authority::Party(payer())));
    assert!(!Authority::Party(payer()).same(&Authority::Party(provider())));
}

#[test]
fn identities_compare_by_every_byte() {
    let mut a = party(1);
    let b = party(1);
    assert!(a.same(&b));
    a.bytes[17] = 1;
    assert!(!a.same(&b));
    assert!(Identity::zero().same(&Identity { bytes: [0u8; 32] }));
}

#[test]
fn seeds_are_tag_payer_provider_bump() {
    let seeds = signer_seeds(&payer(), &provider(), 254);
    assert_eq!(seeds.len(), 4);
    assert_eq!(seeds[0], b"session_v1".to_vec());
    assert_eq!(seeds[1], payer().bytes.to_vec());
    assert_eq!(seeds[2], provider().bytes.to_vec());
    assert_eq!(seeds[3], vec![254u8]);
    assert_ne!(seeds, signer_seeds(&provider(), &payer(), 254));
}

#[test]
fn vacant_slot_is_all_zero() {
    let s = SessionAccount::vacant();
    assert_eq!(s.payer.bytes, [0u8; 32]);
    assert_eq!(s.provider.bytes, [0u8; 32]);
    assert_eq!(s.rate_per_token, 0);
    assert_eq!(s.accumulated_amount, 0);
    assert_eq!(s.total_deposited, 0);
    assert_eq!(s.bump, 0);
    assert!(!s.is_active);
    assert_eq!(s.location, Location::Authoritative);
}

#[test]
fn every_error_has_its_message() {
    assert_eq!(ZeroRouterError::SessionInactive.message(), "Session is inactive");
    assert_eq!(ZeroRouterError::InsufficientFunds.message(), "Insufficient funds in session");
    assert_eq!(ZeroRouterError::DuplicateSession.message(), "Session already exists");
    assert_eq!(ZeroRouterError::TransferFailed.message(), "Transfer failed");
    assert_eq!(ZeroRouterError::UnauthorizedCaller.message(), "Caller is not authorized");
    assert_eq!(ZeroRouterError::MigrationConflict.message(), "Session is in the wrong context");
}
