//! The session record, its invariant, and what one usage report does to it.

use vstd::prelude::*;
use crate::identity::{record_authority, Authority, Identity};

verus! {

/// Why an operation on a session was refused. A refused operation leaves
/// every account as it found it.
#[derive(Clone, Copy, Debug, PartialEq, Eq, Structural)]
pub enum ZeroRouterError {
    /// A session between the two parties is already open.
    DuplicateSession,
    /// The session is not open: never opened, or already settled.
    SessionInactive,
    /// The charge would exceed what was deposited.
    InsufficientFunds,
    /// The ledger refused a transfer.
    TransferFailed,
    /// The caller may not act on this session.
    UnauthorizedCaller,
    /// The record is not in the context that the operation needs.
    MigrationConflict,
}

impl ZeroRouterError {
    /// The text shown for each error.
    pub open spec fn message_text(self) -> Seq<char> {
        match self {
            ZeroRouterError::DuplicateSession => "Session already exists"@,
            ZeroRouterError::SessionInactive => "Session is inactive"@,
            ZeroRouterError::InsufficientFunds => "Insufficient funds in session"@,
            ZeroRouterError::TransferFailed => "Transfer failed"@,
            ZeroRouterError::UnauthorizedCaller => "Caller is not authorized"@,
            ZeroRouterError::MigrationConflict => "Session is in the wrong context"@,
        }
    }

    /// A short description of the error.
    pub fn message(&self) -> (text: &'static str)
        ensures
            text@ == self.message_text(),
    {
        match self {
            ZeroRouterError::DuplicateSession => "Session already exists",
            ZeroRouterError::SessionInactive => "Session is inactive",
            ZeroRouterError::InsufficientFunds => "Insufficient funds in session",
            ZeroRouterError::TransferFailed => "Transfer failed",
            ZeroRouterError::UnauthorizedCaller => "Caller is not authorized",
            ZeroRouterError::MigrationConflict => "Session is in the wrong context",
        }
    }
}

/// Where the authoritative copy of a record lives.
#[derive(Clone, Copy, Debug, PartialEq, Eq, Structural)]
pub enum Location {
    /// The slow context, which alone may move funds.
    Authoritative,
    /// The fast context, which takes frequent usage reports.
    Fast,
}

/// The record of one session between a payer and a provider.
#[derive(Clone, Copy, Debug, PartialEq, Eq)]
pub struct SessionAccount {
    /// The party that funded the session.
    pub payer: Identity,
    /// The party that is paid for usage.
    pub provider: Identity,
    /// The price of one unit of usage.
    pub rate_per_token: u64,
    /// What the provider is owed so far.
    pub accumulated_amount: u64,
    /// What was locked into custody when the session was opened.
    pub total_deposited: u64,
    /// The byte that completes the derivation of the record's address.
    pub bump: u8,
    /// True from opening until settlement.
    pub is_active: bool,
    /// The context that holds the record.
    pub location: Location,
}

impl SessionAccount {
    /// The invariant of every record: what is owed never exceeds the deposit.
    pub open spec fn wf(self) -> bool {
        self.accumulated_amount <= self.total_deposited
    }

    /// The slot that holds no session: every field zero, inactive.
    pub open spec fn spec_vacant() -> SessionAccount {
        SessionAccount {
            payer: Identity::spec_zero(),
            provider: Identity::spec_zero(),
            rate_per_token: 0,
            accumulated_amount: 0,
            total_deposited: 0,
            bump: 0,
            is_active: false,
            location: Location::Authoritative,
        }
    }

    /// A slot that holds no session.
    pub fn vacant() -> (s: SessionAccount)
        ensures
            s == Self::spec_vacant(),
    {
        SessionAccount {
            payer: Identity::zero(),
            provider: Identity::zero(),
            rate_per_token: 0,
            accumulated_amount: 0,
            total_deposited: 0,
            bump: 0,
            is_active: false,
            location: Location::Authoritative,
        }
    }

    /// The authority under which this record's custody account is debited.
    pub open spec fn authority(self) -> Authority {
        record_authority(self.payer, self.provider)
    }

    /// The price of `token_count` units at this record's rate.
    pub open spec fn cost(self, token_count: u64) -> int {
        token_count * self.rate_per_token
    }

    /// What a report of `token_count` units is answered with.
    pub open spec fn usage_outcome(self, token_count: u64) -> Result<(), ZeroRouterError> {
        if !self.is_active {
            Err(ZeroRouterError::SessionInactive)
        } else if self.accumulated_amount + self.cost(token_count) > self.total_deposited {
            Err(ZeroRouterError::InsufficientFunds)
        } else {
            Ok(())
        }
    }

    /// The record after a report of `token_count` units: charged in full
    /// when the report is accepted, untouched when it is refused.
    pub open spec fn after_usage(self, token_count: u64) -> SessionAccount {
        if self.usage_outcome(token_count) is Ok {
            SessionAccount {
                accumulated_amount: (self.accumulated_amount + self.cost(token_count)) as u64,
                ..self
            }
        } else {
            self
        }
    }

    /// What a report of `token_count` units adds to the amount owed.
    pub open spec fn accepted_cost(self, token_count: u64) -> int {
        if self.usage_outcome(token_count) is Ok {
            self.cost(token_count)
        } else {
            0
        }
    }

    /// What a request to move the record to `target` is answered with, when
    /// it is made under the authority `caller`.
    pub open spec fn migration_outcome(self, target: Location, caller: Authority) -> Result<
        (),
        ZeroRouterError,
    > {
        if !self.is_active {
            Err(ZeroRouterError::SessionInactive)
        } else if caller != self.authority() {
            Err(ZeroRouterError::UnauthorizedCaller)
        } else if self.location == target {
            Err(ZeroRouterError::MigrationConflict)
        } else {
            Ok(())
        }
    }

    /// The record after a request to move it to `target`: relocated when
    /// the request is granted, untouched when it is refused. No other field
    /// changes, so migration moves no funds.
    pub open spec fn after_migration(self, target: Location, caller: Authority) -> SessionAccount {
        if self.migration_outcome(target, caller) is Ok {
            SessionAccount { location: target, ..self }
        } else {
            self
        }
    }

    /// Records `token_count` units of usage.
    ///
    /// The charge is `token_count` times the rate, taken without wrapping.
    /// It is added in full when the session is open and the deposit covers
    /// it; otherwise the record does not change. A charge too large for the
    /// deposit, however large, is answered with `InsufficientFunds`.
    pub fn charge(&mut self, token_count: u64) -> (r: Result<(), ZeroRouterError>)
        ensures
            r == old(self).usage_outcome(token_count),
            *final(self) == old(self).after_usage(token_count),
            final(self).accumulated_amount == old(self).accumulated_amount + old(
                self,
            ).accepted_cost(token_count),
            old(self).accumulated_amount <= final(self).accumulated_amount,
            old(self).wf() ==> final(self).wf(),
    {
        if !self.is_active {
            return Err(ZeroRouterError::SessionInactive);
        }
        assert(token_count * self.rate_per_token <= u64::MAX * u64::MAX) by (nonlinear_arith)
            requires
                token_count <= u64::MAX,
                self.rate_per_token <= u64::MAX,
        ;
        let cost: u128 = (token_count as u128) * (self.rate_per_token as u128);
        let owed: u128 = (self.accumulated_amount as u128) + cost;
        if owed > self.total_deposited as u128 {
            return Err(ZeroRouterError::InsufficientFunds);
        }
        self.accumulated_amount = owed as u64;
        Ok(())
    }

    /// Moves the record to `target` under the authority `caller`.
    ///
    /// Granted when the session is open, `caller` is the record's own
    /// authority, and the record is not already at `target`.
    pub fn migrate(&mut self, target: Location, caller: &Authority) -> (r: Result<
        (),
        ZeroRouterError,
    >)
        ensures
            r == old(self).migration_outcome(target, *caller),
            *final(self) == old(self).after_migration(target, *caller),
    {
        if !self.is_active {
            return Err(ZeroRouterError::SessionInactive);
        }
        let own = Authority::Record { payer: self.payer, provider: self.provider };
        if !caller.same(&own) {
            return Err(ZeroRouterError::UnauthorizedCaller);
        }
        if self.location == target {
            return Err(ZeroRouterError::MigrationConflict);
        }
        self.location = target;
        Ok(())
    }
}

} // verus!
