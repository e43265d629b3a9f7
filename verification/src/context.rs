//! The contexts that instructions work on: the records and accounts of one request.
use vstd::prelude::*;
use crate::account::MyAccount;
use crate::commission::commission_of;
use crate::error::ErrorCode;
use crate::events::EventLog;
use crate::identity::Identity;

verus! {

/// A ledger account as the transfer path sees it: its key and its balance before the
/// request, and after an accepted request the balance that the ledger moves lead to.
#[derive(Clone, Copy, Debug, PartialEq, Eq)]
pub struct TokenAccount {
    pub key: Identity,
    pub amount: u64,
}

/// What initialization works on.
#[derive(Clone, Copy, Debug, PartialEq, Eq)]
pub struct Initialize {
    /// The record to initialize.
    pub my_account: MyAccount,
    /// The identity that will be in charge of the record.
    pub authority: Identity,
    /// The number of scheduled releases to allow, where it is to be bounded.
    pub release_limit: Option<u8>,
}

/// What a scheduled release works on.
#[derive(Debug, PartialEq, Eq)]
pub struct AutoRelease {
    /// The vesting record.
    pub my_account: MyAccount,
    /// The ledger account that holds the distribution's tokens.
    pub token_account: Identity,
    /// The ledger account that receives what is released.
    pub receiver_account: Identity,
    /// The caller.
    pub authority: Identity,
    /// The audit log of the record.
    pub log: EventLog,
}

/// What a fee-split transfer works on: the vesting record that sets rate and cap, and
/// three ledger accounts. Each balance is kept with its own account: the context stands
/// for three different accounts of one ledger.
#[derive(Debug, PartialEq, Eq)]
pub struct TransferTokens {
    /// The vesting record; a transfer reads it and leaves it as it is.
    pub my_account: MyAccount,
    /// The account to debit.
    pub source: TokenAccount,
    /// The account that receives the net amount.
    pub destination: TokenAccount,
    /// The account that receives the commission.
    pub commission_account: TokenAccount,
    /// The caller.
    pub authority: Identity,
    /// The audit log of the record.
    pub log: EventLog,
}

/// What a change of settings works on.
#[derive(Debug, PartialEq, Eq)]
pub struct AdminControl {
    /// The vesting record.
    pub my_account: MyAccount,
    /// The caller.
    pub authority: Identity,
    /// The audit log of the record.
    pub log: EventLog,
}

/// The balances of the three accounts of a transfer.
pub struct Balances {
    pub source: int,
    pub destination: int,
    pub commission_account: int,
}

impl Balances {
    /// The three balances together.
    pub open spec fn total(self) -> int {
        self.source + self.destination + self.commission_account
    }
}

impl Clone for AutoRelease {
    fn clone(&self) -> (copy: AutoRelease)
        ensures
            copy.my_account == self.my_account,
            copy.token_account == self.token_account,
            copy.receiver_account == self.receiver_account,
            copy.authority == self.authority,
            copy.log@ == self.log@,
    {
        AutoRelease {
            my_account: self.my_account,
            token_account: self.token_account,
            receiver_account: self.receiver_account,
            authority: self.authority,
            log: self.log.clone(),
        }
    }
}

impl Clone for TransferTokens {
    fn clone(&self) -> (copy: TransferTokens)
        ensures
            copy.my_account == self.my_account,
            copy.source == self.source,
            copy.destination == self.destination,
            copy.commission_account == self.commission_account,
            copy.authority == self.authority,
            copy.log@ == self.log@,
    {
        TransferTokens {
            my_account: self.my_account,
            source: self.source,
            destination: self.destination,
            commission_account: self.commission_account,
            authority: self.authority,
            log: self.log.clone(),
        }
    }
}

impl Clone for AdminControl {
    fn clone(&self) -> (copy: AdminControl)
        ensures
            copy.my_account == self.my_account,
            copy.authority == self.authority,
            copy.log@ == self.log@,
    {
        AdminControl {
            my_account: self.my_account,
            authority: self.authority,
            log: self.log.clone(),
        }
    }
}

impl TransferTokens {
    /// The commission on a transfer of `amount` at the record's rate.
    pub open spec fn commission(self, amount: u64) -> nat {
        commission_of(amount as nat, self.my_account@.commission_rate)
    }

    /// What is left of `amount` for the recipient.
    pub open spec fn net_amount(self, amount: u64) -> int {
        amount - self.commission(amount)
    }

    /// Why a transfer of `amount` is refused, if it is. The checks come in this order:
    /// source balance, cap, room in the credited balances.
    pub open spec fn rejection(self, amount: u64) -> Option<ErrorCode> {
        if self.source.amount < amount {
            Some(ErrorCode::InsufficientFunds)
        } else if self.my_account@.whale_cap matches Some(cap) && amount > cap {
            Some(ErrorCode::WhaleTransferRestricted)
        } else if self.destination.amount + self.net_amount(amount) > u64::MAX
            || self.commission_account.amount + self.commission(amount) > u64::MAX {
            Some(ErrorCode::ArithmeticOverflow)
        } else {
            None
        }
    }

    /// The balances of the three accounts.
    pub open spec fn balances(self) -> Balances {
        Balances {
            source: self.source.amount as int,
            destination: self.destination.amount as int,
            commission_account: self.commission_account.amount as int,
        }
    }

    /// The balances once a transfer of `amount` has been asked for: the source debited
    /// by the amount and the other two credited with its two parts where the transfer
    /// is accepted, all three unchanged where it is refused.
    pub open spec fn balances_after(self, amount: u64) -> Balances {
        if self.rejection(amount) is None {
            Balances {
                source: self.source.amount - amount,
                destination: self.destination.amount + self.net_amount(amount),
                commission_account: self.commission_account.amount + self.commission(amount),
            }
        } else {
            self.balances()
        }
    }
}

} // verus!
