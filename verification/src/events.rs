//! Audit events, the ledger moves they name, and the append-only log that keeps them.
use vstd::prelude::*;
use crate::commission::CommissionRate;
use crate::identity::Identity;

verus! {

/// One instruction for the ledger: move `amount` from one account to another.
#[derive(Clone, Copy, Debug, PartialEq, Eq)]
pub struct LedgerMove {
    pub from: Identity,
    pub to: Identity,
    pub amount: u64,
}

/// Record of a scheduled release.
#[derive(Clone, Copy, Debug, PartialEq, Eq)]
pub struct ReleaseEvent {
    /// Who asked for the release.
    pub authority: Identity,
    /// The ledger account that holds the distribution's tokens.
    pub token_account: Identity,
    /// The ledger account that receives the released tokens.
    pub receiver_account: Identity,
    /// Tokens released by this event.
    pub amount: u64,
    /// Tokens released so far, this release included.
    pub released_tokens: u64,
    /// Tokens still unreleased after this release.
    pub remaining_supply: u64,
    /// When the release happened.
    pub release_time: i64,
    /// Scheduled releases left afterwards, where their number is bounded.
    pub releases_remaining: Option<u8>,
}

impl ReleaseEvent {
    /// The ledger move that delivers the released tokens.
    pub fn delivery(&self) -> (mv: LedgerMove)
        ensures
            mv == (LedgerMove {
                from: self.token_account,
                to: self.receiver_account,
                amount: self.amount,
            }),
    {
        LedgerMove { from: self.token_account, to: self.receiver_account, amount: self.amount }
    }
}

/// Record of a fee-split transfer.
#[derive(Clone, Copy, Debug, PartialEq, Eq)]
pub struct TransferEvent {
    /// Who asked for the transfer.
    pub authority: Identity,
    /// The account that was debited.
    pub sender: Identity,
    /// The account that received the net amount.
    pub recipient: Identity,
    /// The account that received the commission.
    pub fund: Identity,
    /// The amount debited from the sender.
    pub amount: u64,
    /// The part that went to the recipient.
    pub net_amount: u64,
    /// The part that went to the fund.
    pub commission: u64,
}

impl TransferEvent {
    /// The first leg: the net amount, from the sender to the recipient.
    pub fn net_leg(&self) -> (mv: LedgerMove)
        ensures
            mv == (LedgerMove { from: self.sender, to: self.recipient, amount: self.net_amount }),
    {
        LedgerMove { from: self.sender, to: self.recipient, amount: self.net_amount }
    }

    /// The second leg: the commission, from the sender to the fund.
    pub fn commission_leg(&self) -> (mv: LedgerMove)
        ensures
            mv == (LedgerMove { from: self.sender, to: self.fund, amount: self.commission }),
    {
        LedgerMove { from: self.sender, to: self.fund, amount: self.commission }
    }
}

/// Record of a change of the commission rate.
#[derive(Clone, Copy, Debug, PartialEq, Eq)]
pub struct RateUpdateEvent {
    /// Who changed the rate.
    pub authority: Identity,
    /// The rate before the change.
    pub previous_rate: CommissionRate,
    /// The rate since the change.
    pub new_rate: CommissionRate,
}

/// Record of a change of the cap on single transfers.
#[derive(Clone, Copy, Debug, PartialEq, Eq)]
pub struct CapUpdateEvent {
    /// Who changed the cap.
    pub authority: Identity,
    /// The cap before the change.
    pub previous_cap: Option<u64>,
    /// The cap since the change.
    pub new_cap: Option<u64>,
}

/// Any entry of the audit log.
#[derive(Clone, Copy, Debug, PartialEq, Eq)]
pub enum Event {
    Release(ReleaseEvent),
    Transfer(TransferEvent),
    RateUpdate(RateUpdateEvent),
    CapUpdate(CapUpdateEvent),
}

/// The audit log of one vesting record. Entries are only ever added at the end.
///
/// Its view is the sequence of entries, oldest first.
#[derive(Debug, PartialEq, Eq)]
pub struct EventLog {
    entries: Vec<Event>,
}

impl Clone for EventLog {
    fn clone(&self) -> (copy: EventLog)
        ensures
            copy@ == self@,
    {
        let mut entries: Vec<Event> = Vec::new();
        let mut i: usize = 0;
        while i < self.entries.len()
            invariant
                i <= self.entries@.len(),
                entries@ == self.entries@.take(i as int),
            decreases self.entries@.len() - i,
        {
            entries.push(self.entries[i]);
            i = i + 1;
        }
        EventLog { entries }
    }
}

impl View for EventLog {
    type V = Seq<Event>;

    closed spec fn view(&self) -> Seq<Event> {
        self.entries@
    }
}

impl EventLog {
    /// The log with no entry.
    pub fn new() -> (log: EventLog)
        ensures
            log@ == Seq::<Event>::empty(),
    {
        EventLog { entries: Vec::new() }
    }

    /// The number of entries.
    pub fn len(&self) -> (n: usize)
        ensures
            n == self@.len(),
    {
        self.entries.len()
    }

    /// The entry at `index`, counted from the oldest, if there is one.
    pub fn get(&self, index: usize) -> (entry: Option<Event>)
        ensures
            entry == (if index < self@.len() {
                Some(self@[index as int])
            } else {
                None
            }),
    {
        if index < self.entries.len() {
            Some(self.entries[index])
        } else {
            None
        }
    }

    /// The newest entry, if there is one.
    pub fn last(&self) -> (entry: Option<Event>)
        ensures
            entry == (if self@.len() > 0 {
                Some(self@.last())
            } else {
                None
            }),
    {
        let n: usize = self.entries.len();
        if n > 0 {
            Some(self.entries[n - 1])
        } else {
            None
        }
    }

    /// Adds `event` as the newest entry; the older ones stay as they are.
    pub fn append(&mut self, event: Event)
        ensures
            final(self)@ == old(self)@.push(event),
    {
        self.entries.push(event);
    }
}

} // verus!
