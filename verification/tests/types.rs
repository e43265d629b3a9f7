use glaucoin_contract::account::MyAccount;
use glaucoin_contract::commission::CommissionRate;
use glaucoin_contract::error::ErrorCode;
use glaucoin_contract::events::{CapUpdateEvent, Event, EventLog};
use glaucoin_contract::identity::{Identity, IDENTITY_LEN};

fn key(byte: u8) -> Identity {
    Identity::new([byte; 32])
}

fn cap_event(cap: u64) -> Event {
    Event::CapUpdate(CapUpdateEvent { authority: key(1), previous_cap: None, new_cap: Some(cap) })
}

#[test]
fn identity_keeps_its_bytes() {
    let mut bytes = [0u8; 32];
    for (i, b) in bytes.iter_mut().enumerate() {
        *b = i as u8;
    }
    assert_eq!(Identity::new(bytes).to_bytes(), bytes);
    assert_eq!(IDENTITY_LEN, 32);
}

#[test]
fn identity_equality_looks_at_every_byte() {
    assert_eq!(key(3), key(3));
    assert_ne!(key(3), key(4));
    for position in 0..32 {
        let mut bytes = [9u8; 32];
        bytes[position] = 10;
        assert_ne!(Identity::new(bytes), key(9));
        assert!(Identity::new(bytes) != key(9));
        assert!(Identity::new(bytes) == Identity::new(bytes));
    }
}

#[test]
fn event_log_only_grows_at_the_end() {
    let mut log = EventLog::new();
    assert_eq!(log.len(), 0);
    assert_eq!(log.last(), None);
    assert_eq!(log.get(0), None);
    log.append(cap_event(1));
    log.append(cap_event(2));
    let snapshot = log.clone();
    log.append(cap_event(3));
    assert_eq!(log.len(), 3);
    assert_eq!(snapshot.len(), 2);
    assert_eq!(log.get(0), Some(cap_event(1)));
    assert_eq!(log.get(1), Some(cap_event(2)));
    assert_eq!(log.get(2), Some(cap_event(3)));
    assert_eq!(log.get(3), None);
    assert_eq!(log.last(), Some(cap_event(3)));
    assert_eq!(snapshot.get(0), log.get(0));
    assert_eq!(snapshot.get(1), log.get(1));
    assert_eq!(snapshot.last(), Some(cap_event(2)));
}

#[test]
fn record_from_parts_keeps_every_field() {
    let rate = CommissionRate::new(75).unwrap();
    let account =
        MyAccount::from_parts(1_000, 100, 400, 600, 50, 60, key(5), Some(3), rate, Some(250)).unwrap();
    assert_eq!(account.total_supply(), 1_000);
    assert_eq!(account.initial_release(), 100);
    assert_eq!(account.released_tokens(), 400);
    assert_eq!(account.remaining_supply(), 600);
    assert_eq!(account.last_release_time(), 50);
    assert_eq!(account.release_interval(), 60);
    assert_eq!(account.authority(), key(5));
    assert_eq!(account.releases_remaining(), Some(3));
    assert_eq!(account.commission_rate(), rate);
    assert_eq!(account.whale_cap(), Some(250));
}

#[test]
fn record_from_parts_demands_a_conserved_supply() {
    let rate = CommissionRate::standard();
    assert!(MyAccount::from_parts(1_000, 100, 400, 600, 0, 0, key(5), None, rate, None).is_some());
    assert!(MyAccount::from_parts(1_000, 100, 400, 601, 0, 0, key(5), None, rate, None).is_none());
    assert!(MyAccount::from_parts(1_000, 100, 400, 599, 0, 0, key(5), None, rate, None).is_none());
    assert!(MyAccount::from_parts(1_000, 100, 1_001, 0, 0, 0, key(5), None, rate, None).is_none());
    assert!(MyAccount::from_parts(1_000, 1_001, 400, 600, 0, 0, key(5), None, rate, None).is_none());
    assert!(MyAccount::from_parts(1_000, 1_000, 0, 1_000, 0, 0, key(5), None, rate, None).is_some());
    // Sums that leave 64 bits do not wrap into place.
    assert!(MyAccount::from_parts(0, 0, u64::MAX, 1, 0, 0, key(5), None, rate, None).is_none());
    assert!(
        MyAccount::from_parts(u64::MAX, 0, u64::MAX, 0, 0, 0, key(5), None, rate, None).is_some()
    );
}

#[test]
fn record_knows_when_it_is_exhausted() {
    let rate = CommissionRate::standard();
    let parts = |remaining: u64, limit: Option<u8>| {
        MyAccount::from_parts(1_000, 0, 1_000 - remaining, remaining, 0, 0, key(5), limit, rate, None)
            .unwrap()
    };
    assert!(!parts(1, None).is_exhausted());
    assert!(!parts(1, Some(1)).is_exhausted());
    assert!(parts(0, None).is_exhausted());
    assert!(parts(0, Some(1)).is_exhausted());
    assert!(parts(1, Some(0)).is_exhausted());
}

#[test]
fn every_error_explains_itself() {
    assert_eq!(ErrorCode::ReleaseTooSoon.message(), "Interval not yet reached.");
    assert_eq!(ErrorCode::InsufficientFunds.message(), "Insufficient balance.");
    assert_eq!(ErrorCode::InsufficientSupply.message(), "Not enough tokens available.");
    assert_eq!(ErrorCode::Unauthorized.message(), "Caller is not the authority.");
    assert_eq!(ErrorCode::NoReleasesRemaining.message(), "No scheduled releases remain.");
    assert_eq!(ErrorCode::WhaleTransferRestricted.message(), "Amount exceeds the transfer cap.");
    assert_eq!(
        ErrorCode::InvalidInitialRelease.message(),
        "Initial release exceeds the total supply."
    );
    assert_eq!(ErrorCode::InvalidCommissionRate.message(), "Commission rate is out of range.");
    assert_eq!(ErrorCode::ArithmeticOverflow.message(), "Balance would overflow.");
}
