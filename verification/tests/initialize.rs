use glaucoin_contract::account::MyAccount;
use glaucoin_contract::commission::{CommissionRate, DEFAULT_RATE_BASIS_POINTS};
use glaucoin_contract::context::Initialize;
use glaucoin_contract::error::ErrorCode;
use glaucoin_contract::identity::Identity;
use glaucoin_contract::program::initialize;

fn admin() -> Identity {
    Identity::new([7u8; 32])
}

fn blank(release_limit: Option<u8>) -> Initialize {
    Initialize { my_account: MyAccount::new(), authority: admin(), release_limit }
}

#[test]
fn initialize_splits_supply_into_released_and_remaining() {
    let mut ctx = blank(None);
    assert_eq!(initialize(&mut ctx, 1_000_000, 100_000, 86_400, 1_700_000_000), Ok(()));
    assert_eq!(ctx.my_account.remaining_supply(), 900_000);
    assert_eq!(ctx.my_account.released_tokens(), 100_000);
    assert_eq!(ctx.my_account.total_supply(), 1_000_000);
    assert_eq!(ctx.my_account.initial_release(), 100_000);
}

#[test]
fn initialize_stores_schedule_authority_and_defaults() {
    let mut ctx = blank(None);
    assert_eq!(initialize(&mut ctx, 500, 20, 3_600, 42), Ok(()));
    assert_eq!(ctx.my_account.last_release_time(), 42);
    assert_eq!(ctx.my_account.release_interval(), 3_600);
    assert_eq!(ctx.my_account.authority(), admin());
    assert_eq!(ctx.my_account.commission_rate(), CommissionRate::standard());
    assert_eq!(ctx.my_account.commission_rate().basis_points(), DEFAULT_RATE_BASIS_POINTS);
    assert_eq!(ctx.my_account.whale_cap(), None);
    assert_eq!(ctx.my_account.releases_remaining(), None);
    assert_eq!(ctx.authority, admin());
}

#[test]
fn initialize_stores_release_limit() {
    let mut ctx = blank(Some(12));
    assert_eq!(initialize(&mut ctx, 500, 20, 3_600, 42), Ok(()));
    assert_eq!(ctx.my_account.releases_remaining(), Some(12));
    assert_eq!(ctx.release_limit, Some(12));
}

#[test]
fn initialize_rejects_initial_release_above_total() {
    let mut ctx = blank(Some(3));
    let before = ctx;
    assert_eq!(initialize(&mut ctx, 100, 101, 60, 5), Err(ErrorCode::InvalidInitialRelease));
    assert_eq!(ctx, before);
    assert_eq!(ctx.my_account, MyAccount::new());
}

#[test]
fn initialize_rejects_without_wrapping() {
    let mut ctx = blank(None);
    assert_eq!(initialize(&mut ctx, 0, u64::MAX, 60, 5), Err(ErrorCode::InvalidInitialRelease));
    assert_eq!(ctx.my_account.remaining_supply(), 0);
    assert_eq!(ctx.my_account.released_tokens(), 0);
}

#[test]
fn initialize_accepts_whole_supply_as_initial_release() {
    let mut ctx = blank(None);
    assert_eq!(initialize(&mut ctx, u64::MAX, u64::MAX, 60, 5), Ok(()));
    assert_eq!(ctx.my_account.remaining_supply(), 0);
    assert_eq!(ctx.my_account.released_tokens(), u64::MAX);
    assert!(ctx.my_account.is_exhausted());
}

#[test]
fn initialize_accepts_empty_initial_release() {
    let mut ctx = blank(None);
    assert_eq!(initialize(&mut ctx, 1_000, 0, -5, -100), Ok(()));
    assert_eq!(ctx.my_account.remaining_supply(), 1_000);
    assert_eq!(ctx.my_account.released_tokens(), 0);
    assert_eq!(ctx.my_account.release_interval(), -5);
    assert_eq!(ctx.my_account.last_release_time(), -100);
    assert!(!ctx.my_account.is_exhausted());
}

#[test]
fn initialize_again_overwrites_the_record() {
    let mut ctx = blank(None);
    assert_eq!(initialize(&mut ctx, 1_000, 10, 60, 5), Ok(()));
    assert_eq!(initialize(&mut ctx, 2_000, 500, 30, 9), Ok(()));
    assert_eq!(ctx.my_account.total_supply(), 2_000);
    assert_eq!(ctx.my_account.released_tokens(), 500);
    assert_eq!(ctx.my_account.remaining_supply(), 1_500);
    assert_eq!(ctx.my_account.last_release_time(), 9);
}

#[test]
fn blank_record_is_empty() {
    let account = MyAccount::new();
    assert_eq!(account.total_supply(), 0);
    assert_eq!(account.initial_release(), 0);
    assert_eq!(account.released_tokens(), 0);
    assert_eq!(account.remaining_supply(), 0);
    assert_eq!(account.last_release_time(), 0);
    assert_eq!(account.release_interval(), 0);
    assert_eq!(account.authority(), Identity::new([0u8; 32]));
    assert_eq!(account.releases_remaining(), None);
    assert_eq!(account.commission_rate().basis_points(), 25);
    assert_eq!(account.whale_cap(), None);
}
