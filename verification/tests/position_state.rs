use liquidity_manager::errors::LiquidityManagerError;
use liquidity_manager::position::{initialize, AccountId};

fn account(tag: u128) -> AccountId {
    AccountId { hi: tag, lo: tag + 1000 }
}

#[test]
fn initialize_records_everything_and_tracks_no_liquidity() {
    let position = initialize(
        account(1),
        account(2),
        account(3),
        account(4),
        account(5),
        account(6),
        account(7),
        -50,
        50,
    )
    .unwrap();
    assert_eq!(position.authority, account(1));
    assert_eq!(position.executor, account(2));
    assert_eq!(position.pool, account(3));
    assert_eq!(position.token_mint_a, account(4));
    assert_eq!(position.token_mint_b, account(5));
    assert_eq!(position.token_vault_a, account(6));
    assert_eq!(position.token_vault_b, account(7));
    assert_eq!(position.lower_tick, -50);
    assert_eq!(position.upper_tick, 50);
    assert_eq!(position.current_liquidity, 0);
}

#[test]
fn initialize_rejects_empty_or_inverted_range() {
    let make = |lower, upper| {
        initialize(
            account(1),
            account(2),
            account(3),
            account(4),
            account(5),
            account(6),
            account(7),
            lower,
            upper,
        )
    };
    assert_eq!(make(50, 50), Err(LiquidityManagerError::InvalidTickRange));
    assert_eq!(make(50, -50), Err(LiquidityManagerError::InvalidTickRange));
}

#[test]
fn update_range_by_owner() {
    let mut position = initialize(
        account(1),
        account(2),
        account(3),
        account(4),
        account(5),
        account(6),
        account(7),
        -50,
        50,
    )
    .unwrap();
    assert_eq!(position.update_range(account(1), -200, 300), Ok(()));
    assert_eq!(position.lower_tick, -200);
    assert_eq!(position.upper_tick, 300);
}

#[test]
fn update_range_rejects_other_callers() {
    let mut position = initialize(
        account(1),
        account(2),
        account(3),
        account(4),
        account(5),
        account(6),
        account(7),
        -50,
        50,
    )
    .unwrap();
    let before = position;
    assert_eq!(
        position.update_range(account(2), -200, 300),
        Err(LiquidityManagerError::InvalidExecutor)
    );
    assert_eq!(position, before);
}

#[test]
fn update_range_rejects_empty_range() {
    let mut position = initialize(
        account(1),
        account(2),
        account(3),
        account(4),
        account(5),
        account(6),
        account(7),
        -50,
        50,
    )
    .unwrap();
    let before = position;
    assert_eq!(
        position.update_range(account(1), 10, 10),
        Err(LiquidityManagerError::InvalidTickRange)
    );
    assert_eq!(position, before);
}
