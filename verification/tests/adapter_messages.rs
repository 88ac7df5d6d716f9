use liquidity_manager::adapter::{
    encode_request, expected_accounts, validate_accounts, AccountRef, ProtocolRequest,
};
use liquidity_manager::errors::LiquidityManagerError;
use liquidity_manager::position::{initialize, AccountId, LiquidityManager};

fn account(tag: u128) -> AccountId {
    AccountId { hi: tag, lo: tag.wrapping_mul(31) }
}

fn sample_position() -> LiquidityManager {
    initialize(
        account(1),
        account(2),
        account(3),
        account(4),
        account(5),
        account(6),
        account(7),
        -50,
        50,
    )
    .unwrap()
}

#[test]
fn withdraw_message_layout() {
    let request = ProtocolRequest::Withdraw { liquidity: 777, min_a: 1, min_b: 2 };
    let mut expected = vec![0x03u8];
    expected.extend_from_slice(&777u128.to_le_bytes());
    expected.extend_from_slice(&1u64.to_le_bytes());
    expected.extend_from_slice(&2u64.to_le_bytes());
    assert_eq!(encode_request(&request), expected);
    assert_eq!(expected.len(), 33);
}

#[test]
fn swap_message_layout() {
    let request = ProtocolRequest::Swap { amount_in: 5000, min_out: 4900, a_to_b: true };
    let mut expected = vec![0x01u8];
    expected.extend_from_slice(&5000u64.to_le_bytes());
    expected.extend_from_slice(&4900u64.to_le_bytes());
    assert_eq!(encode_request(&request), expected);
    assert_eq!(expected.len(), 17);
}

#[test]
fn deposit_message_layout_with_negative_tick() {
    let request = ProtocolRequest::Deposit {
        lower_tick: -40,
        upper_tick: 160,
        liquidity: 999,
        max_a: 11,
        max_b: 22,
    };
    let mut expected = vec![0x02u8];
    expected.extend_from_slice(&(-40i32).to_le_bytes());
    expected.extend_from_slice(&160i32.to_le_bytes());
    expected.extend_from_slice(&999u128.to_le_bytes());
    expected.extend_from_slice(&11u64.to_le_bytes());
    expected.extend_from_slice(&22u64.to_le_bytes());
    assert_eq!(encode_request(&request), expected);
    assert_eq!(expected.len(), 41);
}

#[test]
fn expected_accounts_order_and_flags() {
    let position = sample_position();
    let request = ProtocolRequest::Withdraw { liquidity: 0, min_a: 0, min_b: 0 };
    let accounts = expected_accounts(&request, &position);
    assert_eq!(accounts.len(), 4);
    assert_eq!(accounts[0].id, position.executor);
    assert!(accounts[0].is_signer && !accounts[0].is_writable);
    assert_eq!(accounts[1].id, position.pool);
    assert!(accounts[1].is_writable && !accounts[1].is_signer);
    assert_eq!(accounts[2].id, position.token_vault_a);
    assert_eq!(accounts[3].id, position.token_vault_b);
}

#[test]
fn swap_direction_orders_the_vaults() {
    let position = sample_position();
    let a_to_b = ProtocolRequest::Swap { amount_in: 1, min_out: 0, a_to_b: true };
    let b_to_a = ProtocolRequest::Swap { amount_in: 1, min_out: 0, a_to_b: false };
    let forward = expected_accounts(&a_to_b, &position);
    let backward = expected_accounts(&b_to_a, &position);
    assert_eq!(forward[2].id, position.token_vault_a);
    assert_eq!(forward[3].id, position.token_vault_b);
    assert_eq!(backward[2].id, position.token_vault_b);
    assert_eq!(backward[3].id, position.token_vault_a);
}

#[test]
fn validate_accepts_the_expected_list() {
    let position = sample_position();
    let request = ProtocolRequest::Deposit {
        lower_tick: -50,
        upper_tick: 50,
        liquidity: 1,
        max_a: 1,
        max_b: 1,
    };
    let accounts = expected_accounts(&request, &position);
    assert_eq!(validate_accounts(&request, &accounts, &position), Ok(()));
}

#[test]
fn validate_rejects_wrong_length() {
    let position = sample_position();
    let request = ProtocolRequest::Withdraw { liquidity: 0, min_a: 0, min_b: 0 };
    let mut accounts = expected_accounts(&request, &position);
    accounts.pop();
    assert_eq!(
        validate_accounts(&request, &accounts, &position),
        Err(LiquidityManagerError::AccountNotFound)
    );
}

#[test]
fn validate_rejects_wrong_identity() {
    let position = sample_position();
    let request = ProtocolRequest::Withdraw { liquidity: 0, min_a: 0, min_b: 0 };
    let mut accounts = expected_accounts(&request, &position);
    accounts[1] = AccountRef { id: account(99), is_writable: true, is_signer: false };
    assert_eq!(
        validate_accounts(&request, &accounts, &position),
        Err(LiquidityManagerError::InvalidAccountData)
    );
}

#[test]
fn validate_rejects_wrong_flags() {
    let position = sample_position();
    let request = ProtocolRequest::Withdraw { liquidity: 0, min_a: 0, min_b: 0 };
    let mut accounts = expected_accounts(&request, &position);
    let pool_ref = accounts[1];
    accounts[1] = AccountRef { is_writable: false, ..pool_ref };
    assert_eq!(
        validate_accounts(&request, &accounts, &position),
        Err(LiquidityManagerError::InvalidAccountData)
    );
}
