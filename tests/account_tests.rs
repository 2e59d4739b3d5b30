use darklake_sdk::account::{
    parse_amm_config, parse_order, parse_pool, AMM_CONFIG_ACCOUNT_LEN, ORDER_ACCOUNT_LEN,
    POOL_ACCOUNT_LEN,
};
use darklake_sdk::create_darklake_amm;
use darklake_sdk::error::AmmError;

fn pool_bytes() -> Vec<u8> {
    let mut d = vec![0xAAu8; 8];
    for k in 1..=6u8 {
        d.extend_from_slice(&[k; 32]);
    }
    for v in [10u64, 11, 12, 13, 14, 15, 16] {
        d.extend_from_slice(&v.to_le_bytes());
    }
    d.push(254);
    for v in [1u64, 2, 3, 4] {
        d.extend_from_slice(&v.to_le_bytes());
    }
    d
}

fn order_bytes(deadline: u64, flag: u8) -> Vec<u8> {
    let mut d = vec![0u8; 8];
    for k in 1..=3u8 {
        d.extend_from_slice(&[k; 32]);
    }
    for v in [100u64, 99, 50, 40, 0, 0, deadline, 1, 2] {
        d.extend_from_slice(&v.to_le_bytes());
    }
    d.extend_from_slice(&[9; 32]);
    d.push(flag);
    d.push(7);
    d.extend_from_slice(&[0u8; 32]);
    d
}

fn config_bytes(halted: u8) -> Vec<u8> {
    let mut d = vec![0u8; 8];
    for v in [3000u64, 5, 200_000, 6, 150, 10_000] {
        d.extend_from_slice(&v.to_le_bytes());
    }
    d.push(1);
    d.push(halted);
    d.extend_from_slice(&[0u8; 128]);
    d
}

#[test]
fn pool_account_decodes() {
    let d = pool_bytes();
    assert_eq!(d.len(), POOL_ACCOUNT_LEN);
    let p = parse_pool(&d).unwrap();
    assert_eq!(p.creator, [1; 32]);
    assert_eq!(p.reserve_y, [6; 32]);
    assert_eq!(p.token_lp_supply, 10);
    assert_eq!((p.protocol_fee_x, p.protocol_fee_y), (11, 12));
    assert_eq!((p.locked_x, p.locked_y, p.user_locked_x, p.user_locked_y), (13, 14, 15, 16));
    assert_eq!(p.bump, 254);
    assert_eq!(p.padding, [1, 2, 3, 4]);
    assert_eq!(parse_pool(&d[..d.len() - 1]).err(), Some(AmmError::InvalidAccountData));
}

#[test]
fn order_account_decodes() {
    let d = order_bytes(500, 1);
    assert_eq!(d.len(), ORDER_ACCOUNT_LEN);
    let o = parse_order(&d).unwrap();
    assert_eq!(o.trader, [1; 32]);
    assert_eq!((o.actual_in, o.exchange_in, o.actual_out, o.from_to_lock), (100, 99, 50, 40));
    assert_eq!((o.deadline, o.protocol_fee, o.wsol_deposit), (500, 1, 2));
    assert_eq!(o.c_min, [9; 32]);
    assert!(o.is_x_to_y);
    assert_eq!(o.bump, 7);
    assert_eq!(parse_order(&order_bytes(500, 2)).err(), Some(AmmError::InvalidAccountData));
}

#[test]
fn config_account_decodes() {
    let d = config_bytes(1);
    assert_eq!(d.len(), AMM_CONFIG_ACCOUNT_LEN);
    let c = parse_amm_config(&d).unwrap();
    assert_eq!((c.trade_fee_rate, c.create_pool_fee, c.protocol_fee_rate), (3000, 5, 200_000));
    assert_eq!((c.wsol_trade_deposit, c.deadline_slot_duration, c.ratio_change_tolerance_rate), (6, 150, 10_000));
    assert!(c.halted);
    assert_eq!(parse_amm_config(&config_bytes(3)).err(), Some(AmmError::InvalidAccountData));
}

#[test]
fn amm_reads_orders_and_updates() {
    let mut amm = create_darklake_amm([8; 32], &pool_bytes()).unwrap();
    assert_eq!(amm.pool.locked_y, 14);
    assert_eq!(amm.is_order_expired(&order_bytes(500, 0), 501), Ok(true));
    assert_eq!(amm.is_order_expired(&order_bytes(500, 0), 500), Ok(false));
    assert_eq!(amm.get_order_output_and_deadline(&order_bytes(500, 0)), Ok((50, 500)));
    assert_eq!(amm.is_order_expired(&[0u8; 10], 1), Err(AmmError::InvalidAccountData));

    assert_eq!(amm.update(&pool_bytes(), &config_bytes(2), 7, 8, None, None), Err(AmmError::InvalidAccountData));
    assert_eq!(amm.reserve_x_balance, 0);
    assert_eq!(amm.update(&pool_bytes(), &config_bytes(0), 7, 8, None, None), Ok(()));
    assert_eq!((amm.reserve_x_balance, amm.reserve_y_balance), (7, 8));
    assert_eq!(amm.amm_config.trade_fee_rate, 3000);
    assert!(amm.is_active());
    assert_eq!(
        amm.get_accounts_to_update(),
        vec![[8; 32], [3; 32], [4; 32], [5; 32], [6; 32], [2; 32]]
    );
}
