use darklake_sdk::state::{AmmConfig, Pool};
use darklake_sdk::{DarklakeAmm, DARKLAKE_PROGRAM_ID};

#[test]
fn test_darklake_program_id() {
    // Verify the program ID is correctly set
    assert_eq!(
        DARKLAKE_PROGRAM_ID.to_string(),
        "darkr3FB87qAZmgLwKov6Hk9Yiah5UT4rUYu8Zhthw1"
    );
}

#[test]
fn test_amm_trait_implementation() {
    let key = [7u8; 32];
    let amm = DarklakeAmm {
        key,
        pool: Pool {
            creator: [0; 32],
            amm_config: [0; 32],
            token_mint_x: [0; 32],
            token_mint_y: [0; 32],
            reserve_x: [0; 32],
            reserve_y: [0; 32],
            token_lp_supply: 0,
            protocol_fee_x: 0,
            protocol_fee_y: 0,
            locked_x: 0,
            locked_y: 0,
            user_locked_x: 0,
            user_locked_y: 0,
            bump: 0,
            padding: [0; 4],
        },
        amm_config: AmmConfig {
            trade_fee_rate: 0,
            create_pool_fee: 0,
            protocol_fee_rate: 0,
            wsol_trade_deposit: 0,
            deadline_slot_duration: 0,
            ratio_change_tolerance_rate: 0,
            bump: 0,
            halted: false,
            padding: [0; 16],
        },
        reserve_x_balance: 0,
        reserve_y_balance: 0,
        token_x_owner: [0; 32],
        token_y_owner: [0; 32],
        token_x_transfer_fee_config: None,
        token_y_transfer_fee_config: None,
    };

    assert_eq!(amm.label(), "Darklake");
    assert_eq!(amm.program_id(), DARKLAKE_PROGRAM_ID);
    assert_eq!(amm.key(), key);
    assert_eq!(amm.supports_exact_out(), false);
    assert_eq!(amm.is_active(), true);
}

#[test]
fn test_create_darklake_amm() {
    let key = [3u8; 32];
    let account_data = vec![0u8; 100];

    let result = darklake_sdk::create_darklake_amm(key, &account_data);
    assert!(result.is_err());
}
