use blueshift_native_amm::curve::{ConstantProduct, LiquidityPair, SwapResult, XYAmounts};
use blueshift_native_amm::errors::{AmmError, ProgramError};
use blueshift_native_amm::math::{mul_div, mul_div_ceil};

#[test]
fn mul_div_rounds_down() {
    assert_eq!(mul_div(10, 10, 3), Ok(33));
    assert_eq!(mul_div(7, 6, 42), Ok(1));
    assert_eq!(mul_div(0, 5, 9), Ok(0));
    assert_eq!(mul_div(u64::MAX, u64::MAX, u64::MAX), Ok(u64::MAX));
}

#[test]
fn mul_div_ceil_rounds_up() {
    assert_eq!(mul_div_ceil(10, 10, 3), Ok(34));
    assert_eq!(mul_div_ceil(9, 10, 3), Ok(30));
    assert_eq!(mul_div_ceil(0, 5, 9), Ok(0));
    assert_eq!(mul_div_ceil(u64::MAX, u64::MAX, u64::MAX), Ok(u64::MAX));
}

#[test]
fn mul_div_rejects_zero_divisor_and_wide_quotient() {
    assert_eq!(mul_div(1, 1, 0), Err(ProgramError::ArithmeticOverflow));
    assert_eq!(mul_div_ceil(1, 1, 0), Err(ProgramError::ArithmeticOverflow));
    assert_eq!(mul_div(u64::MAX, 2, 1), Err(ProgramError::ArithmeticOverflow));
    assert_eq!(mul_div_ceil(u64::MAX, 2, 1), Err(ProgramError::ArithmeticOverflow));
    assert_eq!(mul_div_ceil(u64::MAX, 3, 2), Err(ProgramError::ArithmeticOverflow));
}

#[test]
fn amm_error_maps_to_custom_code() {
    assert_eq!(AmmError::InvalidAmmState.code(), 0);
    assert_eq!(ProgramError::from(AmmError::InvalidAmmState), ProgramError::Custom(0));
}

#[test]
fn init_refuses_fee_above_whole_input() {
    assert_eq!(ConstantProduct::init(1, 1, 1, 10_001), Err(ProgramError::InvalidArgument));
    assert_eq!(
        ConstantProduct::init(1, 2, 3, 10_000),
        Ok(ConstantProduct { x: 1, y: 2, l: 3, fee: 10_000 })
    );
}

#[test]
fn first_deposit_takes_maxima_literally() {
    let mut pool = ConstantProduct::init(0, 0, 0, 30).unwrap();
    let paid = pool.deposit_liquidity(1000, 500, 200);
    assert_eq!(paid, Ok(XYAmounts { x: 500, y: 200 }));
    assert_eq!(pool, ConstantProduct { x: 500, y: 200, l: 1000, fee: 30 });
}

#[test]
fn later_deposit_follows_ratio_rounded_up() {
    assert_eq!(
        ConstantProduct::xy_deposit_amounts_from_l(500, 200, 1000, 3),
        Ok(XYAmounts { x: 2, y: 1 })
    );
    let mut pool = ConstantProduct { x: 500, y: 200, l: 1000, fee: 30 };
    assert_eq!(pool.deposit_liquidity(100, 50, 20), Ok(XYAmounts { x: 50, y: 20 }));
    assert_eq!(pool, ConstantProduct { x: 550, y: 220, l: 1100, fee: 30 });
}

#[test]
fn deposit_beyond_maxima_is_slippage() {
    let mut pool = ConstantProduct { x: 500, y: 200, l: 1000, fee: 30 };
    assert_eq!(pool.deposit_liquidity(100, 49, 20), Err(ProgramError::InvalidArgument));
    assert_eq!(pool.deposit_liquidity(100, 50, 19), Err(ProgramError::InvalidArgument));
    assert_eq!(pool, ConstantProduct { x: 500, y: 200, l: 1000, fee: 30 });
}

#[test]
fn deposit_overflow_is_reported() {
    let mut no_supply = ConstantProduct { x: 5, y: 5, l: 0, fee: 0 };
    assert_eq!(no_supply.deposit_liquidity(1, 10, 10), Err(ProgramError::ArithmeticOverflow));
    let mut full = ConstantProduct { x: u64::MAX, y: 1, l: 1, fee: 0 };
    assert_eq!(full.deposit_liquidity(1, u64::MAX, 1), Err(ProgramError::ArithmeticOverflow));
    assert_eq!(full, ConstantProduct { x: u64::MAX, y: 1, l: 1, fee: 0 });
    assert_eq!(
        ConstantProduct::xy_deposit_amounts_from_l(u64::MAX, 1, 1, 2),
        Err(ProgramError::ArithmeticOverflow)
    );
}

#[test]
fn full_withdrawal_drains_reserves_exactly() {
    let mut pool = ConstantProduct { x: 1234, y: 777, l: 1000, fee: 30 };
    assert_eq!(pool.withdraw_liquidity(1000, 1, 1), Ok(XYAmounts { x: 1234, y: 777 }));
    assert_eq!(pool, ConstantProduct { x: 0, y: 0, l: 0, fee: 30 });
}

#[test]
fn partial_withdrawal_rounds_down() {
    assert_eq!(
        ConstantProduct::xy_withdraw_amounts_from_l(1000, 999, 3, 1),
        Ok(XYAmounts { x: 333, y: 333 })
    );
    let mut pool = ConstantProduct { x: 1000, y: 999, l: 3, fee: 30 };
    assert_eq!(pool.withdraw_liquidity(1, 0, 0), Ok(XYAmounts { x: 333, y: 333 }));
    assert_eq!(pool, ConstantProduct { x: 667, y: 666, l: 2, fee: 30 });
}

#[test]
fn withdrawal_below_minima_is_slippage() {
    let mut pool = ConstantProduct { x: 1000, y: 999, l: 3, fee: 30 };
    assert_eq!(pool.withdraw_liquidity(1, 334, 0), Err(ProgramError::InvalidArgument));
    assert_eq!(pool.withdraw_liquidity(1, 0, 334), Err(ProgramError::InvalidArgument));
    assert_eq!(pool, ConstantProduct { x: 1000, y: 999, l: 3, fee: 30 });
}

#[test]
fn withdrawal_of_more_than_supply_is_overflow() {
    let mut pool = ConstantProduct { x: 10, y: 10, l: 5, fee: 0 };
    assert_eq!(pool.withdraw_liquidity(6, 0, 0), Err(ProgramError::ArithmeticOverflow));
    let mut no_supply = ConstantProduct { x: 10, y: 10, l: 0, fee: 0 };
    assert_eq!(no_supply.withdraw_liquidity(1, 0, 0), Err(ProgramError::ArithmeticOverflow));
}

#[test]
fn swap_x_for_y_with_fee() {
    let mut pool = ConstantProduct::init(1000, 1000, 1000, 30).unwrap();
    let traded = pool.swap(LiquidityPair::X, 100, 1);
    assert_eq!(traded, Ok(SwapResult { deposit: 100, withdraw: 90, fee: 1 }));
    assert_eq!(pool, ConstantProduct { x: 1100, y: 910, l: 1000, fee: 30 });
    assert!(1100u128 * 910 >= 1000u128 * 1000);
}

#[test]
fn swap_y_for_x_mirrors() {
    let mut pool = ConstantProduct::init(1000, 1000, 1000, 30).unwrap();
    let traded = pool.swap(LiquidityPair::Y, 100, 90);
    assert_eq!(traded, Ok(SwapResult { deposit: 100, withdraw: 90, fee: 1 }));
    assert_eq!(pool, ConstantProduct { x: 910, y: 1100, l: 1000, fee: 30 });
}

#[test]
fn swap_without_fee_keeps_product() {
    let mut pool = ConstantProduct::init(10, 10, 0, 0).unwrap();
    assert_eq!(pool.swap(LiquidityPair::X, 1, 0), Err(ProgramError::InvalidArgument));
    let mut pool = ConstantProduct::init(10, 10, 0, 0).unwrap();
    assert_eq!(
        pool.swap(LiquidityPair::X, 10, 1),
        Ok(SwapResult { deposit: 10, withdraw: 5, fee: 0 })
    );
    assert_eq!((pool.x, pool.y), (20, 5));
}

#[test]
fn swap_rejects_slippage_and_empty_legs() {
    let mut pool = ConstantProduct::init(1000, 1000, 1000, 30).unwrap();
    assert_eq!(pool.swap(LiquidityPair::X, 100, 91), Err(ProgramError::InvalidArgument));
    assert_eq!(pool.swap(LiquidityPair::X, 0, 0), Err(ProgramError::InvalidArgument));
    assert_eq!(pool.swap(LiquidityPair::X, 1, 0), Err(ProgramError::InvalidArgument));
    assert_eq!(pool, ConstantProduct { x: 1000, y: 1000, l: 1000, fee: 30 });
}

#[test]
fn swap_refuses_a_fee_above_the_whole_input() {
    let mut pool = ConstantProduct { x: 1000, y: 1000, l: 0, fee: 10_001 };
    assert_eq!(pool.swap(LiquidityPair::X, 100, 1), Err(ProgramError::InvalidArgument));
    assert_eq!(pool, ConstantProduct { x: 1000, y: 1000, l: 0, fee: 10_001 });
}

#[test]
fn swap_rejects_overflow() {
    let mut pool = ConstantProduct::init(u64::MAX, 1000, 0, 30).unwrap();
    assert_eq!(pool.swap(LiquidityPair::X, 1, 0), Err(ProgramError::ArithmeticOverflow));
    let mut empty = ConstantProduct::init(0, 1000, 0, 10_000).unwrap();
    assert_eq!(empty.swap(LiquidityPair::X, 5, 0), Err(ProgramError::ArithmeticOverflow));
}

#[test]
fn deposit_then_withdraw_returns_no_more_than_paid() {
    let start = ConstantProduct { x: 1001, y: 333, l: 7, fee: 30 };
    let mut pool = start;
    let paid = pool.deposit_liquidity(3, u64::MAX, u64::MAX).unwrap();
    assert_eq!(paid, XYAmounts { x: 429, y: 143 });
    let back = pool.withdraw_liquidity(3, 0, 0).unwrap();
    assert_eq!(back, XYAmounts { x: 429, y: 142 });
    assert_eq!(pool, ConstantProduct { x: 1001, y: 334, l: 7, fee: 30 });
}
