use casper_shorts::system::{
    MarketError, MarketState, Side, ONE_CENT, ONE_DOLLAR, ONE_TENTH_CENT,
};
use casper_shorts::uint::U256;

fn state(long_supply: u64, short_supply: u64, long: u64, short: u64, price: u64) -> MarketState {
    MarketState {
        long_total_supply: U256::from(long_supply),
        short_total_supply: U256::from(short_supply),
        long_liquidity: U256::from(long),
        short_liquidity: U256::from(short),
        price: U256::from(price),
    }
}

const MAX: U256 = U256 { limbs: [u64::MAX; 4] };

#[test]
fn example_1_when_price_goes_up_by_more_then_100_percent() {
    let mut state = MarketState {
        long_total_supply: U256::zero(),
        short_total_supply: U256::zero(),
        long_liquidity: U256::from(200),
        short_liquidity: U256::from(100),
        price: U256::from(ONE_CENT),
    };
    state.on_price_goes_up(U256::from(3 * ONE_CENT)).unwrap();

    let expected = MarketState {
        long_total_supply: U256::zero(),
        short_total_supply: U256::zero(),
        long_liquidity: U256::from(300),
        short_liquidity: U256::from(0),
        price: U256::from(3 * ONE_CENT),
    };
    assert_eq!(state, expected);
}

#[test]
fn example_2_when_price_goes_up_by_less_then_100_percent() {
    let mut state = MarketState {
        long_total_supply: U256::zero(),
        short_total_supply: U256::zero(),
        long_liquidity: U256::from(200),
        short_liquidity: U256::from(100),
        price: U256::from(ONE_CENT),
    };
    state.on_price_goes_up(U256::from(14 * ONE_TENTH_CENT)).unwrap();

    let expected = MarketState {
        long_total_supply: U256::zero(),
        short_total_supply: U256::zero(),
        long_liquidity: U256::from(240),
        short_liquidity: U256::from(60),
        price: U256::from(14 * ONE_TENTH_CENT),
    };
    assert_eq!(state, expected);
}

#[test]
fn example_4_liquidity_deposit() {
    let mut state = MarketState {
        long_total_supply: U256::from(1000),
        short_total_supply: U256::zero(),
        long_liquidity: U256::from(200),
        short_liquidity: U256::zero(),
        price: U256::from(ONE_CENT),
    };
    state.on_deposit(Side::Long, U256::from(100)).unwrap();

    let expected = MarketState {
        long_total_supply: U256::from(1500),
        short_total_supply: U256::zero(),
        long_liquidity: U256::from(300),
        short_liquidity: U256::zero(),
        price: U256::from(ONE_CENT),
    };
    assert_eq!(state, expected);
}

#[test]
fn example_5_liquidity_withdraw() {
    let mut state = MarketState {
        long_total_supply: U256::from(1000),
        short_total_supply: U256::zero(),
        long_liquidity: U256::from(400),
        short_liquidity: U256::zero(),
        price: U256::from(ONE_CENT),
    };
    state.on_withdraw(Side::Long, U256::from(100)).unwrap();

    let expected = MarketState {
        long_total_supply: U256::from(900),
        short_total_supply: U256::zero(),
        long_liquidity: U256::from(360),
        short_liquidity: U256::zero(),
        price: U256::from(ONE_CENT),
    };
    assert_eq!(state, expected);
}

#[test]
fn example_6_first_deposit() {
    let mut state = MarketState {
        long_total_supply: U256::zero(),
        short_total_supply: U256::zero(),
        long_liquidity: U256::zero(),
        short_liquidity: U256::zero(),
        price: U256::from(ONE_CENT),
    };
    state.on_deposit(Side::Long, U256::from(100)).unwrap();

    let expected = MarketState {
        long_total_supply: U256::from(100),
        short_total_supply: U256::zero(),
        long_liquidity: U256::from(100),
        short_liquidity: U256::zero(),
        price: U256::from(ONE_CENT),
    };
    assert_eq!(state, expected);
}

#[test]
fn price_units() {
    assert_eq!(ONE_DOLLAR, 10_000);
    assert_eq!(ONE_CENT, 100);
    assert_eq!(ONE_TENTH_CENT, 10);
}

#[test]
fn new_market_is_empty() {
    assert_eq!(MarketState::new(U256::from(100)), state(0, 0, 0, 0, 100));
}

#[test]
fn price_up_by_more_than_double_empties_the_short_side() {
    let mut market = state(0, 0, 200, 100, 100);
    assert_eq!(market.on_price_change(U256::from(300)), Ok(()));
    assert_eq!(market, state(0, 0, 300, 0, 300));
}

#[test]
fn price_up_by_forty_percent() {
    let mut market = state(0, 0, 200, 100, 100);
    assert_eq!(market.on_price_change(U256::from(140)), Ok(()));
    assert_eq!(market, state(0, 0, 240, 60, 140));
}

#[test]
fn price_down_to_a_sixth_empties_the_long_side() {
    let mut market = state(0, 0, 100, 0, 300);
    assert_eq!(market.on_price_change(U256::from(50)), Ok(()));
    assert_eq!(market, state(0, 0, 0, 100, 50));
}

#[test]
fn price_down_by_a_fifth() {
    // 200 * 100 / 80 - 200 = 50
    let mut market = state(7, 9, 200, 100, 100);
    assert_eq!(market.on_price_change(U256::from(80)), Ok(()));
    assert_eq!(market, state(7, 9, 150, 150, 80));
}

#[test]
fn price_down_rounds_down() {
    // 100 * 100 / 70 = 142, so 42 move
    let mut market = state(0, 0, 100, 10, 100);
    market.on_price_goes_down(U256::from(70)).unwrap();
    assert_eq!(market, state(0, 0, 58, 52, 70));
}

#[test]
fn equal_price_changes_nothing() {
    let mut market = state(5, 6, 200, 100, 100);
    assert_eq!(market.on_price_change(U256::from(100)), Ok(()));
    assert_eq!(market, state(5, 6, 200, 100, 100));
}

#[test]
fn zero_price_is_refused() {
    let mut market = state(5, 6, 200, 100, 100);
    assert_eq!(market.on_price_change(U256::zero()), Err(MarketError::InvalidPrice));
    assert_eq!(market.on_price_goes_up(U256::zero()), Err(MarketError::InvalidPrice));
    assert_eq!(market.on_price_goes_down(U256::zero()), Err(MarketError::InvalidPrice));
    assert_eq!(market, state(5, 6, 200, 100, 100));
}

#[test]
fn market_without_a_price_refuses_every_price() {
    let mut market = state(0, 0, 0, 0, 0);
    assert_eq!(market.on_price_change(U256::from(100)), Err(MarketError::InvalidPrice));
    assert_eq!(market.on_price_change(U256::zero()), Err(MarketError::InvalidPrice));
    assert_eq!(market.on_price_goes_up(U256::from(100)), Err(MarketError::InvalidPrice));
    assert_eq!(market.on_price_goes_down(U256::from(100)), Err(MarketError::InvalidPrice));
    assert_eq!(market, state(0, 0, 0, 0, 0));
}

#[test]
fn rise_to_a_lower_price_underflows() {
    let mut market = state(0, 0, 200, 100, 100);
    assert_eq!(market.on_price_goes_up(U256::from(50)), Err(MarketError::ArithmeticUnderflow));
    assert_eq!(market, state(0, 0, 200, 100, 100));
}

#[test]
fn fall_to_a_higher_price_underflows() {
    let mut market = state(0, 0, 200, 100, 100);
    assert_eq!(market.on_price_goes_down(U256::from(150)), Err(MarketError::ArithmeticUnderflow));
    assert_eq!(market, state(0, 0, 200, 100, 100));
}

#[test]
fn price_change_that_overflows_the_winning_side_is_refused() {
    let mut market = MarketState {
        long_total_supply: U256::zero(),
        short_total_supply: U256::zero(),
        long_liquidity: MAX,
        short_liquidity: U256::from(100),
        price: U256::from(100),
    };
    let before = market;
    assert_eq!(market.on_price_change(U256::from(140)), Err(MarketError::ArithmeticOverflow));
    assert_eq!(market, before);
}

#[test]
fn product_beyond_256_bits_is_taken_in_full() {
    // The short side holds 2^255 and the price doubles: the product is 2^256 * 100.
    let half = U256 { limbs: [0, 0, 0, 1 << 63] };
    let mut market = MarketState {
        long_total_supply: U256::zero(),
        short_total_supply: U256::zero(),
        long_liquidity: U256::from(7),
        short_liquidity: half,
        price: U256::from(100),
    };
    assert_eq!(market.on_price_change(U256::from(150)), Ok(()));
    // Half of the short side moved: 2^254.
    assert_eq!(market.short_liquidity, U256 { limbs: [0, 0, 0, 1 << 62] });
    assert_eq!(market.long_liquidity, U256 { limbs: [7, 0, 0, 1 << 62] });
    assert_eq!(market.price, U256::from(150));
}

#[test]
fn quotient_beyond_256_bits_is_clamped() {
    let mut market = MarketState {
        long_total_supply: U256::zero(),
        short_total_supply: U256::zero(),
        long_liquidity: U256::zero(),
        short_liquidity: U256 { limbs: [5, 0, 0, 1 << 63] },
        price: U256::from(1),
    };
    assert_eq!(market.on_price_change(MAX), Ok(()));
    assert_eq!(market.short_liquidity, U256::zero());
    assert_eq!(market.long_liquidity, U256 { limbs: [5, 0, 0, 1 << 63] });
    assert_eq!(market.price, MAX);
}

#[test]
fn price_changes_conserve_liquidity() {
    let mut market = state(11, 13, 123_456, 654_321, 1000);
    for price in [1500u64, 900, 901, 10, 5_000_000, 1, 1, 77, 76, 1000] {
        market.on_price_change(U256::from(price)).unwrap();
        let total = market.long_liquidity.to_u128().unwrap()
            + market.short_liquidity.to_u128().unwrap();
        assert_eq!(total, 123_456 + 654_321);
        assert_eq!(market.long_total_supply, U256::from(11));
        assert_eq!(market.short_total_supply, U256::from(13));
        assert_eq!(market.price, U256::from(price));
    }
}

#[test]
fn deposit_mints_in_proportion() {
    let mut market = state(1000, 3, 200, 50, 100);
    assert_eq!(market.on_deposit(Side::Long, U256::from(100)), Ok(U256::from(500)));
    assert_eq!(market, state(1500, 3, 300, 50, 100));
}

#[test]
fn deposit_on_the_short_side_leaves_the_long_side() {
    // 30 * (70 + 35) / 70 - 30 = 15
    let mut market = state(1000, 30, 200, 70, 100);
    assert_eq!(market.on_deposit(Side::Short, U256::from(35)), Ok(U256::from(15)));
    assert_eq!(market, state(1000, 45, 200, 105, 100));
}

#[test]
fn deposit_rounds_the_shares_down() {
    // 10 * (30 + 10) / 30 = 13
    let mut market = state(10, 0, 30, 0, 100);
    assert_eq!(market.on_deposit(Side::Long, U256::from(10)), Ok(U256::from(3)));
    assert_eq!(market, state(13, 0, 40, 0, 100));
}

#[test]
fn first_deposit_mints_one_share_per_unit() {
    let mut market = state(0, 0, 0, 0, 100);
    assert_eq!(market.on_deposit(Side::Short, U256::from(100)), Ok(U256::from(100)));
    assert_eq!(market, state(0, 100, 0, 100, 100));
}

#[test]
fn first_deposit_on_a_side_with_liquidity_adds_to_it() {
    let mut market = state(0, 0, 200, 100, 100);
    assert_eq!(market.on_deposit(Side::Long, U256::from(100)), Ok(U256::from(100)));
    assert_eq!(market, state(100, 0, 300, 100, 100));
}

#[test]
fn deposit_of_nothing_is_refused() {
    let mut market = state(1000, 0, 200, 0, 100);
    assert_eq!(market.on_deposit(Side::Long, U256::zero()), Err(MarketError::ZeroAmount));
    assert_eq!(market, state(1000, 0, 200, 0, 100));
}

#[test]
fn deposit_too_small_for_one_share_is_refused() {
    // 10 * (1000 + 99) / 1000 = 10
    let mut market = state(10, 0, 1000, 0, 100);
    assert_eq!(market.on_deposit(Side::Long, U256::from(99)), Err(MarketError::NegligibleMint));
    assert_eq!(market, state(10, 0, 1000, 0, 100));
    assert_eq!(market.on_deposit(Side::Long, U256::from(100)), Ok(U256::from(1)));
    assert_eq!(market, state(11, 0, 1100, 0, 100));
}

#[test]
fn deposit_beyond_256_bits_is_refused() {
    let mut market = MarketState {
        long_total_supply: U256::from(5),
        short_total_supply: U256::zero(),
        long_liquidity: MAX,
        short_liquidity: U256::zero(),
        price: U256::from(100),
    };
    let before = market;
    assert_eq!(market.on_deposit(Side::Long, U256::from(1)), Err(MarketError::ArithmeticOverflow));
    assert_eq!(market, before);
}

#[test]
fn deposit_that_mints_beyond_256_bits_is_refused() {
    let mut market = MarketState {
        long_total_supply: MAX,
        short_total_supply: U256::zero(),
        long_liquidity: U256::from(1),
        short_liquidity: U256::zero(),
        price: U256::from(100),
    };
    let before = market;
    assert_eq!(market.on_deposit(Side::Long, U256::from(1)), Err(MarketError::ArithmeticOverflow));
    assert_eq!(market, before);
}

#[test]
fn deposit_on_a_wiped_out_side_is_refused() {
    let mut market = state(1000, 50, 300, 0, 300);
    assert_eq!(
        market.on_deposit(Side::Short, U256::from(10)),
        Err(MarketError::ArithmeticOverflow)
    );
    assert_eq!(market, state(1000, 50, 300, 0, 300));
}

#[test]
fn withdrawal_releases_in_proportion() {
    let mut market = state(1000, 4, 400, 9, 100);
    assert_eq!(market.on_withdraw(Side::Long, U256::from(100)), Ok(U256::from(40)));
    assert_eq!(market, state(900, 4, 360, 9, 100));
}

#[test]
fn withdrawal_rounds_what_stays_down() {
    // 10 * 2 / 3 = 6 stay, 4 leave
    let mut market = state(0, 3, 0, 10, 100);
    assert_eq!(market.on_withdraw(Side::Short, U256::from(1)), Ok(U256::from(4)));
    assert_eq!(market, state(0, 2, 0, 6, 100));
}

#[test]
fn full_withdrawal_empties_the_side() {
    let mut market = state(7, 3, 1001, 10, 100);
    assert_eq!(market.on_withdraw(Side::Long, U256::from(7)), Ok(U256::from(1001)));
    assert_eq!(market, state(0, 3, 0, 10, 100));
}

#[test]
fn withdrawal_of_nothing_is_refused() {
    let mut market = state(1000, 0, 400, 0, 100);
    assert_eq!(market.on_withdraw(Side::Long, U256::zero()), Err(MarketError::ZeroAmount));
    assert_eq!(market.on_withdraw(Side::Short, U256::zero()), Err(MarketError::ZeroAmount));
    assert_eq!(market, state(1000, 0, 400, 0, 100));
}

#[test]
fn withdrawal_of_more_shares_than_there_are_is_refused() {
    let mut market = state(1000, 0, 400, 0, 100);
    assert_eq!(
        market.on_withdraw(Side::Long, U256::from(1001)),
        Err(MarketError::InsufficientShares)
    );
    assert_eq!(
        market.on_withdraw(Side::Short, U256::from(1)),
        Err(MarketError::InsufficientShares)
    );
    assert_eq!(market, state(1000, 0, 400, 0, 100));
}

#[test]
fn withdrawal_of_huge_numbers() {
    let mut market = MarketState {
        long_total_supply: MAX,
        short_total_supply: U256::zero(),
        long_liquidity: MAX,
        short_liquidity: U256::zero(),
        price: U256::from(100),
    };
    assert_eq!(market.on_withdraw(Side::Long, U256::from(1)), Ok(U256::from(1)));
    let rest = U256 { limbs: [u64::MAX - 1, u64::MAX, u64::MAX, u64::MAX] };
    assert_eq!(market.long_liquidity, rest);
    assert_eq!(market.long_total_supply, rest);
}

#[test]
fn deposit_then_withdrawal_gives_back_no_more() {
    for (supply, liquidity, amount) in
        [(1000u64, 200u64, 100u64), (10, 30, 10), (1, 1000, 1500), (3, 7, 5), (0, 0, 42)]
    {
        let mut market = state(supply, 0, liquidity, 0, 100);
        let minted = market.on_deposit(Side::Long, U256::from(amount)).unwrap();
        let released = market.on_withdraw(Side::Long, minted).unwrap();
        assert!(released.le(U256::from(amount)));
        assert_eq!(market.long_total_supply, U256::from(supply));
        assert!(U256::from(liquidity).le(market.long_liquidity));
    }
}

#[test]
fn deposit_then_withdrawal_exact_values() {
    // 1 share on 1000: a deposit of 1500 mints 1 share, which then stands for 1250.
    let mut market = state(1, 0, 1000, 0, 100);
    assert_eq!(market.on_deposit(Side::Long, U256::from(1500)), Ok(U256::from(1)));
    assert_eq!(market.on_withdraw(Side::Long, U256::from(1)), Ok(U256::from(1250)));
    assert_eq!(market, state(1, 0, 1250, 0, 100));
}
