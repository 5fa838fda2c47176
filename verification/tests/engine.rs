//! End-to-end tests of the pool/position state machine and the settlement
//! arithmetic, driven through the public operations with an explicit clock.

use momentum_trading::calculate_payout;
use momentum_trading::initialize_pool;
use momentum_trading::open_long_position;
use momentum_trading::open_short_position;
use momentum_trading::settle_position;
use momentum_trading::settlement_event;
use momentum_trading::update_momentum_index;
use momentum_trading::AccountId;
use momentum_trading::MomentumPool;
use momentum_trading::PositionType;
use momentum_trading::TradingError;
use momentum_trading::TradingPosition;

const AUTHORITY: AccountId = AccountId(1);
const TRADER: AccountId = AccountId(2);

fn fresh_pool(now: i64) -> MomentumPool {
    initialize_pool(
        String::from("match-001"),
        1_700_000_000,
        String::from("Home"),
        String::from("Away"),
        AUTHORITY,
        now,
    )
}

fn open_long(pool: &mut MomentumPool, amount: u64, now: i64) -> TradingPosition {
    open_long_position(pool, TRADER, amount, 300, now).expect("open long")
}

fn open_short(pool: &mut MomentumPool, amount: u64, now: i64) -> TradingPosition {
    open_short_position(pool, TRADER, amount, 300, now).expect("open short")
}

#[test]
fn initialize_sets_neutral_state() {
    let pool = fresh_pool(100);
    assert_eq!(pool.authority, AUTHORITY);
    assert_eq!(pool.match_id, "match-001");
    assert_eq!(pool.start_time, 1_700_000_000);
    assert_eq!(pool.home_team, "Home");
    assert_eq!(pool.away_team, "Away");
    assert_eq!(pool.total_long_volume, 0);
    assert_eq!(pool.total_short_volume, 0);
    assert_eq!(pool.current_momentum_index, 50);
    assert!(pool.is_active);
    assert_eq!(pool.created_at, 100);
    assert_eq!(pool.last_update, 0);
}

#[test]
fn index_update_reads_back_every_valid_value() {
    let mut pool = fresh_pool(100);
    for new_index in 0..=100u8 {
        let event = update_momentum_index(&mut pool, AUTHORITY, new_index, 200).expect("update");
        assert_eq!(pool.current_momentum_index, new_index);
        assert_eq!(pool.last_update, 200);
        assert_eq!(event.match_id, "match-001");
        assert_eq!(event.new_index, new_index);
        assert_eq!(event.timestamp, 200);
    }
}

#[test]
fn index_update_rejects_out_of_range_and_keeps_index() {
    let mut pool = fresh_pool(100);
    update_momentum_index(&mut pool, AUTHORITY, 73, 200).expect("update");
    for bad_index in [101u8, 150, 255] {
        let result = update_momentum_index(&mut pool, AUTHORITY, bad_index, 300);
        assert_eq!(result.unwrap_err(), TradingError::InvalidMomentumIndex);
        assert_eq!(pool.current_momentum_index, 73);
        assert_eq!(pool.last_update, 200);
    }
}

#[test]
fn index_update_rejects_non_authority_caller() {
    let mut pool = fresh_pool(100);
    let result = update_momentum_index(&mut pool, TRADER, 60, 200);
    assert_eq!(result.unwrap_err(), TradingError::UnauthorizedOracle);
    assert_eq!(pool.current_momentum_index, 50);
    assert_eq!(pool.last_update, 0);
}

#[test]
fn index_update_event_carries_old_and_new_index() {
    let mut pool = fresh_pool(100);
    let event = update_momentum_index(&mut pool, AUTHORITY, 80, 250).expect("update");
    assert_eq!(event.old_index, 50);
    assert_eq!(event.new_index, 80);
    let event = update_momentum_index(&mut pool, AUTHORITY, 20, 260).expect("update");
    assert_eq!(event.old_index, 80);
    assert_eq!(event.new_index, 20);
}

#[test]
fn open_long_and_short_grow_volumes_independently() {
    for amount in [1u64, 500, 1_000_000] {
        let mut pool = fresh_pool(100);
        open_long(&mut pool, amount, 200);
        assert_eq!(pool.total_long_volume, amount);
        assert_eq!(pool.total_short_volume, 0);
        open_short(&mut pool, amount, 210);
        assert_eq!(pool.total_long_volume, amount);
        assert_eq!(pool.total_short_volume, amount);
    }
}

#[test]
fn open_snapshots_entry_index_and_window() {
    let mut pool = fresh_pool(100);
    update_momentum_index(&mut pool, AUTHORITY, 64, 150).expect("update");
    let position = open_long(&mut pool, 1000, 200);
    assert_eq!(position.trader, TRADER);
    assert_eq!(position.pool_match_id, "match-001");
    assert_eq!(position.position_type, PositionType::Long);
    assert_eq!(position.amount, 1000);
    assert_eq!(position.entry_momentum_index, 64);
    assert_eq!(position.entry_time, 200);
    assert_eq!(position.window_end_time, 500);
    assert!(!position.is_settled);
    assert_eq!(position.pnl, 0);
    assert_eq!(position.exit_momentum_index, 0);
    assert_eq!(position.settled_at, 0);
}

#[test]
fn open_rejects_inactive_pool() {
    let mut pool = fresh_pool(100);
    pool.is_active = false;
    let long = open_long_position(&mut pool, TRADER, 1000, 300, 200);
    assert_eq!(long.unwrap_err(), TradingError::PoolNotActive);
    let short = open_short_position(&mut pool, TRADER, 1000, 300, 200);
    assert_eq!(short.unwrap_err(), TradingError::PoolNotActive);
    assert_eq!(pool.total_long_volume, 0);
    assert_eq!(pool.total_short_volume, 0);
}

#[test]
fn open_rejects_zero_amount() {
    let mut pool = fresh_pool(100);
    let long = open_long_position(&mut pool, TRADER, 0, 300, 200);
    assert_eq!(long.unwrap_err(), TradingError::InvalidAmount);
    let short = open_short_position(&mut pool, TRADER, 0, 300, 200);
    assert_eq!(short.unwrap_err(), TradingError::InvalidAmount);
    assert_eq!(pool.total_long_volume, 0);
    assert_eq!(pool.total_short_volume, 0);
}

#[test]
fn settle_before_window_end_fails_and_leaves_position_unsettled() {
    let mut pool = fresh_pool(100);
    let mut position = open_long(&mut pool, 1000, 200);
    let result = settle_position(&mut position, &pool, 499);
    assert_eq!(result.unwrap_err(), TradingError::WindowNotEnded);
    assert!(!position.is_settled);
    assert_eq!(position.pnl, 0);
    assert_eq!(position.settled_at, 0);
}

#[test]
fn settle_twice_fails_with_already_settled_and_pays_once() {
    let mut pool = fresh_pool(100);
    let mut position = open_long(&mut pool, 1000, 200);
    update_momentum_index(&mut pool, AUTHORITY, 70, 400).expect("update");
    let first = settle_position(&mut position, &pool, 500).expect("first settlement");
    assert_eq!(first, 1196);
    let second = settle_position(&mut position, &pool, 600);
    assert_eq!(second.unwrap_err(), TradingError::AlreadySettled);
    // The record still shows the first settlement only.
    assert_eq!(position.pnl, 196);
    assert_eq!(position.settled_at, 500);
}

#[test]
fn scenario_long_win_pays_net_of_profit_fee() {
    // Entry at 50, exit at 70, Long stake 1000: gross 1200, fee 4, net 1196.
    let mut pool = fresh_pool(100);
    let mut position = open_long(&mut pool, 1000, 200);
    assert_eq!(position.entry_momentum_index, 50);
    update_momentum_index(&mut pool, AUTHORITY, 70, 400).expect("update");
    let payout = settle_position(&mut position, &pool, 500).expect("settle");
    assert_eq!(payout, 1196);
    assert!(position.is_settled);
    assert_eq!(position.pnl, 196);
    assert_eq!(position.exit_momentum_index, 70);
    assert_eq!(position.settled_at, 500);
}

#[test]
fn scenario_short_loses_on_rising_index() {
    // Entry at 50, exit at 70, Short stake 1000: adverse move, total loss.
    let mut pool = fresh_pool(100);
    let mut position = open_short(&mut pool, 1000, 200);
    update_momentum_index(&mut pool, AUTHORITY, 70, 400).expect("update");
    let payout = settle_position(&mut position, &pool, 500).expect("settle");
    assert_eq!(payout, 0);
    assert_eq!(position.pnl, -1000);
    assert_eq!(position.exit_momentum_index, 70);
}

#[test]
fn scenario_flat_market_is_total_loss() {
    // Entry at 50, index unchanged: zero change pays nothing either way.
    let mut pool = fresh_pool(100);
    let mut long = open_long(&mut pool, 1000, 200);
    let mut short = open_short(&mut pool, 1000, 210);
    let long_payout = settle_position(&mut long, &pool, 510).expect("settle long");
    let short_payout = settle_position(&mut short, &pool, 511).expect("settle short");
    assert_eq!(long_payout, 0);
    assert_eq!(long.pnl, -1000);
    assert_eq!(short_payout, 0);
    assert_eq!(short.pnl, -1000);
}

#[test]
fn scenario_full_range_move_is_maximum_payout() {
    // Entry at 0, exit at 100, Long stake 1000: gross 2000, fee 20, net 1980.
    let mut pool = fresh_pool(100);
    update_momentum_index(&mut pool, AUTHORITY, 0, 150).expect("update");
    let mut position = open_long(&mut pool, 1000, 200);
    assert_eq!(position.entry_momentum_index, 0);
    update_momentum_index(&mut pool, AUTHORITY, 100, 400).expect("update");
    let payout = settle_position(&mut position, &pool, 500).expect("settle");
    assert_eq!(payout, 1980);
    assert_eq!(position.pnl, 980);
}

#[test]
fn payout_formula_exact_values() {
    // Long win, move of 20: 1000 + 200 - 4.
    assert_eq!(calculate_payout(PositionType::Long, 50, 70, 1000), 1196);
    // Short win on a falling index, move of -20: same magnitude, same payout.
    assert_eq!(calculate_payout(PositionType::Short, 70, 50, 1000), 1196);
    // Truncating divisions: move of 3 on stake 10 gives zero profit and zero fee.
    assert_eq!(calculate_payout(PositionType::Long, 50, 53, 10), 10);
    // Move of 7 on stake 150: gross 160, profit 10, fee 0 (truncated).
    assert_eq!(calculate_payout(PositionType::Long, 50, 57, 150), 160);
    // Move of 50 on stake 100: gross 150, fee 1, net 149.
    assert_eq!(calculate_payout(PositionType::Long, 25, 75, 100), 149);
    // Losses and flat markets pay nothing.
    assert_eq!(calculate_payout(PositionType::Long, 70, 50, 1000), 0);
    assert_eq!(calculate_payout(PositionType::Short, 50, 70, 1000), 0);
    assert_eq!(calculate_payout(PositionType::Long, 50, 50, 1000), 0);
    assert_eq!(calculate_payout(PositionType::Short, 50, 50, 1000), 0);
}

#[test]
fn settlement_event_reports_the_recorded_outcome() {
    let mut pool = fresh_pool(100);
    let mut position = open_long(&mut pool, 1000, 200);
    update_momentum_index(&mut pool, AUTHORITY, 70, 400).expect("update");
    settle_position(&mut position, &pool, 500).expect("settle");
    let event = settlement_event(&position);
    assert_eq!(event.trader, TRADER);
    assert_eq!(event.position_type, PositionType::Long);
    assert_eq!(event.pnl, 196);
    assert_eq!(event.entry_index, 50);
    assert_eq!(event.exit_index, 70);
}
