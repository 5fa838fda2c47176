//! Library-wide laws, proved over the same spec-level transitions that the
//! executable operations are specified against.

use vstd::prelude::*;
use crate::pool::pool_after_index_update;
use crate::pool::pool_after_open;
use crate::settlement::momentum_change;
use crate::settlement::net_payout;
use crate::settlement::position_wins;
use crate::settlement::profit_multiplier;
use crate::settlement::settle_allowed;
use crate::settlement::settle_error;
use crate::settlement::settled_position;
use crate::types::MomentumPool;
use crate::types::PositionType;
use crate::types::TradingError;
use crate::types::TradingPosition;
use crate::types::MAX_MOMENTUM_INDEX;

verus! {

/// An accepted index update is read back exactly, and touches nothing but
/// the index and the update timestamp.
pub proof fn lemma_index_update_read_back(pool: MomentumPool, new_index: u8, now: i64)
    ensures
        pool_after_index_update(pool, new_index, now).current_momentum_index == new_index,
        pool_after_index_update(pool, new_index, now).total_long_volume == pool.total_long_volume,
        pool_after_index_update(pool, new_index, now).total_short_volume == pool.total_short_volume,
        pool_after_index_update(pool, new_index, now).is_active == pool.is_active,
        pool_after_index_update(pool, new_index, now).authority == pool.authority,
{
}

/// Opening a Long and a Short position of the same stake on one pool raises
/// each volume accumulator by exactly that stake, each independently of the
/// other, in either order.
pub proof fn lemma_open_volumes_independent(pool: MomentumPool, amount: u64)
    requires
        amount > 0,
        pool.total_long_volume + amount <= u64::MAX,
        pool.total_short_volume + amount <= u64::MAX,
    ensures
        pool_after_open(pool, PositionType::Long, amount).total_long_volume
            == pool.total_long_volume + amount,
        pool_after_open(pool, PositionType::Long, amount).total_short_volume
            == pool.total_short_volume,
        pool_after_open(pool, PositionType::Short, amount).total_short_volume
            == pool.total_short_volume + amount,
        pool_after_open(pool, PositionType::Short, amount).total_long_volume
            == pool.total_long_volume,
        pool_after_open(pool_after_open(pool, PositionType::Long, amount), PositionType::Short, amount)
            == pool_after_open(pool_after_open(pool, PositionType::Short, amount), PositionType::Long, amount),
        pool_after_open(pool_after_open(pool, PositionType::Long, amount), PositionType::Short, amount)
            .total_long_volume == pool.total_long_volume + amount,
        pool_after_open(pool_after_open(pool, PositionType::Long, amount), PositionType::Short, amount)
            .total_short_volume == pool.total_short_volume + amount,
{
}

/// Opening never shrinks either accumulator: volumes are monotonically
/// non-decreasing.
pub proof fn lemma_volumes_monotonic(pool: MomentumPool, position_type: PositionType, amount: u64)
    requires
        pool.total_long_volume + amount <= u64::MAX,
        pool.total_short_volume + amount <= u64::MAX,
    ensures
        pool_after_open(pool, position_type, amount).total_long_volume >= pool.total_long_volume,
        pool_after_open(pool, position_type, amount).total_short_volume >= pool.total_short_volume,
{
}

/// A settled position can never settle again: every later attempt is
/// rejected with `AlreadySettled`, whatever the pool then reads or the clock
/// says, so a second payout is never owed.
pub proof fn lemma_no_double_settlement(
    position: TradingPosition,
    pool: MomentumPool,
    now1: i64,
    now2: i64,
)
    requires
        settle_allowed(position, now1),
    ensures
        !settle_allowed(settled_position(position, pool, now1), now2),
        settle_error(settled_position(position, pool, now1), now2) == TradingError::AlreadySettled,
{
}

/// Before the window end nothing settles: an unsettled position is rejected
/// with `WindowNotEnded` whenever `now` is early.
pub proof fn lemma_no_early_settlement(position: TradingPosition, now: i64)
    requires
        !position.is_settled,
        now < position.window_end_time,
    ensures
        !settle_allowed(position, now),
        settle_error(position, now) == TradingError::WindowNotEnded,
{
}

/// Every pool transition keeps the momentum index inside the 0-100 range:
/// opening does not touch the index, and an update in range keeps it there.
pub proof fn lemma_pool_wf_preserved(
    pool: MomentumPool,
    position_type: PositionType,
    amount: u64,
    new_index: u8,
    now: i64,
)
    requires
        pool.wf(),
        new_index <= MAX_MOMENTUM_INDEX,
    ensures
        pool_after_open(pool, position_type, amount).wf(),
        pool_after_index_update(pool, new_index, now).wf(),
{
}

/// A flat market pays nothing: a zero momentum change is a total loss for
/// both directions.
pub proof fn lemma_flat_market_pays_nothing(position_type: PositionType, index: u8, amount: u64)
    ensures
        momentum_change(index, index) == 0,
        net_payout(position_type, index, index, amount) == 0,
{
}

/// The same movement never pays both directions: for any entry and exit at
/// most one of Long and Short receives a payout.
pub proof fn lemma_one_direction_wins(entry_index: u8, exit_index: u8, amount: u64)
    ensures
        net_payout(PositionType::Long, entry_index, exit_index, amount) == 0
            || net_payout(PositionType::Short, entry_index, exit_index, amount) == 0,
{
}

/// The payout is never negative and never more than twice the stake: the
/// profit multiplier is capped by the index range at 100%, and the fee only
/// ever shrinks a win.
pub proof fn lemma_payout_bounded(
    position_type: PositionType,
    entry_index: u8,
    exit_index: u8,
    amount: u64,
)
    requires
        entry_index <= MAX_MOMENTUM_INDEX,
        exit_index <= MAX_MOMENTUM_INDEX,
    ensures
        0 <= net_payout(position_type, entry_index, exit_index, amount),
        net_payout(position_type, entry_index, exit_index, amount) <= 2 * amount,
        position_wins(position_type, momentum_change(entry_index, exit_index))
            ==> net_payout(position_type, entry_index, exit_index, amount) >= amount,
{
    let change = momentum_change(entry_index, exit_index);
    if position_wins(position_type, change) {
        let multiplier = profit_multiplier(change);
        assert(0 <= multiplier <= 100);
        let profit = amount * multiplier / 100;
        assert(0 <= profit <= amount) by (nonlinear_arith)
            requires
                0 <= multiplier <= 100,
                profit == amount * multiplier / 100,
        ;
        let fee = profit * 2 / 100;
        assert(0 <= fee <= profit) by (nonlinear_arith)
            requires
                0 <= profit,
                fee == profit * 2 / 100,
        ;
    }
}

} // verus!
