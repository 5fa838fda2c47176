//! Pool lifecycle: creation, oracle-fed index updates, and position opening
//! with aggregate volume tracking.
//!
//! Every operation here is a plain state transition. The host performs the
//! ledger transfer that funds a position before committing the transition
//! (see `open_long_position`), and supplies the current time as `now`.

use vstd::prelude::*;
use crate::types::AccountId;
use crate::types::MomentumPool;
use crate::types::MomentumUpdateEvent;
use crate::types::PositionType;
use crate::types::TradingError;
use crate::types::TradingPosition;
use crate::types::MAX_MOMENTUM_INDEX;
use crate::types::NEUTRAL_MOMENTUM_INDEX;

verus! {

/// The pool state after an accepted index update: only the index and the
/// update timestamp change.
pub open spec fn pool_after_index_update(pool: MomentumPool, new_index: u8, now: i64) -> MomentumPool {
    MomentumPool { current_momentum_index: new_index, last_update: now, ..pool }
}

/// The pool state after an accepted open: exactly the accumulator of the
/// opened direction grows by the stake.
pub open spec fn pool_after_open(
    pool: MomentumPool,
    position_type: PositionType,
    amount: u64,
) -> MomentumPool {
    match position_type {
        PositionType::Long => MomentumPool {
            total_long_volume: (pool.total_long_volume + amount) as u64,
            ..pool
        },
        PositionType::Short => MomentumPool {
            total_short_volume: (pool.total_short_volume + amount) as u64,
            ..pool
        },
    }
}

/// The position record an accepted open creates: the entry index snapshots
/// the pool's current index, and the outcome fields start cleared.
pub open spec fn opened_position(
    pool: MomentumPool,
    trader: AccountId,
    position_type: PositionType,
    amount: u64,
    window_duration: i64,
    now: i64,
) -> TradingPosition {
    TradingPosition {
        trader: trader,
        pool_match_id: pool.match_id,
        position_type: position_type,
        amount: amount,
        entry_momentum_index: pool.current_momentum_index,
        exit_momentum_index: 0,
        entry_time: now,
        window_end_time: (now + window_duration) as i64,
        is_settled: false,
        pnl: 0,
        settled_at: 0,
    }
}

/// Whether a pool accepts a new position of the given stake.
pub open spec fn open_allowed(pool: MomentumPool, amount: u64) -> bool {
    pool.is_active && amount > 0
}

/// The error an open attempt reports when it is not allowed; the activity
/// check comes before the stake check.
pub open spec fn open_error(pool: MomentumPool, amount: u64) -> TradingError {
    if !pool.is_active {
        TradingError::PoolNotActive
    } else {
        TradingError::InvalidAmount
    }
}

/// Creates the pool record for one tracked event: volumes start at zero, the
/// index at the neutral reading, and the pool active.
pub fn initialize_pool(
    match_id: String,
    start_time: i64,
    home_team: String,
    away_team: String,
    authority: AccountId,
    now: i64,
) -> (pool: MomentumPool)
    ensures
        pool.authority == authority,
        pool.match_id == match_id,
        pool.start_time == start_time,
        pool.home_team == home_team,
        pool.away_team == away_team,
        pool.total_long_volume == 0,
        pool.total_short_volume == 0,
        pool.current_momentum_index == NEUTRAL_MOMENTUM_INDEX,
        pool.is_active,
        pool.created_at == now,
        pool.last_update == 0,
        pool.wf(),
{
    MomentumPool {
        authority,
        match_id,
        start_time,
        home_team,
        away_team,
        total_long_volume: 0,
        total_short_volume: 0,
        current_momentum_index: NEUTRAL_MOMENTUM_INDEX,
        is_active: true,
        created_at: now,
        last_update: 0,
    }
}

/// Records a new oracle reading. Only the pool's authority may call; the
/// reading must lie in the 0-100 range. On success the index and update
/// timestamp change and the update event is returned for emission; on
/// failure the pool is untouched.
pub fn update_momentum_index(
    pool: &mut MomentumPool,
    caller: AccountId,
    new_index: u8,
    now: i64,
) -> (result: Result<MomentumUpdateEvent, TradingError>)
    ensures
        result is Ok <==> caller == old(pool).authority && new_index <= MAX_MOMENTUM_INDEX,
        result is Ok ==> *final(pool) == pool_after_index_update(*old(pool), new_index, now),
        result is Ok ==> final(pool).wf(),
        result is Ok ==> (result->Ok_0).match_id == old(pool).match_id
            && (result->Ok_0).old_index == old(pool).current_momentum_index
            && (result->Ok_0).new_index == new_index
            && (result->Ok_0).timestamp == now,
        result is Err ==> *final(pool) == *old(pool),
        caller != old(pool).authority
            ==> result == Err::<MomentumUpdateEvent, TradingError>(TradingError::UnauthorizedOracle),
        caller == old(pool).authority && new_index > MAX_MOMENTUM_INDEX
            ==> result == Err::<MomentumUpdateEvent, TradingError>(TradingError::InvalidMomentumIndex),
{
    if !(caller == pool.authority) {
        return Err(TradingError::UnauthorizedOracle);
    }
    if new_index > MAX_MOMENTUM_INDEX {
        return Err(TradingError::InvalidMomentumIndex);
    }
    let old_index = pool.current_momentum_index;
    pool.current_momentum_index = new_index;
    pool.last_update = now;
    Ok(MomentumUpdateEvent {
        match_id: pool.match_id.clone(),
        old_index,
        new_index,
        timestamp: now,
    })
}

/// Opens a Long position: bets on the momentum index rising. The host must
/// first move `amount` from the trader to the pool's custody account and
/// call this only if that transfer succeeded; on failure here nothing was
/// committed and the host refunds nothing beyond aborting.
pub fn open_long_position(
    pool: &mut MomentumPool,
    trader: AccountId,
    amount: u64,
    window_duration: i64,
    now: i64,
) -> (result: Result<TradingPosition, TradingError>)
    requires
        old(pool).total_long_volume + amount <= u64::MAX,
        i64::MIN <= now + window_duration <= i64::MAX,
    ensures
        result is Ok <==> open_allowed(*old(pool), amount),
        result is Ok ==> *final(pool) == pool_after_open(*old(pool), PositionType::Long, amount),
        result is Ok ==> result->Ok_0
            == opened_position(*old(pool), trader, PositionType::Long, amount, window_duration, now),
        result is Ok && old(pool).wf() ==> (result->Ok_0).wf(),
        result is Err ==> *final(pool) == *old(pool)
            && result->Err_0 == open_error(*old(pool), amount),
{
    if !pool.is_active {
        return Err(TradingError::PoolNotActive);
    }
    if amount == 0 {
        return Err(TradingError::InvalidAmount);
    }
    let position = TradingPosition {
        trader,
        pool_match_id: pool.match_id.clone(),
        position_type: PositionType::Long,
        amount,
        entry_momentum_index: pool.current_momentum_index,
        exit_momentum_index: 0,
        entry_time: now,
        window_end_time: now + window_duration,
        is_settled: false,
        pnl: 0,
        settled_at: 0,
    };
    pool.total_long_volume = pool.total_long_volume + amount;
    Ok(position)
}

/// Opens a Short position: bets on the momentum index falling. Same funding
/// protocol as `open_long_position`; only the short accumulator grows.
pub fn open_short_position(
    pool: &mut MomentumPool,
    trader: AccountId,
    amount: u64,
    window_duration: i64,
    now: i64,
) -> (result: Result<TradingPosition, TradingError>)
    requires
        old(pool).total_short_volume + amount <= u64::MAX,
        i64::MIN <= now + window_duration <= i64::MAX,
    ensures
        result is Ok <==> open_allowed(*old(pool), amount),
        result is Ok ==> *final(pool) == pool_after_open(*old(pool), PositionType::Short, amount),
        result is Ok ==> result->Ok_0
            == opened_position(*old(pool), trader, PositionType::Short, amount, window_duration, now),
        result is Ok && old(pool).wf() ==> (result->Ok_0).wf(),
        result is Err ==> *final(pool) == *old(pool)
            && result->Err_0 == open_error(*old(pool), amount),
{
    if !pool.is_active {
        return Err(TradingError::PoolNotActive);
    }
    if amount == 0 {
        return Err(TradingError::InvalidAmount);
    }
    let position = TradingPosition {
        trader,
        pool_match_id: pool.match_id.clone(),
        position_type: PositionType::Short,
        amount,
        entry_momentum_index: pool.current_momentum_index,
        exit_momentum_index: 0,
        entry_time: now,
        window_end_time: now + window_duration,
        is_settled: false,
        pnl: 0,
        settled_at: 0,
    };
    pool.total_short_volume = pool.total_short_volume + amount;
    Ok(position)
}

} // verus!
