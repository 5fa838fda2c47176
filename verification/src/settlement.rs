//! Settlement: the one-time, irreversible computation of payout and PnL for
//! a position, from the index movement between entry and exit.
//!
//! A winning position receives its stake plus `stake * |change| / 100`
//! profit, minus a 2% fee on the profit portion only (integer division,
//! truncating). A flat or adverse move pays nothing and the stake stays with
//! the pool. The host pays the computed amount out of the pool's custody
//! account before committing the settlement record.

use vstd::prelude::*;
use crate::types::MomentumPool;
use crate::types::PositionSettledEvent;
use crate::types::PositionType;
use crate::types::TradingError;
use crate::types::TradingPosition;
use crate::types::MAX_MOMENTUM_INDEX;

verus! {

/// Signed index movement from entry to exit, in the range -100..=100 when
/// both readings are in range.
pub open spec fn momentum_change(entry_index: u8, exit_index: u8) -> int {
    exit_index - entry_index
}

/// A Long position wins iff the index rose; a Short wins iff it fell. A flat
/// market (zero change) wins for neither direction.
pub open spec fn position_wins(position_type: PositionType, change: int) -> bool {
    match position_type {
        PositionType::Long => change > 0,
        PositionType::Short => change < 0,
    }
}

/// Profit multiplier of a winning position: the magnitude of the index
/// movement, an integer percentage.
pub open spec fn profit_multiplier(change: int) -> int {
    if change >= 0 {
        change
    } else {
        -change
    }
}

/// Stake plus truncated percentage profit, before the fee.
pub open spec fn gross_payout(amount: u64, multiplier: int) -> int {
    amount + amount * multiplier / 100
}

/// 2% of the profit portion only, truncated; never applied to the principal.
pub open spec fn profit_fee(amount: u64, multiplier: int) -> int {
    (gross_payout(amount, multiplier) - amount) * 2 / 100
}

/// What settlement pays the trader: gross payout minus the profit fee on a
/// win, nothing otherwise.
pub open spec fn net_payout(
    position_type: PositionType,
    entry_index: u8,
    exit_index: u8,
    amount: u64,
) -> int {
    let change = momentum_change(entry_index, exit_index);
    if position_wins(position_type, change) {
        gross_payout(amount, profit_multiplier(change)) - profit_fee(amount, profit_multiplier(change))
    } else {
        0
    }
}

/// Whether a position may settle now: not yet settled, and the window has
/// elapsed.
pub open spec fn settle_allowed(position: TradingPosition, now: i64) -> bool {
    !position.is_settled && now >= position.window_end_time
}

/// The error a disallowed settlement attempt reports; the settled flag is
/// checked before the window.
pub open spec fn settle_error(position: TradingPosition, now: i64) -> TradingError {
    if position.is_settled {
        TradingError::AlreadySettled
    } else {
        TradingError::WindowNotEnded
    }
}

/// The position record after settlement: the one-way settled flag is set,
/// the exit index snapshots the pool, and pnl is payout minus stake.
pub open spec fn settled_position(
    position: TradingPosition,
    pool: MomentumPool,
    now: i64,
) -> TradingPosition {
    let payout = net_payout(
        position.position_type,
        position.entry_momentum_index,
        pool.current_momentum_index,
        position.amount,
    );
    TradingPosition {
        is_settled: true,
        pnl: (payout - position.amount) as i64,
        exit_momentum_index: pool.current_momentum_index,
        settled_at: now,
        ..position
    }
}

/// Computes the settlement payout for a position of the given direction,
/// entry snapshot and stake against the exit index. Pure arithmetic: no
/// state changes here.
pub fn calculate_payout(
    position_type: PositionType,
    entry_index: u8,
    exit_index: u8,
    amount: u64,
) -> (payout: u64)
    requires
        entry_index <= MAX_MOMENTUM_INDEX,
        exit_index <= MAX_MOMENTUM_INDEX,
        amount <= u64::MAX / 100,
    ensures
        payout == net_payout(position_type, entry_index, exit_index, amount),
        payout <= 2 * amount,
        !position_wins(position_type, momentum_change(entry_index, exit_index)) ==> payout == 0,
        position_wins(position_type, momentum_change(entry_index, exit_index)) ==> payout >= amount,
{
    let change: i16 = exit_index as i16 - entry_index as i16;
    let wins: bool = match position_type {
        PositionType::Long => change > 0,
        PositionType::Short => change < 0,
    };
    if wins {
        let multiplier: u64 = if change >= 0 {
            change as u64
        } else {
            (-change) as u64
        };
        proof {
            assert(multiplier == profit_multiplier(momentum_change(entry_index, exit_index)));
            assert(amount * multiplier <= amount * 100) by (nonlinear_arith)
                requires
                    multiplier <= 100,
            ;
            assert(amount * multiplier / 100 <= amount * 100 / 100) by (nonlinear_arith)
                requires
                    amount * multiplier <= amount * 100,
            ;
            assert(amount * 100 / 100 == amount) by (nonlinear_arith);
        }
        let gross: u64 = amount + amount * multiplier / 100;
        let fee: u64 = (gross - amount) * 2 / 100;
        gross - fee
    } else {
        0
    }
}

/// Settles a position against the pool's current index, at time `now`.
/// Succeeds exactly once per position and only at or after its window end;
/// anyone may trigger it. On success the returned payout has already been
/// computed from the entry/exit movement, the position records its outcome,
/// and the host owes the trader the payout (it pays before committing). On
/// failure the position is untouched and safe to retry.
pub fn settle_position(
    position: &mut TradingPosition,
    pool: &MomentumPool,
    now: i64,
) -> (result: Result<u64, TradingError>)
    requires
        old(position).entry_momentum_index <= MAX_MOMENTUM_INDEX,
        pool.current_momentum_index <= MAX_MOMENTUM_INDEX,
        old(position).amount <= u64::MAX / 100,
    ensures
        result is Ok <==> settle_allowed(*old(position), now),
        result is Ok ==> result->Ok_0 == net_payout(
            old(position).position_type,
            old(position).entry_momentum_index,
            pool.current_momentum_index,
            old(position).amount,
        ),
        result is Ok ==> *final(position) == settled_position(*old(position), *pool, now),
        result is Ok ==> final(position).is_settled
            && final(position).pnl == result->Ok_0 - old(position).amount
            && final(position).exit_momentum_index == pool.current_momentum_index
            && final(position).settled_at == now,
        result is Err ==> *final(position) == *old(position)
            && result->Err_0 == settle_error(*old(position), now),
{
    if position.is_settled {
        return Err(TradingError::AlreadySettled);
    }
    if now < position.window_end_time {
        return Err(TradingError::WindowNotEnded);
    }
    let payout = calculate_payout(
        position.position_type,
        position.entry_momentum_index,
        pool.current_momentum_index,
        position.amount,
    );
    position.is_settled = true;
    position.pnl = payout as i64 - position.amount as i64;
    position.exit_momentum_index = pool.current_momentum_index;
    position.settled_at = now;
    Ok(payout)
}

/// Builds the settlement notification from a settled position's record.
pub fn settlement_event(position: &TradingPosition) -> (event: PositionSettledEvent)
    ensures
        event.trader == position.trader,
        event.position_type == position.position_type,
        event.pnl == position.pnl,
        event.entry_index == position.entry_momentum_index,
        event.exit_index == position.exit_momentum_index,
{
    PositionSettledEvent {
        trader: position.trader,
        position_type: position.position_type,
        pnl: position.pnl,
        entry_index: position.entry_momentum_index,
        exit_index: position.exit_momentum_index,
    }
}

} // verus!
