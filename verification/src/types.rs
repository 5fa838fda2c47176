//! Data model: pools, positions, events and the error taxonomy.

use vstd::prelude::*;

verus! {

/// Largest value the momentum index may take; the index always lies in
/// `0..=MAX_MOMENTUM_INDEX`.
pub const MAX_MOMENTUM_INDEX: u8 = 100;

/// Index value a freshly created pool starts at (a neutral reading).
pub const NEUTRAL_MOMENTUM_INDEX: u8 = 50;

/// Identifier of an account in the surrounding storage/ledger layer. The core
/// only ever compares these for equality (authorization checks) and records
/// them in positions and events.
#[derive(Clone, Copy, PartialEq, Eq, Structural, Debug, Hash)]
pub struct AccountId(pub u64);

/// Direction of a position: Long bets on the index rising, Short on it
/// falling.
#[derive(Clone, Copy, PartialEq, Eq, Structural, Debug)]
pub enum PositionType {
    Long,
    Short,
}

/// Terminal, caller-visible failures; none is retried internally.
#[derive(Clone, Copy, PartialEq, Eq, Structural, Debug)]
pub enum TradingError {
    /// Open attempted on a deactivated pool.
    PoolNotActive,
    /// Open attempted with a zero stake.
    InvalidAmount,
    /// Index update attempted by a caller other than the pool's authority.
    UnauthorizedOracle,
    /// Index update attempted with a value above the 0-100 range.
    InvalidMomentumIndex,
    /// Settlement attempted on an already settled position.
    AlreadySettled,
    /// Settlement attempted before the position's window elapsed.
    WindowNotEnded,
    /// The external ledger refused a transfer; the host propagates this
    /// unchanged and commits no state.
    TransferFailure,
}

/// Shared state and custody record for one event's trading activity.
#[derive(Clone, Debug)]
pub struct MomentumPool {
    /// Administers the pool; the only accepted index-oracle caller.
    pub authority: AccountId,
    /// Unique key of the tracked event.
    pub match_id: String,
    pub start_time: i64,
    pub home_team: String,
    pub away_team: String,
    /// Sum of all Long stakes ever opened; never decreases.
    pub total_long_volume: u64,
    /// Sum of all Short stakes ever opened; never decreases.
    pub total_short_volume: u64,
    /// Latest oracle reading, always in `0..=MAX_MOMENTUM_INDEX`.
    pub current_momentum_index: u8,
    pub is_active: bool,
    pub created_at: i64,
    /// Time of the most recent index update.
    pub last_update: i64,
}

impl MomentumPool {
    /// The pool invariant: the momentum index stays inside the 0-100 range.
    pub open spec fn wf(self) -> bool {
        self.current_momentum_index <= MAX_MOMENTUM_INDEX
    }
}

/// One trader's directional bet with a fixed stake and time window.
#[derive(Clone, Debug)]
pub struct TradingPosition {
    pub trader: AccountId,
    /// Lookup-only back-reference to the owning pool, by its unique key.
    pub pool_match_id: String,
    pub position_type: PositionType,
    /// Stake, debited from the trader when the position opens; always > 0.
    pub amount: u64,
    /// Snapshot of the pool index at open time: the betting baseline.
    pub entry_momentum_index: u8,
    /// Pool index at settlement; zero until settled.
    pub exit_momentum_index: u8,
    pub entry_time: i64,
    /// First instant at which settlement is permitted.
    pub window_end_time: i64,
    /// One-way flag: settlement flips it false to true exactly once.
    pub is_settled: bool,
    /// Signed outcome, payout minus stake; zero until settled.
    pub pnl: i64,
    /// Time of settlement; zero until settled.
    pub settled_at: i64,
}

impl TradingPosition {
    /// The position invariant: a positive stake and an in-range entry
    /// snapshot.
    pub open spec fn wf(self) -> bool {
        &&& self.amount > 0
        &&& self.entry_momentum_index <= MAX_MOMENTUM_INDEX
    }
}

/// Notification emitted on every index update: the sole signal downstream
/// consumers use to track index history.
#[derive(Clone, PartialEq, Eq, Debug)]
pub struct MomentumUpdateEvent {
    pub match_id: String,
    pub old_index: u8,
    pub new_index: u8,
    pub timestamp: i64,
}

/// Notification emitted when a position settles.
#[derive(Clone, Copy, PartialEq, Eq, Structural, Debug)]
pub struct PositionSettledEvent {
    pub trader: AccountId,
    pub position_type: PositionType,
    pub pnl: i64,
    pub entry_index: u8,
    pub exit_index: u8,
}

} // verus!
