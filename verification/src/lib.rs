//! Momentum-index derivatives settlement engine.
//!
//! A `MomentumPool` tracks a 0-100 momentum index for one live event. Traders
//! open directional `TradingPosition`s (Long or Short) against a pool, and each
//! position settles exactly once after its time window has elapsed, paying out
//! according to how the index moved between entry and exit.
//!
//! This crate is the verified core: the pool/position state machine and the
//! settlement arithmetic, stated over plain values. The surrounding host owns
//! account storage, the clock, and the ledger transfer port that actually
//! moves funds; it hands this core the current time and applies the transfers
//! the core's results call for.

pub mod types;
pub mod pool;
pub mod settlement;
pub mod laws;

pub use types::AccountId;
pub use types::PositionType;
pub use types::TradingError;
pub use types::MomentumPool;
pub use types::TradingPosition;
pub use types::MomentumUpdateEvent;
pub use types::PositionSettledEvent;
pub use pool::initialize_pool;
pub use pool::update_momentum_index;
pub use pool::open_long_position;
pub use pool::open_short_position;
pub use settlement::calculate_payout;
pub use settlement::settle_position;
pub use settlement::settlement_event;
