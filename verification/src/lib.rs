//! A two-party wager session library: a vendor and a player each stake an
//! equal amount, a dice roll picks a winner (or a draw), and the combined
//! stake is paid to the winner. The escrow lifecycle (setup, play, delete)
//! is verified: funds are never lost, duplicated, or paid out twice.

pub mod errors;
pub mod lifecycle;
pub mod resolver;
pub mod session;
mod rng;

pub use errors::DiceRollError;
pub use lifecycle::delete;
pub use lifecycle::play;
pub use lifecycle::play_with_rolls;
pub use lifecycle::setup;
pub use lifecycle::EscrowController;
pub use resolver::resolve;
pub use session::DiceRoll;
pub use session::DiceRollResult;
