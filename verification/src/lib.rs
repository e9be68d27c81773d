//! A raffle: participants buy a ticket with a bounded deposit; once enough of
//! them have registered and a countdown has elapsed, winners are drawn at
//! random and the accumulated pot is paid out to a fixed receiver, exactly
//! once. The state machine here is pure: the host hands every call the plain
//! values its environment supplies (the deposit captured with the call, the
//! current time, the randomness beacon's bytes, the outcome of the transfer)
//! and delivers the notification log and the payout that the machine decides.

pub mod laws;
pub mod machine;
pub mod model;
pub mod params;
pub mod types;

pub use machine::Raffle;
pub use model::RaffleModel;
pub use params::DEPOSIT_MAX;
pub use params::DEPOSIT_MIN;
pub use params::DURATION_IN_MS;
pub use params::RAFFLE_TRIGGER;
pub use params::RAFFLE_WINNERS;
pub use types::AccountId;
pub use types::Error;
pub use types::Event;
pub use types::NewParticipant;
pub use types::RaffleOpen;
pub use types::RaffleWinner;
