use vstd::prelude::*;

verus! {

/// Smallest stake: a deposit must be strictly above this amount to buy a ticket.
pub const DEPOSIT_MIN: u128 = 10_000_000_000_000;

/// Largest stake: a deposit must be strictly below this amount to buy a ticket.
pub const DEPOSIT_MAX: u128 = 100_000_000_000_000;

/// The draw stays barred until this many participants have registered.
pub const RAFFLE_TRIGGER: usize = 5;

/// Number of winners drawn before the raffle is over.
pub const RAFFLE_WINNERS: usize = 2;

/// Milliseconds that must elapse after the trigger moment before a draw may run.
pub const DURATION_IN_MS: u64 = 5;

} // verus!
