use vstd::prelude::*;

verus! {

/// Identity of an account, an opaque equality-comparable token.
/// The raffle never interprets it; the host decides what the number stands for.
#[derive(Clone, Copy, PartialEq, Eq, Structural, Debug)]
pub struct AccountId {
    pub id: u64,
}

impl AccountId {
    pub fn new(id: u64) -> (r: AccountId)
        ensures
            r.id == id,
    {
        AccountId { id }
    }
}

/// The raffle error types. Every rejected call returns one of these and, apart
/// from the event appended on `RaffleStillOpen`, leaves the state unchanged.
/// A rejection of `participate` also tells the host that the deposit it
/// captured for the call must be refunded.
#[derive(Clone, Copy, PartialEq, Eq, Structural, Debug)]
pub enum Error {
    /// The deposit was not strictly between `DEPOSIT_MIN` and `DEPOSIT_MAX`.
    EndowmentOutOfLimits,
    /// The account is already in the game.
    AlreadyParticipating,
    /// All winners have been drawn; no further mutation is permitted.
    RaffleFinished,
    /// The host reported that the pot transfer failed; the payout stays due.
    TransferError,
    /// The draw was attempted before the trigger count was reached.
    TooFewParticipants,
    /// The draw was attempted before the countdown had elapsed.
    RaffleStillOpen,
}

/// Event emitted when a new participant enters the raffle.
#[derive(Clone, Copy, PartialEq, Eq, Structural, Debug)]
pub struct NewParticipant {
    pub participant: AccountId,
    pub value: u128,
}

/// Event emitted when a winner is drawn.
#[derive(Clone, Copy, PartialEq, Eq, Structural, Debug)]
pub struct RaffleWinner {
    pub winner: AccountId,
    pub index: u32,
}

/// Event emitted when a draw is rejected because the countdown is still
/// running; carries the milliseconds left until a draw is allowed.
#[derive(Clone, Copy, PartialEq, Eq, Structural, Debug)]
pub struct RaffleOpen {
    pub time_remaining: u64,
}

/// One record of the ordered notification log. The host delivers the log to
/// its event sink in order; from the raffle's side delivery never fails.
#[derive(Clone, Copy, PartialEq, Eq, Structural, Debug)]
pub enum Event {
    NewParticipant(NewParticipant),
    RaffleWinner(RaffleWinner),
    RaffleOpen(RaffleOpen),
}

} // verus!
