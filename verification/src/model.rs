use vstd::prelude::*;

use crate::params::DEPOSIT_MAX;
use crate::params::DEPOSIT_MIN;
use crate::params::DURATION_IN_MS;
use crate::params::RAFFLE_TRIGGER;
use crate::params::RAFFLE_WINNERS;
use crate::types::AccountId;
use crate::types::Error;
use crate::types::Event;
use crate::types::NewParticipant;
use crate::types::RaffleOpen;
use crate::types::RaffleWinner;

verus! {

/// The mathematical state of one raffle. `Raffle` views as this model, and
/// every entry point is specified as a step function from model to model.
#[verifier::ext_equal]
pub struct RaffleModel {
    /// Fixed at instantiation; the whole pot goes to this account.
    pub pot_receiver: AccountId,
    /// Sum of all accepted deposits; held until the payout.
    pub total_balance: u128,
    /// Registered accounts, in order of entry, each at most once.
    pub participants: Seq<AccountId>,
    /// Drawn winners, in order of the draws.
    pub winners: Seq<AccountId>,
    /// Latched once the trigger count of participants is reached.
    pub draw_ready: bool,
    /// The trigger moment; `Some` exactly while `draw_ready` holds.
    pub start_time: Option<u64>,
    /// Whether the host has confirmed the pot transfer.
    pub pot_paid: bool,
    /// Ordered log of the notifications owed to the host's event sink.
    pub events: Seq<Event>,
}

/// A deposit buys a ticket only strictly between the two bounds.
pub open spec fn valid_deposit(deposit: u128) -> bool {
    DEPOSIT_MIN < deposit < DEPOSIT_MAX
}

/// Milliseconds from `start` to `now` under a monotone clock; a reading
/// earlier than `start` counts as no time passed.
pub open spec fn elapsed_ms(now: u64, start: u64) -> u64 {
    if now >= start {
        (now - start) as u64
    } else {
        0
    }
}

/// The unsigned 32-bit integer that the first four bytes of a randomness
/// beacon's output spell in big-endian order.
pub open spec fn be_u32(s: Seq<u8>) -> u32
    recommends
        s.len() >= 4,
{
    (0x100_0000 * (s[0] as int) + 0x1_0000 * (s[1] as int) + 0x100 * (s[2] as int) + (
    s[3] as int)) as u32
}

impl RaffleModel {
    /// The raffle a fresh instantiation holds: no participants, no winners,
    /// an empty pot, the draw not yet ready.
    pub open spec fn initial(pot_receiver: AccountId) -> RaffleModel {
        RaffleModel {
            pot_receiver,
            total_balance: 0,
            participants: Seq::empty(),
            winners: Seq::empty(),
            draw_ready: false,
            start_time: None,
            pot_paid: false,
            events: Seq::empty(),
        }
    }

    /// Whether `account` already holds a ticket.
    pub open spec fn is_registered(self, account: AccountId) -> bool {
        self.participants.contains(account)
    }

    /// The raffle is over once all winners are drawn; afterwards only the
    /// payout step may still run.
    pub open spec fn is_finished(self) -> bool {
        self.winners.len() == RAFFLE_WINNERS
    }

    /// The pot transfer is owed: all winners are drawn and the host has not
    /// yet confirmed the transfer.
    pub open spec fn payout_due(self) -> bool {
        self.is_finished() && !self.pot_paid
    }

    /// Whether a draw at clock reading `now` is still inside the countdown.
    pub open spec fn countdown_ongoing_at(self, now: u64) -> bool {
        self.start_time matches Some(start) && elapsed_ms(now, start) < DURATION_IN_MS
    }

    /// Every check of `draw_winner` passes at clock reading `now`.
    pub open spec fn can_draw(self, now: u64) -> bool {
        &&& !self.is_finished()
        &&& self.draw_ready
        &&& !self.countdown_ongoing_at(now)
    }

    /// Well-formedness: what holds of the initial state and is preserved by
    /// every step.
    pub open spec fn wf(self) -> bool {
        &&& forall|i: int, j: int|
            0 <= i < j < self.participants.len() ==> self.participants[i] != self.participants[j]
        &&& self.winners.len() <= RAFFLE_WINNERS
        &&& forall|i: int|
            0 <= i < self.winners.len() ==> self.participants.contains(#[trigger] self.winners[i])
        &&& self.draw_ready <==> self.participants.len() >= RAFFLE_TRIGGER
        &&& self.start_time is Some <==> self.draw_ready
        &&& self.winners.len() > 0 ==> self.draw_ready
        &&& self.total_balance <= self.participants.len() * DEPOSIT_MAX
        &&& self.pot_paid ==> self.is_finished()
    }
}

/// What `participate` does: the outcome and the state after the call, for
/// every input. The checks run in this order, each rejection before any
/// write; acceptance appends the account, grows the pot, logs the event, and
/// turns `draw_ready` on the moment the trigger count is reached.
pub open spec fn participate_step(
    m: RaffleModel,
    participant: AccountId,
    deposit: u128,
    now: u64,
) -> (RaffleModel, Result<(), Error>) {
    if !valid_deposit(deposit) {
        (m, Err(Error::EndowmentOutOfLimits))
    } else if m.is_finished() {
        (m, Err(Error::RaffleFinished))
    } else if m.is_registered(participant) {
        (m, Err(Error::AlreadyParticipating))
    } else {
        let joined = m.participants.push(participant);
        let triggered = joined.len() >= RAFFLE_TRIGGER;
        let next = RaffleModel {
            pot_receiver: m.pot_receiver,
            total_balance: (m.total_balance + deposit) as u128,
            participants: joined,
            winners: m.winners,
            draw_ready: triggered,
            start_time: if m.draw_ready {
                m.start_time
            } else if triggered {
                Some(now)
            } else {
                None
            },
            pot_paid: m.pot_paid,
            events: m.events.push(Event::NewParticipant(NewParticipant { participant, value: deposit })),
        };
        (next, Ok(()))
    }
}

/// What `draw_winner` does at clock reading `now` with random value `rv`:
/// rejections in order, a rejected draw inside the countdown logging the time
/// remaining, and an accepted draw selecting the participant at index
/// `rv mod participants.len()` and logging the winner.
pub open spec fn draw_step(m: RaffleModel, now: u64, rv: u32) -> (RaffleModel, Result<
    (),
    Error,
>) {
    if m.is_finished() {
        (m, Err(Error::RaffleFinished))
    } else if !m.draw_ready {
        (m, Err(Error::TooFewParticipants))
    } else {
        match m.start_time {
            None => (m, Err(Error::TooFewParticipants)),
            Some(start) => {
                if elapsed_ms(now, start) < DURATION_IN_MS {
                    let remaining = (DURATION_IN_MS - elapsed_ms(now, start)) as u64;
                    let next = RaffleModel {
                        events: m.events.push(
                            Event::RaffleOpen(RaffleOpen { time_remaining: remaining }),
                        ),
                        ..m
                    };
                    (next, Err(Error::RaffleStillOpen))
                } else {
                    let index = rv as int % m.participants.len() as int;
                    let winner = m.participants[index];
                    let next = RaffleModel {
                        winners: m.winners.push(winner),
                        events: m.events.push(
                            Event::RaffleWinner(RaffleWinner { winner, index: index as u32 }),
                        ),
                        ..m
                    };
                    (next, Ok(()))
                }
            },
        }
    }
}

/// What `record_payout` does once the payout is due: a confirmed transfer
/// settles the pot for good; a failed one changes nothing, so the transfer
/// alone may be retried.
pub open spec fn payout_step(m: RaffleModel, transfer_succeeded: bool) -> (RaffleModel, Result<
    (),
    Error,
>) {
    if transfer_succeeded {
        (RaffleModel { pot_paid: true, ..m }, Ok(()))
    } else {
        (m, Err(Error::TransferError))
    }
}

} // verus!
