use vstd::prelude::*;

use crate::model::RaffleModel;
use crate::model::draw_step;
use crate::model::elapsed_ms;
use crate::model::participate_step;
use crate::model::payout_step;
use crate::model::valid_deposit;
use crate::params::DEPOSIT_MAX;
use crate::params::DEPOSIT_MIN;
use crate::params::DURATION_IN_MS;
use crate::params::RAFFLE_TRIGGER;
use crate::params::RAFFLE_WINNERS;
use crate::types::AccountId;
use crate::types::Error;
use crate::types::Event;
use crate::types::RaffleOpen;
use crate::types::RaffleWinner;

verus! {

/// A fresh identity's first ticket: with a deposit strictly inside the
/// bounds, on a raffle that is not finished, registration succeeds; a repeat
/// registration of the same identity, with any deposit inside the bounds, is
/// rejected as `AlreadyParticipating` and changes nothing.
pub proof fn lemma_single_entry(
    m: RaffleModel,
    p: AccountId,
    d1: u128,
    d2: u128,
    now1: u64,
    now2: u64,
)
    requires
        m.wf(),
        valid_deposit(d1),
        valid_deposit(d2),
        !m.is_finished(),
        !m.is_registered(p),
    ensures
        participate_step(m, p, d1, now1).1 is Ok,
        participate_step(participate_step(m, p, d1, now1).0, p, d2, now2).1 == Err::<(), Error>(
            Error::AlreadyParticipating,
        ),
        participate_step(participate_step(m, p, d1, now1).0, p, d2, now2).0 == participate_step(
            m,
            p,
            d1,
            now1,
        ).0,
{
    let m1 = participate_step(m, p, d1, now1).0;
    assert(m1.is_registered(p)) by {
        assert(m1.participants[m.participants.len() as int] == p);
    }
}

/// A deposit at or outside the bounds is rejected as `EndowmentOutOfLimits`
/// and leaves the raffle, its pot included, unchanged.
pub proof fn lemma_deposit_limits(m: RaffleModel, p: AccountId, d: u128, now: u64)
    requires
        m.wf(),
        d <= DEPOSIT_MIN || d >= DEPOSIT_MAX,
    ensures
        participate_step(m, p, d, now).1 == Err::<(), Error>(Error::EndowmentOutOfLimits),
        participate_step(m, p, d, now).0 == m,
{
}

/// The trigger threshold: in every well-formed state `draw_ready` holds
/// exactly when the trigger count has been reached, and an accepted
/// registration readies the draw, and starts the countdown, at the very
/// moment the count is reached.
pub proof fn lemma_trigger_threshold(m: RaffleModel, p: AccountId, d: u128, now: u64)
    requires
        m.wf(),
        participate_step(m, p, d, now).1 is Ok,
    ensures
        m.draw_ready <==> m.participants.len() >= RAFFLE_TRIGGER,
        participate_step(m, p, d, now).0.draw_ready <==> m.participants.len() + 1
            >= RAFFLE_TRIGGER,
        m.participants.len() + 1 == RAFFLE_TRIGGER ==> participate_step(m, p, d, now).0.start_time
            == Some(now),
        m.participants.len() + 1 < RAFFLE_TRIGGER ==> participate_step(m, p, d, now).0.start_time
            is None,
{
}

/// Before the trigger count is reached, a draw is rejected as
/// `TooFewParticipants` and nothing, the winner list included, changes.
pub proof fn lemma_draw_needs_trigger(m: RaffleModel, now: u64, rv: u32)
    requires
        m.wf(),
        !m.draw_ready,
    ensures
        draw_step(m, now, rv).1 == Err::<(), Error>(Error::TooFewParticipants),
        draw_step(m, now, rv).0 == m,
{
    assert(m.winners.len() == 0);
}

/// Once the draw is ready, a draw inside the countdown is rejected as
/// `RaffleStillOpen`; the one change is the `RaffleOpen` notification
/// carrying the time remaining.
pub proof fn lemma_draw_respects_countdown(m: RaffleModel, now: u64, rv: u32)
    requires
        m.wf(),
        !m.is_finished(),
        m.draw_ready,
        m.countdown_ongoing_at(now),
    ensures
        draw_step(m, now, rv).1 == Err::<(), Error>(Error::RaffleStillOpen),
        draw_step(m, now, rv).0 == (RaffleModel {
            events: m.events.push(
                Event::RaffleOpen(
                    RaffleOpen {
                        time_remaining: (DURATION_IN_MS - elapsed_ms(
                            now,
                            m.start_time.unwrap(),
                        )) as u64,
                    },
                ),
            ),
            ..m
        }),
        draw_step(m, now, rv).0.winners == m.winners,
{
}

/// Randomness determinism: an accepted draw with random value `rv` selects
/// exactly the participant at index `rv mod participants.len()`, appends it
/// to the winners and logs it; the registry and the pot stay as they were.
pub proof fn lemma_draw_selects_modular_index(m: RaffleModel, now: u64, rv: u32)
    requires
        m.wf(),
        m.can_draw(now),
    ensures
        draw_step(m, now, rv).1 is Ok,
        draw_step(m, now, rv).0.winners == m.winners.push(
            m.participants[rv as int % m.participants.len() as int],
        ),
        draw_step(m, now, rv).0.participants == m.participants,
        draw_step(m, now, rv).0.total_balance == m.total_balance,
        draw_step(m, now, rv).0.events == m.events.push(
            Event::RaffleWinner(
                RaffleWinner {
                    winner: m.participants[rv as int % m.participants.len() as int],
                    index: (rv as int % m.participants.len() as int) as u32,
                },
            ),
        ),
{
}

/// Once all winners are drawn the raffle is terminal: any further
/// registration with a deposit inside the bounds, and any further draw, is
/// rejected as `RaffleFinished`, with nothing changed.
pub proof fn lemma_finished_is_terminal(m: RaffleModel, p: AccountId, d: u128, now: u64, rv: u32)
    requires
        m.wf(),
        m.is_finished(),
        valid_deposit(d),
    ensures
        participate_step(m, p, d, now).1 == Err::<(), Error>(Error::RaffleFinished),
        participate_step(m, p, d, now).0 == m,
        draw_step(m, now, rv).1 == Err::<(), Error>(Error::RaffleFinished),
        draw_step(m, now, rv).0 == m,
{
}

/// The final draw finishes the raffle and makes the pot transfer due, for
/// exactly the pot accumulated at completion; a confirmed transfer settles
/// it, after which it is never due again — the host that transfers only
/// while the payout is due therefore transfers exactly once.
pub proof fn lemma_payout_exactly_once(m: RaffleModel, now: u64, rv: u32)
    requires
        m.wf(),
        m.can_draw(now),
        m.winners.len() == RAFFLE_WINNERS - 1,
    ensures
        draw_step(m, now, rv).1 is Ok,
        draw_step(m, now, rv).0.is_finished(),
        draw_step(m, now, rv).0.payout_due(),
        draw_step(m, now, rv).0.total_balance == m.total_balance,
        draw_step(m, now, rv).0.pot_receiver == m.pot_receiver,
        payout_step(draw_step(m, now, rv).0, true).1 is Ok,
        payout_step(draw_step(m, now, rv).0, true).0.pot_paid,
        !payout_step(draw_step(m, now, rv).0, true).0.payout_due(),
{
}

/// A failed transfer is reported as `TransferError` and leaves the raffle
/// unchanged: the payout stays due, so the transfer alone is retried.
pub proof fn lemma_failed_transfer_retries(m: RaffleModel)
    requires
        m.wf(),
        m.payout_due(),
    ensures
        payout_step(m, false).1 == Err::<(), Error>(Error::TransferError),
        payout_step(m, false).0 == m,
        payout_step(m, false).0.payout_due(),
{
}

} // verus!
