use vstd::prelude::*;

use crate::model::RaffleModel;
use crate::params::DEPOSIT_MAX;
use crate::params::DEPOSIT_MIN;
use crate::params::DURATION_IN_MS;
use crate::params::RAFFLE_TRIGGER;
use crate::params::RAFFLE_WINNERS;
use crate::types::AccountId;
use crate::types::Error;
use crate::types::Event;
use crate::types::NewParticipant;
use crate::types::RaffleOpen;
use crate::types::RaffleWinner;

verus! {

/// The raffle state machine. The host loads it, hands each entry point the
/// plain values its environment supplies (deposit, clock reading, randomness
/// bytes, transfer outcome), stores it back, delivers the new tail of
/// `events` to its sink, and performs the pot transfer once `payout_due`.
pub struct Raffle {
    pot_receiver: AccountId,
    total_balance: u128,
    participants: Vec<AccountId>,
    winners: Vec<AccountId>,
    draw_ready: bool,
    start_time: Option<u64>,
    pot_paid: bool,
    events: Vec<Event>,
}

impl View for Raffle {
    type V = RaffleModel;

    closed spec fn view(&self) -> RaffleModel {
        RaffleModel {
            pot_receiver: self.pot_receiver,
            total_balance: self.total_balance,
            participants: self.participants@,
            winners: self.winners@,
            draw_ready: self.draw_ready,
            start_time: self.start_time,
            pot_paid: self.pot_paid,
            events: self.events@,
        }
    }
}

impl Raffle {
    /// Creates a raffle with the receiver of the pot fixed for its lifetime.
    pub fn new(pot_receiver: AccountId) -> (r: Raffle)
        ensures
            r@ == RaffleModel::initial(pot_receiver),
            r@.wf(),
    {
        let r = Raffle {
            pot_receiver,
            total_balance: 0,
            participants: Vec::new(),
            winners: Vec::new(),
            draw_ready: false,
            start_time: None,
            pot_paid: false,
            events: Vec::new(),
        };
        proof {
            assert(r@ =~= RaffleModel::initial(pot_receiver));
        }
        r
    }

    /// Whether `account` already holds a ticket: a linear scan of the
    /// registry.
    pub fn is_participating(&self, account: AccountId) -> (r: bool)
        ensures
            r == self@.is_registered(account),
    {
        let n = self.participants.len();
        let mut i: usize = 0;
        while i < n
            invariant
                i <= n,
                n == self.participants.len(),
                forall|k: int| 0 <= k < i ==> self.participants@[k] != account,
            decreases n - i,
        {
            if self.participants[i] == account {
                proof {
                    assert(self@.participants.contains(account)) by {
                        assert(self@.participants[i as int] == account);
                    }
                }
                return true;
            }
            i += 1;
        }
        false
    }

    /// Registers `participant` with the deposit captured for this call, read
    /// at clock reading `now`. Checks run strictly in order, each rejection
    /// before any write, and tell the host to refund the deposit; acceptance
    /// appends the participant, grows the pot, logs `NewParticipant`, and on
    /// reaching the trigger count readies the draw and starts the countdown.
    pub fn participate(&mut self, participant: AccountId, deposit: u128, now: u64) -> (r: Result<
        (),
        Error,
    >)
        requires
            old(self)@.wf(),
        ensures
            final(self)@.wf(),
            final(self)@ == crate::model::participate_step(old(self)@, participant, deposit, now).0,
            r == crate::model::participate_step(old(self)@, participant, deposit, now).1,
    {
        if deposit <= DEPOSIT_MIN || deposit >= DEPOSIT_MAX {
            return Err(Error::EndowmentOutOfLimits);
        }
        if self.winners.len() == RAFFLE_WINNERS {
            return Err(Error::RaffleFinished);
        }
        if self.is_participating(participant) {
            return Err(Error::AlreadyParticipating);
        }
        let ghost pre = self@;
        let n = self.participants.len();
        proof {
            assert(pre.total_balance + deposit <= n * DEPOSIT_MAX + DEPOSIT_MAX <= u128::MAX);
        }
        self.participants.push(participant);
        self.total_balance = self.total_balance + deposit;
        self.events.push(Event::NewParticipant(NewParticipant { participant, value: deposit }));
        if self.participants.len() == RAFFLE_TRIGGER {
            self.draw_ready = true;
            self.start_time = Some(now);
        }
        proof {
            let post = crate::model::participate_step(pre, participant, deposit, now).0;
            assert(self@ =~= post);
            assert forall|i: int| 0 <= i < self@.winners.len() implies self@.participants.contains(
                #[trigger] self@.winners[i],
            ) by {
                let w = self@.winners[i];
                let k = choose|k: int|
                    0 <= k < pre.participants.len() && pre.participants[k] == w;
                assert(self@.participants[k] == w);
            }
        }
        Ok(())
    }

    /// Reads the first four bytes of `arr` as a big-endian unsigned 32-bit
    /// integer, the way the host's randomness beacon output is interpreted.
    pub fn as_u32_be(arr: &[u8]) -> (r: u32)
        requires
            arr@.len() >= 4,
        ensures
            r == crate::model::be_u32(arr@),
    {
        (arr[0] as u32) * 0x100_0000 + (arr[1] as u32) * 0x1_0000 + (arr[2] as u32) * 0x100 + (
        arr[3] as u32)
    }

    /// The index a draw with beacon output `randomness` selects: the first
    /// four bytes read big-endian, reduced modulo the participant count.
    pub fn get_random_index(&self, randomness: &[u8]) -> (i: u32)
        requires
            self@.participants.len() > 0,
            randomness@.len() >= 4,
        ensures
            i as int == crate::model::be_u32(randomness@) as int % self@.participants.len() as int,
            i < self@.participants.len(),
    {
        let rv = Self::as_u32_be(randomness);
        let n = self.participants.len();
        let idx = (rv as usize) % n;
        proof {
            vstd::arithmetic::div_mod::lemma_mod_decreases(rv as nat, n as nat);
        }
        idx as u32
    }

    /// Whether the countdown is still running at clock reading `now`. A draw
    /// inside it is rejected, and every such rejected attempt logs a
    /// `RaffleOpen` event carrying the time remaining: an observable side
    /// effect, not a diagnostic.
    fn countdown_ongoing(&mut self, now: u64) -> (r: bool)
        requires
            old(self)@.wf(),
            old(self)@.start_time is Some,
        ensures
            final(self)@.wf(),
            r == old(self)@.countdown_ongoing_at(now),
            r ==> final(self)@ == (RaffleModel {
                events: old(self)@.events.push(
                    Event::RaffleOpen(
                        RaffleOpen {
                            time_remaining: (DURATION_IN_MS - crate::model::elapsed_ms(
                                now,
                                old(self)@.start_time.unwrap(),
                            )) as u64,
                        },
                    ),
                ),
                ..old(self)@
            }),
            !r ==> final(self)@ == old(self)@,
    {
        let start: u64 = match self.start_time {
            Some(t) => t,
            None => {
                proof {
                    assert(false);
                }
                0
            },
        };
        let elapsed = if now >= start {
            now - start
        } else {
            0
        };
        if elapsed < DURATION_IN_MS {
            self.events.push(
                Event::RaffleOpen(RaffleOpen { time_remaining: DURATION_IN_MS - elapsed }),
            );
            return true;
        }
        false
    }

    /// Draws one winner from the beacon output `randomness`, read at clock
    /// reading `now`: rejections strictly in order, then the participant at
    /// index `randomness mod participants` is appended to the winners and
    /// logged. The final draw finishes the raffle: the pot transfer becomes
    /// due, the host performs it and reports back through `record_payout`.
    pub fn draw_winner(&mut self, now: u64, randomness: &[u8]) -> (r: Result<(), Error>)
        requires
            old(self)@.wf(),
            randomness@.len() >= 4,
        ensures
            final(self)@.wf(),
            final(self)@ == crate::model::draw_step(
                old(self)@,
                now,
                crate::model::be_u32(randomness@),
            ).0,
            r == crate::model::draw_step(old(self)@, now, crate::model::be_u32(randomness@)).1,
    {
        if self.winners.len() == RAFFLE_WINNERS {
            return Err(Error::RaffleFinished);
        }
        if !self.draw_ready {
            return Err(Error::TooFewParticipants);
        }
        if self.countdown_ongoing(now) {
            return Err(Error::RaffleStillOpen);
        }
        let ghost pre = self@;
        let winner_index = self.get_random_index(randomness);
        let winner = self.participants[winner_index as usize];
        self.winners.push(winner);
        self.events.push(Event::RaffleWinner(RaffleWinner { winner, index: winner_index }));
        proof {
            let post = crate::model::draw_step(pre, now, crate::model::be_u32(randomness@)).0;
            assert(self@ =~= post);
            assert forall|i: int| 0 <= i < self@.winners.len() implies self@.participants.contains(
                #[trigger] self@.winners[i],
            ) by {
                if i < pre.winners.len() {
                    assert(pre.participants.contains(pre.winners[i]));
                } else {
                    assert(self@.participants[winner_index as int] == winner);
                }
            }
        }
        Ok(())
    }

    /// Whether the pot transfer is owed: all winners are drawn and the host
    /// has not yet confirmed the transfer of `total_balance` to
    /// `pot_receiver`.
    pub fn payout_due(&self) -> (r: bool)
        ensures
            r == self@.payout_due(),
    {
        self.winners.len() == RAFFLE_WINNERS && !self.pot_paid
    }

    /// Records the outcome the host's ledger reported for the pot transfer.
    /// A confirmed transfer settles the payout for good; a failed one leaves
    /// the raffle unchanged, so the transfer alone may be retried.
    pub fn record_payout(&mut self, transfer_succeeded: bool) -> (r: Result<(), Error>)
        requires
            old(self)@.wf(),
            old(self)@.payout_due(),
        ensures
            final(self)@.wf(),
            final(self)@ == crate::model::payout_step(old(self)@, transfer_succeeded).0,
            r == crate::model::payout_step(old(self)@, transfer_succeeded).1,
    {
        if transfer_succeeded {
            self.pot_paid = true;
            proof {
                assert(self@ =~= crate::model::payout_step(old(self)@, true).0);
            }
            Ok(())
        } else {
            Err(Error::TransferError)
        }
    }

    /// Number of registered participants.
    pub fn participants(&self) -> (n: usize)
        ensures
            n == self@.participants.len(),
    {
        self.participants.len()
    }

    /// The raffle's balance: the pot accumulated so far.
    pub fn total_balance(&self) -> (b: u128)
        ensures
            b == self@.total_balance,
    {
        self.total_balance
    }

    /// Whether the raffle is over: all winners are drawn.
    pub fn finished(&self) -> (r: bool)
        ensures
            r == self@.is_finished(),
    {
        self.winners.len() == RAFFLE_WINNERS
    }

    /// Whether the trigger count has been reached, so a draw is eligible
    /// once the countdown has elapsed.
    pub fn draw_ready(&self) -> (r: bool)
        ensures
            r == self@.draw_ready,
    {
        self.draw_ready
    }

    /// The account the pot is owed to.
    pub fn pot_receiver(&self) -> (a: AccountId)
        ensures
            a == self@.pot_receiver,
    {
        self.pot_receiver
    }

    /// Number of winners drawn so far.
    pub fn winner_count(&self) -> (n: usize)
        ensures
            n == self@.winners.len(),
    {
        self.winners.len()
    }

    /// The trigger moment, once the raffle is draw-ready.
    pub fn start_time(&self) -> (t: Option<u64>)
        ensures
            t == self@.start_time,
    {
        self.start_time
    }

    /// The winner list as a fixed-size view: one slot per draw, `None` while
    /// the draw has not happened yet.
    pub fn winner_address(&self) -> (w: [Option<AccountId>; 2])
        ensures
            w@.len() == RAFFLE_WINNERS,
            w@[0] == (if self@.winners.len() > 0 {
                Some(self@.winners[0])
            } else {
                None::<AccountId>
            }),
            w@[1] == (if self@.winners.len() > 1 {
                Some(self@.winners[1])
            } else {
                None::<AccountId>
            }),
    {
        let w0 = if self.winners.len() > 0 {
            Some(self.winners[0])
        } else {
            None
        };
        let w1 = if self.winners.len() > 1 {
            Some(self.winners[1])
        } else {
            None
        };
        [w0, w1]
    }

    /// The ordered notification log owed to the host's event sink.
    pub fn events(&self) -> (e: &Vec<Event>)
        ensures
            e@ == self@.events,
    {
        &self.events
    }
}

} // verus!
