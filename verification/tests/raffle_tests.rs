use raffle::AccountId;
use raffle::Error;
use raffle::Raffle;
use raffle::DEPOSIT_MAX;
use raffle::DEPOSIT_MIN;
use raffle::DURATION_IN_MS;

fn alice() -> AccountId {
    AccountId::new(1)
}

fn bob() -> AccountId {
    AccountId::new(2)
}

fn charlie() -> AccountId {
    AccountId::new(3)
}

fn eve() -> AccountId {
    AccountId::new(4)
}

fn frank() -> AccountId {
    AccountId::new(5)
}

/// A 32-byte randomness beacon output whose first four bytes spell `rv` in
/// big-endian order.
fn beacon(rv: u32) -> [u8; 32] {
    let mut out = [0u8; 32];
    let head = rv.to_be_bytes();
    out[0] = head[0];
    out[1] = head[1];
    out[2] = head[2];
    out[3] = head[3];
    out
}

/// Registers five distinct participants, one per clock tick; `draw_ready`
/// must stay false through the fourth and flip on the fifth. Returns the
/// clock reading at the trigger moment.
fn set_all_participants(raffle: &mut Raffle) -> u64 {
    assert_eq!(raffle.participate(alice(), DEPOSIT_MIN + 1, 1), Ok(()));
    assert_eq!(raffle.participate(bob(), DEPOSIT_MIN + 1, 2), Ok(()));
    assert_eq!(raffle.participate(charlie(), DEPOSIT_MIN + 1, 3), Ok(()));
    assert_eq!(raffle.participate(eve(), DEPOSIT_MIN + 1, 4), Ok(()));
    assert_eq!(raffle.draw_ready(), false);
    assert_eq!(raffle.participate(frank(), DEPOSIT_MIN + 1, 5), Ok(()));
    assert_eq!(raffle.draw_ready(), true);
    5
}

#[test]
fn default_works() {
    let raffle = Raffle::new(alice());
    assert_eq!(raffle.participants(), 0);
    assert_eq!(raffle.pot_receiver(), alice());
}

#[test]
fn test_participate() {
    let mut raffle = Raffle::new(alice());
    assert_eq!(raffle.participate(bob(), DEPOSIT_MIN + 1, 0), Ok(()));
    assert_eq!(raffle.is_participating(bob()), true);
    // Expect one emitted event.
    assert_eq!(raffle.events().len(), 1);
}

#[test]
fn test_deposit_limits() {
    let mut raffle = Raffle::new(alice());

    assert_eq!(
        raffle.participate(charlie(), DEPOSIT_MIN - 1, 0),
        Err(Error::EndowmentOutOfLimits)
    );
    assert_eq!(raffle.is_participating(charlie()), false);

    assert_eq!(
        raffle.participate(charlie(), DEPOSIT_MAX + 1, 0),
        Err(Error::EndowmentOutOfLimits)
    );
    assert_eq!(raffle.is_participating(charlie()), false);

    assert_eq!(raffle.participate(charlie(), DEPOSIT_MIN + 1, 0), Ok(()));
    assert_eq!(raffle.is_participating(charlie()), true);
}

#[test]
fn test_draw() {
    let mut raffle = Raffle::new(charlie());
    let trigger_time = set_all_participants(&mut raffle);

    // Draw fails since the countdown just started.
    assert_eq!(
        raffle.draw_winner(trigger_time, &beacon(7)),
        Err(Error::RaffleStillOpen)
    );
    assert!(raffle.start_time().is_some());

    // Let enough time pass, then draw a winner.
    let later = trigger_time + DURATION_IN_MS * 2;
    assert_eq!(raffle.draw_winner(later, &beacon(7)), Ok(()));
    assert_eq!(raffle.winner_count(), 1);

    // Expect events: 5 NewParticipant, 1 RaffleOpen, 1 RaffleWinner.
    assert_eq!(raffle.events().len(), 7);
}

#[test]
fn test_draw_not_enough_participants() {
    let mut raffle = Raffle::new(charlie());
    assert_eq!(raffle.participate(alice(), DEPOSIT_MIN + 1, 0), Ok(()));
    assert_eq!(raffle.winner_count(), 0);

    // Expect events: 1 NewParticipant.
    assert_eq!(raffle.events().len(), 1);
}

#[test]
fn test_play_once() {
    let mut raffle = Raffle::new(charlie());
    assert_eq!(raffle.participate(alice(), DEPOSIT_MIN + 1, 0), Ok(()));
    assert_eq!(
        raffle.participate(alice(), DEPOSIT_MIN + 1, 0),
        Err(Error::AlreadyParticipating)
    );
}
