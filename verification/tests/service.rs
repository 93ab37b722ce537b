use plinko::game::multiplier;
use plinko::game::payout_for;
use plinko::service::decide_play;
use plinko::service::interpret_balance_read;
use plinko::service::play_event;
use plinko::service::play_in_transaction;
use plinko::service::validate_account_id;
use plinko::service::validate_request;
use plinko::service::BetError;
use plinko::service::PlayResult;
use plinko::service::ReadOutcome;
use plinko::GameMode;
use plinko::HOLES;

const DEMO_ID: &str = "00000000-0000-0000-0000-000000000001";

#[test]
fn well_formed_account_id_parses() {
    assert_eq!(validate_account_id(DEMO_ID), Ok(1u128));
    let mixed = "550e8400-e29b-41d4-a716-446655440000";
    let expected = uuid::Uuid::parse_str(mixed).unwrap().as_u128();
    assert_eq!(validate_account_id(mixed), Ok(expected));
}

#[test]
fn malformed_account_id_is_validation_error() {
    assert_eq!(validate_account_id(""), Err(BetError::Validation));
    assert_eq!(validate_account_id("not-a-uuid"), Err(BetError::Validation));
    assert_eq!(
        validate_account_id("00000000-0000-0000-0000-00000000000g"),
        Err(BetError::Validation)
    );
}

#[test]
fn request_validation() {
    assert_eq!(validate_request(DEMO_ID, 0), Ok((1u128, GameMode::Easy)));
    assert_eq!(validate_request(DEMO_ID, 3), Ok((1u128, GameMode::Extreme)));
    assert_eq!(validate_request(DEMO_ID, 7), Err(BetError::Validation));
    assert_eq!(validate_request("junk", 0), Err(BetError::Validation));
    assert_eq!(validate_request("junk", 7), Err(BetError::Validation));
}

#[test]
fn balance_read_translation() {
    assert_eq!(interpret_balance_read(ReadOutcome::Found(42)), Ok(42));
    assert_eq!(
        interpret_balance_read(ReadOutcome::Missing),
        Err(BetError::NotFound)
    );
    assert_eq!(
        interpret_balance_read(ReadOutcome::StoreFailure),
        Err(BetError::Internal)
    );
}

/// Easy mode, balance 100000, bet 1000; draw 300 is the first draw of slot 1,
/// whose multiplier is (10, 1): payout 10000, new balance 109000.
#[test]
fn scenario_easy_slot_one() {
    let r = decide_play(GameMode::Easy, 1000, 100000, 300);
    assert_eq!(
        r,
        Ok(PlayResult { payout: 10000, slot: 1, new_balance: 109000 })
    );
}

/// Multiplier (1, 5) on a bet of 7 pays floor(7 / 5) = 1. Draw 283300 is the
/// first draw of Easy's middle slot, which has that multiplier.
#[test]
fn scenario_fractional_multiplier() {
    let r = decide_play(GameMode::Easy, 7, 7, 283300);
    assert_eq!(r, Ok(PlayResult { payout: 1, slot: 4, new_balance: 1 }));
}

/// Extreme mode's rim multiplier (50000, 1) on the largest representable bet
/// saturates the payout at the largest representable value instead of
/// wrapping.
#[test]
fn scenario_saturated_payout() {
    let r = decide_play(GameMode::Extreme, u64::MAX, u64::MAX, 0);
    assert_eq!(
        r,
        Ok(PlayResult { payout: u64::MAX, slot: 0, new_balance: u64::MAX })
    );
}

/// A settled balance beyond the representable range aborts the transaction
/// instead of writing a wrapped value.
#[test]
fn unrepresentable_balance_is_internal_error() {
    let r = decide_play(GameMode::Extreme, 1, u64::MAX, 0);
    assert_eq!(r, Err(BetError::Internal));
}

/// Bet 5000 against balance 1000: failed precondition, balance untouched.
#[test]
fn scenario_insufficient_funds() {
    let balance: u64 = 1000;
    let r = decide_play(GameMode::Easy, 5000, balance, 0);
    assert_eq!(r, Err(BetError::InsufficientFunds));
    assert_eq!(balance, 1000);
    let r2 = play_in_transaction(GameMode::Medium, 5000, balance);
    assert_eq!(r2, Err(BetError::InsufficientFunds));
}

#[test]
fn zero_bet_never_fails_the_funds_check() {
    let r = decide_play(GameMode::Hard, 0, 0, 500000);
    assert_eq!(r, Ok(PlayResult { payout: 0, slot: 4, new_balance: 0 }));
}

/// Whatever the draw, a covered bet settles at the returned slot's own
/// multiplier and moves the balance by exactly payout - bet.
#[test]
fn play_in_transaction_settles_exactly() {
    for mode in [GameMode::Easy, GameMode::Medium, GameMode::Hard, GameMode::Extreme] {
        for bet in [0u64, 1, 999, 100000] {
            let balance: u64 = 100000;
            match play_in_transaction(mode, bet, balance) {
                Ok(pr) => {
                    assert!(pr.slot < HOLES);
                    let (num, den) = multiplier(mode, pr.slot);
                    assert_eq!(pr.payout, payout_for(bet, num, den));
                    assert_eq!(pr.new_balance, balance - bet + pr.payout);
                }
                Err(e) => {
                    // a covered bet can only abort on an unrepresentable
                    // settled balance, never on the funds check
                    assert_eq!(e, BetError::Internal);
                }
            }
        }
    }
}

/// Two plays in their serial order: the second sees the balance the first
/// left, and fails the funds check exactly when that balance no longer
/// covers it.
#[test]
fn serial_plays_share_one_balance() {
    let start: u64 = 1000;
    // draw 283300: Easy's middle slot, multiplier (1, 5)
    let first = decide_play(GameMode::Easy, 700, start, 283300).unwrap();
    assert_eq!(first.payout, 140);
    assert_eq!(first.new_balance, 440);
    // a balance read between the plays returns exactly what the first wrote
    let second = decide_play(GameMode::Easy, 700, first.new_balance, 283300);
    assert_eq!(second, Err(BetError::InsufficientFunds));
    let third = decide_play(GameMode::Easy, 440, first.new_balance, 283300);
    assert_eq!(
        third,
        Ok(PlayResult { payout: 88, slot: 4, new_balance: 88 })
    );
}

#[test]
fn play_event_carries_the_settlement() {
    let pr = PlayResult { payout: 10000, slot: 1, new_balance: 109000 };
    let e = play_event(1u128, 1000, &pr);
    assert_eq!(e.account, 1u128);
    assert_eq!(e.bet, 1000);
    assert_eq!(e.payout, 10000);
    assert_eq!(e.slot, 1);
}
