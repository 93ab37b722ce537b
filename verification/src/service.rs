//! The betting service's decisions: request validation, the translation of
//! ledger-read outcomes into caller-visible errors, and the in-transaction
//! settlement of a bet. The store access itself happens outside; these
//! functions take the plain values it reads and fix what it must write.

use vstd::prelude::*;

use crate::game::GameMode;
use crate::game::HOLES;
use crate::game::mode_from_code;
use crate::game::slot_for_draw;
use crate::game::slot_multiplier;
use crate::game::spec_payout;
use crate::game::total_weight;
use crate::game::mode_total_weight;
use crate::game::random_below;
use crate::game::pick_slot;
use crate::game::multiplier;
use crate::game::payout_for;

verus! {

/// Caller-visible failure categories of the betting service.
#[derive(Clone, Copy, Debug, PartialEq, Eq, Structural)]
pub enum BetError {
    /// Malformed account identifier or unknown mode code; rejected before
    /// any store access.
    Validation,
    /// Well-formed account identifier that the ledger does not hold.
    NotFound,
    /// The bet exceeds the current balance; the transaction aborts with no
    /// mutation.
    InsufficientFunds,
    /// A store failure inside the transaction, or a settlement that the
    /// balance field cannot represent; the transaction aborts unchanged.
    Internal,
}

/// What a committed play returns to the caller.
#[derive(Clone, Copy, Debug, PartialEq, Eq, Structural)]
pub struct PlayResult {
    /// Amount credited back, in the smallest monetary unit.
    pub payout: u64,
    /// The outcome slot the draw landed in, 0..8.
    pub slot: usize,
    /// The balance after debiting the bet and crediting the payout.
    pub new_balance: u64,
}

/// The analytics record of one committed play. The event store assigns the
/// timestamp on arrival.
#[derive(Clone, Copy, Debug, PartialEq, Eq, Structural)]
pub struct PlayEvent {
    pub account: u128,
    pub bet: u64,
    pub payout: u64,
    pub slot: usize,
}

/// The 128-bit value a well-formed account identifier text denotes, if any.
pub uninterp spec fn parsed_uuid(s: Seq<char>) -> Option<u128>;

/// Relies on uuid::Uuid::parse_str: whether a text is a well-formed
/// identifier, and which 128-bit value it denotes, depend on the text alone.
#[verifier::external_body]
fn parse_account_id(s: &str) -> (r: Option<u128>)
    ensures
        r == parsed_uuid(s@),
{
    match uuid::Uuid::parse_str(s) {
        Ok(u) => Some(u.as_u128()),
        Err(_) => None,
    }
}

/// The account a request text names: its 128-bit identifier if the text is
/// well-formed, the validation error otherwise.
pub open spec fn spec_validate_account_id(s: Seq<char>) -> Result<u128, BetError> {
    match parsed_uuid(s) {
        Some(id) => Ok(id),
        None => Err(BetError::Validation),
    }
}

/// Parse an account identifier text; a malformed text is rejected as a
/// validation error before any store access.
pub fn validate_account_id(s: &str) -> (r: Result<u128, BetError>)
    ensures
        r == spec_validate_account_id(s@),
{
    match parse_account_id(s) {
        Some(id) => Ok(id),
        None => Err(BetError::Validation),
    }
}

/// What validating a play request yields: the parsed account and mode, or
/// the validation error if either the identifier text or the mode code is
/// malformed.
pub open spec fn spec_validate_request(s: Seq<char>, mode_code: i32) -> Result<
    (u128, GameMode),
    BetError,
> {
    match parsed_uuid(s) {
        Some(id) => match mode_from_code(mode_code) {
            Ok(m) => Ok((id, m)),
            Err(_) => Err(BetError::Validation),
        },
        None => Err(BetError::Validation),
    }
}

/// Validate a play request's account identifier text and mode code; either
/// being malformed rejects the request before any store access.
pub fn validate_request(user_id: &str, mode_code: i32) -> (r: Result<(u128, GameMode), BetError>)
    ensures
        r == spec_validate_request(user_id@, mode_code),
{
    let account = match parse_account_id(user_id) {
        Some(id) => id,
        None => {
            return Err(BetError::Validation);
        },
    };
    let mode = match GameMode::try_from(mode_code) {
        Ok(m) => m,
        Err(_) => {
            return Err(BetError::Validation);
        },
    };
    Ok((account, mode))
}

/// What the ledger reported when the account row was read.
#[derive(Clone, Copy, Debug, PartialEq, Eq, Structural)]
pub enum ReadOutcome {
    /// The row exists and holds this balance.
    Found(u64),
    /// No row for the account.
    Missing,
    /// The read itself failed.
    StoreFailure,
}

/// Translate a ledger read into the caller's terms: a missing account is
/// not-found, a failed read is an internal error, a present row hands its
/// balance on.
pub fn interpret_balance_read(r: ReadOutcome) -> (b: Result<u64, BetError>)
    ensures
        b == match r {
            ReadOutcome::Found(bal) => Ok::<u64, BetError>(bal),
            ReadOutcome::Missing => Err::<u64, BetError>(BetError::NotFound),
            ReadOutcome::StoreFailure => Err::<u64, BetError>(BetError::Internal),
        },
{
    match r {
        ReadOutcome::Found(bal) => Ok(bal),
        ReadOutcome::Missing => Err(BetError::NotFound),
        ReadOutcome::StoreFailure => Err(BetError::Internal),
    }
}

/// The settlement of one play, fixed by the draw: the funds check first,
/// then the slot's payout and the balance that must be written. A bet over
/// the balance is refused with no settlement; a settled balance that the
/// field cannot represent aborts as an internal error.
pub open spec fn spec_decide_play(mode: GameMode, bet: u64, balance: u64, draw: int) -> Result<
    PlayResult,
    BetError,
> {
    if bet > balance {
        Err(BetError::InsufficientFunds)
    } else {
        let slot = slot_for_draw(mode, draw);
        let pay = spec_payout(bet, slot_multiplier(mode, slot).0, slot_multiplier(mode, slot).1);
        if balance - bet + pay <= u64::MAX {
            Ok(
                PlayResult {
                    payout: pay as u64,
                    slot: slot as usize,
                    new_balance: (balance - bet + pay) as u64,
                },
            )
        } else {
            Err(BetError::Internal)
        }
    }
}

/// Settle one play inside the ledger transaction, with the draw given:
/// check funds, resolve the slot, settle the payout, and compute the
/// balance to write.
pub fn decide_play(mode: GameMode, bet: u64, balance: u64, draw: u64) -> (r: Result<
    PlayResult,
    BetError,
>)
    ensures
        r == spec_decide_play(mode, bet, balance, draw as int),
{
    if bet > balance {
        return Err(BetError::InsufficientFunds);
    }
    let slot = pick_slot(mode, draw);
    let (num, den) = multiplier(mode, slot);
    let pay = payout_for(bet, num, den);
    let head = balance - bet;
    if head <= u64::MAX - pay {
        Ok(PlayResult { payout: pay, slot, new_balance: head + pay })
    } else {
        Err(BetError::Internal)
    }
}

/// Settle one play inside the ledger transaction, drawing the slot at the
/// mode's odds. Whatever the draw: a bet over the balance is refused with
/// the insufficient-funds error and nothing else ever is; a settled play
/// pays exactly the slot's multiplier and moves the balance by exactly
/// `payout - bet`.
pub fn play_in_transaction(mode: GameMode, bet: u64, balance: u64) -> (r: Result<
    PlayResult,
    BetError,
>)
    ensures
        exists|d: int|
            0 <= d < total_weight(mode) && r == #[trigger] spec_decide_play(mode, bet, balance, d),
        (r == Err::<PlayResult, BetError>(BetError::InsufficientFunds)) <==> bet > balance,
        r matches Ok(pr) ==> {
            &&& pr.slot < HOLES
            &&& pr.payout == spec_payout(
                bet,
                slot_multiplier(mode, pr.slot as int).0,
                slot_multiplier(mode, pr.slot as int).1,
            )
            &&& bet <= balance
            &&& pr.new_balance == balance - bet + pr.payout
        },
        r matches Err(e) ==> (e == BetError::InsufficientFunds || e == BetError::Internal),
{
    let total = mode_total_weight(mode);
    let draw = random_below(total);
    decide_play(mode, bet, balance, draw)
}

/// The analytics event a committed play emits: the account, the stake, and
/// the settled outcome.
pub fn play_event(account: u128, bet: u64, outcome: &PlayResult) -> (e: PlayEvent)
    ensures
        e.account == account,
        e.bet == bet,
        e.payout == outcome.payout,
        e.slot == outcome.slot,
{
    PlayEvent { account, bet, payout: outcome.payout, slot: outcome.slot }
}

} // verus!
