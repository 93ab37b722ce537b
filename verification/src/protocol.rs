//! A model of the betting transaction protocol: one account's ledger state
//! and event log, the step a play performs on them, and the invariants the
//! protocol keeps — no mutation on a failed funds check, exact money
//! movement on a committed play, indifference to event-sink outages, and
//! serial consistency of any order of concurrent plays.

use vstd::prelude::*;

use crate::game::GameMode;
use crate::game::slot_for_draw;
use crate::game::slot_multiplier;
use crate::game::spec_payout;
use crate::service::BetError;
use crate::service::PlayEvent;
use crate::service::PlayResult;
use crate::service::spec_decide_play;

verus! {

/// One account as the two stores hold it: the authoritative balance in the
/// ledger, and the append-only analytics log in the event store.
pub struct LedgerState {
    pub balance: u64,
    pub log: Seq<PlayEvent>,
}

/// One play call as it reaches the account's serial order: who plays, at
/// which mode, staking how much, with which draw, and whether the event
/// sink is reachable when the play commits.
pub struct PlayCall {
    pub account: u128,
    pub mode: GameMode,
    pub bet: u64,
    pub draw: int,
    pub sink_up: bool,
}

/// The analytics event a committed play emits.
pub open spec fn event_of(account: u128, bet: u64, pr: PlayResult) -> PlayEvent {
    PlayEvent { account, bet, payout: pr.payout, slot: pr.slot }
}

/// What one play does to the account: the settlement decides the reply; a
/// committed play writes its new balance and hands its event to the sink,
/// which keeps it only if it is up; a failed play changes nothing.
pub open spec fn play_step(s: LedgerState, c: PlayCall) -> (LedgerState, Result<
    PlayResult,
    BetError,
>) {
    match spec_decide_play(c.mode, c.bet, s.balance, c.draw) {
        Ok(pr) => (
            LedgerState {
                balance: pr.new_balance,
                log: if c.sink_up {
                    s.log.push(event_of(c.account, c.bet, pr))
                } else {
                    s.log
                },
            },
            Ok(pr),
        ),
        Err(e) => (s, Err(e)),
    }
}

/// What reading the balance returns: the ledger's current value, with no
/// transaction and no mutation.
pub open spec fn spec_get_balance(s: LedgerState) -> u64 {
    s.balance
}

/// A committed play settles exactly: the reply's payout is the slot's
/// multiplier applied to the bet, rounded down, and the new balance is
/// exactly `balance - bet + payout`. The balance moves by nothing else.
pub proof fn lemma_settlement_exact(s: LedgerState, c: PlayCall, pr: PlayResult)
    requires
        play_step(s, c).1 == Ok::<PlayResult, BetError>(pr),
    ensures
        c.bet <= s.balance,
        pr.slot == slot_for_draw(c.mode, c.draw),
        pr.payout == spec_payout(
            c.bet,
            slot_multiplier(c.mode, pr.slot as int).0,
            slot_multiplier(c.mode, pr.slot as int).1,
        ),
        pr.new_balance == s.balance - c.bet + pr.payout,
        play_step(s, c).0.balance == pr.new_balance,
{
    let slot = slot_for_draw(c.mode, c.draw);
    let pay = spec_payout(
        c.bet,
        slot_multiplier(c.mode, slot).0,
        slot_multiplier(c.mode, slot).1,
    );
    assert(0 <= pay <= u64::MAX) by {
        let num = slot_multiplier(c.mode, slot).0;
        let den = slot_multiplier(c.mode, slot).1;
        assert(0 <= num && 1 <= den);
        let capped = if c.bet * num > u64::MAX {
            u64::MAX as int
        } else {
            c.bet * num
        };
        assert(0 <= capped <= u64::MAX) by (nonlinear_arith)
            requires
                0 <= num,
                capped == if c.bet * num > u64::MAX {
                    u64::MAX as int
                } else {
                    c.bet * num
                },
        ;
        assert(0 <= capped / den <= capped) by (nonlinear_arith)
            requires
                0 <= capped,
                1 <= den,
        ;
    }
}

/// A bet over the balance fails the funds check: the reply is the
/// insufficient-funds error, and neither the balance nor the event log
/// changes.
pub proof fn lemma_insufficient_funds_no_mutation(s: LedgerState, c: PlayCall)
    requires
        c.bet > s.balance,
    ensures
        play_step(s, c).1 == Err::<PlayResult, BetError>(BetError::InsufficientFunds),
        play_step(s, c).0 == s,
{
}

/// No failed play mutates anything: whenever the reply is an error — the
/// funds check or the settlement refused — the account's balance and event
/// log are exactly what they were.
pub proof fn lemma_failed_play_no_mutation(s: LedgerState, c: PlayCall)
    requires
        play_step(s, c).1 is Err,
    ensures
        play_step(s, c).0 == s,
{
}

/// The event sink never touches correctness: a play returns the same reply
/// and leaves the same balance whether the sink is up or down; only the
/// analytics log differs, by at most the play's own event.
pub proof fn lemma_sink_outage_isolated(s: LedgerState, c: PlayCall)
    ensures
        play_step(s, c).1 == play_step(
            s,
            PlayCall { sink_up: !c.sink_up, ..c },
        ).1,
        play_step(s, c).0.balance == play_step(
            s,
            PlayCall { sink_up: !c.sink_up, ..c },
        ).0.balance,
{
}

/// A committed play logs its own event exactly once when the sink is up,
/// and a failed play logs nothing; the log is append-only either way.
pub proof fn lemma_event_log_append_only(s: LedgerState, c: PlayCall)
    ensures
        c.sink_up ==> (play_step(s, c).1 matches Ok(pr) ==> play_step(s, c).0.log == s.log.push(
            event_of(c.account, c.bet, pr),
        )),
        play_step(s, c).1 is Err || !c.sink_up ==> play_step(s, c).0.log == s.log,
{
}

/// Reading the balance right after a committed play returns exactly the
/// new balance that play reported.
pub proof fn lemma_get_balance_after_play(s: LedgerState, c: PlayCall, pr: PlayResult)
    requires
        play_step(s, c).1 == Ok::<PlayResult, BetError>(pr),
    ensures
        spec_get_balance(play_step(s, c).0) == pr.new_balance,
{
}

/// The account after a serial order of plays: each play steps the state the
/// previous plays left.
pub open spec fn run_plays(s: LedgerState, calls: Seq<PlayCall>) -> LedgerState
    decreases calls.len(),
{
    if calls.len() == 0 {
        s
    } else {
        play_step(run_plays(s, calls.drop_last()), calls.last()).0
    }
}

/// The account state the first `k` plays of the order leave.
pub open spec fn state_at(s: LedgerState, calls: Seq<PlayCall>, k: int) -> LedgerState {
    run_plays(s, calls.take(k))
}

/// The reply of the `k`-th play of the order.
pub open spec fn reply_at(s: LedgerState, calls: Seq<PlayCall>, k: int) -> Result<
    PlayResult,
    BetError,
> {
    play_step(state_at(s, calls, k), calls[k]).1
}

/// Concurrent plays on one account behave as their serial order: the `k`-th
/// play fails the funds check exactly when its bet exceeds the balance the
/// plays before it left — so the plays that commit are exactly those the
/// balance covers at their turn; a committed play moves the balance by
/// exactly `payout - bet`, a failed one leaves the state untouched; and the
/// balance is a machine integer at every step, so it is never negative.
pub proof fn lemma_serial_consistency(s: LedgerState, calls: Seq<PlayCall>, k: int)
    requires
        0 <= k < calls.len(),
    ensures
        state_at(s, calls, k + 1) == play_step(state_at(s, calls, k), calls[k]).0,
        (reply_at(s, calls, k) == Err::<PlayResult, BetError>(BetError::InsufficientFunds)) <==> calls[k].bet
            > state_at(s, calls, k).balance,
        reply_at(s, calls, k) matches Ok(pr) ==> state_at(s, calls, k + 1).balance == state_at(
            s,
            calls,
            k,
        ).balance - calls[k].bet + pr.payout,
        reply_at(s, calls, k) is Err ==> state_at(s, calls, k + 1) == state_at(s, calls, k),
{
    assert(calls.take(k + 1).drop_last() =~= calls.take(k));
    assert(calls.take(k + 1).last() == calls[k]);
    match reply_at(s, calls, k) {
        Ok(pr) => {
            lemma_settlement_exact(state_at(s, calls, k), calls[k], pr);
        },
        Err(_) => {},
    }
}

/// The net money a serial order of plays moves: every committed play adds
/// `payout - bet`, every failed one adds nothing.
pub open spec fn net_change(s: LedgerState, calls: Seq<PlayCall>) -> int
    decreases calls.len(),
{
    if calls.len() == 0 {
        0
    } else {
        let prior = run_plays(s, calls.drop_last());
        net_change(s, calls.drop_last()) + match play_step(prior, calls.last()).1 {
            Ok(pr) => pr.payout - calls.last().bet,
            Err(_) => 0,
        }
    }
}

/// Money is conserved over any serial order of plays: the final balance is
/// the starting balance plus exactly the committed payouts, minus exactly
/// the committed bets.
pub proof fn lemma_plays_conserve_money(s: LedgerState, calls: Seq<PlayCall>)
    ensures
        run_plays(s, calls).balance == s.balance + net_change(s, calls),
    decreases calls.len(),
{
    if calls.len() > 0 {
        lemma_plays_conserve_money(s, calls.drop_last());
        let prior = run_plays(s, calls.drop_last());
        match play_step(prior, calls.last()).1 {
            Ok(pr) => {
                lemma_settlement_exact(prior, calls.last(), pr);
            },
            Err(_) => {
                lemma_failed_play_no_mutation(prior, calls.last());
            },
        }
    }
}

} // verus!
