//! The outcome simulator: difficulty modes, their weight and multiplier
//! tables, weighted slot selection, and exact integer payout arithmetic.

use vstd::prelude::*;

verus! {

/// Number of outcome slots per mode, indexed 0..8.
pub const HOLES: usize = 9;

/// Difficulty tier; selects which weight and multiplier tables apply.
#[derive(Clone, Copy, Debug, PartialEq, Eq, Structural)]
pub enum GameMode {
    Easy,
    Medium,
    Hard,
    Extreme,
}

/// The mode a wire code denotes, if any: 0 = Easy, 1 = Medium, 2 = Hard,
/// 3 = Extreme; every other code is rejected.
pub open spec fn mode_from_code(v: i32) -> Result<GameMode, ()> {
    if v == 0 {
        Ok(GameMode::Easy)
    } else if v == 1 {
        Ok(GameMode::Medium)
    } else if v == 2 {
        Ok(GameMode::Hard)
    } else if v == 3 {
        Ok(GameMode::Extreme)
    } else {
        Err(())
    }
}

impl GameMode {
    /// Decode a wire code into a mode; unknown codes are rejected.
    pub fn try_from(v: i32) -> (r: Result<GameMode, ()>)
        ensures
            r == mode_from_code(v),
    {
        match v {
            0 => Ok(GameMode::Easy),
            1 => Ok(GameMode::Medium),
            2 => Ok(GameMode::Hard),
            3 => Ok(GameMode::Extreme),
            _ => Err(()),
        }
    }
}

/// Selection weight of a slot, in units of one ten-thousandth. The tables
/// are symmetric around the middle slot: rare, rich outcomes at the rims,
/// frequent, poor ones in the middle. Only the ratio of a weight to the
/// mode's total matters for the odds.
pub open spec fn slot_weight(mode: GameMode, i: int) -> int {
    match mode {
        GameMode::Easy => {
            if i == 0 || i == 8 {
                300
            } else if i == 1 || i == 7 {
                3000
            } else if i == 2 || i == 6 {
                60000
            } else if i == 3 || i == 5 {
                220000
            } else {
                433500
            }
        },
        GameMode::Medium => {
            if i == 0 || i == 8 {
                200
            } else if i == 1 || i == 7 {
                6000
            } else if i == 2 || i == 6 {
                100000
            } else if i == 3 || i == 5 {
                194000
            } else {
                400000
            }
        },
        GameMode::Hard => {
            if i == 0 || i == 8 {
                130
            } else if i == 1 || i == 7 {
                8000
            } else if i == 2 || i == 6 {
                100000
            } else if i == 3 || i == 5 {
                194000
            } else {
                400000
            }
        },
        GameMode::Extreme => {
            if i == 0 || i == 8 {
                6
            } else if i == 1 || i == 7 {
                8000
            } else if i == 2 || i == 6 {
                100000
            } else if i == 3 || i == 5 {
                194000
            } else {
                400000
            }
        },
    }
}

/// Selection weight of slot `i` under `mode`.
pub fn weight(mode: GameMode, i: usize) -> (r: u64)
    requires
        i < HOLES,
    ensures
        r == slot_weight(mode, i as int),
        1 <= r <= 433500,
{
    match mode {
        GameMode::Easy => {
            if i == 0 || i == 8 {
                300
            } else if i == 1 || i == 7 {
                3000
            } else if i == 2 || i == 6 {
                60000
            } else if i == 3 || i == 5 {
                220000
            } else {
                433500
            }
        },
        GameMode::Medium => {
            if i == 0 || i == 8 {
                200
            } else if i == 1 || i == 7 {
                6000
            } else if i == 2 || i == 6 {
                100000
            } else if i == 3 || i == 5 {
                194000
            } else {
                400000
            }
        },
        GameMode::Hard => {
            if i == 0 || i == 8 {
                130
            } else if i == 1 || i == 7 {
                8000
            } else if i == 2 || i == 6 {
                100000
            } else if i == 3 || i == 5 {
                194000
            } else {
                400000
            }
        },
        GameMode::Extreme => {
            if i == 0 || i == 8 {
                6
            } else if i == 1 || i == 7 {
                8000
            } else if i == 2 || i == 6 {
                100000
            } else if i == 3 || i == 5 {
                194000
            } else {
                400000
            }
        },
    }
}

/// Sum of the weights of the slots below `i`: the lower end of the draw
/// interval that slot `i` owns.
pub open spec fn prefix_weight(mode: GameMode, i: int) -> int
    decreases i,
{
    if i <= 0 {
        0
    } else {
        prefix_weight(mode, i - 1) + slot_weight(mode, i - 1)
    }
}

/// Sum of all nine weights of a mode.
pub open spec fn total_weight(mode: GameMode) -> int {
    prefix_weight(mode, HOLES as int)
}

/// Sum of the nine weights of `mode`.
pub fn mode_total_weight(mode: GameMode) -> (r: u64)
    ensures
        r == total_weight(mode),
        9 <= r <= 3901500,
{
    let mut acc: u64 = 0;
    let mut i: usize = 0;
    while i < HOLES
        invariant
            i <= HOLES,
            acc == prefix_weight(mode, i as int),
            acc <= i * 433500,
            i <= acc,
        decreases HOLES - i,
    {
        acc = acc + weight(mode, i);
        i = i + 1;
    }
    acc
}

/// The slot a draw lands in: the first slot whose cumulative weight exceeds
/// the draw. A draw at or above the mode's total weight falls back to the
/// last slot, never the first, so a stray draw cannot inflate the rarest
/// outcome.
pub open spec fn slot_for_draw(mode: GameMode, draw: int) -> int {
    if draw < prefix_weight(mode, 1) {
        0
    } else if draw < prefix_weight(mode, 2) {
        1
    } else if draw < prefix_weight(mode, 3) {
        2
    } else if draw < prefix_weight(mode, 4) {
        3
    } else if draw < prefix_weight(mode, 5) {
        4
    } else if draw < prefix_weight(mode, 6) {
        5
    } else if draw < prefix_weight(mode, 7) {
        6
    } else if draw < prefix_weight(mode, 8) {
        7
    } else {
        8
    }
}

/// Walk the weight table in slot order and return the first slot whose
/// cumulative weight exceeds `draw`; fall back to the last slot if none does.
pub fn pick_slot(mode: GameMode, draw: u64) -> (r: usize)
    ensures
        r < HOLES,
        r == slot_for_draw(mode, draw as int),
{
    let mut acc: u64 = 0;
    let mut i: usize = 0;
    while i < HOLES
        invariant
            i <= HOLES,
            acc == prefix_weight(mode, i as int),
            acc <= i * 433500,
            forall|j: int| 1 <= j <= i ==> draw >= #[trigger] prefix_weight(mode, j),
        decreases HOLES - i,
    {
        acc = acc + weight(mode, i);
        if draw < acc {
            return i;
        }
        i = i + 1;
    }
    HOLES - 1
}

/// Payout ratio of a slot, as an exact rational (numerator, denominator).
/// Like the weights, the tables are symmetric: the rim slots multiply the
/// bet many times over, the middle slots return at most the bet.
pub open spec fn slot_multiplier(mode: GameMode, i: int) -> (int, int) {
    match mode {
        GameMode::Easy => {
            if i == 0 || i == 8 {
                (50, 1)
            } else if i == 1 || i == 7 {
                (10, 1)
            } else if i == 2 || i == 6 {
                (3, 1)
            } else if i == 3 || i == 5 {
                (1, 1)
            } else {
                (1, 5)
            }
        },
        GameMode::Medium => {
            if i == 0 || i == 8 {
                (250, 1)
            } else if i == 1 || i == 7 {
                (34, 1)
            } else if i == 2 || i == 6 {
                (1, 1)
            } else if i == 3 || i == 5 {
                (1, 2)
            } else {
                (1, 5)
            }
        },
        GameMode::Hard => {
            if i == 0 || i == 8 {
                (1000, 1)
            } else if i == 1 || i == 7 {
                (25, 1)
            } else if i == 2 || i == 6 {
                (1, 1)
            } else {
                (1, 5)
            }
        },
        GameMode::Extreme => {
            if i == 0 || i == 8 {
                (50000, 1)
            } else if i == 1 || i == 7 {
                (4, 1)
            } else if i == 2 || i == 6 {
                (1, 1)
            } else {
                (1, 5)
            }
        },
    }
}

/// Payout ratio of slot `i` under `mode`, as (numerator, denominator).
pub fn multiplier(mode: GameMode, i: usize) -> (r: (u64, u64))
    requires
        i < HOLES,
    ensures
        r.0 == slot_multiplier(mode, i as int).0,
        r.1 == slot_multiplier(mode, i as int).1,
        1 <= r.1 <= 5,
        r.0 <= 50000,
{
    match mode {
        GameMode::Easy => {
            if i == 0 || i == 8 {
                (50, 1)
            } else if i == 1 || i == 7 {
                (10, 1)
            } else if i == 2 || i == 6 {
                (3, 1)
            } else if i == 3 || i == 5 {
                (1, 1)
            } else {
                (1, 5)
            }
        },
        GameMode::Medium => {
            if i == 0 || i == 8 {
                (250, 1)
            } else if i == 1 || i == 7 {
                (34, 1)
            } else if i == 2 || i == 6 {
                (1, 1)
            } else if i == 3 || i == 5 {
                (1, 2)
            } else {
                (1, 5)
            }
        },
        GameMode::Hard => {
            if i == 0 || i == 8 {
                (1000, 1)
            } else if i == 1 || i == 7 {
                (25, 1)
            } else if i == 2 || i == 6 {
                (1, 1)
            } else {
                (1, 5)
            }
        },
        GameMode::Extreme => {
            if i == 0 || i == 8 {
                (50000, 1)
            } else if i == 1 || i == 7 {
                (4, 1)
            } else if i == 2 || i == 6 {
                (1, 1)
            } else {
                (1, 5)
            }
        },
    }
}

/// The exact payout of a bet at a multiplier: `floor(bet * num / den)`, with
/// the product saturating at the largest representable value instead of
/// wrapping.
pub open spec fn spec_payout(bet: u64, num: int, den: int) -> int
    recommends
        den > 0,
        num >= 0,
{
    let capped = if bet * num > u64::MAX {
        u64::MAX as int
    } else {
        bet * num
    };
    capped / den
}

proof fn lemma_mul_cap(bet: u64, num: u64) by (nonlinear_arith)
    requires
        num > 0,
    ensures
        bet <= u64::MAX / num ==> bet * num <= u64::MAX,
        bet > u64::MAX / num ==> bet * num > u64::MAX,
{
}

/// Settle a bet at a multiplier with exact integer arithmetic: multiply,
/// saturating at the largest representable value, then divide rounding down.
pub fn payout_for(bet: u64, num: u64, den: u64) -> (r: u64)
    requires
        den > 0,
    ensures
        r == spec_payout(bet, num as int, den as int),
{
    let capped: u64 = if num > 0 && bet > u64::MAX / num {
        proof {
            lemma_mul_cap(bet, num);
        }
        u64::MAX
    } else {
        proof {
            if num > 0 {
                lemma_mul_cap(bet, num);
            }
        }
        bet * num
    };
    capped / den
}

/// Relies on rand::Rng::gen_range over the range 0..n: the draw is strictly
/// below `n`, and the range is nonempty, so the call does not panic.
#[verifier::external_body]
pub(crate) fn random_below(n: u64) -> (r: u64)
    requires
        n > 0,
    ensures
        r < n,
{
    rand::Rng::gen_range(&mut rand::thread_rng(), 0..n)
}

/// Every slot of every mode has a strictly positive selection weight: no
/// outcome is unreachable.
pub proof fn lemma_weights_positive(mode: GameMode, i: int)
    requires
        0 <= i < HOLES,
    ensures
        slot_weight(mode, i) > 0,
{
}

/// Cumulative weights grow strictly with the slot index.
pub proof fn lemma_prefix_increasing(mode: GameMode, i: int, j: int)
    requires
        0 <= i <= j <= HOLES,
    ensures
        prefix_weight(mode, i) <= prefix_weight(mode, j),
    decreases j - i,
{
    if i < j {
        lemma_weights_positive(mode, j - 1);
        lemma_prefix_increasing(mode, i, j - 1);
    }
}

/// A draw below the mode's total weight selects slot `i` exactly when it
/// falls in the half-open interval of length `slot_weight(mode, i)` that
/// starts at the cumulative weight of the slots before `i`.
pub proof fn lemma_slot_interval(mode: GameMode, draw: int, i: int)
    requires
        0 <= draw < total_weight(mode),
        0 <= i < HOLES,
    ensures
        slot_for_draw(mode, draw) == i <==> prefix_weight(mode, i) <= draw < prefix_weight(
            mode,
            i,
        ) + slot_weight(mode, i),
{
    assert(prefix_weight(mode, 0) == 0);
    assert(prefix_weight(mode, 1) == prefix_weight(mode, 0) + slot_weight(mode, 0));
    assert(prefix_weight(mode, 2) == prefix_weight(mode, 1) + slot_weight(mode, 1));
    assert(prefix_weight(mode, 3) == prefix_weight(mode, 2) + slot_weight(mode, 2));
    assert(prefix_weight(mode, 4) == prefix_weight(mode, 3) + slot_weight(mode, 3));
    assert(prefix_weight(mode, 5) == prefix_weight(mode, 4) + slot_weight(mode, 4));
    assert(prefix_weight(mode, 6) == prefix_weight(mode, 5) + slot_weight(mode, 5));
    assert(prefix_weight(mode, 7) == prefix_weight(mode, 6) + slot_weight(mode, 6));
    assert(prefix_weight(mode, 8) == prefix_weight(mode, 7) + slot_weight(mode, 7));
    assert(prefix_weight(mode, 9) == prefix_weight(mode, 8) + slot_weight(mode, 8));
    assert forall|k: int| 0 <= k < HOLES implies #[trigger] slot_weight(mode, k) > 0 by {
        lemma_weights_positive(mode, k);
    }
}

/// The slot-selection odds are exactly the weight table: among the
/// `total_weight(mode)` equally likely draws, exactly `slot_weight(mode, i)`
/// select slot `i`, so slot `i` is selected with probability
/// `slot_weight(mode, i) / total_weight(mode)`.
pub proof fn lemma_slot_probability(mode: GameMode, i: int)
    requires
        0 <= i < HOLES,
    ensures
        Set::new(
            |d: int| 0 <= d < total_weight(mode) && slot_for_draw(mode, d) == i,
        ).len() == slot_weight(mode, i),
{
    let lo = prefix_weight(mode, i);
    let hi = prefix_weight(mode, i) + slot_weight(mode, i);
    let selecting = Set::new(|d: int| 0 <= d < total_weight(mode) && slot_for_draw(mode, d) == i);
    assert(prefix_weight(mode, i + 1) == prefix_weight(mode, i) + slot_weight(mode, i));
    lemma_prefix_increasing(mode, 0, i);
    lemma_prefix_increasing(mode, i + 1, HOLES as int);
    assert forall|d: int| selecting.contains(d) <==> vstd::set_lib::set_int_range(
        lo,
        hi,
    ).contains(d) by {
        if 0 <= d < total_weight(mode) {
            lemma_slot_interval(mode, d, i);
        }
    }
    assert(selecting =~= vstd::set_lib::set_int_range(lo, hi));
    vstd::set_lib::lemma_int_range(lo, hi);
}

/// Run one roll: draw a slot at the mode's odds, then settle the bet at that
/// slot's multiplier. Returns (payout, slot index).
pub fn simulate(mode: GameMode, bet: u64) -> (r: (u64, usize))
    ensures
        r.1 < HOLES,
        r.0 == spec_payout(
            bet,
            slot_multiplier(mode, r.1 as int).0,
            slot_multiplier(mode, r.1 as int).1,
        ),
        exists|d: int| 0 <= d < total_weight(mode) && r.1 == slot_for_draw(mode, d),
{
    let total = mode_total_weight(mode);
    let draw = random_below(total);
    let slot = pick_slot(mode, draw);
    let (num, den) = multiplier(mode, slot);
    let pay = payout_for(bet, num, den);
    (pay, slot)
}

} // verus!
