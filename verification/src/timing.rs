//! Hold and gap times of a synthetic click.
//!
//! A click rate of `cps` clicks per second gives each click a target interval
//! of `1000 / cps` milliseconds, which is split into the time the button is
//! held and the pause that follows. The steady split holds for half the
//! interval, but for 20 ms at least. The humanized split starts from a hold
//! time that the caller has scaled from the interval, moves it by a random
//! jitter, clamps it, and moves the remaining gap by a second jitter. All
//! arithmetic saturates: no time is ever negative.

use vstd::prelude::*;
use rand::Rng;

verus! {

/// The shortest hold of the steady split, in milliseconds.
pub const STEADY_HOLD_FLOOR_MS: u64 = 20;

/// The shortest hold of the humanized split, in milliseconds.
pub const HUMANIZED_HOLD_FLOOR_MS: u64 = 2;

/// How long the button of one click is held, and how long the pause after
/// the click lasts.
#[derive(Clone, Copy, Debug, PartialEq, Eq, Structural)]
pub struct ClickTiming {
    pub hold_ms: u64,
    pub gap_ms: u64,
}

/// One random adjustment: its size, and whether it lengthens or shortens.
#[derive(Clone, Copy, Debug, PartialEq, Eq, Structural)]
pub struct JitterDraw {
    pub amount: u64,
    pub upward: bool,
}

/// The time from one click to the next at `cps` clicks per second.
pub open spec fn target_interval(cps: int) -> int
    recommends
        cps > 0,
{
    1000int / cps
}

/// `a - b`, but 0 where `b` exceeds `a`.
pub open spec fn saturating_minus(a: int, b: int) -> int {
    if a >= b {
        a - b
    } else {
        0
    }
}

/// `a + b`, but the largest `u64` where the sum exceeds it.
pub open spec fn saturating_plus(a: int, b: int) -> int {
    if a + b > u64::MAX {
        u64::MAX as int
    } else {
        a + b
    }
}

/// `value` lengthened or shortened by the amount of `draw`, saturating.
pub open spec fn moved(value: int, draw: JitterDraw) -> int {
    if draw.upward {
        saturating_plus(value, draw.amount as int)
    } else {
        saturating_minus(value, draw.amount as int)
    }
}

/// `value` moved by `draw` where `randomness` is above 0, else unchanged.
pub open spec fn jittered(value: int, randomness: int, draw: JitterDraw) -> int {
    if randomness > 0 {
        moved(value, draw)
    } else {
        value
    }
}

/// The lower bound of a humanized hold: a quarter of the interval, 2 ms at
/// least.
pub open spec fn min_hold(target: int) -> int {
    if target / 4 > 2 {
        target / 4
    } else {
        2
    }
}

/// The upper bound of a humanized hold: three quarters of the interval, but
/// never under the lower bound.
pub open spec fn max_hold(target: int) -> int {
    if target * 3 / 4 > min_hold(target) {
        target * 3 / 4
    } else {
        min_hold(target)
    }
}

/// `value` brought into `lo..=hi`.
pub open spec fn clamped(value: int, lo: int, hi: int) -> int {
    if value < lo {
        lo
    } else if value > hi {
        hi
    } else {
        value
    }
}

/// The hold of the steady split.
pub open spec fn steady_hold(target: int) -> int {
    if target / 2 > 20 {
        target / 2
    } else {
        20
    }
}

/// The hold of the humanized split: the scaled hold, jittered, then clamped.
pub open spec fn humanized_hold(target: int, base_hold: int, randomness: int, draw: JitterDraw) -> int {
    clamped(jittered(base_hold, randomness, draw), min_hold(target), max_hold(target))
}

/// The gap of the humanized split: what the hold leaves of the interval,
/// jittered.
pub open spec fn humanized_gap(target: int, hold: int, randomness: int, draw: JitterDraw) -> int {
    jittered(saturating_minus(target, hold), randomness, draw)
}

/// The target interval in milliseconds at `cps` clicks per second.
pub fn target_interval_ms(cps: u64) -> (target: u64)
    requires
        cps > 0,
    ensures
        target == target_interval(cps as int),
        target <= 1000,
{
    1000 / cps
}

/// Moves `value` by `draw`, saturating at both ends of `u64`.
pub fn apply_jitter(value: u64, draw: JitterDraw) -> (out: u64)
    ensures
        out == moved(value as int, draw),
{
    if draw.upward {
        value.saturating_add(draw.amount)
    } else {
        value.saturating_sub(draw.amount)
    }
}

/// The steady split of the interval at `cps` clicks per second.
pub fn steady_timing(cps: u64) -> (timing: ClickTiming)
    requires
        cps > 0,
    ensures
        timing.hold_ms == steady_hold(target_interval(cps as int)),
        timing.gap_ms == saturating_minus(target_interval(cps as int), timing.hold_ms as int),
{
    let target_ms: u64 = target_interval_ms(cps);
    let half: u64 = target_ms / 2;
    let hold_ms: u64 = if half > STEADY_HOLD_FLOOR_MS {
        half
    } else {
        STEADY_HOLD_FLOOR_MS
    };
    ClickTiming { hold_ms, gap_ms: target_ms.saturating_sub(hold_ms) }
}

/// The humanized split of the interval at `cps` clicks per second, for given
/// draws. `base_hold` is the hold before jitter; `hold_draw` moves the hold
/// and `gap_draw` the gap, both only where `randomness` is above 0.
pub fn humanized_timing(
    cps: u64,
    randomness: u64,
    base_hold: u64,
    hold_draw: JitterDraw,
    gap_draw: JitterDraw,
) -> (timing: ClickTiming)
    requires
        cps > 0,
    ensures
        timing.hold_ms == humanized_hold(
            target_interval(cps as int),
            base_hold as int,
            randomness as int,
            hold_draw,
        ),
        timing.gap_ms == humanized_gap(
            target_interval(cps as int),
            timing.hold_ms as int,
            randomness as int,
            gap_draw,
        ),
        min_hold(target_interval(cps as int)) <= timing.hold_ms <= max_hold(
            target_interval(cps as int),
        ),
{
    let target_ms: u64 = target_interval_ms(cps);
    let mut hold_ms: u64 = base_hold;
    if randomness > 0 {
        hold_ms = apply_jitter(hold_ms, hold_draw);
    }
    let quarter: u64 = target_ms / 4;
    let lowest: u64 = if quarter > HUMANIZED_HOLD_FLOOR_MS {
        quarter
    } else {
        HUMANIZED_HOLD_FLOOR_MS
    };
    let three_quarters: u64 = target_ms * 3 / 4;
    let highest: u64 = if three_quarters > lowest {
        three_quarters
    } else {
        lowest
    };
    if hold_ms < lowest {
        hold_ms = lowest;
    } else if hold_ms > highest {
        hold_ms = highest;
    }
    let mut gap_ms: u64 = target_ms.saturating_sub(hold_ms);
    if randomness > 0 {
        gap_ms = apply_jitter(gap_ms, gap_draw);
    }
    ClickTiming { hold_ms, gap_ms }
}

/// Draws the size of a jitter. Calls `Rng::gen_range` of the `rand` crate on
/// the thread-local generator with the inclusive range from 0 to `bound`;
/// `rand` hands back a value of that range, and which one is left open.
#[verifier::external_body]
fn draw_amount(bound: u64) -> (amount: u64)
    ensures
        amount <= bound,
{
    rand::thread_rng().gen_range(0..=bound)
}

/// Draws the direction of a jitter. Calls `Rng::gen_ratio` of the `rand`
/// crate on the thread-local generator with the ratio 1 in 2; nothing is
/// claimed of the outcome.
#[verifier::external_body]
fn draw_direction() -> (upward: bool) {
    rand::thread_rng().gen_ratio(1, 2)
}

/// Draws one jitter of at most `randomness` milliseconds. Where `randomness`
/// is 0 nothing is drawn and the jitter is the empty one: no amount, upward.
/// Above 0 the amount and the direction are what the generator hands back,
/// and only the bound on the amount holds of every outcome.
pub fn draw_jitter(randomness: u64) -> (draw: JitterDraw)
    ensures
        draw.amount <= randomness,
        randomness == 0 ==> draw == (JitterDraw { amount: 0, upward: true }),
{
    if randomness > 0 {
        let amount: u64 = draw_amount(randomness);
        let upward = draw_direction();
        JitterDraw { amount, upward }
    } else {
        JitterDraw { amount: 0, upward: true }
    }
}

/// The humanized split with freshly drawn jitter: it is the split of
/// [`humanized_timing`] for some pair of draws of at most `randomness`
/// milliseconds each.
pub fn draw_humanized_timing(cps: u64, randomness: u64, base_hold: u64) -> (timing: ClickTiming)
    requires
        cps > 0,
    ensures
        exists|hold_draw: JitterDraw, gap_draw: JitterDraw|
            {
                &&& hold_draw.amount <= randomness
                &&& gap_draw.amount <= randomness
                &&& timing.hold_ms == #[trigger] humanized_hold(
                    target_interval(cps as int),
                    base_hold as int,
                    randomness as int,
                    hold_draw,
                )
                &&& timing.gap_ms == #[trigger] humanized_gap(
                    target_interval(cps as int),
                    timing.hold_ms as int,
                    randomness as int,
                    gap_draw,
                )
            },
        min_hold(target_interval(cps as int)) <= timing.hold_ms <= max_hold(
            target_interval(cps as int),
        ),
{
    let hold_draw = draw_jitter(randomness);
    let gap_draw = draw_jitter(randomness);
    humanized_timing(cps, randomness, base_hold, hold_draw, gap_draw)
}

/// A hold that does not exceed the interval and the gap it leaves add up to
/// the interval.
pub proof fn lemma_split_fills_interval(cps: int, hold: int)
    requires
        cps > 0,
        0 <= hold <= target_interval(cps),
    ensures
        hold + saturating_minus(target_interval(cps), hold) == target_interval(cps),
{
}

/// The steady split fills the interval wherever the interval is 20 ms or
/// more, that is up to 50 clicks per second; above that rate the hold alone
/// is longer than the interval and the gap is 0.
pub proof fn lemma_steady_split_fills_interval(cps: int)
    requires
        cps > 0,
    ensures
        cps <= 50 ==> steady_hold(target_interval(cps)) + saturating_minus(
            target_interval(cps),
            steady_hold(target_interval(cps)),
        ) == target_interval(cps),
        cps > 50 ==> steady_hold(target_interval(cps)) == 20 && saturating_minus(
            target_interval(cps),
            steady_hold(target_interval(cps)),
        ) == 0,
{
    lemma_interval_by_rate(cps);
}

/// Without jitter the humanized split fills the interval wherever the
/// interval is 2 ms or more, that is up to 500 clicks per second.
pub proof fn lemma_unjittered_split_fills_interval(
    cps: int,
    base_hold: int,
    hold_draw: JitterDraw,
    gap_draw: JitterDraw,
)
    requires
        0 < cps <= 500,
    ensures
        ({
            let target = target_interval(cps);
            let hold = humanized_hold(target, base_hold, 0, hold_draw);
            hold + humanized_gap(target, hold, 0, gap_draw) == target
        }),
{
    lemma_interval_by_rate(cps);
}

/// The bounds of the humanized hold are never inverted, and the hold lies
/// between them whatever the scaled hold, the randomness and the draw are.
pub proof fn lemma_hold_within_bounds(
    target: int,
    base_hold: int,
    randomness: int,
    draw: JitterDraw,
)
    requires
        0 <= target,
    ensures
        2 <= min_hold(target) <= max_hold(target),
        min_hold(target) <= humanized_hold(target, base_hold, randomness, draw) <= max_hold(
            target,
        ),
{
}

/// Jitter never takes a time below 0 nor above the largest `u64`.
pub proof fn lemma_jitter_stays_in_range(value: int, randomness: int, draw: JitterDraw)
    requires
        0 <= value <= u64::MAX,
    ensures
        0 <= jittered(value, randomness, draw) <= u64::MAX,
        !draw.upward && draw.amount >= value && randomness > 0 ==> jittered(value, randomness, draw)
            == 0,
{
}

/// Hold and gap of the humanized split are never negative, whatever the
/// randomness and the draws are.
pub proof fn lemma_split_never_negative(
    cps: int,
    base_hold: int,
    randomness: int,
    hold_draw: JitterDraw,
    gap_draw: JitterDraw,
)
    requires
        cps > 0,
        0 <= base_hold,
    ensures
        ({
            let target = target_interval(cps);
            let hold = humanized_hold(target, base_hold, randomness, hold_draw);
            hold >= 0 && humanized_gap(target, hold, randomness, gap_draw) >= 0
        }),
{
    lemma_interval_by_rate(cps);
}

/// The interval lies between 0 and 1000 ms, is 20 ms or more exactly up to
/// 50 clicks per second, and 2 ms or more exactly up to 500.
proof fn lemma_interval_by_rate(cps: int)
    requires
        cps > 0,
    ensures
        0 <= target_interval(cps) <= 1000,
        cps <= 50 <==> target_interval(cps) >= 20,
        cps <= 500 <==> target_interval(cps) >= 2,
{
    let t: int = 1000int / cps;
    assert(0 <= t <= 1000 && (cps <= 50 <==> t >= 20) && (cps <= 500 <==> t >= 2))
        by (nonlinear_arith)
        requires
            cps > 0,
            t == 1000int / cps,
    ;
}

} // verus!
