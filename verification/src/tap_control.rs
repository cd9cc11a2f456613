//! Maps a live DLR line-rating (amps) to a transformer tap position.
//!
//! Band edges are derived from the IEEE 738 output range of the simulated
//! DRAKE_ACSR_795 conductor over one sawtooth sweep (~0-2860A, quartiles
//! ~1125/1671/2168A), rounded to readable numbers.
//!
//! A rating is handed over as the bit pattern of an IEEE-754 binary64 value
//! (what `f64::to_bits` gives). For a positive threshold `t`, the comparison
//! `x >= t` holds exactly when the bit pattern of `x` lies between the pattern
//! of `t` and the pattern of positive infinity: among non-negative values that
//! are not NaN the patterns are ordered as the values are, every negative value
//! has the sign bit set (so its pattern lies above that of positive infinity),
//! and every NaN pattern lies above that of positive infinity too.
use vstd::prelude::*;

verus! {

/// Discrete transformer tap position. Tap1 = highest secondary voltage
/// boost (most ampacity headroom used), Tap4 = lowest voltage (most
/// conservative).
#[derive(Debug, Clone, Copy, PartialEq, Eq, Structural)]
pub enum TapPosition {
    /// Highest secondary voltage boost.
    Tap1,
    /// Second-highest voltage boost.
    Tap2,
    /// Second-most conservative (lower) voltage.
    Tap3,
    /// Lowest secondary voltage -- most conservative.
    Tap4,
}

/// Bit pattern of the binary64 value positive infinity.
pub const POSITIVE_INFINITY_BITS: u64 = 0x7ff0_0000_0000_0000;

/// Bit pattern of 2000.0: rating (amps) at/above which the target tap is Tap1.
pub const RATING_BAND_1_A_BITS: u64 = 0x409f_4000_0000_0000;

/// Bit pattern of 1400.0: rating (amps) at/above which the target tap is Tap2
/// (below band 1).
pub const RATING_BAND_2_A_BITS: u64 = 0x4095_e000_0000_0000;

/// Bit pattern of 800.0: rating (amps) at/above which the target tap is Tap3
/// (below band 2).
pub const RATING_BAND_3_A_BITS: u64 = 0x4089_0000_0000_0000;

impl TapPosition {
    /// 1-indexed step number: Tap1 = 1 (highest voltage) .. Tap4 = 4 (lowest).
    pub open spec fn rank(self) -> int {
        match self {
            TapPosition::Tap1 => 1,
            TapPosition::Tap2 => 2,
            TapPosition::Tap3 => 3,
            TapPosition::Tap4 => 4,
        }
    }

    /// The tap position whose step number is `r`; anything outside 1..=4
    /// stands for the most conservative tap.
    pub open spec fn of_rank(r: int) -> TapPosition {
        if r == 1 {
            TapPosition::Tap1
        } else if r == 2 {
            TapPosition::Tap2
        } else if r == 3 {
            TapPosition::Tap3
        } else {
            TapPosition::Tap4
        }
    }

    /// EnumSample wire value of the position.
    pub open spec fn wire_label(self) -> Seq<char> {
        match self {
            TapPosition::Tap1 => "TAP_1"@,
            TapPosition::Tap2 => "TAP_2"@,
            TapPosition::Tap3 => "TAP_3"@,
            TapPosition::Tap4 => "TAP_4"@,
        }
    }

    /// EnumSample wire value (`TAP_1` .. `TAP_4`).
    pub fn as_str(self) -> (label: &'static str)
        ensures
            label@ == self.wire_label(),
    {
        match self {
            TapPosition::Tap1 => "TAP_1",
            TapPosition::Tap2 => "TAP_2",
            TapPosition::Tap3 => "TAP_3",
            TapPosition::Tap4 => "TAP_4",
        }
    }

    /// 1-indexed step number: Tap1 = 1 (highest voltage) .. Tap4 = 4 (lowest).
    pub fn step(self) -> (n: u8)
        ensures
            n == self.rank(),
    {
        match self {
            TapPosition::Tap1 => 1,
            TapPosition::Tap2 => 2,
            TapPosition::Tap3 => 3,
            TapPosition::Tap4 => 4,
        }
    }

    /// Inverse of `step`. Anything outside 1..=4 falls back to the
    /// conservative tap rather than panicking.
    pub fn from_step(step: u8) -> (tap: TapPosition)
        ensures
            tap == TapPosition::of_rank(step as int),
    {
        match step {
            1 => TapPosition::Tap1,
            2 => TapPosition::Tap2,
            3 => TapPosition::Tap3,
            _ => TapPosition::Tap4,
        }
    }
}

/// Whether the binary64 value with pattern `rating_bits` is at or above the
/// positive finite threshold whose pattern is `threshold_bits`.
pub open spec fn at_or_above(rating_bits: u64, threshold_bits: u64) -> bool {
    threshold_bits <= rating_bits <= POSITIVE_INFINITY_BITS
}

/// The tap position implied by a rating, by band.
pub open spec fn target_tap(rating_bits: u64) -> TapPosition {
    if at_or_above(rating_bits, RATING_BAND_1_A_BITS) {
        TapPosition::Tap1
    } else if at_or_above(rating_bits, RATING_BAND_2_A_BITS) {
        TapPosition::Tap2
    } else if at_or_above(rating_bits, RATING_BAND_3_A_BITS) {
        TapPosition::Tap3
    } else {
        TapPosition::Tap4
    }
}

/// Pick the tap position implied by a rating (given as its binary64 bit
/// pattern), ignoring the current position -- `TapController::on_rating`
/// steps toward it gradually. NaN and negative ratings imply Tap4.
pub fn target_for_rating(rating_bits: u64) -> (tap: TapPosition)
    ensures
        tap == target_tap(rating_bits),
{
    if rating_bits > POSITIVE_INFINITY_BITS {
        TapPosition::Tap4
    } else if rating_bits >= RATING_BAND_1_A_BITS {
        TapPosition::Tap1
    } else if rating_bits >= RATING_BAND_2_A_BITS {
        TapPosition::Tap2
    } else if rating_bits >= RATING_BAND_3_A_BITS {
        TapPosition::Tap3
    } else {
        TapPosition::Tap4
    }
}

/// One gradual adjustment: the position one step from `current` toward
/// `target`, or `current` itself when it is the target.
pub open spec fn step_toward(current: TapPosition, target: TapPosition) -> TapPosition {
    if target.rank() > current.rank() {
        TapPosition::of_rank(current.rank() + 1)
    } else if target.rank() < current.rank() {
        TapPosition::of_rank(current.rank() - 1)
    } else {
        current
    }
}

/// Stateful tap controller. Starts at the most conservative tap and steps
/// at most one position per `on_rating` call toward the tap the latest
/// rating implies -- gradual adjustment prevents voltage spikes.
pub struct TapController {
    /// The tap position after the most recent `on_rating` step.
    current: TapPosition,
}

impl View for TapController {
    type V = TapPosition;

    /// The tap position the controller is at.
    closed spec fn view(&self) -> TapPosition {
        self.current
    }
}

impl TapController {
    /// New controller, parked at the most conservative tap until the first
    /// rating arrives.
    pub fn new() -> (controller: TapController)
        ensures
            controller@ == TapPosition::Tap4,
    {
        TapController { current: TapPosition::Tap4 }
    }

    /// Current tap position.
    pub fn current(&self) -> (tap: TapPosition)
        ensures
            tap == self@,
    {
        self.current
    }

    /// Feed a new line-rating reading (amps, as its binary64 bit pattern);
    /// steps at most one tap toward the position it implies. Returns the tap
    /// position after stepping.
    pub fn on_rating(&mut self, rating_bits: u64) -> (tap: TapPosition)
        ensures
            final(self)@ == step_toward(old(self)@, target_tap(rating_bits)),
            tap == final(self)@,
    {
        let target_step = target_for_rating(rating_bits).step();
        let cur_step = self.current.step();

        let next_step = if target_step > cur_step {
            cur_step + 1
        } else if target_step < cur_step {
            cur_step - 1
        } else {
            cur_step
        };

        self.current = TapPosition::from_step(next_step);
        self.current
    }
}

impl Default for TapController {
    fn default() -> (controller: TapController)
        ensures
            controller@ == TapPosition::Tap4,
    {
        TapController::new()
    }
}

/// Number of tap steps between two positions.
pub open spec fn distance(a: TapPosition, b: TapPosition) -> nat {
    if a.rank() >= b.rank() {
        (a.rank() - b.rank()) as nat
    } else {
        (b.rank() - a.rank()) as nat
    }
}

/// The position a controller at `start` reaches after being fed `ratings`,
/// first to last.
pub open spec fn after_ratings(start: TapPosition, ratings: Seq<u64>) -> TapPosition
    decreases ratings.len(),
{
    if ratings.len() == 0 {
        start
    } else {
        after_ratings(step_toward(start, target_tap(ratings[0])), ratings.drop_first())
    }
}

/// `from_step` undoes `step`: every position survives the round trip
/// through its step number.
pub proof fn lemma_from_step_inverts_step(tap: TapPosition)
    ensures
        TapPosition::of_rank(tap.rank()) == tap,
        1 <= tap.rank() <= 4,
{
}

/// Gradual adjustment: one rating moves the controller by at most one
/// position, never away from the target, and one position closer whenever
/// it is not already there; at the target it holds its position.
pub proof fn lemma_one_step_toward_target(current: TapPosition, target: TapPosition)
    ensures
        distance(current, step_toward(current, target)) <= 1,
        current == target ==> step_toward(current, target) == current,
        current != target ==> distance(step_toward(current, target), target) + 1
            == distance(current, target),
{
}

/// A higher rating never implies a more conservative tap: among ratings that
/// are not negative and not NaN, the implied step number falls as the rating
/// rises.
pub proof fn lemma_target_is_monotone(low_bits: u64, high_bits: u64)
    requires
        low_bits <= high_bits <= POSITIVE_INFINITY_BITS,
    ensures
        target_tap(high_bits).rank() <= target_tap(low_bits).rank(),
{
}

/// A rating that is NaN or negative (its pattern lies above that of positive
/// infinity) implies the most conservative tap.
pub proof fn lemma_unusable_rating_is_conservative(rating_bits: u64)
    requires
        rating_bits > POSITIVE_INFINITY_BITS,
    ensures
        target_tap(rating_bits) == TapPosition::Tap4,
{
}

/// Convergence: fed ratings that all imply the same tap, the controller
/// reaches that tap once it has seen as many ratings as there are steps
/// between its start and the target, and stays there.
pub proof fn lemma_converges_to_target(start: TapPosition, ratings: Seq<u64>, target: TapPosition)
    requires
        forall|i: int| 0 <= i < ratings.len() ==> #[trigger] target_tap(ratings[i]) == target,
        ratings.len() >= distance(start, target),
    ensures
        after_ratings(start, ratings) == target,
    decreases ratings.len(),
{
    if ratings.len() > 0 {
        let rest = ratings.drop_first();
        assert(target_tap(ratings[0]) == target);
        assert forall|i: int| 0 <= i < rest.len() implies #[trigger] target_tap(rest[i]) == target by {
            assert(rest[i] == ratings[i + 1]);
        }
        lemma_one_step_toward_target(start, target);
        lemma_converges_to_target(step_toward(start, target), rest, target);
    }
}

/// The bands, edges included: a rating that is neither negative nor NaN
/// implies Tap1 from 2000 A up, Tap2 from 1400 A up to below 2000 A, Tap3
/// from 800 A up to below 1400 A, and Tap4 below 800 A.
pub proof fn lemma_rating_bands(rating_bits: u64)
    requires
        rating_bits <= POSITIVE_INFINITY_BITS,
    ensures
        target_tap(rating_bits) == TapPosition::Tap1 <==> RATING_BAND_1_A_BITS <= rating_bits,
        target_tap(rating_bits) == TapPosition::Tap2 <==> RATING_BAND_2_A_BITS <= rating_bits
            < RATING_BAND_1_A_BITS,
        target_tap(rating_bits) == TapPosition::Tap3 <==> RATING_BAND_3_A_BITS <= rating_bits
            < RATING_BAND_2_A_BITS,
        target_tap(rating_bits) == TapPosition::Tap4 <==> rating_bits < RATING_BAND_3_A_BITS,
{
}

} // verus!
