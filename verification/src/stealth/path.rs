//! Pointer paths between two points: eased travel, a coherent sway taken from
//! a noise field, and independent jitter at every step.
//!
//! Coordinates are whole numbers of thousandths of a pixel. A noise sample is
//! a whole number of millionths, so that the field's range of -1 to 1 is
//! `-NOISE_UNIT` to `NOISE_UNIT`; a sample beyond that range counts as the
//! nearest end of it.

use crate::stealth::geometry::{
    eased,
    eased_numerator,
    floor_sqrt,
    is_floor_sqrt,
    isqrt,
    lemma_eased_monotone,
    lemma_eased_range,
    lemma_floor_sqrt_exists,
    lemma_scaled_bound,
    lemma_scaled_monotone,
    lemma_scaled_within,
    scale,
    scaled,
};
use crate::stealth::random::{any_u32, chance, uniform_below};
use rand::rngs::ThreadRng;
use vstd::prelude::*;

verus! {

/// Coordinate units in one pixel.
pub const UNITS_PER_PIXEL: i64 = 1000;

/// The noise sample that stands for 1.
pub const NOISE_UNIT: i64 = 1_000_000;

/// Jitter stays below this on each axis, in coordinate units: 1.5 pixels.
pub const JITTER_LIMIT: i64 = 1500;

/// The noise field is read from position 0 to this, in thousandths, along
/// the path.
pub const NOISE_SPAN: u64 = 10_000;

/// The largest number of steps in a path.
pub const MAX_STEPS: usize = 0xFFFF_FFFF;

/// Shortest base delay of a step, in milliseconds.
pub const BASE_DELAY_MIN_MS: u64 = 5;

/// Longest base delay of a step, in milliseconds.
pub const BASE_DELAY_MAX_MS: u64 = 100;

/// The random draws that shape one step of a path.
#[derive(Clone, Copy, Debug, PartialEq, Eq, Structural)]
pub struct StepDraw {
    /// Offset along x, in coordinate units.
    pub jitter_x: i16,
    /// Offset along y, in coordinate units.
    pub jitter_y: i16,
    /// The step's delay as thousandths of the base delay.
    pub variation: u16,
    /// Extra hesitation before the step, in milliseconds.
    pub pause_ms: u16,
}

impl StepDraw {
    /// The draw is one that `draw_step` can make: jitter within 1.5 pixels,
    /// a delay of 0.7 to 1.3 times the base, and either no hesitation or one
    /// of 20 to 80 ms.
    pub open spec fn admissible(self) -> bool {
        &&& -JITTER_LIMIT <= self.jitter_x < JITTER_LIMIT
        &&& -JITTER_LIMIT <= self.jitter_y < JITTER_LIMIT
        &&& 700 <= self.variation < 1300
        &&& self.pause_ms == 0 || 20 <= self.pause_ms < 80
    }
}

/// The square of the distance between two points.
pub open spec fn squared_distance(start: (i32, i32), end: (i32, i32)) -> int {
    (end.0 - start.0) * (end.0 - start.0) + (end.1 - start.1) * (end.1 - start.1)
}

/// The distance between two points, rounded down.
pub open spec fn distance(start: (i32, i32), end: (i32, i32)) -> int {
    floor_sqrt(squared_distance(start, end))
}

/// The base delay of every step of a path of this length, in milliseconds:
/// half a millisecond for each pixel, kept within 5 and 100.
pub open spec fn base_delay(distance: int) -> int {
    let grown = distance / (2 * UNITS_PER_PIXEL as int);
    if grown < BASE_DELAY_MIN_MS {
        BASE_DELAY_MIN_MS as int
    } else if grown > BASE_DELAY_MAX_MS {
        BASE_DELAY_MAX_MS as int
    } else {
        grown
    }
}

/// The largest sway of a path of this length: a twentieth of it.
pub open spec fn amplitude(distance: int) -> int {
    distance / 20
}

/// How far along one axis the eased pointer has come at step `i` of `steps`,
/// where `delta` is the whole way. A path of no steps stays at its start.
pub open spec fn travel(delta: int, i: int, steps: int) -> int {
    if steps == 0 {
        0
    } else {
        scaled(delta, eased_numerator(i, steps), steps * steps)
    }
}

/// A noise sample kept within the field's range.
pub open spec fn within_field(sample: i32) -> int {
    if sample < -NOISE_UNIT {
        -NOISE_UNIT as int
    } else if sample > NOISE_UNIT {
        NOISE_UNIT as int
    } else {
        sample as int
    }
}

/// The offset that a noise sample gives on one axis: the sample's share of
/// the amplitude, rounded toward zero.
pub open spec fn sway(amplitude: int, sample: i32) -> int {
    scaled(within_field(sample), amplitude, NOISE_UNIT as int)
}

/// The delay before a step, in milliseconds.
pub open spec fn step_delay(base_ms: int, draw: StepDraw) -> int {
    base_ms * draw.variation / 1000 + draw.pause_ms
}

/// Point `i` of the path from `start` to `end` in `steps` steps, given the
/// noise sample and the draw of that step.
pub open spec fn point_at(
    start: (i32, i32),
    end: (i32, i32),
    steps: int,
    i: int,
    sample: (i32, i32),
    draw: StepDraw,
) -> (int, int, int) {
    let length = distance(start, end);
    (
        start.0 + travel(end.0 - start.0, i, steps) + sway(amplitude(length), sample.0)
            + draw.jitter_x,
        start.1 + travel(end.1 - start.1, i, steps) + sway(amplitude(length), sample.1)
            + draw.jitter_y,
        step_delay(base_delay(length), draw),
    )
}

/// `point` is point `i` of such a path for some admissible draw.
pub open spec fn is_path_point(
    start: (i32, i32),
    end: (i32, i32),
    steps: int,
    i: int,
    sample: (i32, i32),
    point: (i64, i64, u64),
) -> bool {
    exists|draw: StepDraw|
        #[trigger] draw.admissible() && (point.0 as int, point.1 as int, point.2 as int)
            == point_at(start, end, steps, i, sample, draw)
}

/// The length of a path is a natural number, and zero between equal points.
pub proof fn lemma_distance(start: (i32, i32), end: (i32, i32))
    ensures
        is_floor_sqrt(squared_distance(start, end), distance(start, end)),
        0 <= distance(start, end),
        0 <= amplitude(distance(start, end)),
        start == end ==> distance(start, end) == 0,
{
    let dx = end.0 - start.0;
    let dy = end.1 - start.1;
    assert(0 <= dx * dx && 0 <= dy * dy) by (nonlinear_arith);
    lemma_floor_sqrt_exists(squared_distance(start, end));
    if start == end {
        assert(dx * dx == 0 && dy * dy == 0) by (nonlinear_arith)
            requires
                dx == 0,
                dy == 0,
        ;
        let length = distance(start, end);
        assert(length == 0) by (nonlinear_arith)
            requires
                0 <= length,
                length * length <= 0,
        ;
    }
}

/// The eased pointer starts at the start, ends at the end and never leaves
/// the way between them.
pub proof fn lemma_travel(delta: int, i: int, steps: int)
    requires
        0 <= i <= steps,
    ensures
        delta >= 0 ==> 0 <= travel(delta, i, steps) <= delta,
        delta <= 0 ==> delta <= travel(delta, i, steps) <= 0,
        travel(delta, 0, steps) == 0,
        steps >= 1 ==> travel(delta, steps, steps) == delta,
{
    if steps >= 1 {
        assert(0 < steps * steps) by (nonlinear_arith)
            requires
                1 <= steps,
        ;
        lemma_eased_range(i, steps);
        lemma_eased_range(0, steps);
        lemma_scaled_within(delta, eased_numerator(i, steps), steps * steps);
        lemma_scaled_within(delta, eased_numerator(0, steps), steps * steps);
        lemma_scaled_within(delta, eased_numerator(steps, steps), steps * steps);
    }
}

/// The eased pointer never moves back toward the start: at a later step it
/// has come at least as far along each axis as at an earlier one.
pub proof fn law_travel_monotone(delta: int, i: int, j: int, steps: int)
    requires
        0 <= i <= j <= steps,
    ensures
        delta >= 0 ==> travel(delta, i, steps) <= travel(delta, j, steps),
        delta <= 0 ==> travel(delta, i, steps) >= travel(delta, j, steps),
{
    if steps >= 1 {
        assert(0 < steps * steps) by (nonlinear_arith)
            requires
                1 <= steps,
        ;
        lemma_eased_range(i, steps);
        lemma_eased_monotone(i, j, steps);
        lemma_scaled_monotone(
            delta,
            eased_numerator(i, steps),
            eased_numerator(j, steps),
            steps * steps,
        );
    }
}

/// No noise sample sways a point by more than the amplitude.
pub proof fn lemma_sway(reach: int, sample: i32)
    requires
        0 <= reach,
    ensures
        -reach <= sway(reach, sample) <= reach,
{
    lemma_scaled_bound(within_field(sample), reach, NOISE_UNIT as int, NOISE_UNIT as int);
    vstd::arithmetic::div_mod::lemma_div_multiples_vanish(reach, NOISE_UNIT as int);
}

/// The first point of a path lies near its start and the last near its end:
/// on each axis within a twentieth of the path's length plus the jitter limit,
/// whatever the noise.
pub proof fn law_path_ends_near(
    start: (i32, i32),
    end: (i32, i32),
    steps: int,
    sample: (i32, i32),
    draw: StepDraw,
)
    requires
        0 <= steps,
        draw.admissible(),
    ensures
        ({
            let reach = distance(start, end) / 20 + JITTER_LIMIT;
            let first = point_at(start, end, steps, 0, sample, draw);
            let last = point_at(start, end, steps, steps, sample, draw);
            &&& start.0 - reach <= first.0 <= start.0 + reach
            &&& start.1 - reach <= first.1 <= start.1 + reach
            &&& steps >= 1 ==> end.0 - reach <= last.0 <= end.0 + reach
            &&& steps >= 1 ==> end.1 - reach <= last.1 <= end.1 + reach
        }),
{
    lemma_distance(start, end);
    let reach = amplitude(distance(start, end));
    lemma_sway(reach, sample.0);
    lemma_sway(reach, sample.1);
    lemma_travel(end.0 - start.0, 0, steps);
    lemma_travel(end.1 - start.1, 0, steps);
    lemma_travel(end.0 - start.0, steps, steps);
    lemma_travel(end.1 - start.1, steps, steps);
}

/// Every point of a path lies, on each axis, between its start and its end
/// or beyond them by no more than a twentieth of the path's length plus the
/// jitter limit, whatever the noise.
pub proof fn law_path_stays_near(
    start: (i32, i32),
    end: (i32, i32),
    steps: int,
    i: int,
    sample: (i32, i32),
    draw: StepDraw,
)
    requires
        0 <= i <= steps,
        draw.admissible(),
    ensures
        ({
            let reach = distance(start, end) / 20 + JITTER_LIMIT;
            let point = point_at(start, end, steps, i, sample, draw);
            &&& vstd::math::min(start.0 as int, end.0 as int) - reach <= point.0
                <= vstd::math::max(start.0 as int, end.0 as int) + reach
            &&& vstd::math::min(start.1 as int, end.1 as int) - reach <= point.1
                <= vstd::math::max(start.1 as int, end.1 as int) + reach
        }),
{
    lemma_distance(start, end);
    let reach = amplitude(distance(start, end));
    lemma_sway(reach, sample.0);
    lemma_sway(reach, sample.1);
    lemma_travel(end.0 - start.0, i, steps);
    lemma_travel(end.1 - start.1, i, steps);
}

/// A path from a point to itself stays at that point but for the jitter,
/// whatever the noise and however many steps it has, and every step waits
/// the shortest base delay, varied.
pub proof fn law_path_in_place(
    start: (i32, i32),
    steps: int,
    i: int,
    sample: (i32, i32),
    draw: StepDraw,
)
    requires
        0 <= i <= steps,
        draw.admissible(),
    ensures
        ({
            let point = point_at(start, start, steps, i, sample, draw);
            &&& point.0 == start.0 + draw.jitter_x
            &&& point.1 == start.1 + draw.jitter_y
            &&& start.0 - JITTER_LIMIT <= point.0 < start.0 + JITTER_LIMIT
            &&& start.1 - JITTER_LIMIT <= point.1 < start.1 + JITTER_LIMIT
            &&& point.2 == step_delay(BASE_DELAY_MIN_MS as int, draw)
            &&& 3 <= point.2 <= 85
        }),
{
    lemma_distance(start, start);
    lemma_travel(0, i, steps);
    lemma_scaled_within(within_field(sample.0), 0, NOISE_UNIT as int);
    lemma_scaled_within(within_field(sample.1), 0, NOISE_UNIT as int);
}

/// The delay before any step lies between 0.7 times the base delay and 1.3
/// times the base delay plus the longest hesitation.
pub proof fn law_step_delay_range(length: int, draw: StepDraw)
    requires
        0 <= length,
        draw.admissible(),
    ensures
        BASE_DELAY_MIN_MS <= base_delay(length) <= BASE_DELAY_MAX_MS,
        base_delay(length) * 7 / 10 <= step_delay(base_delay(length), draw) <= base_delay(length)
            * 13 / 10 + 79,
{
    let base = base_delay(length);
    assert(base * 700 <= base * draw.variation <= base * 1300) by (nonlinear_arith)
        requires
            0 <= base,
            700 <= draw.variation <= 1300,
    ;
}

/// `path` is a path that `generate_path` can return for these arguments:
/// `steps + 1` points, each made from its noise sample by an admissible draw.
pub open spec fn is_trajectory(
    start: (i32, i32),
    end: (i32, i32),
    steps: int,
    noise: Seq<(i32, i32)>,
    path: Seq<(i64, i64, u64)>,
) -> bool {
    &&& path.len() == steps + 1
    &&& forall|i: int|
        0 <= i <= steps ==> is_path_point(start, end, steps, i, noise[i], #[trigger] path[i])
}

/// A trajectory of `steps` steps has `steps + 1` points; its first point lies
/// near the start and its last near the end, on each axis within a twentieth
/// of the distance plus the jitter limit.
pub proof fn law_trajectory_ends_near(
    start: (i32, i32),
    end: (i32, i32),
    steps: int,
    noise: Seq<(i32, i32)>,
    path: Seq<(i64, i64, u64)>,
)
    requires
        0 <= steps,
        is_trajectory(start, end, steps, noise, path),
    ensures
        path.len() == steps + 1,
        ({
            let reach = distance(start, end) / 20 + JITTER_LIMIT;
            &&& start.0 - reach <= path[0].0 <= start.0 + reach
            &&& start.1 - reach <= path[0].1 <= start.1 + reach
            &&& steps >= 1 ==> end.0 - reach <= path[steps].0 <= end.0 + reach
            &&& steps >= 1 ==> end.1 - reach <= path[steps].1 <= end.1 + reach
        }),
{
    assert(is_path_point(start, end, steps, 0, noise[0], path[0]));
    let first = choose|draw: StepDraw|
        #[trigger] draw.admissible() && (path[0].0 as int, path[0].1 as int, path[0].2 as int)
            == point_at(start, end, steps, 0, noise[0], draw);
    law_path_ends_near(start, end, steps, noise[0], first);
    assert(is_path_point(start, end, steps, steps, noise[steps], path[steps]));
    let last = choose|draw: StepDraw|
        #[trigger] draw.admissible() && (
            path[steps].0 as int,
            path[steps].1 as int,
            path[steps].2 as int,
        ) == point_at(start, end, steps, steps, noise[steps], draw);
    law_path_ends_near(start, end, steps, noise[steps], last);
}

/// A trajectory from a point to itself has `steps + 1` points, all within the
/// jitter limit of that point on each axis, whatever the noise.
pub proof fn law_trajectory_in_place(
    start: (i32, i32),
    steps: int,
    noise: Seq<(i32, i32)>,
    path: Seq<(i64, i64, u64)>,
)
    requires
        0 <= steps,
        is_trajectory(start, start, steps, noise, path),
    ensures
        path.len() == steps + 1,
        forall|i: int|
            #![trigger path[i]]
            0 <= i <= steps ==> {
                &&& start.0 - JITTER_LIMIT <= path[i].0 < start.0 + JITTER_LIMIT
                &&& start.1 - JITTER_LIMIT <= path[i].1 < start.1 + JITTER_LIMIT
                &&& 3 <= path[i].2 <= 85
            },
{
    assert forall|i: int| #![trigger path[i]] 0 <= i <= steps implies {
        &&& start.0 - JITTER_LIMIT <= path[i].0 < start.0 + JITTER_LIMIT
        &&& start.1 - JITTER_LIMIT <= path[i].1 < start.1 + JITTER_LIMIT
        &&& 3 <= path[i].2 <= 85
    } by {
        assert(is_path_point(start, start, steps, i, noise[i], path[i]));
        let draw = choose|draw: StepDraw|
            #[trigger] draw.admissible() && (path[i].0 as int, path[i].1 as int, path[i].2 as int)
                == point_at(start, start, steps, i, noise[i], draw);
        law_path_in_place(start, steps, i, noise[i], draw);
    }
}

/// The position at which the noise field is read for step `i` of `steps`, in
/// thousandths: proportional to the progress along the path.
pub open spec fn noise_position_at(i: int, steps: int) -> int {
    if steps == 0 {
        0
    } else {
        NOISE_SPAN * i / steps
    }
}

/// The position at which the noise field is read for step `i` of `steps`, in
/// thousandths. The first axis is read at height 0, the second at height 1.
pub fn noise_position(i: usize, steps: usize) -> (position: u64)
    requires
        i <= steps,
    ensures
        position == noise_position_at(i as int, steps as int),
        position <= NOISE_SPAN,
{
    if steps == 0 {
        0
    } else {
        let product: u128 = NOISE_SPAN as u128 * i as u128;
        proof {
            vstd::arithmetic::div_mod::lemma_div_is_ordered(
                NOISE_SPAN * i,
                NOISE_SPAN * steps,
                steps as int,
            );
            vstd::arithmetic::div_mod::lemma_div_multiples_vanish(NOISE_SPAN as int, steps as int);
            assert(NOISE_SPAN * steps == steps * NOISE_SPAN);
        }
        (product / steps as u128) as u64
    }
}

/// The distance between two points, rounded down.
pub fn path_length(start: (i32, i32), end: (i32, i32)) -> (length: u64)
    ensures
        length == distance(start, end),
        length <= 0x2_0000_0000,
{
    let dx: i64 = end.0 as i64 - start.0 as i64;
    let dy: i64 = end.1 as i64 - start.1 as i64;
    assert(0 <= dx * dx <= 0x1_0000_0000 * 0x1_0000_0000) by (nonlinear_arith)
        requires
            -0x1_0000_0000 <= dx <= 0x1_0000_0000,
    ;
    assert(0 <= dy * dy <= 0x1_0000_0000 * 0x1_0000_0000) by (nonlinear_arith)
        requires
            -0x1_0000_0000 <= dy <= 0x1_0000_0000,
    ;
    let squares: u128 = (dx as i128 * dx as i128) as u128 + (dy as i128 * dy as i128) as u128;
    let length: u64 = isqrt(squares);
    assert(length <= 0x2_0000_0000) by (nonlinear_arith)
        requires
            length * length <= squares,
            squares <= 2 * (0x1_0000_0000 * 0x1_0000_0000),
            0 <= length,
    ;
    length
}

/// A noise sample kept within the field's range.
fn keep_within_field(sample: i32) -> (kept: i64)
    ensures
        kept == within_field(sample),
{
    if (sample as i64) < -NOISE_UNIT {
        -NOISE_UNIT
    } else if sample as i64 > NOISE_UNIT {
        NOISE_UNIT
    } else {
        sample as i64
    }
}

/// Point `i` of a path whose length is known.
fn plot(
    start: (i32, i32),
    end: (i32, i32),
    length: u64,
    steps: u32,
    i: u32,
    sample: (i32, i32),
    draw: StepDraw,
) -> (point: (i64, i64, u64))
    requires
        i <= steps,
        length == distance(start, end),
        length <= 0x2_0000_0000,
    ensures
        (point.0 as int, point.1 as int, point.2 as int) == point_at(
            start,
            end,
            steps as int,
            i as int,
            sample,
            draw,
        ),
{
    let dx: i64 = end.0 as i64 - start.0 as i64;
    let dy: i64 = end.1 as i64 - start.1 as i64;
    let reach: u64 = length / 20;
    let (travel_x, travel_y): (i128, i128) = if steps == 0 {
        (0, 0)
    } else {
        let numerator: u64 = eased(i, steps);
        assert(0 < steps * steps <= 0xFFFF_FFFF * 0xFFFF_FFFF) by (nonlinear_arith)
            requires
                0 < steps <= 0xFFFF_FFFF,
        ;
        let denominator: u64 = steps as u64 * steps as u64;
        proof {
            lemma_scaled_within(dx as int, numerator as int, denominator as int);
            lemma_scaled_within(dy as int, numerator as int, denominator as int);
        }
        (scale(dx, numerator, denominator), scale(dy, numerator, denominator))
    };
    let sway_x: i128 = scale(keep_within_field(sample.0), reach, NOISE_UNIT as u64);
    let sway_y: i128 = scale(keep_within_field(sample.1), reach, NOISE_UNIT as u64);
    proof {
        lemma_sway(reach as int, sample.0);
        lemma_sway(reach as int, sample.1);
    }
    let x: i128 = start.0 as i128 + travel_x + sway_x + draw.jitter_x as i128;
    let y: i128 = start.1 as i128 + travel_y + sway_y + draw.jitter_y as i128;
    let half: u64 = length / (2 * UNITS_PER_PIXEL as u64);
    let base_ms: u64 = if half < BASE_DELAY_MIN_MS {
        BASE_DELAY_MIN_MS
    } else if half > BASE_DELAY_MAX_MS {
        BASE_DELAY_MAX_MS
    } else {
        half
    };
    assert(base_ms * draw.variation <= 100 * 0xFFFF) by (nonlinear_arith)
        requires
            base_ms <= 100,
            draw.variation <= 0xFFFF,
    ;
    let delay_ms: u64 = base_ms * draw.variation as u64 / 1000 + draw.pause_ms as u64;
    (x as i64, y as i64, delay_ms)
}

/// Point `i` of the path from `start` to `end` in `steps` steps, given the
/// noise sample and the random draw of that step.
pub fn path_point(
    start: (i32, i32),
    end: (i32, i32),
    steps: usize,
    i: usize,
    sample: (i32, i32),
    draw: StepDraw,
) -> (point: (i64, i64, u64))
    requires
        i <= steps <= MAX_STEPS,
    ensures
        (point.0 as int, point.1 as int, point.2 as int) == point_at(
            start,
            end,
            steps as int,
            i as int,
            sample,
            draw,
        ),
{
    let length: u64 = path_length(start, end);
    plot(start, end, length, steps as u32, i as u32, sample, draw)
}

/// Draws the jitter, the delay variation and the hesitation of one step.
/// One step in twenty hesitates.
fn draw_step(rng: &mut ThreadRng) -> (draw: StepDraw)
    ensures
        draw.admissible(),
{
    let span: u64 = 2 * JITTER_LIMIT as u64;
    let jitter_x: i16 = (uniform_below(rng, 0, span) as i64 - JITTER_LIMIT) as i16;
    let jitter_y: i16 = (uniform_below(rng, 0, span) as i64 - JITTER_LIMIT) as i16;
    let variation: u16 = uniform_below(rng, 700, 1300) as u16;
    let pause_ms: u16 = if chance(rng, 1, 20) {
        uniform_below(rng, 20, 80) as u16
    } else {
        0
    };
    StepDraw { jitter_x, jitter_y, variation, pause_ms }
}

/// A generator of pointer paths over one noise field.
pub struct DiffusionMousePath {
    seed: u32,
}

impl DiffusionMousePath {
    /// A generator whose noise field has a random seed.
    pub fn new() -> (generator: DiffusionMousePath) {
        let mut rng: ThreadRng = rand::thread_rng();
        let seed: u32 = any_u32(&mut rng);
        DiffusionMousePath { seed }
    }

    /// The seed that fixes the generator's noise field.
    pub closed spec fn noise_seed(self) -> u32 {
        self.seed
    }

    /// The seed of the generator's noise field.
    pub fn seed(&self) -> (seed: u32)
        ensures
            seed == self.noise_seed(),
    {
        self.seed
    }

    /// A path from `start` to `end` of `steps + 1` points, each with the
    /// delay to wait before moving to it.
    ///
    /// `noise` holds, for each step, the two samples of the generator's
    /// noise field at `noise_position` of that step. The first point lies
    /// near the start and the last near the end: on each axis within a
    /// twentieth of the distance plus the jitter limit.
    pub fn generate_path(
        &self,
        start: (i32, i32),
        end: (i32, i32),
        steps: usize,
        noise: &Vec<(i32, i32)>,
    ) -> (path: Vec<(i64, i64, u64)>)
        requires
            steps <= MAX_STEPS,
            noise.len() == steps + 1,
        ensures
            is_trajectory(start, end, steps as int, noise@, path@),
            path.len() == steps + 1,
            ({
                let reach = distance(start, end) / 20 + JITTER_LIMIT;
                &&& start.0 - reach <= path[0].0 <= start.0 + reach
                &&& start.1 - reach <= path[0].1 <= start.1 + reach
                &&& steps >= 1 ==> end.0 - reach <= path[steps as int].0 <= end.0 + reach
                &&& steps >= 1 ==> end.1 - reach <= path[steps as int].1 <= end.1 + reach
            }),
    {
        let mut rng: ThreadRng = rand::thread_rng();
        let length: u64 = path_length(start, end);
        let mut path: Vec<(i64, i64, u64)> = Vec::with_capacity(steps + 1);
        let mut i: usize = 0;
        while i <= steps
            invariant
                i <= steps + 1,
                steps <= MAX_STEPS,
                noise.len() == steps + 1,
                length == distance(start, end),
                length <= 0x2_0000_0000,
                path.len() == i,
                forall|k: int|
                    0 <= k < i ==> is_path_point(
                        start,
                        end,
                        steps as int,
                        k,
                        noise[k],
                        #[trigger] path[k],
                    ),
            decreases steps + 1 - i,
        {
            let draw: StepDraw = draw_step(&mut rng);
            let point: (i64, i64, u64) = plot(
                start,
                end,
                length,
                steps as u32,
                i as u32,
                noise[i],
                draw,
            );
            assert(is_path_point(start, end, steps as int, i as int, noise[i as int], point));
            path.push(point);
            i = i + 1;
        }
        proof {
            law_trajectory_ends_near(start, end, steps as int, noise@, path@);
        }
        path
    }
}

impl Default for DiffusionMousePath {
    fn default() -> (generator: DiffusionMousePath) {
        DiffusionMousePath::new()
    }
}

} // verus!
