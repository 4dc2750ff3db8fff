//! The rolling pool of pipe pairs and the random walk of their gaps.
//!
//! Two pipe pairs scroll to the left at a constant speed. A pair that has
//! passed the left bound is put back at the right bound with a fresh gap
//! centre. Each gap centre is drawn from a band around the previous one,
//! cut off at the playable height, and rounded to a whole pixel.

use vstd::prelude::*;
use crate::rng::random_bits;
use crate::units::{
    higher,
    is_rounding,
    lemma_round_half_away_nearest,
    lower,
    round_div,
    round_half_away,
    UNIT,
};
use crate::SCREEN_MID;

verus! {

/// Number of pipe pairs in the pool.
pub const PIPE_COUNT: usize = 2;

/// Scrolling speed, in whole pixels per second.
pub const PIPE_SPEED: i64 = 80;

/// Where a recycled pair reappears.
pub const PIPE_START_X: i64 = 210_000_000;

/// Left bound: a pair that has scrolled past it is recycled.
pub const PIPE_END_X: i64 = -30_000_000;

/// Height of the opening between the two pipes of a pair.
pub const PIPE_GAP: i64 = 70_000_000;

/// Horizontal distance between the pairs at the start of an episode.
pub const PIPE_SPACING: i64 = 120_000_000;

/// Horizontal position of the first pair at the start of an episode.
pub const PIPE_INIT_X: i64 = 200_000_000;

/// Half-width of the band around the last gap centre from which the next
/// one is drawn.
pub const PIPE_Y_RAND_RANGE: i64 = 60_000_000;

/// Lowest gap centre allowed: three quarters of a gap above the ground.
pub const PIPE_Y_MIN: i64 = 116_500_000;

/// Highest gap centre allowed: three quarters of a gap below the top.
pub const PIPE_Y_MAX: i64 = 267_500_000;

/// Lowest gap centre that the walk reaches from the screen midpoint.
pub const PIPE_Y_LOWEST: i64 = 117_000_000;

/// Highest gap centre that the walk reaches from the screen midpoint.
pub const PIPE_Y_HIGHEST: i64 = 267_000_000;

/// Number of values a random draw can take; a draw `d` stands for the
/// fraction `d / DRAW_RANGE` in the half-open interval from 0 to 1.
pub const DRAW_RANGE: i64 = 0x1_0000_0000;

/// `DRAW_RANGE` times `UNIT`: what one whole pixel weighs once a length has
/// been multiplied by `DRAW_RANGE`.
pub const DRAW_SCALE: i64 = 4_294_967_296_000_000;

/// The score and the state of the random walk of the gaps.
#[derive(Clone, Copy, Debug, PartialEq, Eq, Structural)]
pub struct GameData {
    /// Number of gaps passed in this episode.
    pub score: u16,
    /// Centre of the gap generated last; the next one is drawn around it.
    pub last_pipe_y: i64,
}

/// One recyclable obstacle: two pipes with a gap between them.
#[derive(Clone, Copy, Debug, PartialEq, Eq, Structural)]
pub struct PipePair {
    /// Horizontal position.
    pub x: i64,
    /// Height of the centre of the gap.
    pub y: i64,
}

/// Lower end of the band from which the gap after `last` is drawn.
pub open spec fn range_min(last: int) -> int {
    higher(last - PIPE_Y_RAND_RANGE, PIPE_Y_MIN as int)
}

/// Upper end of the band from which the gap after `last` is drawn.
pub open spec fn range_max(last: int) -> int {
    lower(last + PIPE_Y_RAND_RANGE, PIPE_Y_MAX as int)
}

/// The point the fraction `draw / DRAW_RANGE` of the way from `range_min`
/// to `range_max`, multiplied by `DRAW_RANGE`.
pub open spec fn gap_target(last: int, draw: int) -> int {
    range_min(last) * DRAW_RANGE + (range_max(last) - range_min(last)) * draw
}

/// The gap centre that follows `last` when the random draw is `draw`: the
/// point the fraction `draw / DRAW_RANGE` of the way from `range_min` to
/// `range_max`, rounded to the nearest whole pixel, a tie away from zero.
pub open spec fn next_gap(last: int, draw: int) -> int {
    round_half_away(gap_target(last, draw), DRAW_SCALE as int) * UNIT
}

/// `next` is a gap centre that some draw produces after `last`.
pub open spec fn gap_follows(last: int, next: int) -> bool {
    exists|draw: int| 0 <= draw < DRAW_RANGE && next == #[trigger] next_gap(last, draw)
}

/// A gap centre on a whole pixel within the heights that the walk reaches.
pub open spec fn settled(y: int) -> bool {
    PIPE_Y_LOWEST <= y <= PIPE_Y_HIGHEST && y % (UNIT as int) == 0
}

/// Position of a pair after scrolling for `dt` microseconds.
pub open spec fn advanced_x(x: int, dt: int) -> int {
    x - PIPE_SPEED * dt
}

/// Whether a pair at `x` is past the left bound.
pub open spec fn past_left_bound(x: int) -> bool {
    x < PIPE_END_X
}

/// Horizontal slot of pair number `i` at the start of an episode.
pub open spec fn slot_x(i: int) -> int {
    PIPE_INIT_X + i * PIPE_SPACING
}

/// What scrolling does to one pair, `last` being the gap centre generated
/// last before it was handled and `last_after` the one after.
pub open spec fn pair_scrolled(
    before: PipePair,
    last: int,
    dt: int,
    after: PipePair,
    last_after: int,
) -> bool {
    if past_left_bound(advanced_x(before.x as int, dt)) {
        &&& after.x == PIPE_START_X
        &&& gap_follows(last, after.y as int)
        &&& last_after == after.y
    } else {
        &&& after.x == advanced_x(before.x as int, dt)
        &&& after.y == before.y
        &&& last_after == last
    }
}

/// The gap centre generated last when the first `i` pairs have been
/// scrolled: that of the nearest recycled pair among them, or `last` if
/// none of them was recycled.
pub open spec fn last_before(
    before: Seq<PipePair>,
    after: Seq<PipePair>,
    last: int,
    dt: int,
    i: int,
) -> int
    decreases i,
{
    if i <= 0 {
        last
    } else if past_left_bound(advanced_x(before[i - 1].x as int, dt)) {
        after[i - 1].y as int
    } else {
        last_before(before, after, last, dt, i - 1)
    }
}

/// What scrolling for `dt` microseconds does to the pool: the pairs are
/// handled in order, each as `pair_scrolled` says, and every fresh gap is
/// drawn around the one generated before it.
pub open spec fn pipes_scrolled(
    before: Seq<PipePair>,
    last: int,
    dt: int,
    after: Seq<PipePair>,
    last_after: int,
) -> bool {
    &&& after.len() == before.len()
    &&& forall|i: int|
        0 <= i < before.len() ==> pair_scrolled(
            #[trigger] before[i],
            last_before(before, after, last, dt, i),
            dt,
            after[i],
            last_before(before, after, last, dt, i + 1),
        )
    &&& last_after == last_before(before, after, last, dt, before.len() as int)
}

/// The gap centre around which pair number `i` of a fresh layout is drawn:
/// the screen midpoint for the first, the gap of its predecessor for the
/// others.
pub open spec fn seed_before(after: Seq<PipePair>, i: int) -> int {
    if i <= 0 {
        SCREEN_MID as int
    } else {
        after[i - 1].y as int
    }
}

/// A fresh layout: every pair in its slot, the gaps a walk that starts at
/// the screen midpoint, and `last_after` the end of that walk.
pub open spec fn pipes_reset(after: Seq<PipePair>, last_after: int) -> bool {
    &&& forall|i: int|
        0 <= i < after.len() ==> {
            &&& (#[trigger] after[i]).x == slot_x(i)
            &&& gap_follows(seed_before(after, i), after[i].y as int)
        }
    &&& last_after == seed_before(after, after.len() as int)
}

/// Every pair stands between the left bound and the farthest slot, with a
/// settled gap.
pub open spec fn pipes_in_place(pipes: Seq<PipePair>) -> bool {
    forall|i: int|
        0 <= i < pipes.len() ==> {
            &&& PIPE_END_X <= (#[trigger] pipes[i]).x <= higher(
                slot_x(pipes.len() - 1),
                PIPE_START_X as int,
            )
            &&& settled(pipes[i].y as int)
        }
}

/// The weighted point from which a gap is rounded lies between the two ends
/// of its band, whichever of them is the larger.
proof fn lemma_target_between(lo: int, hi: int, draw: int)
    requires
        0 <= draw < DRAW_RANGE,
    ensures
        lower(lo, hi) * DRAW_RANGE <= lo * DRAW_RANGE + (hi - lo) * draw <= higher(lo, hi)
            * DRAW_RANGE,
        lo < hi ==> lo * DRAW_RANGE + (hi - lo) * draw < hi * DRAW_RANGE,
{
    let span = hi - lo;
    let r = DRAW_RANGE as int;
    if span >= 0 {
        assert(0 <= span * draw <= span * r) by (nonlinear_arith)
            requires
                span >= 0,
                0 <= draw < r,
        ;
        if span > 0 {
            assert(span * draw < span * r) by (nonlinear_arith)
                requires
                    span > 0,
                    0 <= draw < r,
            ;
        }
    } else {
        assert(span * r <= span * draw <= 0) by (nonlinear_arith)
            requires
                span < 0,
                0 <= draw < r,
        ;
    }
    assert(span * r == hi * r - lo * r) by (nonlinear_arith)
        requires
            span == hi - lo,
    ;
}

/// A generated gap centre is a whole number of pixels and lies no more than
/// half a pixel outside the band it was drawn from.
pub proof fn lemma_next_gap_in_band(last: int, draw: int)
    requires
        0 <= draw < DRAW_RANGE,
    ensures
        next_gap(last, draw) % (UNIT as int) == 0,
        2 * next_gap(last, draw) >= 2 * lower(range_min(last), range_max(last)) - UNIT,
        2 * next_gap(last, draw) <= 2 * higher(range_min(last), range_max(last)) + UNIT,
{
    let lo = range_min(last);
    let hi = range_max(last);
    let target = lo * DRAW_RANGE + (hi - lo) * draw;
    lemma_target_between(lo, hi, draw);
    lemma_round_half_away_nearest(target, DRAW_SCALE as int);
}

/// The walk of the gaps never leaves the settled heights, and one step of
/// it moves the gap centre by no more than the half-width of the band.
pub proof fn lemma_next_gap_settled(last: int, draw: int)
    requires
        settled(last),
        0 <= draw < DRAW_RANGE,
    ensures
        settled(next_gap(last, draw)),
        last - PIPE_Y_RAND_RANGE <= next_gap(last, draw) <= last + PIPE_Y_RAND_RANGE,
{
    let lo = range_min(last);
    let hi = range_max(last);
    let target = lo * DRAW_RANGE + (hi - lo) * draw;
    lemma_target_between(lo, hi, draw);
    lemma_round_half_away_nearest(target, DRAW_SCALE as int);
    let q = round_half_away(target, DRAW_SCALE as int);
    let k = last / (UNIT as int);
    assert(last == k * UNIT);
    assert(lo < hi);
    assert(target >= 0);
}

/// `gap_follows` keeps the walk settled, and within the band.
pub proof fn lemma_gap_follows_settled(last: int, next: int)
    requires
        settled(last),
        gap_follows(last, next),
    ensures
        settled(next),
        last - PIPE_Y_RAND_RANGE <= next <= last + PIPE_Y_RAND_RANGE,
{
    let draw = choose|draw: int| 0 <= draw < DRAW_RANGE && next == #[trigger] next_gap(last, draw);
    lemma_next_gap_settled(last, draw);
}

/// The same last gap centre and the same draw give the same next gap
/// centre, whatever else the two sessions hold.
pub proof fn lemma_next_gap_deterministic(a: GameData, b: GameData, draw_a: u32, draw_b: u32)
    requires
        a.last_pipe_y == b.last_pipe_y,
        draw_a == draw_b,
    ensures
        next_gap(a.last_pipe_y as int, draw_a as int) == next_gap(
            b.last_pipe_y as int,
            draw_b as int,
        ),
{
}

/// The gap centre before pair `i` depends on the pairs before `i` alone.
proof fn lemma_last_before_prefix(
    before: Seq<PipePair>,
    a1: Seq<PipePair>,
    a2: Seq<PipePair>,
    last: int,
    dt: int,
    i: int,
)
    requires
        forall|j: int| 0 <= j < i ==> a1[j] == a2[j],
    ensures
        last_before(before, a1, last, dt, i) == last_before(before, a2, last, dt, i),
    decreases i,
{
    if i > 0 {
        lemma_last_before_prefix(before, a1, a2, last, dt, i - 1);
    }
}

/// The constants of the walk are in order: the band is not inverted, it
/// cannot be inverted at a settled gap, and the walk starts at a settled
/// height.
pub proof fn lemma_configuration_in_range()
    ensures
        PIPE_Y_MIN <= PIPE_Y_MAX,
        PIPE_Y_MIN == crate::GROUND_TOP + 3 * PIPE_GAP / 4,
        PIPE_Y_MAX == crate::GAME_HEIGHT - 3 * PIPE_GAP / 4,
        PIPE_END_X < PIPE_START_X,
        DRAW_SCALE == DRAW_RANGE * UNIT,
        settled(SCREEN_MID as int),
        forall|y: int| settled(y) ==> range_min(y) < range_max(y),
{
}

/// A fresh layout stands in place, and its walk ends at a settled height.
pub proof fn lemma_reset_in_place(after: Seq<PipePair>, last_after: int)
    requires
        pipes_reset(after, last_after),
    ensures
        pipes_in_place(after),
        settled(last_after),
{
    assert forall|i: int| 0 <= i < after.len() implies settled((#[trigger] after[i]).y as int)
        && PIPE_END_X <= after[i].x <= higher(slot_x(after.len() - 1), PIPE_START_X as int) by {
        lemma_reset_settled_upto(after, i);
        assert(i * PIPE_SPACING <= (after.len() - 1) * PIPE_SPACING) by (nonlinear_arith)
            requires
                0 <= i <= after.len() - 1,
                PIPE_SPACING >= 0,
        ;
        assert(0 <= i * PIPE_SPACING) by (nonlinear_arith)
            requires
                0 <= i,
                PIPE_SPACING >= 0,
        ;
    }
    if after.len() > 0 {
        lemma_reset_settled_upto(after, after.len() - 1);
    }
}

/// In a fresh layout the gap of pair `i` is settled, as are those before.
proof fn lemma_reset_settled_upto(after: Seq<PipePair>, i: int)
    requires
        0 <= i < after.len(),
        forall|j: int|
            0 <= j < after.len() ==> gap_follows(
                seed_before(after, j),
                (#[trigger] after[j]).y as int,
            ),
    ensures
        settled(after[i].y as int),
    decreases i,
{
    if i > 0 {
        lemma_reset_settled_upto(after, i - 1);
    }
    lemma_gap_follows_settled(seed_before(after, i), after[i].y as int);
}

/// Scrolling keeps the pool in place: a pair that stays keeps its gap and
/// moves left no farther than the bound, and a recycled pair reappears at
/// the right with one step of the walk from a settled gap.
pub proof fn lemma_scrolled_in_place(
    before: Seq<PipePair>,
    last: int,
    dt: int,
    after: Seq<PipePair>,
    last_after: int,
)
    requires
        0 <= dt,
        pipes_scrolled(before, last, dt, after, last_after),
        settled(last),
        pipes_in_place(before),
    ensures
        settled(last_after),
        pipes_in_place(after),
{
    assert forall|i: int| 0 <= i < after.len() implies settled((#[trigger] after[i]).y as int)
        && PIPE_END_X <= after[i].x <= higher(slot_x(after.len() - 1), PIPE_START_X as int) by {
        lemma_scrolled_settled_upto(before, last, dt, after, i + 1);
        assert(pair_scrolled(
            before[i],
            last_before(before, after, last, dt, i),
            dt,
            after[i],
            last_before(before, after, last, dt, i + 1),
        ));
        assert(PIPE_SPEED * dt >= 0);
    }
    lemma_scrolled_settled_upto(before, last, dt, after, before.len() as int);
}

/// After the first `n` pairs have been scrolled, the gap generated last is
/// settled, and so are the gaps of those pairs.
proof fn lemma_scrolled_settled_upto(
    before: Seq<PipePair>,
    last: int,
    dt: int,
    after: Seq<PipePair>,
    n: int,
)
    requires
        0 <= n <= before.len(),
        after.len() == before.len(),
        settled(last),
        forall|i: int| 0 <= i < before.len() ==> settled((#[trigger] before[i]).y as int),
        forall|i: int|
            0 <= i < before.len() ==> pair_scrolled(
                #[trigger] before[i],
                last_before(before, after, last, dt, i),
                dt,
                after[i],
                last_before(before, after, last, dt, i + 1),
            ),
    ensures
        settled(last_before(before, after, last, dt, n)),
        n > 0 ==> settled(after[n - 1].y as int),
    decreases n,
{
    if n > 0 {
        lemma_scrolled_settled_upto(before, last, dt, after, n - 1);
        let i = n - 1;
        assert(pair_scrolled(
            before[i],
            last_before(before, after, last, dt, i),
            dt,
            after[i],
            last_before(before, after, last, dt, i + 1),
        ));
        if past_left_bound(advanced_x(before[i].x as int, dt)) {
            lemma_gap_follows_settled(last_before(before, after, last, dt, i), after[i].y as int);
        }
    }
}

/// Computes the gap centre that follows `last` for the random draw `draw`.
pub fn generate_next_gap(last: i64, draw: u32) -> (next: i64)
    ensures
        next == next_gap(last as int, draw as int),
        next % UNIT == 0,
        is_rounding(gap_target(last as int, draw as int), DRAW_SCALE as int, next as int / UNIT as int),
{
    let below: i128 = last as i128 - PIPE_Y_RAND_RANGE as i128;
    let above: i128 = last as i128 + PIPE_Y_RAND_RANGE as i128;
    let lo: i128 = if below >= PIPE_Y_MIN as i128 {
        below
    } else {
        PIPE_Y_MIN as i128
    };
    let hi: i128 = if above <= PIPE_Y_MAX as i128 {
        above
    } else {
        PIPE_Y_MAX as i128
    };
    let span: i128 = hi - lo;
    proof {
        assert(lo == range_min(last as int));
        assert(hi == range_max(last as int));
        lemma_target_between(lo as int, hi as int, draw as int);
        assert(-0x8000_0000_0000_0000 * DRAW_RANGE <= lower(lo as int, hi as int) * DRAW_RANGE);
        assert(higher(lo as int, hi as int) * DRAW_RANGE <= 0x8000_0000_0000_0000 * DRAW_RANGE);
        assert(-0x1_0000_0000_0000_0000 * DRAW_RANGE <= span * draw <= 0x1_0000_0000_0000_0000
            * DRAW_RANGE) by (nonlinear_arith)
            requires
                -0x1_0000_0000_0000_0000 <= span <= 0x1_0000_0000_0000_0000,
                0 <= draw < DRAW_RANGE,
        ;
        lemma_next_gap_in_band(last as int, draw as int);
    }
    let target: i128 = lo * (DRAW_RANGE as i128) + span * (draw as i128);
    let pixels: i128 = round_div(target, DRAW_SCALE as i128);
    proof {
        lemma_round_half_away_nearest(target as int, DRAW_SCALE as int);
    }
    (pixels * (UNIT as i128)) as i64
}

impl GameData {
    /// Draws the next gap centre around the last one and remembers it.
    pub fn gen_random_pipe_y(&mut self) -> (y: i64)
        ensures
            gap_follows(old(self).last_pipe_y as int, y as int),
            final(self).last_pipe_y == y,
            final(self).score == old(self).score,
    {
        let draw = random_bits();
        let y = generate_next_gap(self.last_pipe_y, draw);
        assert(y == next_gap(old(self).last_pipe_y as int, draw as int));
        self.last_pipe_y = y;
        y
    }
}

impl PipePair {
    /// Puts the pair back at the right bound with a fresh gap.
    pub fn recycle(&mut self, data: &mut GameData)
        ensures
            final(self).x == PIPE_START_X,
            gap_follows(old(data).last_pipe_y as int, final(self).y as int),
            final(data).last_pipe_y == final(self).y,
            final(data).score == old(data).score,
    {
        self.x = PIPE_START_X;
        self.y = data.gen_random_pipe_y();
    }

    /// Recycles the pair if it is past the left bound, and leaves it and
    /// the walk of the gaps alone if it is not.
    pub fn recycle_if_needed(&mut self, data: &mut GameData)
        ensures
            past_left_bound(old(self).x as int) ==> {
                &&& final(self).x == PIPE_START_X
                &&& gap_follows(old(data).last_pipe_y as int, final(self).y as int)
                &&& final(data).last_pipe_y == final(self).y
            },
            !past_left_bound(old(self).x as int) ==> *final(self) == *old(self) && *final(data)
                == *old(data),
            final(data).score == old(data).score,
    {
        if self.x < PIPE_END_X {
            self.recycle(data);
        }
    }

    /// Moves the pair to the left for `dt` microseconds.
    pub fn advance(&mut self, dt: u32)
        requires
            advanced_x(old(self).x as int, dt as int) >= i64::MIN,
        ensures
            final(self).x == advanced_x(old(self).x as int, dt as int),
            final(self).y == old(self).y,
    {
        self.x = self.x - PIPE_SPEED * (dt as i64);
    }

    /// Scrolls the pair for `dt` microseconds and recycles it if that took
    /// it past the left bound.
    pub fn scroll(&mut self, dt: u32, data: &mut GameData)
        ensures
            pair_scrolled(
                *old(self),
                old(data).last_pipe_y as int,
                dt as int,
                *final(self),
                final(data).last_pipe_y as int,
            ),
            final(data).score == old(data).score,
    {
        let step: i64 = PIPE_SPEED * (dt as i64);
        if self.x >= i64::MIN + step {
            self.advance(dt);
            self.recycle_if_needed(data);
        } else {
            self.recycle(data);
        }
    }
}

/// Creates pair number `pipe_index` of the pool, off screen, with a gap
/// drawn around the last one.
pub fn spawn_pipe(data: &mut GameData, pipe_index: u8) -> (pair: PipePair)
    ensures
        pair.x == PIPE_INIT_X * pipe_index,
        gap_follows(old(data).last_pipe_y as int, pair.y as int),
        final(data).last_pipe_y == pair.y,
        final(data).score == old(data).score,
{
    let y = data.gen_random_pipe_y();
    PipePair { x: PIPE_INIT_X * (pipe_index as i64), y }
}

/// Scrolls every pair of the pool for `dt` microseconds, in order, and
/// recycles those that went past the left bound.
pub fn pipe_movement(pipes: &mut [PipePair; PIPE_COUNT], data: &mut GameData, dt: u32)
    ensures
        pipes_scrolled(
            old(pipes)@,
            old(data).last_pipe_y as int,
            dt as int,
            final(pipes)@,
            final(data).last_pipe_y as int,
        ),
        final(data).score == old(data).score,
{
    let ghost before = pipes@;
    let ghost last = data.last_pipe_y as int;
    let mut i: usize = 0;
    while i < PIPE_COUNT
        invariant
            i <= PIPE_COUNT,
            before == old(pipes)@,
            last == old(data).last_pipe_y,
            pipes@.len() == before.len() == PIPE_COUNT,
            data.score == old(data).score,
            data.last_pipe_y == last_before(before, pipes@, last, dt as int, i as int),
            forall|j: int| i <= j < PIPE_COUNT ==> pipes@[j] == before[j],
            forall|j: int|
                0 <= j < i ==> pair_scrolled(
                    #[trigger] before[j],
                    last_before(before, pipes@, last, dt as int, j),
                    dt as int,
                    pipes@[j],
                    last_before(before, pipes@, last, dt as int, j + 1),
                ),
        decreases PIPE_COUNT - i,
    {
        let ghost current = pipes@;
        let mut pair = pipes[i];
        pair.scroll(dt, data);
        pipes[i] = pair;
        proof {
            assert forall|j: int| 0 <= j <= i implies last_before(
                before,
                pipes@,
                last,
                dt as int,
                j,
            ) == last_before(before, current, last, dt as int, j) by {
                lemma_last_before_prefix(before, pipes@, current, last, dt as int, j);
            }
        }
        i = i + 1;
    }
}

/// Puts every pair back in its slot and draws fresh gaps, in order, in a
/// walk that starts again at the screen midpoint.
pub fn reset_pipes(pipes: &mut [PipePair; PIPE_COUNT], data: &mut GameData)
    ensures
        pipes_reset(final(pipes)@, final(data).last_pipe_y as int),
        final(data).score == old(data).score,
{
    data.last_pipe_y = SCREEN_MID;
    let mut i: usize = 0;
    while i < PIPE_COUNT
        invariant
            i <= PIPE_COUNT,
            pipes@.len() == PIPE_COUNT,
            data.score == old(data).score,
            data.last_pipe_y == seed_before(pipes@, i as int),
            forall|j: int|
                0 <= j < i ==> {
                    &&& (#[trigger] pipes@[j]).x == slot_x(j)
                    &&& gap_follows(seed_before(pipes@, j), pipes@[j].y as int)
                },
        decreases PIPE_COUNT - i,
    {
        let y = data.gen_random_pipe_y();
        pipes[i] = PipePair { x: PIPE_INIT_X + (i as i64) * PIPE_SPACING, y };
        i = i + 1;
    }
}

} // verus!
