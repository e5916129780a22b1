//! Sensing, movement, predation and the energy economy.
//!
//! An acting agent scans a diamond-shaped detection window around its
//! cell, accumulates one signed reward per cardinal direction from every
//! sensed entity, blocks directions whose destination already holds a
//! same-species agent, and then follows the best-scoring direction — or
//! stays in place when even the best score is negative.

use vstd::prelude::*;
use vstd::pervasive::unreached;
use vstd::arithmetic::div_mod::lemma_div_nonincreasing;
use vstd::arithmetic::div_mod::lemma_div_pos_is_pos;

use crate::genome::{Genome, GeneView, genome_wf, sat_add_spec_gv, evolves_from};
use crate::genome::{EVAL_CAP, TRAIT_CAP};
use crate::world::Grid;
use crate::rng::rng_range_i64;
use rand::rngs::ThreadRng;

verus! {

/// Generous headroom for a direction accumulator: callers keep scores
/// far inside this bound, so adding one more contribution can never
/// overflow an `i128`.
pub const SCORE_ROOM: i128 = 1_267_650_600_228_229_401_496_703_205_376;

/// Even wider headroom used by the per-entity accumulation step.
pub const DIST_ROOM: i128 = 1_298_074_214_633_706_907_132_624_082_305_024;

/// The four cardinal directions.
#[derive(Debug, Clone, Copy, PartialEq, Eq, Structural)]
pub enum Direction {
    Left,
    Right,
    Up,
    Down,
}

/// The unit vector of direction number `i` (left, right, up, down).
pub open spec fn dir_vec(i: int) -> (i32, i32) {
    if i == 0 {
        (-1i32, 0i32)
    } else if i == 1 {
        (1i32, 0i32)
    } else if i == 2 {
        (0i32, -1i32)
    } else {
        (0i32, 1i32)
    }
}

impl Direction {
    /// The unit displacement of this direction.
    pub fn dir(&self) -> (r: (i32, i32))
        ensures
            r == dir_vec(self.ord_spec()),
    {
        match self {
            Direction::Left => (-1, 0),
            Direction::Right => (1, 0),
            Direction::Up => (0, -1),
            Direction::Down => (0, 1),
        }
    }

    /// The index of this direction.
    pub open spec fn ord_spec(self) -> int {
        match self {
            Direction::Left => 0,
            Direction::Right => 1,
            Direction::Up => 2,
            Direction::Down => 3,
        }
    }

    /// The index of this direction, as used by the score accumulators.
    pub fn ord(&self) -> (r: usize)
        ensures
            r == self.ord_spec(),
    {
        match self {
            Direction::Left => 0,
            Direction::Right => 1,
            Direction::Up => 2,
            Direction::Down => 3,
        }
    }

    /// The direction with index `num`.
    pub fn get(num: usize) -> (r: Direction)
        requires
            num < 4,
        ensures
            r.ord_spec() == num,
    {
        if num == 0 {
            Direction::Left
        } else if num == 1 {
            Direction::Right
        } else if num == 2 {
            Direction::Up
        } else {
            Direction::Down
        }
    }
}

/// Componentwise wrapping addition of two positions.
pub open spec fn wrap_add_pos(a: (i32, i32), b: (i32, i32)) -> (i32, i32) {
    (
        vstd::wrapping::i32_specs::wrapping_add(a.0, b.0),
        vstd::wrapping::i32_specs::wrapping_add(a.1, b.1),
    )
}

/// Componentwise wrapping addition, the engine's position displacement.
pub fn add_2x_tupel(a: (i32, i32), b: (i32, i32)) -> (r: (i32, i32))
    ensures
        r == wrap_add_pos(a, b),
{
    (a.0.wrapping_add(b.0), a.1.wrapping_add(b.1))
}

/// Truncating (toward zero) division of `w` by a positive `d`.
pub open spec fn div_trunc(w: int, d: int) -> int
    recommends
        d > 0,
{
    if w >= 0 {
        w / d
    } else {
        -((-w) / d)
    }
}

/// The reward contributed by an entity at `b` to the direction `dir` of
/// an agent at `a`: the full eval weight when the shifted cell meets the
/// entity, otherwise the eval weight divided by the taxicab distance.
pub open spec fn spec_reward(dir: (i32, i32), a: (i32, i32), b: (i32, i32), reward: int) -> int {
    let cx = a.0 + dir.0;
    let cy = a.1 + dir.1;
    let x = if cx > b.0 { cx - b.0 } else { b.0 - cx };
    let y = if cy > b.1 { cy - b.1 } else { b.1 - cy };
    if x + y == 0 {
        reward
    } else {
        div_trunc(reward, x + y)
    }
}

/// The magnitude of a contribution never exceeds the eval weight's.
proof fn lemma_reward_bound(dir: (i32, i32), a: (i32, i32), b: (i32, i32), reward: int)
    ensures
        reward >= 0 ==> 0 <= spec_reward(dir, a, b, reward) <= reward,
        reward < 0 ==> reward <= spec_reward(dir, a, b, reward) <= 0,
{
    let cx = a.0 + dir.0;
    let cy = a.1 + dir.1;
    let x = if cx > b.0 { cx - b.0 } else { b.0 - cx };
    let y = if cy > b.1 { cy - b.1 } else { b.1 - cy };
    let d = x + y;
    if d != 0 {
        if reward >= 0 {
            lemma_div_nonincreasing(reward, d);
            lemma_div_pos_is_pos(reward, d);
        } else {
            lemma_div_nonincreasing(-reward, d);
            lemma_div_pos_is_pos(-reward, d);
        }
    }
}

/// `calculate_reward` for executable positions and an `i32` eval weight.
pub fn calculate_reward(dir: &(i32, i32), a: &(i32, i32), b: &(i32, i32), reward: i32) -> (r: i32)
    ensures
        r as int == spec_reward(*dir, *a, *b, reward as int),
{
    proof {
        lemma_reward_bound(*dir, *a, *b, reward as int);
    }
    let cx: i64 = a.0 as i64 + dir.0 as i64;
    let cy: i64 = a.1 as i64 + dir.1 as i64;
    let x: u64 = if cx > b.0 as i64 {
        (cx - b.0 as i64) as u64
    } else {
        (b.0 as i64 - cx) as u64
    };
    let y: u64 = if cy > b.1 as i64 {
        (cy - b.1 as i64) as u64
    } else {
        (b.1 as i64 - cy) as u64
    };
    let d: u64 = x + y;
    if d == 0 {
        return reward;
    }
    let m: u64 = if reward >= 0 {
        reward as u64
    } else {
        (-(reward as i64)) as u64
    };
    let q: u64 = m / d;
    if reward >= 0 {
        q as i32
    } else if q == 2147483648 {
        i32::MIN
    } else {
        -(q as i32)
    }
}

/// The eval weight of `g` selected by `num` (meaningful for 1, 2, 3).
pub open spec fn eval_of(g: GeneView, num: u8) -> int {
    if num == 1 {
        g.eval1
    } else if num == 2 {
        g.eval2
    } else {
        g.eval3
    }
}

/// One accumulated reward per cardinal direction.
#[derive(Debug, Clone, Copy)]
pub struct DirScores {
    pub left: i128,
    pub right: i128,
    pub up: i128,
    pub down: i128,
}

impl DirScores {
    /// The accumulator of direction number `i`.
    pub open spec fn at(self, i: int) -> int {
        if i == 0 {
            self.left as int
        } else if i == 1 {
            self.right as int
        } else if i == 2 {
            self.up as int
        } else {
            self.down as int
        }
    }

    /// A zeroed accumulator.
    pub fn zero() -> (r: Self)
        ensures
            forall|d: int| 0 <= d < 4 ==> r.at(d) == 0,
    {
        DirScores { left: 0, right: 0, up: 0, down: 0 }
    }

    /// Read the accumulator of direction `i`.
    pub fn get_score(&self, i: usize) -> (r: i128)
        requires
            i < 4,
        ensures
            r as int == self.at(i as int),
    {
        if i == 0 {
            self.left
        } else if i == 1 {
            self.right
        } else if i == 2 {
            self.up
        } else {
            self.down
        }
    }

    /// Overwrite the accumulator of direction `i`.
    pub fn set_score(&mut self, i: usize, v: i128)
        requires
            i < 4,
        ensures
            final(self).at(i as int) == v as int,
            forall|d: int| 0 <= d < 4 && d != i as int ==> final(self).at(d) == old(self).at(d),
    {
        if i == 0 {
            self.left = v;
        } else if i == 1 {
            self.right = v;
        } else if i == 2 {
            self.up = v;
        } else {
            self.down = v;
        }
    }
}

/// Add the rewards of one sensed entity at `xy` into all four direction
/// accumulators of the agent at `g`, using eval weight number `num` of
/// the acting genome `current`.
pub fn calculate_distance_reward<T: Genome>(
    current: &T,
    g: &(i32, i32),
    xy: &(i32, i32),
    directions: &mut DirScores,
    num: u8,
)
    requires
        1 <= num <= 3,
        genome_wf(current.gv()),
        forall|d: int| 0 <= d < 4 ==> -DIST_ROOM <= #[trigger] old(directions).at(d) <= DIST_ROOM,
    ensures
        forall|d: int| 0 <= d < 4 ==> #[trigger] final(directions).at(d) == old(directions).at(d)
            + spec_reward(dir_vec(d), *g, *xy, eval_of(current.gv(), num)),
{
    let w = match current.get_eval(num) {
        Ok(w) => w,
        Err(_) => unreached(),
    };
    let w32: i32 = w as i32;
    proof {
        lemma_reward_bound(dir_vec(0), *g, *xy, w as int);
        lemma_reward_bound(dir_vec(1), *g, *xy, w as int);
        lemma_reward_bound(dir_vec(2), *g, *xy, w as int);
        lemma_reward_bound(dir_vec(3), *g, *xy, w as int);
        assert(old(directions).at(0) == old(directions).left as int);
        assert(old(directions).at(1) == old(directions).right as int);
        assert(old(directions).at(2) == old(directions).up as int);
        assert(old(directions).at(3) == old(directions).down as int);
    }
    let c0 = calculate_reward(&(-1, 0), g, xy, w32);
    directions.left = directions.left + c0 as i128;
    let c1 = calculate_reward(&(1, 0), g, xy, w32);
    directions.right = directions.right + c1 as i128;
    let c2 = calculate_reward(&(0, -1), g, xy, w32);
    directions.up = directions.up + c2 as i128;
    let c3 = calculate_reward(&(0, 1), g, xy, w32);
    directions.down = directions.down + c3 as i128;
}

/// Whether the entity at `e` lies in the detection window of radius `r`
/// around `h`: both offsets in `[-r, r)` and their plain (signed) sum at
/// most `r` — the window is intentionally asymmetric.
pub open spec fn in_window(h: (i32, i32), e: (i32, i32), r: int) -> bool {
    let dx = e.0 - h.0;
    let dy = e.1 - h.1;
    &&& -r <= dx < r
    &&& -r <= dy < r
    &&& dx + dy <= r
}

/// The reward an entity at `p` adds to direction `d` of the agent at
/// `h`: zero when it is outside the window, or excluded as the agent's
/// own cell.
pub open spec fn entity_contrib(
    p: (i32, i32),
    h: (i32, i32),
    r: int,
    d: int,
    w: int,
    excl: bool,
) -> int {
    if in_window(h, p, r) && !(excl && p == h) {
        spec_reward(dir_vec(d), h, p, w)
    } else {
        0
    }
}

/// The total reward a layer's entities add to direction `d`.
pub open spec fn sum_contribs(
    ps: Seq<(i32, i32)>,
    h: (i32, i32),
    r: int,
    d: int,
    w: int,
    excl: bool,
) -> int
    decreases ps.len(),
{
    if ps.len() == 0 {
        0
    } else {
        sum_contribs(ps.drop_last(), h, r, d, w, excl) + entity_contrib(ps.last(), h, r, d, w, excl)
    }
}

/// A layer of `n` entities contributes at most `n` times the eval
/// weight's magnitude.
pub proof fn lemma_sum_bound(ps: Seq<(i32, i32)>, h: (i32, i32), r: int, d: int, w: int, excl: bool)
    requires
        -EVAL_CAP <= w <= EVAL_CAP,
    ensures
        -(ps.len() as int) * (EVAL_CAP as int) <= sum_contribs(ps, h, r, d, w, excl)
            <= (ps.len() as int) * (EVAL_CAP as int),
    decreases ps.len(),
{
    if ps.len() > 0 {
        lemma_sum_bound(ps.drop_last(), h, r, d, w, excl);
        lemma_reward_bound(dir_vec(d), h, ps.last(), w);
    }
}

/// Accumulate the rewards of every entity of one layer that lies in the
/// detection window.
fn add_layer<V, T: Genome>(
    scores: &mut DirScores,
    layer: &Grid<V>,
    h: (i32, i32),
    r: i64,
    current: &T,
    num: u8,
    excl: bool,
)
    requires
        1 <= num <= 3,
        genome_wf(current.gv()),
        0 <= r <= 1_000_000,
        forall|d: int| 0 <= d < 4 ==> -SCORE_ROOM <= #[trigger] old(scores).at(d) <= SCORE_ROOM,
    ensures
        forall|d: int| 0 <= d < 4 ==> #[trigger] final(scores).at(d) == old(scores).at(d)
            + sum_contribs(layer.key_seq(), h, r as int, d, eval_of(current.gv(), num), excl),
{
    let ghost base = *scores;
    let ghost w_spec = eval_of(current.gv(), num);
    let n = layer.num_entries();
    for i in 0..n
        invariant
            1 <= num <= 3,
            genome_wf(current.gv()),
            0 <= r <= 1_000_000,
            -EVAL_CAP <= w_spec <= EVAL_CAP,
            w_spec == eval_of(current.gv(), num),
            n == layer.key_seq().len(),
            n <= usize::MAX,
            forall|d: int| 0 <= d < 4 ==> -SCORE_ROOM <= #[trigger] base.at(d) <= SCORE_ROOM,
            forall|d: int| 0 <= d < 4 ==> #[trigger] scores.at(d) == base.at(d)
                + sum_contribs(layer.key_seq().take(i as int), h, r as int, d, w_spec, excl),
    {
        let (pos, _occ) = layer.entry(i);
        proof {
            assert(layer.key_seq()[i as int] == pos);
            lemma_sum_bound(layer.key_seq().take(i as int), h, r as int, 0, w_spec, excl);
            lemma_sum_bound(layer.key_seq().take(i as int), h, r as int, 1, w_spec, excl);
            lemma_sum_bound(layer.key_seq().take(i as int), h, r as int, 2, w_spec, excl);
            lemma_sum_bound(layer.key_seq().take(i as int), h, r as int, 3, w_spec, excl);
            assert(layer.key_seq().take(i as int).len() == i as int);
        }
        let dx: i64 = pos.0 as i64 - h.0 as i64;
        let dy: i64 = pos.1 as i64 - h.1 as i64;
        let included = -r <= dx && dx < r && -r <= dy && dy < r && dx + dy <= r
            && !(excl && pos.0 == h.0 && pos.1 == h.1);
        proof {
            assert(in_window(h, pos, r as int) && !(excl && pos == h) <==> included);
        }
        if included {
            calculate_distance_reward(current, &h, &pos, scores, num);
        }
        proof {
            let ks = layer.key_seq();
            assert(ks.take(i as int + 1).drop_last() =~= ks.take(i as int));
            assert(ks.take(i as int + 1).last() == pos);
            assert forall|d: int| 0 <= d < 4 implies #[trigger] scores.at(d) == base.at(d)
                + sum_contribs(ks.take(i as int + 1), h, r as int, d, w_spec, excl) by {
                assert(sum_contribs(ks.take(i as int + 1), h, r as int, d, w_spec, excl)
                    == sum_contribs(ks.take(i as int), h, r as int, d, w_spec, excl)
                        + entity_contrib(pos, h, r as int, d, w_spec, excl));
            }
        }
    }
    proof {
        assert(layer.key_seq().take(n as int) =~= layer.key_seq());
    }
}

/// Rounding of a fixed-point trait to whole units (half rounds up).
pub open spec fn round_milli_spec(t: int) -> int {
    (t + 500) / 1000
}

/// Round a non-negative fixed-point value to whole units.
pub fn round_milli(t: i64) -> (r: i64)
    requires
        0 <= t <= TRAIT_CAP,
    ensures
        r == round_milli_spec(t as int),
        0 <= r <= 1_000_000,
{
    (((t as u64) + 500) / 1000) as i64
}

/// The score of direction `d` for a herbivore at `h`: carnivores are
/// weighed by eval weight 1, fellow herbivores (excluding the agent's
/// own cell) by eval weight 2, plants by eval weight 3.
pub open spec fn herbi_score<T: Genome, E: Genome>(
    d: int,
    h: (i32, i32),
    carni: Grid<E>,
    herbi: Grid<T>,
    plants: Grid<bool>,
) -> int {
    let gv = herbi@[h].gv();
    let r = round_milli_spec(gv.detection);
    sum_contribs(carni.key_seq(), h, r, d, gv.eval1, false)
        + sum_contribs(herbi.key_seq(), h, r, d, gv.eval2, true)
        + sum_contribs(plants.key_seq(), h, r, d, gv.eval3, false)
}

/// The guarded scores of a herbivore: a direction whose destination
/// already holds another herbivore is forced to the minimum value.
pub open spec fn guarded_herbi_scores<T: Genome, E: Genome>(
    h: (i32, i32),
    carni: Grid<E>,
    herbi: Grid<T>,
    plants: Grid<bool>,
) -> Seq<int> {
    Seq::new(
        4,
        |d: int|
            if herbi@.dom().contains(wrap_add_pos(h, dir_vec(d))) {
                i128::MIN as int
            } else {
                herbi_score(d, h, carni, herbi, plants)
            },
    )
}

/// The score of direction `d` for a carnivore at `h`: fellow carnivores
/// (excluding the agent's own cell) are weighed by eval weight 1,
/// herbivores by eval weight 2.
pub open spec fn carni_score<T: Genome, E: Genome>(
    d: int,
    h: (i32, i32),
    carni: Grid<E>,
    herbi: Grid<T>,
) -> int {
    let gv = carni@[h].gv();
    let r = round_milli_spec(gv.detection);
    sum_contribs(carni.key_seq(), h, r, d, gv.eval1, true)
        + sum_contribs(herbi.key_seq(), h, r, d, gv.eval2, false)
}

/// The guarded scores of a carnivore: a direction whose destination
/// already holds another carnivore is forced to the minimum value.
pub open spec fn guarded_carni_scores<T: Genome, E: Genome>(
    h: (i32, i32),
    carni: Grid<E>,
    herbi: Grid<T>,
) -> Seq<int> {
    Seq::new(
        4,
        |d: int|
            if carni@.dom().contains(wrap_add_pos(h, dir_vec(d))) {
                i128::MIN as int
            } else {
                carni_score(d, h, carni, herbi)
            },
    )
}

/// The direction index chosen from guarded scores `gs` with the random
/// initial candidate `rr`: a fixed-order scan replaces the candidate
/// whenever a strictly greater score is found.
pub open spec fn pick_dir(gs: Seq<int>, rr: int) -> int {
    let c0 = rr;
    let c1 = if gs[0] > gs[c0] { 0 } else { c0 };
    let c2 = if gs[1] > gs[c1] { 1 } else { c1 };
    let c3 = if gs[2] > gs[c2] { 2 } else { c2 };
    if gs[3] > gs[c3] { 3 } else { c3 }
}

/// The displacement that follows from guarded scores `gs` and the
/// random initial candidate `rr`: stay in place when the winning score
/// is negative, else the winning direction's unit vector.
pub open spec fn move_of(gs: Seq<int>, rr: int) -> (i32, i32) {
    let k = pick_dir(gs, rr);
    if gs[k] < 0 {
        (0, 0)
    } else {
        dir_vec(k)
    }
}

/// Choose, given the four guarded scores, the move of this sub-step.
fn select_move(scores: &DirScores, rng: &mut ThreadRng, Ghost(gs): Ghost<Seq<int>>) -> (mv: (i32, i32))
    requires
        gs.len() == 4,
        forall|d: int| 0 <= d < 4 ==> #[trigger] gs[d] == scores.at(d),
    ensures
        exists|rr: int| 0 <= rr < 4 && mv == move_of(gs, rr),
        mv == (0i32, 0i32) || (exists|k: int| 0 <= k < 4 && mv == dir_vec(k) && gs[k] >= 0),
{
    let rr = rng_range_i64(rng, 0, 4) as usize;
    let mut bi: usize = rr;
    let mut best: i128 = scores.get_score(rr);
    if scores.get_score(0) > best {
        best = scores.get_score(0);
        bi = 0;
    }
    if scores.get_score(1) > best {
        best = scores.get_score(1);
        bi = 1;
    }
    if scores.get_score(2) > best {
        best = scores.get_score(2);
        bi = 2;
    }
    if scores.get_score(3) > best {
        best = scores.get_score(3);
        bi = 3;
    }
    proof {
        assert(bi == pick_dir(gs, rr as int));
        assert(best == gs[bi as int]);
    }
    if best < 0 {
        proof {
            assert((0i32, 0i32) == move_of(gs, rr as int));
        }
        (0, 0)
    } else {
        let d = Direction::get(bi);
        let mv = d.dir();
        proof {
            assert(mv == move_of(gs, rr as int));
        }
        mv
    }
}

/// The sensing and movement decision of a herbivore at `h`: the returned
/// displacement is either zero or the unit vector of a direction whose
/// guarded score won the scan, and it never leads onto a cell that
/// already holds another herbivore.
pub fn herbi_detect<T: Genome, E: Genome>(
    h: (i32, i32),
    carni: &Grid<E>,
    herbi: &Grid<T>,
    plants: &Grid<bool>,
    rng: &mut ThreadRng,
) -> (mv: (i32, i32))
    requires
        carni.wf(),
        herbi.wf(),
        plants.wf(),
        herbi@.dom().contains(h),
        genome_wf(herbi@[h].gv()),
    ensures
        exists|rr: int| 0 <= rr < 4
            && mv == move_of(guarded_herbi_scores(h, *carni, *herbi, *plants), rr),
        mv == (0i32, 0i32) || !herbi@.dom().contains(wrap_add_pos(h, mv)),
        mv == (0i32, 0i32) || exists|k: int| 0 <= k < 4 && mv == dir_vec(k),
{
    let current = herbi.get_req(&h);
    let dr = current.get_detection_range();
    let r = round_milli(dr);
    let _bound1 = carni.num_entries();
    let _bound2 = herbi.num_entries();
    let _bound3 = plants.num_entries();
    let mut scores = DirScores::zero();
    let ghost gv = herbi@[h].gv();
    add_layer(&mut scores, carni, h, r, current, 1, false);
    proof {
        lemma_sum_bound(carni.key_seq(), h, r as int, 0, gv.eval1, false);
        lemma_sum_bound(carni.key_seq(), h, r as int, 1, gv.eval1, false);
        lemma_sum_bound(carni.key_seq(), h, r as int, 2, gv.eval1, false);
        lemma_sum_bound(carni.key_seq(), h, r as int, 3, gv.eval1, false);
    }
    add_layer(&mut scores, herbi, h, r, current, 2, true);
    proof {
        lemma_sum_bound(herbi.key_seq(), h, r as int, 0, gv.eval2, true);
        lemma_sum_bound(herbi.key_seq(), h, r as int, 1, gv.eval2, true);
        lemma_sum_bound(herbi.key_seq(), h, r as int, 2, gv.eval2, true);
        lemma_sum_bound(herbi.key_seq(), h, r as int, 3, gv.eval2, true);
    }
    add_layer(&mut scores, plants, h, r, current, 3, false);
    proof {
        lemma_sum_bound(plants.key_seq(), h, r as int, 0, gv.eval3, false);
        lemma_sum_bound(plants.key_seq(), h, r as int, 1, gv.eval3, false);
        lemma_sum_bound(plants.key_seq(), h, r as int, 2, gv.eval3, false);
        lemma_sum_bound(plants.key_seq(), h, r as int, 3, gv.eval3, false);
    }
    let ghost gs = guarded_herbi_scores(h, *carni, *herbi, *plants);
    let mut i: usize = 0;
    while i < 4
        invariant
            i <= 4,
            herbi.wf(),
            gs == guarded_herbi_scores(h, *carni, *herbi, *plants),
            forall|d: int| 0 <= d < i ==> #[trigger] scores.at(d) == gs[d],
            forall|d: int| i <= d < 4 ==> #[trigger] scores.at(d)
                == herbi_score(d, h, *carni, *herbi, *plants),
        decreases 4 - i,
    {
        let dest = add_2x_tupel(h, Direction::get(i).dir());
        if herbi.contains_key(&dest) {
            scores.set_score(i, i128::MIN);
        }
        proof {
            assert(scores.at(i as int) == gs[i as int]);
        }
        i = i + 1;
    }
    let mv = select_move(&scores, rng, Ghost(gs));
    proof {
        if mv != (0i32, 0i32) {
            let k = choose|k: int| 0 <= k < 4 && mv == dir_vec(k) && gs[k] >= 0;
            assert(!herbi@.dom().contains(wrap_add_pos(h, dir_vec(k))));
        }
    }
    mv
}

/// The sensing and movement decision of a carnivore at `h`, symmetric to
/// the herbivore's but weighing fellow carnivores and herbivores only.
pub fn carni_detect<T: Genome, E: Genome>(
    h: (i32, i32),
    carni: &Grid<E>,
    herbi: &Grid<T>,
    rng: &mut ThreadRng,
) -> (mv: (i32, i32))
    requires
        carni.wf(),
        herbi.wf(),
        carni@.dom().contains(h),
        genome_wf(carni@[h].gv()),
    ensures
        exists|rr: int| 0 <= rr < 4
            && mv == move_of(guarded_carni_scores(h, *carni, *herbi), rr),
        mv == (0i32, 0i32) || !carni@.dom().contains(wrap_add_pos(h, mv)),
        mv == (0i32, 0i32) || exists|k: int| 0 <= k < 4 && mv == dir_vec(k),
{
    let current = carni.get_req(&h);
    let dr = current.get_detection_range();
    let r = round_milli(dr);
    let _bound1 = carni.num_entries();
    let _bound2 = herbi.num_entries();
    let mut scores = DirScores::zero();
    let ghost gv = carni@[h].gv();
    add_layer(&mut scores, carni, h, r, current, 1, true);
    proof {
        lemma_sum_bound(carni.key_seq(), h, r as int, 0, gv.eval1, true);
        lemma_sum_bound(carni.key_seq(), h, r as int, 1, gv.eval1, true);
        lemma_sum_bound(carni.key_seq(), h, r as int, 2, gv.eval1, true);
        lemma_sum_bound(carni.key_seq(), h, r as int, 3, gv.eval1, true);
    }
    add_layer(&mut scores, herbi, h, r, current, 2, false);
    proof {
        lemma_sum_bound(herbi.key_seq(), h, r as int, 0, gv.eval2, false);
        lemma_sum_bound(herbi.key_seq(), h, r as int, 1, gv.eval2, false);
        lemma_sum_bound(herbi.key_seq(), h, r as int, 2, gv.eval2, false);
        lemma_sum_bound(herbi.key_seq(), h, r as int, 3, gv.eval2, false);
    }
    let ghost gs = guarded_carni_scores(h, *carni, *herbi);
    let mut i: usize = 0;
    while i < 4
        invariant
            i <= 4,
            carni.wf(),
            gs == guarded_carni_scores(h, *carni, *herbi),
            forall|d: int| 0 <= d < i ==> #[trigger] scores.at(d) == gs[d],
            forall|d: int| i <= d < 4 ==> #[trigger] scores.at(d)
                == carni_score(d, h, *carni, *herbi),
        decreases 4 - i,
    {
        let dest = add_2x_tupel(h, Direction::get(i).dir());
        if carni.contains_key(&dest) {
            scores.set_score(i, i128::MIN);
        }
        proof {
            assert(scores.at(i as int) == gs[i as int]);
        }
        i = i + 1;
    }
    let mv = select_move(&scores, rng, Ghost(gs));
    proof {
        if mv != (0i32, 0i32) {
            let k = choose|k: int| 0 <= k < 4 && mv == dir_vec(k) && gs[k] >= 0;
            assert(!carni@.dom().contains(wrap_add_pos(h, dir_vec(k))));
        }
    }
    mv
}

/// The strength margin of a predation attempt: with the contest
/// enabled, the power difference; otherwise a fixed winning margin.
pub open spec fn strength_margin(c: GeneView, h: GeneView, contest: bool) -> int {
    if contest {
        c.power - h.power
    } else {
        1000
    }
}

/// The strength margin of a predation attempt; the predator wins iff
/// the margin is positive.
pub fn compare_strength<T: Genome, E: Genome>(carni: &E, herbi: &T, contest: bool) -> (r: i64)
    requires
        genome_wf(carni.gv()),
        genome_wf(herbi.gv()),
    ensures
        r == strength_margin(carni.gv(), herbi.gv(), contest),
{
    if contest {
        carni.get_power() - herbi.get_power()
    } else {
        1000
    }
}

/// The energy gained from a consumed prey of the given weight, under the
/// meat-efficiency multiplier (both in milli-units).
pub fn calculate_meat_efficiency(weight: i64, efficiency: i64) -> (r: i64)
    requires
        0 <= weight <= TRAIT_CAP,
        0 <= efficiency <= TRAIT_CAP,
    ensures
        r == weight * efficiency / 1000,
        0 <= r <= 1_000_000_000_000_000,
{
    proof {
        assert(weight * efficiency <= 1_000_000_000_000_000_000) by (nonlinear_arith)
            requires
                0 <= weight <= 1_000_000_000,
                0 <= efficiency <= 1_000_000_000,
        ;
        assert(weight * efficiency >= 0) by (nonlinear_arith)
            requires
                0 <= weight,
                0 <= efficiency,
        ;
        lemma_div_nonincreasing(weight * efficiency, 1000);
        lemma_div_pos_is_pos(weight * efficiency, 1000);
    }
    let prod: u64 = (weight as u64) * (efficiency as u64);
    (prod / 1000) as i64
}

/// Predation at `pos`: the herbivore there is removed and the carnivore
/// there gains the prey's weight times the meat-efficiency multiplier.
pub fn carni_eat<T: Genome, E: Genome>(
    pos: &(i32, i32),
    carni: &mut Grid<E>,
    herbi: &mut Grid<T>,
    meat_efficiency: i64,
)
    requires
        old(carni).wf(),
        old(herbi).wf(),
        old(carni)@.dom().contains(*pos),
        old(herbi)@.dom().contains(*pos),
        genome_wf(old(carni)@[*pos].gv()),
        genome_wf(old(herbi)@[*pos].gv()),
        0 <= meat_efficiency <= TRAIT_CAP,
    ensures
        final(herbi).wf(),
        final(herbi)@ == old(herbi)@.remove(*pos),
        final(carni).wf(),
        final(carni)@.dom() == old(carni)@.dom(),
        final(carni)@[*pos].gv() == sat_add_spec_gv(
            old(carni)@[*pos].gv(),
            old(herbi)@[*pos].gv().weight * meat_efficiency / 1000,
        ),
        genome_wf(final(carni)@[*pos].gv()),
        evolves_from(old(carni)@[*pos].gv(), final(carni)@[*pos].gv()),
        forall|q: (i32, i32)| q != *pos && #[trigger] old(carni)@.dom().contains(q)
            ==> final(carni)@[q] == old(carni)@[q],
{
    let dead = match herbi.remove(pos) {
        Some(d) => d,
        None => unreached(),
    };
    let gain = calculate_meat_efficiency(dead.get_weight(), meat_efficiency);
    let mut pred = match carni.remove(pos) {
        Some(c) => c,
        None => unreached(),
    };
    pred.increase_energy(gain);
    carni.insert(*pos, pred);
    proof {
        assert(carni@.dom() =~= old(carni)@.dom());
    }
}

} // verus!
