use vstd::prelude::*;
use vstd::arithmetic::div_mod::{
    lemma_fundamental_div_mod, lemma_fundamental_div_mod_converse, lemma_mod_bound,
};
use bevy::time::{Timer, TimerMode};
use rand::Rng;
use std::time::Duration;
use crate::constants::{
    JUMP_VELOCITY, PIPE_GAP, PIPE_HEIGHT_MAX, PIPE_HEIGHT_MIN, PIPE_MOVEMENT_SPEED, PIPE_OFFSET,
};
use crate::geometry::{max_int, Point, Rect};
use crate::resources::{FrameAnimation, Game, GameState, Pipe, Pipes};

verus! {

/// Whether the per-frame systems run: only while the game is in play.
pub fn game_running(game: &Game) -> (r: bool)
    ensures
        r == (game.state == GameState::Playing),
{
    match game.state {
        GameState::Playing => true,
        GameState::GameOver => false,
    }
}

/// How far a pipe pair drops from its highest placement, for a placement
/// `k` thousandths of the way down and a window of height `window_height`:
/// that fraction of the height not taken by the gap, rounded down.
pub open spec fn pipe_drop(k: int, window_height: int) -> int {
    (k * (window_height - PIPE_GAP)) / 1000
}

/// Centres of the top and bottom pipe of a pair placed `k` thousandths of the
/// way down. At `k == 0` the top pipe is centred at the window height and the
/// bottom one at `-PIPE_GAP`; at `k == 1000` they are centred at `PIPE_GAP`
/// and at minus the window height.
pub open spec fn pipe_heights(k: int, window_height: int) -> (int, int) {
    (window_height - pipe_drop(k, window_height), -PIPE_GAP - pipe_drop(k, window_height))
}

/// Both pipe centres lie between minus and plus the larger of the window
/// height and the gap.
proof fn lemma_pipe_heights_fit(k: int, window_height: int)
    requires
        0 <= k <= 1000,
        0 <= window_height <= i64::MAX,
    ensures
        i64::MIN <= pipe_heights(k, window_height).0 <= i64::MAX,
        i64::MIN <= pipe_heights(k, window_height).1 <= i64::MAX,
{
    let s = window_height - PIPE_GAP;
    let a = k * s;
    let d = a / 1000;
    lemma_fundamental_div_mod(a, 1000);
    lemma_mod_bound(a, 1000);
    if s >= 0 {
        assert(0 <= a <= 1000 * s) by (nonlinear_arith)
            requires a == k * s, 0 <= k <= 1000, s >= 0;
    } else {
        assert(1000 * s <= a <= 0) by (nonlinear_arith)
            requires a == k * s, 0 <= k <= 1000, s < 0;
    }
}

/// The centres of the top and bottom pipe of a new pair.
pub fn calculate_pipe_heights(height_permille: u64, window_height: u64) -> (r: (i64, i64))
    requires
        height_permille <= 1000,
        window_height <= i64::MAX,
    ensures
        (r.0 as int, r.1 as int) == pipe_heights(height_permille as int, window_height as int),
{
    let k = height_permille as u128;
    let gap = PIPE_GAP as u64;
    let drop: i64;
    if window_height >= gap {
        let span = (window_height - gap) as u128;
        proof {
            assert(k * span <= 1000 * span) by (nonlinear_arith)
                requires k <= 1000;
        }
        let d = k * span / 1000;
        proof {
            assert(d <= span) by (nonlinear_arith)
                requires d == k * span / 1000, k * span <= 1000 * span;
        }
        drop = d as i64;
    } else {
        let span = (gap - window_height) as u128;
        proof {
            assert(k * span <= 1000 * span) by (nonlinear_arith)
                requires k <= 1000;
        }
        let a = k * span;
        let q = a / 1000;
        let m = a % 1000;
        let up = if m == 0 { q } else { q + 1 };
        proof {
            let s = window_height as int - PIPE_GAP;
            assert(a == 1000 * q + m);
            assert(k * s == -(a as int)) by (nonlinear_arith)
                requires s == -(span as int), a == k * span;
            if m == 0 {
                lemma_fundamental_div_mod_converse(-(a as int), 1000, -(q as int), 0);
            } else {
                lemma_fundamental_div_mod_converse(-(a as int), 1000, -(q as int) - 1, 1000 - m);
            }
            assert(q <= span) by (nonlinear_arith)
                requires q == a / 1000, a <= 1000 * span;
        }
        drop = -(up as i64);
    }
    (window_height as i64 - drop, -PIPE_GAP - drop)
}

/// `a * b`, exactly.
fn scale(a: i64, b: u64) -> (r: i128)
    ensures
        r == a * b,
{
    proof {
        assert(-0x8000_0000_0000_0000 * 0xffff_ffff_ffff_ffff <= a * b
            <= 0x7fff_ffff_ffff_ffff * 0xffff_ffff_ffff_ffff) by (nonlinear_arith)
            requires
                -0x8000_0000_0000_0000 <= a <= 0x7fff_ffff_ffff_ffff,
                0 <= b <= 0xffff_ffff_ffff_ffff;
    }
    a as i128 * b as i128
}

/// The player's velocity after `dt` milliseconds: gravity adds
/// `acceleration * dt`, and a jump replaces the vertical part by
/// `JUMP_VELOCITY`.
pub open spec fn next_velocity(v: Point, a: Point, jump: bool, dt: int) -> (int, int) {
    (v.x + a.x * dt, if jump { JUMP_VELOCITY as int } else { v.y + a.y * dt })
}

/// The player's position after `dt` milliseconds at velocity `v`.
pub open spec fn next_position(p: Point, v: (int, int), dt: int) -> (int, int) {
    (p.x + v.0 * dt, p.y + v.1 * dt)
}

/// Moves the player by one frame of `delta_ms` milliseconds: its velocity is
/// updated first (gravity, or a jump when `jump` holds), then its position
/// follows the new velocity.
pub fn sprite_movement(game: &mut Game, jump: bool, delta_ms: u64)
    requires
        ({
            let v = next_velocity(
                old(game).player.velocity,
                old(game).player.acceleration,
                jump,
                delta_ms as int,
            );
            let p = next_position(old(game).player.position, v, delta_ms as int);
            &&& i64::MIN <= v.0 <= i64::MAX
            &&& i64::MIN <= v.1 <= i64::MAX
            &&& i64::MIN <= p.0 <= i64::MAX
            &&& i64::MIN <= p.1 <= i64::MAX
        }),
    ensures
        ({
            let v = next_velocity(
                old(game).player.velocity,
                old(game).player.acceleration,
                jump,
                delta_ms as int,
            );
            let p = next_position(old(game).player.position, v, delta_ms as int);
            &&& final(game).player.velocity.x == v.0
            &&& final(game).player.velocity.y == v.1
            &&& final(game).player.position.x == p.0
            &&& final(game).player.position.y == p.1
        }),
        final(game).player.entity == old(game).player.entity,
        final(game).player.acceleration == old(game).player.acceleration,
        final(game).player.collision_box == old(game).player.collision_box,
        final(game).pipes == old(game).pipes,
        final(game).floor == old(game).floor,
        final(game).state == old(game).state,
{
    let v = game.player.velocity;
    let a = game.player.acceleration;
    let vx = (v.x as i128 + scale(a.x, delta_ms)) as i64;
    let vy = if jump {
        JUMP_VELOCITY
    } else {
        (v.y as i128 + scale(a.y, delta_ms)) as i64
    };
    let p = game.player.position;
    let px = (p.x as i128 + scale(vx, delta_ms)) as i64;
    let py = (p.y as i128 + scale(vy, delta_ms)) as i64;
    game.player.velocity = Point { x: vx, y: vy };
    game.player.position = Point { x: px, y: py };
}

/// Relies on bevy's `Timer::tick` for a repeating timer: the timer fires when
/// the elapsed time reaches the period, and then keeps the remainder. The
/// bound on the sum keeps bevy's count of periods in this tick from wrapping,
/// and the bound on the period keeps the remainder, which bevy stores as a
/// `u64` count of nanoseconds, from being cut short.
#[verifier::external_body]
fn tick_repeating(period_ms: u64, elapsed_ms: u64, delta_ms: u64) -> (r: (u64, bool))
    requires
        0 < period_ms <= u64::MAX / 1_000_000,
        elapsed_ms + delta_ms < period_ms * 0x1_0000_0000,
    ensures
        r.1 == (elapsed_ms + delta_ms >= period_ms),
        r.0 == (if r.1 { (elapsed_ms + delta_ms) % (period_ms as int) } else { elapsed_ms + delta_ms }),
{
    let mut timer = Timer::new(Duration::from_millis(period_ms), TimerMode::Repeating);
    timer.set_elapsed(Duration::from_millis(elapsed_ms));
    timer.tick(Duration::from_millis(delta_ms));
    (timer.elapsed().as_millis() as u64, timer.just_finished())
}

/// Advances the animation timer by `delta_ms` milliseconds. When it runs out
/// the next image (wrapping to the first) is shown, once however many periods
/// went by, and the time past the last full period is kept. Tells whether the
/// image changed.
pub fn animate_frames(anim: &mut FrameAnimation, delta_ms: u64) -> (changed: bool)
    requires
        old(anim).wf(),
        old(anim).elapsed_ms + delta_ms < old(anim).period_ms * 0x1_0000_0000,
    ensures
        final(anim).wf(),
        changed == (old(anim).elapsed_ms + delta_ms >= old(anim).period_ms),
        final(anim).elapsed_ms == (if changed {
            (old(anim).elapsed_ms + delta_ms) % (old(anim).period_ms as int)
        } else {
            old(anim).elapsed_ms + delta_ms
        }),
        final(anim).current == (if changed {
            (old(anim).current + 1) % (old(anim).frame_count as int)
        } else {
            old(anim).current as int
        }),
        final(anim).frame_count == old(anim).frame_count,
        final(anim).period_ms == old(anim).period_ms,
{
    let (elapsed, finished) = tick_repeating(anim.period_ms, anim.elapsed_ms, delta_ms);
    anim.elapsed_ms = elapsed;
    if finished {
        anim.current = (anim.current + 1) % anim.frame_count;
    }
    finished
}

/// Relies on rand's `Rng::random_range` on an inclusive range, drawn from the
/// thread-local generator: the value lies in the range.
#[verifier::external_body]
fn random_between(lo: u64, hi: u64) -> (r: u64)
    requires
        lo <= hi,
    ensures
        lo <= r <= hi,
{
    rand::rng().random_range(lo..=hi)
}

/// The rightmost pipe centre, or `0` when it lies left of the origin or there
/// are no pipes.
pub open spec fn rightmost(s: Seq<Pipe>) -> int
    decreases s.len(),
{
    if s.len() == 0 {
        0
    } else {
        max_int(rightmost(s.drop_last()), s.last().position.x as int)
    }
}

/// Whether a pipe centre lies left of `limit`.
pub open spec fn is_gone(p: Pipe, limit: int) -> bool {
    p.position.x < limit
}

/// The leftmost centre of a pipe with box `bounds` that is still at least
/// partly inside a window `window_width` wide: left of it, the pipe's right
/// edge has passed the window's left edge.
pub open spec fn left_limit(window_width: u64, bounds: Rect) -> int {
    -((window_width / 2) as int) - bounds.max.x
}

/// The pipes that stay, in their order, each moved `shift` to the left.
pub open spec fn scrolled(s: Seq<Pipe>, limit: int, shift: int) -> Seq<Pipe>
    decreases s.len(),
{
    if s.len() == 0 {
        Seq::empty()
    } else if is_gone(s.last(), limit) {
        scrolled(s.drop_last(), limit, shift)
    } else {
        scrolled(s.drop_last(), limit, shift).push(
            Pipe {
                entity: s.last().entity,
                position: Point { x: (s.last().position.x - shift) as i64, y: s.last().position.y },
            },
        )
    }
}

/// The entities of the pipes that leave, in their order.
pub open spec fn gone(s: Seq<Pipe>, limit: int) -> Seq<u64>
    decreases s.len(),
{
    if s.len() == 0 {
        Seq::empty()
    } else if is_gone(s.last(), limit) {
        gone(s.drop_last(), limit).push(s.last().entity)
    } else {
        gone(s.drop_last(), limit)
    }
}

/// Where a new pipe pair goes: its horizontal centre and the vertical centres
/// of its top and bottom pipe.
#[derive(Clone, Copy, Debug, PartialEq, Eq, Structural)]
pub struct PipeSpawn {
    pub x: i64,
    pub top: i64,
    pub bottom: i64,
}

/// What the caller must do after a pipe update: despawn these entities, and
/// spawn a new pair if asked.
#[derive(Debug)]
pub struct PipeUpdate {
    pub despawned: Vec<u64>,
    pub spawn: Option<PipeSpawn>,
}

/// A new pair is due when the rightmost pipe is further than `PIPE_OFFSET`
/// from the right edge, at `half_width`.
pub open spec fn spawn_due(s: Seq<Pipe>, half_width: int) -> bool {
    rightmost(s) < half_width - PIPE_OFFSET
}

/// The pipes that stay can be moved without leaving the range of `i64`.
pub open spec fn scroll_fits(s: Seq<Pipe>, limit: int, shift: int) -> bool {
    forall|i: int|
        0 <= i < s.len() && !is_gone(#[trigger] s[i], limit) ==> i64::MIN <= s[i].position.x - shift
}

/// One frame of pipe traffic for a window of the given size, with the height
/// of a new pair given as `height_permille` thousandths of the way down: pipes
/// that have scrolled fully past the left edge are removed and reported, the others
/// move left by `PIPE_MOVEMENT_SPEED * delta_ms`, and a new pair is placed at
/// the right edge when the rightmost pipe, before moving, is far enough from it.
pub fn pipe_update_with(
    game: &mut Game,
    delta_ms: u64,
    window_width: u64,
    window_height: u64,
    height_permille: u64,
) -> (r: PipeUpdate)
    requires
        height_permille <= 1000,
        window_height <= i64::MAX,
        PIPE_MOVEMENT_SPEED * delta_ms <= i64::MAX,
        scroll_fits(
            old(game).pipes.entities@,
            left_limit(window_width, old(game).pipes.bounds),
            PIPE_MOVEMENT_SPEED * delta_ms,
        ),
    ensures
        final(game).pipes.entities@ == scrolled(
            old(game).pipes.entities@,
            left_limit(window_width, old(game).pipes.bounds),
            PIPE_MOVEMENT_SPEED * delta_ms,
        ),
        r.despawned@ == gone(old(game).pipes.entities@, left_limit(window_width, old(game).pipes.bounds)),
        r.spawn == (if spawn_due(old(game).pipes.entities@, (window_width / 2) as int) {
            Some(
                PipeSpawn {
                    x: (window_width / 2) as i64,
                    top: pipe_heights(height_permille as int, window_height as int).0 as i64,
                    bottom: pipe_heights(height_permille as int, window_height as int).1 as i64,
                },
            )
        } else {
            None
        }),
        final(game).pipes.bounds == old(game).pipes.bounds,
        final(game).player == old(game).player,
        final(game).floor == old(game).floor,
        final(game).state == old(game).state,
{
    let half = (window_width / 2) as i64;
    let limit = -(half as i128) - game.pipes.bounds.max.x as i128;
    let shift = PIPE_MOVEMENT_SPEED * (delta_ms as i64);
    let ghost s = game.pipes.entities@;
    let n = game.pipes.entities.len();
    let mut kept: Vec<Pipe> = Vec::new();
    let mut despawned: Vec<u64> = Vec::new();
    let mut max_x: i64 = 0;
    let mut i: usize = 0;
    while i < n
        invariant
            n == s.len(),
            s == game.pipes.entities@,
            i <= n,
            limit == left_limit(window_width, old(game).pipes.bounds),
            shift == PIPE_MOVEMENT_SPEED * delta_ms,
            scroll_fits(s, limit as int, shift as int),
            max_x == rightmost(s.take(i as int)),
            kept@ == scrolled(s.take(i as int), limit as int, shift as int),
            despawned@ == gone(s.take(i as int), limit as int),
        decreases n - i,
    {
        let pipe = game.pipes.entities[i];
        proof {
            assert(s.take(i + 1).drop_last() =~= s.take(i as int));
            assert(s.take(i + 1).last() == s[i as int]);
        }
        if pipe.position.x > max_x {
            max_x = pipe.position.x;
        }
        if (pipe.position.x as i128) < limit {
            despawned.push(pipe.entity);
        } else {
            assert(!is_gone(s[i as int], limit as int));
            kept.push(Pipe { entity: pipe.entity, position: Point { x: pipe.position.x - shift, y: pipe.position.y } });
        }
        i = i + 1;
    }
    proof {
        assert(s.take(n as int) =~= s);
    }
    game.pipes.entities = kept;
    let spawn = if max_x < half - PIPE_OFFSET {
        let (top, bottom) = calculate_pipe_heights(height_permille, window_height);
        Some(PipeSpawn { x: half, top, bottom })
    } else {
        None
    };
    PipeUpdate { despawned, spawn }
}

/// `pipe_update_with` at a random height: the new pair, if one is due, is
/// placed between `PIPE_HEIGHT_MIN` and `PIPE_HEIGHT_MAX` thousandths of the
/// way down; all else is as there.
pub fn pipe_update(game: &mut Game, delta_ms: u64, window_width: u64, window_height: u64) -> (r:
    PipeUpdate)
    requires
        window_height <= i64::MAX,
        PIPE_MOVEMENT_SPEED * delta_ms <= i64::MAX,
        scroll_fits(
            old(game).pipes.entities@,
            left_limit(window_width, old(game).pipes.bounds),
            PIPE_MOVEMENT_SPEED * delta_ms,
        ),
    ensures
        final(game).pipes.entities@ == scrolled(
            old(game).pipes.entities@,
            left_limit(window_width, old(game).pipes.bounds),
            PIPE_MOVEMENT_SPEED * delta_ms,
        ),
        r.despawned@ == gone(old(game).pipes.entities@, left_limit(window_width, old(game).pipes.bounds)),
        spawn_due(old(game).pipes.entities@, (window_width / 2) as int) <==> r.spawn is Some,
        r.spawn matches Some(sp) ==> {
            &&& sp.x == (window_width / 2) as i64
            &&& exists|k: int|
                PIPE_HEIGHT_MIN <= k <= PIPE_HEIGHT_MAX && (sp.top as int, sp.bottom as int)
                    == #[trigger] pipe_heights(k, window_height as int)
        },
        final(game).pipes.bounds == old(game).pipes.bounds,
        final(game).player == old(game).player,
        final(game).floor == old(game).floor,
        final(game).state == old(game).state,
{
    let k = random_between(PIPE_HEIGHT_MIN, PIPE_HEIGHT_MAX);
    let r = pipe_update_with(game, delta_ms, window_width, window_height, k);
    proof {
        if r.spawn is Some {
            lemma_pipe_heights_fit(k as int, window_height as int);
        }
    }
    r
}

impl Pipes {
    /// Adds a new pair placed at `spawn`, top pipe first.
    pub fn add_pair(&mut self, top_entity: u64, bottom_entity: u64, spawn: &PipeSpawn)
        requires
            old(self).entities@.len() + 2 <= usize::MAX,
        ensures
            final(self).entities@ == old(self).entities@.push(
                Pipe { entity: top_entity, position: Point { x: spawn.x, y: spawn.top } },
            ).push(Pipe { entity: bottom_entity, position: Point { x: spawn.x, y: spawn.bottom } }),
            final(self).bounds == old(self).bounds,
    {
        self.entities.push(Pipe { entity: top_entity, position: Point { x: spawn.x, y: spawn.top } });
        self.entities.push(
            Pipe { entity: bottom_entity, position: Point { x: spawn.x, y: spawn.bottom } },
        );
    }
}

} // verus!
