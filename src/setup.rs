use vstd::prelude::*;
use crate::constants::{
    FLOOR_HEIGHT, FRAME_COUNT, FRAME_PERIOD_MS, GRAVITY, PIPE_WIDTH, PLAYER_COLLISION_SIZE,
};
use crate::geometry::{Point, Rect};
use crate::resources::{Floor, FrameAnimation, Game};

verus! {

/// Places the player, whose sprite is `entity`, at the origin with
/// gravity and a square collision box of side `PLAYER_COLLISION_SIZE` centred
/// on it, and returns its flapping animation: `FRAME_COUNT` images of
/// `FRAME_PERIOD_MS` milliseconds each, starting on the first.
pub fn setup(game: &mut Game, entity: u64) -> (anim: FrameAnimation)
    ensures
        final(game).player.entity == Some(entity),
        final(game).player.position == (Point { x: 0, y: 0 }),
        final(game).player.velocity == old(game).player.velocity,
        final(game).player.acceleration == (Point { x: 0, y: GRAVITY }),
        final(game).player.collision_box@ == (
            -(PLAYER_COLLISION_SIZE / 2) as int,
            -(PLAYER_COLLISION_SIZE / 2) as int,
            (PLAYER_COLLISION_SIZE / 2) as int,
            (PLAYER_COLLISION_SIZE / 2) as int,
        ),
        final(game).pipes == old(game).pipes,
        final(game).floor == old(game).floor,
        final(game).state == old(game).state,
        anim.wf(),
        anim.frame_count == FRAME_COUNT,
        anim.period_ms == FRAME_PERIOD_MS,
        anim.elapsed_ms == 0,
        anim.current == 0,
{
    game.player.entity = Some(entity);
    game.player.position = Point { x: 0, y: 0 };
    game.player.acceleration = Point { x: 0, y: GRAVITY };
    game.player.collision_box = Rect::centered(PLAYER_COLLISION_SIZE, PLAYER_COLLISION_SIZE);
    FrameAnimation::new(FRAME_COUNT, FRAME_PERIOD_MS)
}

/// Gives every pipe a box `PIPE_WIDTH` wide and as tall as the window,
/// centred on the pipe.
pub fn setup_pipes(game: &mut Game, window_height: u64)
    requires
        window_height <= i64::MAX,
    ensures
        final(game).pipes.bounds == Rect::centered_spec(PIPE_WIDTH, window_height),
        final(game).pipes.entities == old(game).pipes.entities,
        final(game).player == old(game).player,
        final(game).floor == old(game).floor,
        final(game).state == old(game).state,
{
    game.pipes.bounds = Rect::centered(PIPE_WIDTH, window_height);
}

/// Lays the floor, whose mesh is `entity`: as wide as the window,
/// `FLOOR_HEIGHT` tall, its bottom edge on the window's bottom edge.
pub fn setup_floor(game: &mut Game, entity: u64, window_width: u64, window_height: u64)
    requires
        window_width <= i64::MAX,
        window_height <= i64::MAX,
    ensures
        final(game).floor == Some(
            Floor {
                entity,
                position: Point {
                    x: 0,
                    y: (-(window_height / 2) + FLOOR_HEIGHT / 2) as i64,
                },
                bounds: Rect::centered_spec(window_width, FLOOR_HEIGHT),
            },
        ),
        final(game).player == old(game).player,
        final(game).pipes == old(game).pipes,
        final(game).state == old(game).state,
{
    let y = FLOOR_HEIGHT as i64 / 2 - (window_height / 2) as i64;
    let bounds = Rect::centered(window_width, FLOOR_HEIGHT);
    game.floor = Some(Floor { entity, position: Point { x: 0, y }, bounds });
}

} // verus!
