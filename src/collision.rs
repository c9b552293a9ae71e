use vstd::prelude::*;
use crate::geometry::{corners_rect, max_int, min_int, overlap, Point, Rect};
use crate::resources::{Game, GameState, Player};

verus! {

/// Whether the collision box `player_box` of a player at `pos` overlaps the
/// box `bounds` of an obstacle whose centre is at `at`. Each box is moved to
/// its world position and spans its moved corners; boxes that only touch do
/// not collide.
pub open spec fn collides(player_box: Rect, pos: Point, bounds: Rect, at: Point) -> bool {
    let p = corners_rect(
        player_box.min.x + pos.x,
        player_box.min.y + pos.y,
        player_box.max.x + pos.x,
        player_box.max.y + pos.y,
    );
    let o = corners_rect(
        bounds.min.x + at.x,
        bounds.min.y + at.y,
        bounds.max.x + at.x,
        bounds.max.y + at.y,
    );
    overlap(o.0, o.1, o.2, o.3, p.0, p.1, p.2, p.3)
}

/// Whether the player of `g` hits the pipe at index `i`.
pub open spec fn hits_pipe(g: &Game, i: int) -> bool {
    collides(
        g.player.collision_box,
        g.player.position,
        g.pipes.bounds,
        g.pipes.entities@[i].position,
    )
}

/// Whether the player of `g` hits the floor of `g`, if there is one.
pub open spec fn hits_floor(g: &Game) -> bool {
    match g.floor {
        Some(f) => collides(g.player.collision_box, g.player.position, f.bounds, f.position),
        None => false,
    }
}

/// Whether the player of `g` hits any pipe or the floor.
pub open spec fn any_collision(g: &Game) -> bool {
    (exists|i: int| 0 <= i < g.pipes.entities@.len() && #[trigger] hits_pipe(g, i))
        || hits_floor(g)
}

fn min_i128(a: i128, b: i128) -> (r: i128)
    ensures
        r == min_int(a as int, b as int),
{
    if a <= b { a } else { b }
}

fn max_i128(a: i128, b: i128) -> (r: i128)
    ensures
        r == max_int(a as int, b as int),
{
    if a >= b { a } else { b }
}

/// Whether `player` overlaps the obstacle box `bounds` centred at `at`.
pub fn has_collided(player: &Player, bounds: &Rect, at: Point) -> (r: bool)
    ensures
        r == collides(player.collision_box, player.position, *bounds, at),
{
    let pb = player.collision_box;
    let pos = player.position;
    let px0 = pb.min.x as i128 + pos.x as i128;
    let py0 = pb.min.y as i128 + pos.y as i128;
    let px1 = pb.max.x as i128 + pos.x as i128;
    let py1 = pb.max.y as i128 + pos.y as i128;
    let ox0 = bounds.min.x as i128 + at.x as i128;
    let oy0 = bounds.min.y as i128 + at.y as i128;
    let ox1 = bounds.max.x as i128 + at.x as i128;
    let oy1 = bounds.max.y as i128 + at.y as i128;
    // Each box spans its moved corners.
    let (plx, phx) = (min_i128(px0, px1), max_i128(px0, px1));
    let (ply, phy) = (min_i128(py0, py1), max_i128(py0, py1));
    let (olx, ohx) = (min_i128(ox0, ox1), max_i128(ox0, ox1));
    let (oly, ohy) = (min_i128(oy0, oy1), max_i128(oy0, oy1));
    // The intersection of the two boxes is not empty.
    max_i128(olx, plx) < min_i128(ohx, phx) && max_i128(oly, ply) < min_i128(ohy, phy)
}

/// Whether the player of `game` hits any of its pipes.
pub fn hits_any_pipe(game: &Game) -> (hit: bool)
    ensures
        hit == exists|i: int| 0 <= i < game.pipes.entities@.len() && #[trigger] hits_pipe(game, i),
{
    let n = game.pipes.entities.len();
    let mut i: usize = 0;
    while i < n
        invariant
            n == game.pipes.entities@.len(),
            i <= n,
            forall|j: int| 0 <= j < i ==> !#[trigger] hits_pipe(game, j),
        decreases n - i,
    {
        let at = game.pipes.entities[i].position;
        if has_collided(&game.player, &game.pipes.bounds, at) {
            assert(hits_pipe(game, i as int));
            return true;
        }
        i = i + 1;
    }
    false
}

/// Ends the game when the player hits a pipe or the floor, and tells whether
/// it did. The pipes are tested first, and the floor only when no pipe is
/// hit; the state never goes back to `Playing`.
pub fn collision_detection(game: &mut Game) -> (hit: bool)
    ensures
        hit == any_collision(old(game)),
        final(game).state == (if hit { GameState::GameOver } else { old(game).state }),
        final(game).player == old(game).player,
        final(game).pipes == old(game).pipes,
        final(game).floor == old(game).floor,
        old(game).state == GameState::GameOver ==> final(game).state == GameState::GameOver,
{
    let hit = if hits_any_pipe(game) {
        true
    } else {
        match &game.floor {
            Some(f) => has_collided(&game.player, &f.bounds, f.position),
            None => false,
        }
    };
    if hit {
        game.state = GameState::GameOver;
    }
    hit
}

} // verus!
