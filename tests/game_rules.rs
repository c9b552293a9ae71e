use flappy_bird::collision::{collision_detection, has_collided, hits_any_pipe};
use flappy_bird::constants::{
    FLOOR_HEIGHT, FRAME_COUNT, MAX_FRAME_PERIOD_MS, FRAME_PERIOD_MS, GRAVITY, JUMP_VELOCITY, PIPE_GAP,
    PIPE_MOVEMENT_SPEED, PIPE_OFFSET, PIPE_WIDTH, PIXEL,
};
use flappy_bird::geometry::{Point, Rect};
use flappy_bird::resources::{Floor, FrameAnimation, Game, GameState, Pipe, Pipes, Player};
use flappy_bird::setup::{setup, setup_floor, setup_pipes};
use flappy_bird::systems::{
    animate_frames, calculate_pipe_heights, game_running, pipe_update, pipe_update_with,
    sprite_movement, PipeSpawn,
};

fn rect(x0: i64, y0: i64, x1: i64, y1: i64) -> Rect {
    Rect::new(x0, y0, x1, y1)
}

fn player_at(x: i64, y: i64) -> Player {
    let mut p = Player::default();
    p.position = Point::new(x, y);
    p.collision_box = rect(-25, -25, 25, 25);
    p
}

#[test]
fn rect_from_corners_orders_them() {
    let r = Rect::from_corners(Point::new(5, -1), Point::new(-3, 7));
    assert_eq!(r.min, Point::new(-3, -1));
    assert_eq!(r.max, Point::new(5, 7));
}

#[test]
fn rect_intersection_and_emptiness() {
    let a = rect(0, 0, 10, 10);
    let b = rect(5, 5, 20, 20);
    let i = a.intersect(&b);
    assert_eq!(i, rect(5, 5, 10, 10));
    assert!(!i.is_empty());
    let c = rect(10, 0, 20, 10);
    assert!(a.intersect(&c).is_empty());
    let d = rect(30, 30, 40, 40);
    let e = a.intersect(&d);
    assert!(e.is_empty());
    assert!(e.min.x <= e.max.x && e.min.y <= e.max.y);
}

#[test]
fn rect_centered_puts_odd_unit_on_positive_side() {
    let r = Rect::centered(5, 4);
    assert_eq!(r, rect(-2, -2, 3, 2));
}

#[test]
fn overlapping_boxes_collide() {
    let p = player_at(0, 0);
    assert!(has_collided(&p, &rect(-10, -10, 10, 10), Point::new(30, 0)));
}

#[test]
fn touching_boxes_do_not_collide() {
    let p = player_at(0, 0);
    assert!(!has_collided(&p, &rect(-10, -10, 10, 10), Point::new(35, 0)));
    assert!(!has_collided(&p, &rect(-10, -10, 10, 10), Point::new(0, -35)));
}

#[test]
fn distant_boxes_do_not_collide() {
    let p = player_at(100, 100);
    assert!(!has_collided(&p, &rect(-10, -10, 10, 10), Point::new(0, 0)));
}

#[test]
fn collision_with_extreme_coordinates_does_not_overflow() {
    let mut p = player_at(i64::MAX - 10, 0);
    p.collision_box = rect(0, -1, 100, 1);
    assert!(!has_collided(&p, &rect(-5, -5, 5, 5), Point::new(i64::MIN + 10, 0)));
    assert!(has_collided(&p, &rect(-5, -5, 5, 5), Point::new(i64::MAX - 8, 0)));
}

fn game_with_pipes(pipes: Vec<Pipe>, floor: Option<Floor>) -> Game {
    let mut g = Game::default();
    g.player = player_at(0, 0);
    g.pipes = Pipes { entities: pipes, bounds: rect(-10, -100, 10, 100) };
    g.floor = floor;
    g
}

#[test]
fn pipe_hit_ends_the_game() {
    let pipes = vec![
        Pipe { entity: 1, position: Point::new(500, 0) },
        Pipe { entity: 2, position: Point::new(20, 50) },
    ];
    let mut g = game_with_pipes(pipes, None);
    assert!(collision_detection(&mut g));
    assert_eq!(g.state, GameState::GameOver);
    assert!(!game_running(&g));
}

#[test]
fn floor_hit_ends_the_game() {
    let floor = Floor { entity: 9, position: Point::new(0, -40), bounds: rect(-1000, -20, 1000, 20) };
    let mut g = game_with_pipes(vec![Pipe { entity: 1, position: Point::new(500, 0) }], Some(floor));
    assert!(collision_detection(&mut g));
    assert_eq!(g.state, GameState::GameOver);
}

#[test]
fn no_hit_keeps_playing() {
    let floor = Floor { entity: 9, position: Point::new(0, -500), bounds: rect(-1000, -20, 1000, 20) };
    let mut g = game_with_pipes(vec![Pipe { entity: 1, position: Point::new(500, 0) }], Some(floor));
    assert!(!collision_detection(&mut g));
    assert_eq!(g.state, GameState::Playing);
    assert!(game_running(&g));
    let mut bare = game_with_pipes(Vec::new(), None);
    assert!(!collision_detection(&mut bare));
    assert_eq!(bare.state, GameState::Playing);
}

#[test]
fn default_game_is_playing_and_empty() {
    let g = Game::default();
    assert_eq!(g.state, GameState::Playing);
    assert!(g.pipes.entities.is_empty());
    assert!(g.floor.is_none());
    assert_eq!(g.player.entity, None);
    assert!(game_running(&g));
}

#[test]
fn pipe_heights_at_the_extremes() {
    let wh: u64 = 600 * PIXEL as u64;
    assert_eq!(calculate_pipe_heights(0, wh), (wh as i64, -PIPE_GAP));
    assert_eq!(calculate_pipe_heights(1000, wh), (PIPE_GAP, -(wh as i64)));
}

#[test]
fn pipe_heights_in_the_middle() {
    let wh: u64 = 600 * PIXEL as u64;
    assert_eq!(calculate_pipe_heights(500, wh), (350 * PIXEL, -350 * PIXEL));
    let wh = PIPE_GAP as u64 + 1100;
    assert_eq!(calculate_pipe_heights(200, wh), (wh as i64 - 220, -PIPE_GAP - 220));
    assert_eq!(calculate_pipe_heights(201, wh), (wh as i64 - 221, -PIPE_GAP - 221));
}

#[test]
fn pipe_heights_when_window_is_shorter_than_gap() {
    assert_eq!(calculate_pipe_heights(500, 50 * PIXEL as u64), (75 * PIXEL, -75 * PIXEL));
    let wh = PIPE_GAP as u64 - 1;
    assert_eq!(calculate_pipe_heights(1, wh), (PIPE_GAP, -PIPE_GAP + 1));
}

#[test]
fn gravity_pulls_the_player_down() {
    let mut g = Game::default();
    g.player.acceleration = Point::new(0, GRAVITY);
    g.player.velocity = Point::new(3, 100);
    g.player.position = Point::new(10, 20);
    sprite_movement(&mut g, false, 16);
    let vy = 100 + GRAVITY * 16;
    assert_eq!(g.player.velocity, Point::new(3, vy));
    assert_eq!(g.player.position, Point::new(10 + 3 * 16, 20 + vy * 16));
}

#[test]
fn jump_overrides_vertical_velocity() {
    let mut g = Game::default();
    g.player.acceleration = Point::new(0, GRAVITY);
    g.player.velocity = Point::new(0, -5000);
    sprite_movement(&mut g, true, 10);
    assert_eq!(g.player.velocity, Point::new(0, JUMP_VELOCITY));
    assert_eq!(g.player.position, Point::new(0, JUMP_VELOCITY * 10));
}

#[test]
fn animation_waits_for_its_period() {
    let mut a = FrameAnimation::new(8, 100);
    assert!(!animate_frames(&mut a, 40));
    assert_eq!((a.current, a.elapsed_ms), (0, 40));
    assert!(!animate_frames(&mut a, 59));
    assert_eq!((a.current, a.elapsed_ms), (0, 99));
}

#[test]
fn animation_advances_and_keeps_remainder() {
    let mut a = FrameAnimation::new(8, 100);
    assert!(animate_frames(&mut a, 130));
    assert_eq!((a.current, a.elapsed_ms), (1, 30));
    assert!(animate_frames(&mut a, 70));
    assert_eq!((a.current, a.elapsed_ms), (2, 0));
}

#[test]
fn animation_advances_once_for_several_periods_and_wraps() {
    let mut a = FrameAnimation::new(3, 100);
    a.current = 2;
    assert!(animate_frames(&mut a, 350));
    assert_eq!((a.current, a.elapsed_ms), (0, 50));
}

fn pipes_game(xs: &[(u64, i64)]) -> Game {
    let mut g = Game::default();
    g.pipes.bounds = rect(-40, -300, 40, 300);
    g.pipes.entities = xs.iter().map(|&(e, x)| Pipe { entity: e, position: Point::new(x, 7) }).collect();
    g
}

#[test]
fn pipes_scroll_left_and_leave_past_the_edge() {
    // Window 1000 wide: the left edge is at -500, so a pipe whose right edge
    // (centre + 40) is left of it goes.
    let mut g = pipes_game(&[(1, -541), (2, -540), (3, 600)]);
    let r = pipe_update_with(&mut g, 2, 1000, 800, 500);
    assert_eq!(r.despawned, vec![1]);
    let shift = PIPE_MOVEMENT_SPEED * 2;
    assert_eq!(
        g.pipes.entities,
        vec![
            Pipe { entity: 2, position: Point::new(-540 - shift, 7) },
            Pipe { entity: 3, position: Point::new(600 - shift, 7) },
        ]
    );
    assert_eq!(r.spawn, None);
}

#[test]
fn new_pair_is_due_when_the_right_side_is_clear() {
    let width: u64 = 1000 * PIXEL as u64;
    let half = 500 * PIXEL;
    let mut g = pipes_game(&[(1, half - PIPE_OFFSET - 1)]);
    let r = pipe_update_with(&mut g, 0, width, 600 * PIXEL as u64, 500);
    assert!(r.despawned.is_empty());
    assert_eq!(r.spawn, Some(PipeSpawn { x: half, top: 350 * PIXEL, bottom: -350 * PIXEL }));

    let mut g = pipes_game(&[(1, half - PIPE_OFFSET)]);
    let r = pipe_update_with(&mut g, 0, width, 600 * PIXEL as u64, 500);
    assert_eq!(r.spawn, None);
}

#[test]
fn empty_screen_gets_a_pair_at_the_right_edge() {
    let mut g = pipes_game(&[]);
    let r = pipe_update_with(&mut g, 16, 1000 * PIXEL as u64, 600 * PIXEL as u64, 0);
    assert_eq!(
        r.spawn,
        Some(PipeSpawn { x: 500 * PIXEL, top: 600 * PIXEL, bottom: -PIPE_GAP })
    );
    assert!(g.pipes.entities.is_empty());
}

#[test]
fn random_pair_lies_in_the_allowed_band() {
    let wh: u64 = 600 * PIXEL as u64;
    let (top_hi, bottom_hi) = calculate_pipe_heights(200, wh);
    let (top_lo, bottom_lo) = calculate_pipe_heights(800, wh);
    for _ in 0..50 {
        let mut g = pipes_game(&[]);
        let r = pipe_update(&mut g, 16, 1000 * PIXEL as u64, wh);
        let s = r.spawn.expect("an empty screen gets a pair");
        assert_eq!(s.x, 500 * PIXEL);
        assert!(top_lo <= s.top && s.top <= top_hi);
        assert!(bottom_lo <= s.bottom && s.bottom <= bottom_hi);
        assert_eq!(s.top - s.bottom, wh as i64 + PIPE_GAP);
    }
}

#[test]
fn add_pair_appends_top_then_bottom() {
    let mut g = pipes_game(&[(1, 0)]);
    g.pipes.add_pair(5, 6, &PipeSpawn { x: 10, top: 20, bottom: -30 });
    assert_eq!(
        g.pipes.entities,
        vec![
            Pipe { entity: 1, position: Point::new(0, 7) },
            Pipe { entity: 5, position: Point::new(10, 20) },
            Pipe { entity: 6, position: Point::new(10, -30) },
        ]
    );
}

#[test]
fn setup_configures_player_and_animation() {
    let mut g = Game::default();
    let a = setup(&mut g, 42);
    assert_eq!(g.player.entity, Some(42));
    assert_eq!(g.player.acceleration, Point::new(0, GRAVITY));
    assert_eq!(g.player.collision_box, rect(-25 * PIXEL, -25 * PIXEL, 25 * PIXEL, 25 * PIXEL));
    assert_eq!(a, FrameAnimation::new(FRAME_COUNT, FRAME_PERIOD_MS));
    assert_eq!(a.current, 0);
}

#[test]
fn setup_pipes_and_floor_size_their_boxes() {
    let mut g = Game::default();
    setup_pipes(&mut g, 600 * PIXEL as u64);
    let hw = PIPE_WIDTH as i64 / 2;
    assert_eq!(g.pipes.bounds, rect(-hw, -300 * PIXEL, hw, 300 * PIXEL));
    setup_floor(&mut g, 7, 1000 * PIXEL as u64, 600 * PIXEL as u64);
    let fh = FLOOR_HEIGHT as i64 / 2;
    assert_eq!(
        g.floor,
        Some(Floor {
            entity: 7,
            position: Point::new(0, -300 * PIXEL + 25 * PIXEL),
            bounds: rect(-500 * PIXEL, -fh, 500 * PIXEL, fh),
        })
    );
}

#[test]
fn pipe_hits_are_told_apart_from_floor_hits() {
    let pipes = vec![
        Pipe { entity: 1, position: Point::new(500, 0) },
        Pipe { entity: 2, position: Point::new(20, 50) },
    ];
    let g = game_with_pipes(pipes, None);
    assert!(hits_any_pipe(&g));
    let floor = Floor { entity: 9, position: Point::new(0, -40), bounds: rect(-1000, -20, 1000, 20) };
    let mut g = game_with_pipes(vec![Pipe { entity: 1, position: Point::new(500, 0) }], Some(floor));
    assert!(!hits_any_pipe(&g));
    assert!(collision_detection(&mut g));
    assert_eq!(g.state, GameState::GameOver);
    assert!(!hits_any_pipe(&game_with_pipes(Vec::new(), None)));
}

#[test]
fn longest_frame_period_fits_in_nanoseconds() {
    assert_eq!(MAX_FRAME_PERIOD_MS, u64::MAX / 1_000_000);
    let mut a = FrameAnimation::new(2, MAX_FRAME_PERIOD_MS);
    assert!(animate_frames(&mut a, MAX_FRAME_PERIOD_MS + 7));
    assert_eq!((a.current, a.elapsed_ms), (1, 7));
}
