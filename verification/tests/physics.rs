use platformer_core::data::Rectangle;
use platformer_core::game::jump_impulse;
use platformer_core::game::Input;
use platformer_core::game::Player;
use platformer_core::game::PlayerDirection;
use platformer_core::game::PlayerFrame;
use platformer_core::game::TileGrid;
use platformer_core::gfx::RenderFx;
use platformer_core::gfx::TileCollision;

const NO_INPUT: Input = Input { left: false, right: false, up: false, down: false };

/// A `width` x `height` grid that is open everywhere except where `solid`
/// says otherwise.
fn grid_of(width: usize, height: usize, solid: &[(usize, usize, TileCollision)]) -> TileGrid {
    let mut rows = Vec::new();
    for _ in 0..height {
        rows.push(vec![TileCollision::Passable; width]);
    }
    for &(x, y, c) in solid {
        rows[y][x] = c;
    }
    TileGrid::new(rows).unwrap()
}

fn solid_row(y: usize, width: usize, c: TileCollision) -> Vec<(usize, usize, TileCollision)> {
    (0..width).map(|x| (x, y, c)).collect()
}

#[test]
fn spawn_state_matches_the_defaults() {
    let p = Player::new();
    assert_eq!((p.pos_x, p.pos_y), (64, 64));
    assert_eq!((p.vel_x, p.vel_y), (64, 64));
    assert!(p.on_ground);
    assert!(!p.is_jumping);
    assert_eq!(p.jump_time, 0);
    assert_eq!(p.previous_bottom, 0);
    assert_eq!(p.current, PlayerFrame::Idle);
    assert_eq!(p.direction, PlayerDirection::Right);
    let frames: Vec<usize> = p.sprites.iter().map(|s| s.frames()).collect();
    assert_eq!(frames, vec![1, 10, 11, 11, 11]);
}

#[test]
fn bounding_rect_follows_the_position() {
    let mut p = Player::new();
    p.pos_x = 100;
    p.pos_y = 96;
    assert_eq!(p.bounding_rect(), Rectangle { x: 100, y: 96, w: 64, h: 64 });
}

#[test]
fn render_fx_follows_the_facing_direction() {
    let mut p = Player::new();
    p.direction = PlayerDirection::Left;
    assert_eq!(p.render_fx(), RenderFx::NoFlip);
    p.direction = PlayerDirection::Right;
    assert_eq!(p.render_fx(), RenderFx::FlipX);
}

/// Standing one frame above a solid row, a falling character is pushed
/// back up so its bottom edge meets the row's top, grounded is set, and
/// the vertical velocity is zeroed.
#[test]
fn falling_onto_a_solid_row_lands_on_its_top() {
    // a row of solid tiles spanning world y = 128..160
    let grid = grid_of(8, 8, &solid_row(4, 8, TileCollision::Impassable));
    let mut p = Player::new();
    p.pos_x = 100;
    p.pos_y = 64; // bottom edge at 128, resting on the row's top
    p.vel_x = 0;
    p.vel_y = 0;
    p.on_ground = true;
    p.previous_bottom = 128;
    p.update(&grid, NO_INPUT, 100);
    // gravity integrated to 340 units/s, the tentative bottom sank to 162,
    // and the resolution pushed it back to the row's top
    assert_eq!(p.pos_y + 64, 128);
    assert!(p.on_ground);
    assert_eq!(p.vel_y, 0);
    // the first overlapped tile of the row is met corner-first and resolves
    // horizontally, sliding the box to the next tile seam
    assert_eq!(p.pos_x, 120);
    assert_eq!(p.vel_x, 0);
    assert_eq!(p.current, PlayerFrame::Idle);
}

/// Falling onto a platform from above (previous bottom at or above the
/// tile top) grounds the character and snaps its bottom to the tile top.
#[test]
fn falling_onto_a_platform_lands_on_its_top() {
    // a row of platforms spanning world y = 160..192
    let grid = grid_of(8, 8, &solid_row(5, 8, TileCollision::Platform));
    let mut p = Player::new();
    p.pos_x = 120; // tile-aligned, so no corner seam is met
    p.pos_y = 96; // bottom edge at 160
    p.vel_x = 0;
    p.vel_y = 0;
    p.on_ground = true;
    p.previous_bottom = 160;
    p.update(&grid, NO_INPUT, 100);
    assert_eq!(p.pos_y + 64, 160);
    assert!(p.on_ground);
    assert_eq!(p.vel_y, 0);
    assert_eq!(p.pos_x, 120);
}

/// A character overlapping a platform from the side is neither grounded by
/// it nor pushed.
#[test]
fn a_platform_never_catches_from_the_side() {
    let grid = grid_of(8, 8, &[(5, 5, TileCollision::Platform)]); // box (200, 160, 40, 32)
    let mut p = Player::new();
    p.pos_x = 150;
    p.pos_y = 170; // bottom edge 234, well below the platform top at 160
    p.vel_x = 0;
    p.vel_y = 0;
    p.on_ground = false;
    p.previous_bottom = 234;
    p.update(&grid, NO_INPUT, 10);
    assert!(!p.on_ground);
    assert_eq!((p.pos_x, p.pos_y), (150, 170));
}

/// A character drifting into a solid tile is clamped to its edge and loses
/// its horizontal velocity.
#[test]
fn a_wall_clamps_the_position_and_zeroes_the_velocity() {
    // a solid column at world x = 200..240
    let solids: Vec<(usize, usize, TileCollision)> =
        (0..20).map(|y| (5, y, TileCollision::Impassable)).collect();
    let grid = grid_of(10, 20, &solids);
    let mut p = Player::new();
    p.pos_x = 136; // right edge at 200, flush against the wall
    p.pos_y = 320; // tile-aligned vertically
    p.vel_x = 1000;
    p.vel_y = 0;
    p.on_ground = false;
    p.previous_bottom = 384;
    p.update(&grid, NO_INPUT, 10);
    // air drag leaves 580 units/s, which moves the box 5 units into the
    // wall; the resolution pushes it back flush and the velocity is zeroed
    assert_eq!(p.pos_x + 64, 200);
    assert_eq!(p.vel_x, 0);
    assert_eq!(p.pos_y, 320);
    assert!(!p.on_ground);
}

/// The launch impulse decays strictly in magnitude over the hold window
/// and vanishes at its end.
#[test]
fn jump_impulse_decays_monotonically() {
    assert_eq!(jump_impulse(1), -3490);
    assert_eq!(jump_impulse(175), -1750);
    assert_eq!(jump_impulse(350), 0);
    let mut last = 3500_i64;
    for t in 1..=350 {
        let v = jump_impulse(t);
        assert!(v <= 0);
        assert!(v.abs() < last);
        last = v.abs();
    }
}

/// Holding jump on the ground launches the character upward with the
/// impulse of the accumulated hold time.
#[test]
fn holding_jump_launches_upward() {
    let grid = grid_of(8, 8, &solid_row(5, 8, TileCollision::Impassable));
    let mut p = Player::new();
    p.pos_x = 120;
    p.pos_y = 96; // standing on the row at y = 160
    p.vel_x = 0;
    p.vel_y = 0;
    p.on_ground = true;
    p.previous_bottom = 160;
    let up = Input { left: false, right: false, up: true, down: false };
    p.update(&grid, up, 100);
    assert_eq!(p.jump_time, 100);
    assert_eq!(p.vel_y, -2500); // the impulse after 100 ms of hold
    assert_eq!(p.pos_y, 96 - 250);
    assert!(!p.on_ground);
    assert_eq!(p.current, PlayerFrame::Jump);
    // releasing the jump resets the timer
    p.update(&grid, NO_INPUT, 100);
    assert_eq!(p.jump_time, 0);
}

/// Held direction accelerates the character, picks the running pose and
/// turns it around.
#[test]
fn running_right_accelerates_and_faces_right() {
    let grid = grid_of(8, 8, &solid_row(5, 8, TileCollision::Impassable));
    let mut p = Player::new();
    p.pos_x = 100;
    p.pos_y = 96;
    p.vel_x = 0;
    p.vel_y = 0;
    p.on_ground = true;
    p.direction = PlayerDirection::Left;
    p.previous_bottom = 160;
    let right = Input { left: false, right: true, up: false, down: false };
    p.update(&grid, right, 100);
    // 13000 units/s^2 for 100 ms gives 1300, and ground drag keeps 48%
    assert_eq!(p.vel_x, 624);
    assert_eq!(p.pos_x, 162);
    assert!(p.on_ground);
    assert_eq!(p.direction, PlayerDirection::Right);
    assert_eq!(p.current, PlayerFrame::Run);
}

/// Opposed directions cancel: no intent, no turn, idle on the ground.
#[test]
fn opposed_directions_cancel() {
    let grid = grid_of(8, 8, &solid_row(5, 8, TileCollision::Impassable));
    let mut p = Player::new();
    p.pos_x = 120;
    p.pos_y = 96;
    p.vel_x = 0;
    p.vel_y = 0;
    p.on_ground = true;
    p.direction = PlayerDirection::Left;
    p.previous_bottom = 160;
    let both = Input { left: true, right: true, up: false, down: false };
    p.update(&grid, both, 100);
    assert_eq!(p.vel_x, 0);
    assert_eq!(p.pos_x, 120);
    assert_eq!(p.direction, PlayerDirection::Left);
    assert_eq!(p.current, PlayerFrame::Idle);
}

/// Fall speed is clamped after gravity integration.
#[test]
fn fall_speed_is_clamped() {
    let grid = grid_of(4, 4, &[]);
    let mut p = Player::new();
    p.pos_x = 0;
    p.pos_y = 0;
    p.vel_x = 0;
    p.vel_y = 500;
    p.on_ground = false;
    p.previous_bottom = 64;
    p.update(&grid, NO_INPUT, 100);
    // 500 + 340 overshoots the clamp of 550
    assert_eq!(p.vel_y, 550);
    assert_eq!(p.pos_y, 55);
}

/// The grid's side edges block: drifting off the left edge is stopped by
/// the out-of-range columns, which classify as solid.
#[test]
fn the_world_edge_blocks_sideways_motion() {
    let grid = grid_of(8, 8, &solid_row(5, 8, TileCollision::Impassable));
    let mut p = Player::new();
    p.pos_x = 0; // flush against the left world edge
    p.pos_y = 96;
    p.vel_x = -1000;
    p.vel_y = 0;
    p.on_ground = true;
    p.previous_bottom = 160;
    p.update(&grid, NO_INPUT, 10);
    assert_eq!(p.pos_x, 0);
    assert_eq!(p.vel_x, 0);
    assert_eq!(p.pos_y, 96);
}

/// The chosen pose's own clock advances; the other poses keep theirs.
#[test]
fn only_the_current_pose_clock_advances() {
    let grid = grid_of(8, 8, &solid_row(5, 8, TileCollision::Impassable));
    let mut p = Player::new();
    p.pos_x = 120;
    p.pos_y = 96;
    p.vel_x = 0;
    p.vel_y = 0;
    p.on_ground = true;
    p.previous_bottom = 160;
    p.update(&grid, NO_INPUT, 100);
    assert_eq!(p.current, PlayerFrame::Idle);
    assert_eq!(p.sprites[0].current_time(), 100);
    assert_eq!(p.sprites[1].current_time(), 0);
    assert_eq!(p.sprites[2].current_time(), 0);
    assert_eq!(p.current_frame_index(), 0);
}
