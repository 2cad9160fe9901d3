//! Tile grid, level decoding and the per-frame character physics step.

use crate::data::RectModel;
use crate::data::Rectangle;
use crate::gfx::TileCollision;
use vstd::math::abs;
use vstd::prelude::*;

verus! {

/// Width of one tile, in world units.
pub const TILE_WIDTH: i64 = 40;

/// Height of one tile, in world units.
pub const TILE_HEIGHT: i64 = 32;

/// Most tiles a grid may hold along either axis.
pub const MAX_GRID: usize = 1_000_000;

/// Why a level or grid was rejected at construction.
#[derive(Clone, Copy, Debug, PartialEq, Eq, Structural)]
pub enum LevelError {
    /// The rows do not all have the same length.
    Ragged,
    /// The grid exceeds `MAX_GRID` tiles along an axis.
    TooLarge,
    /// A byte of the level text does not name a tile kind.
    UnsupportedTile,
}

/// Mathematical model of a tile collision grid.
pub struct GridModel {
    pub rows: Seq<Seq<TileCollision>>,
    pub width: int,
    pub height: int,
}

impl GridModel {
    pub open spec fn wf(self) -> bool {
        &&& self.height == self.rows.len()
        &&& forall|i: int| 0 <= i < self.rows.len() ==> #[trigger] self.rows[i].len() == self.width
        &&& 0 <= self.width <= MAX_GRID
        &&& 0 <= self.height <= MAX_GRID
    }
}

/// Collision class of the tile at the given tile coordinates, with the
/// out-of-bounds policy applied first: rows outside the vertical range are
/// open (falling off the top or bottom does not collide), columns outside
/// the horizontal range are solid (the world's side edges block).
pub open spec fn classify_spec(g: GridModel, x: int, y: int) -> TileCollision {
    if y < 0 || y >= g.height {
        TileCollision::Passable
    } else if x < 0 || x >= g.width {
        TileCollision::Impassable
    } else {
        g.rows[y][x]
    }
}

/// All rows have the same length as the first one.
pub open spec fn rows_uniform<T>(rows: Seq<Seq<T>>) -> bool {
    forall|i: int| 0 <= i < rows.len() ==> #[trigger] rows[i].len() == rows_width(rows)
}

/// Width of a rectangular row list: the first row's length.
pub open spec fn rows_width<T>(rows: Seq<Seq<T>>) -> int {
    if rows.len() == 0 {
        0
    } else {
        rows[0].len() as int
    }
}

/// A rectangular array of tile collision classes: the level's read-only
/// collision data.
pub struct TileGrid {
    pub tiles: Vec<Vec<TileCollision>>,
    pub width: usize,
    pub height: usize,
}

impl View for TileGrid {
    type V = GridModel;

    open spec fn view(&self) -> GridModel {
        GridModel {
            rows: self.tiles@.map_values(|row: Vec<TileCollision>| row@),
            width: self.width as int,
            height: self.height as int,
        }
    }
}

impl TileGrid {
    /// Builds a grid from rows of tile classes, rejecting ragged or
    /// oversized input outright so that no malformed grid can reach the
    /// per-frame loop.
    pub fn new(tiles: Vec<Vec<TileCollision>>) -> (r: Result<TileGrid, LevelError>)
        ensures
            r is Ok <==> tiles@.len() <= MAX_GRID && rows_uniform(
                tiles@.map_values(|row: Vec<TileCollision>| row@),
            ) && rows_width(tiles@.map_values(|row: Vec<TileCollision>| row@)) <= MAX_GRID,
            tiles@.len() > MAX_GRID ==> r == Err::<TileGrid, LevelError>(LevelError::TooLarge),
            tiles@.len() <= MAX_GRID && !rows_uniform(
                tiles@.map_values(|row: Vec<TileCollision>| row@),
            ) ==> r == Err::<TileGrid, LevelError>(LevelError::Ragged),
            tiles@.len() <= MAX_GRID && rows_uniform(
                tiles@.map_values(|row: Vec<TileCollision>| row@),
            ) && rows_width(tiles@.map_values(|row: Vec<TileCollision>| row@)) > MAX_GRID ==> r
                == Err::<TileGrid, LevelError>(LevelError::TooLarge),
            r matches Ok(g) ==> g@ == (GridModel {
                rows: tiles@.map_values(|row: Vec<TileCollision>| row@),
                width: rows_width(tiles@.map_values(|row: Vec<TileCollision>| row@)),
                height: tiles@.len() as int,
            }) && g@.wf(),
    {
        let ghost rows = tiles@.map_values(|row: Vec<TileCollision>| row@);
        let height = tiles.len();
        if height > MAX_GRID {
            return Err(LevelError::TooLarge);
        }
        let width = if height == 0 {
            0
        } else {
            tiles[0].len()
        };
        assert(rows_width(rows) == width);
        let mut i: usize = 0;
        while i < height
            invariant
                i <= height,
                height == tiles@.len(),
                height <= MAX_GRID,
                rows == tiles@.map_values(|row: Vec<TileCollision>| row@),
                rows.len() == height,
                rows_width(rows) == width,
                forall|j: int| 0 <= j < i ==> #[trigger] rows[j].len() == width,
            decreases height - i,
        {
            if tiles[i].len() != width {
                assert(rows[i as int].len() != width);
                assert(!rows_uniform(rows));
                return Err(LevelError::Ragged);
            }
            i += 1;
        }
        assert(rows_uniform(rows));
        if width > MAX_GRID {
            return Err(LevelError::TooLarge);
        }
        Ok(TileGrid { tiles, width, height })
    }

    /// Collision class of the tile at tile coordinates `(x, y)`. Bounds are
    /// checked first: `y` outside `[0, height)` is `Passable`, then `x`
    /// outside `[0, width)` is `Impassable`; inside, the stored class.
    pub fn classify(&self, x: i64, y: i64) -> (c: TileCollision)
        requires
            self@.wf(),
        ensures
            c == classify_spec(self@, x as int, y as int),
    {
        if y < 0 || y >= self.height as i64 {
            TileCollision::Passable
        } else if x < 0 || x >= self.width as i64 {
            TileCollision::Impassable
        } else {
            self.tiles[y as usize][x as usize]
        }
    }
}

/// Width of the character's bounding box, in world units.
pub const PLAYER_WIDTH: i64 = 64;

/// Height of the character's bounding box, in world units.
pub const PLAYER_HEIGHT: i64 = 64;

/// Horizontal acceleration while a direction is held, in units/s per second.
pub const PLAYER_MOVE_ACCEL: i64 = 13000;

/// Horizontal speed clamp, in units/s.
pub const PLAYER_MAX_SPEED: i64 = 1750;

/// Percent of horizontal velocity kept each frame on the ground.
pub const PLAYER_GROUND_DRAG: i64 = 48;

/// Percent of horizontal velocity kept each frame in the air.
pub const PLAYER_AIR_DRAG: i64 = 58;

/// Longest jump-input hold that still produces launch impulse, in ms.
pub const PLAYER_MAX_JUMP_TIME: i64 = 350;

/// Vertical launch velocity at the start of a jump, in units/s (negative
/// is upward).
pub const PLAYER_JUMP_LAUNCH_VEL: i64 = -3500;

/// Downward acceleration, in units/s per second.
pub const PLAYER_GRAVITY_ACCEL: i64 = 3400;

/// Fall speed clamp applied after gravity integration, in units/s.
pub const PLAYER_MAX_FALL_SPEED: i64 = 550;

/// How much launch impulse magnitude decays per millisecond of jump hold;
/// equals `-PLAYER_JUMP_LAUNCH_VEL / PLAYER_MAX_JUMP_TIME`, so the impulse
/// decays from the full launch velocity to zero over the hold window.
pub const PLAYER_JUMP_DECAY: i64 = 10;

/// Position bound under which a character must stay for the physics step;
/// keeps every intermediate of the step inside `i64` with room to spare.
pub const POS_LIMIT: i64 = 100_000_000_000_000;

/// Longest per-frame elapsed time the step accepts, in milliseconds.
pub const MAX_FRAME_MS: i64 = 1000;

/// Directional and jump input flags sampled once per frame.
#[derive(Clone, Copy, Debug, PartialEq, Eq, Structural)]
pub struct Input {
    pub left: bool,
    pub right: bool,
    pub up: bool,
    pub down: bool,
}

/// Which way the character faces.
#[derive(Clone, Copy, Debug, PartialEq, Eq, Structural)]
pub enum PlayerDirection {
    Left,
    Right,
}

/// Discrete pose label derived from the physics outcome.
#[derive(Clone, Copy, Debug, PartialEq, Eq, Structural)]
pub enum PlayerFrame {
    Idle,
    Run,
    Jump,
    Celebrate,
    Die,
}

impl PlayerFrame {
    /// Position of this pose in the character's animation list.
    pub open spec fn index_spec(self) -> int {
        match self {
            PlayerFrame::Idle => 0,
            PlayerFrame::Run => 1,
            PlayerFrame::Jump => 2,
            PlayerFrame::Celebrate => 3,
            PlayerFrame::Die => 4,
        }
    }

    /// Position of this pose in the character's animation list.
    pub fn index(&self) -> (i: usize)
        ensures
            i == self.index_spec(),
    {
        match self {
            PlayerFrame::Idle => 0,
            PlayerFrame::Run => 1,
            PlayerFrame::Jump => 2,
            PlayerFrame::Celebrate => 3,
            PlayerFrame::Die => 4,
        }
    }
}

/// `v` clamped into `[lo, hi]`.
pub open spec fn clamp_spec(v: int, lo: int, hi: int) -> int {
    if v < lo {
        lo
    } else if v > hi {
        hi
    } else {
        v
    }
}

/// Quotient of `a` by `b` rounded toward zero, as the machine division
/// computes it.
pub open spec fn div_trunc(a: int, b: int) -> int {
    if a >= 0 {
        a / b
    } else {
        -((-a) / b)
    }
}

/// A per-second quantity scaled down to `dt` milliseconds.
pub open spec fn scaled_by_dt(v: int, dt: int) -> int {
    div_trunc(v * dt, 1000)
}

/// Quotient of `a` by `b` rounded upward (`b` positive).
pub open spec fn ceil_div_spec(a: int, b: int) -> int {
    (a + b - 1) / b
}

/// Quotient of `a` by `b` rounded downward (`b` positive).
pub fn floor_div(a: i64, b: i64) -> (q: i64)
    requires
        -1_000_000_000_000_000 <= a <= 1_000_000_000_000_000,
        1 <= b <= 1_000_000,
    ensures
        q == a as int / b as int,
        b * q <= a < b * q + b,
{
    let q: i64 = if a >= 0 {
        a / b
    } else {
        -((-a + b - 1) / b)
    };
    proof {
        let ai = a as int;
        let bi = b as int;
        if ai >= 0 {
            vstd::arithmetic::div_mod::lemma_fundamental_div_mod(ai, bi);
        } else {
            let c = -ai + bi - 1;
            let m = c / bi;
            let s = c % bi;
            vstd::arithmetic::div_mod::lemma_fundamental_div_mod(c, bi);
            if s == bi - 1 {
                assert(ai == (-m) * bi + 0) by (nonlinear_arith)
                    requires
                        c == bi * m + s,
                        c == -ai + bi - 1,
                        s == bi - 1,
                ;
                vstd::arithmetic::div_mod::lemma_fundamental_div_mod_converse(ai, bi, -m, 0);
            } else {
                assert(ai == (-m) * bi + (bi - 1 - s)) by (nonlinear_arith)
                    requires
                        c == bi * m + s,
                        c == -ai + bi - 1,
                ;
                vstd::arithmetic::div_mod::lemma_fundamental_div_mod_converse(
                    ai,
                    bi,
                    -m,
                    bi - 1 - s,
                );
            }
            assert(q == ai / bi);
            vstd::arithmetic::div_mod::lemma_fundamental_div_mod(ai, bi);
        }
        assert(bi * (ai / bi) <= ai < bi * (ai / bi) + bi) by (nonlinear_arith)
            requires
                bi >= 1,
                ai == bi * (ai / bi) + ai % bi,
                0 <= ai % bi < bi,
        ;
    }
    q
}

/// Quotient of `a` by `b` rounded upward (`b` positive).
pub fn ceil_div(a: i64, b: i64) -> (q: i64)
    requires
        -1_000_000_000_000_000 <= a <= 1_000_000_000_000_000,
        1 <= b <= 1_000_000,
    ensures
        q == ceil_div_spec(a as int, b as int),
        a <= b * q < a + b,
{
    let q: i64 = if a > 0 {
        (a + b - 1) / b
    } else {
        a / b
    };
    proof {
        let ai = a as int;
        let bi = b as int;
        if ai <= 0 {
            let c = -ai;
            let m = c / bi;
            let s = c % bi;
            vstd::arithmetic::div_mod::lemma_fundamental_div_mod(c, bi);
            assert(ai + bi - 1 == (-m) * bi + (bi - 1 - s)) by (nonlinear_arith)
                requires
                    c == bi * m + s,
                    c == -ai,
            ;
            vstd::arithmetic::div_mod::lemma_fundamental_div_mod_converse(
                ai + bi - 1,
                bi,
                -m,
                bi - 1 - s,
            );
            assert(q == -m);
        }
        let ci = ai + bi - 1;
        vstd::arithmetic::div_mod::lemma_fundamental_div_mod(ci, bi);
        assert(ai <= bi * (ci / bi) < ai + bi) by (nonlinear_arith)
            requires
                bi >= 1,
                ci == ai + bi - 1,
                ci == bi * (ci / bi) + ci % bi,
                0 <= ci % bi < bi,
        ;
    }
    q
}

/// Launch impulse while the jump timer reads `t` milliseconds: the full
/// launch velocity whose magnitude decays linearly to zero as `t` reaches
/// the end of the hold window.
pub open spec fn jump_impulse_spec(t: int) -> int {
    PLAYER_JUMP_LAUNCH_VEL + PLAYER_JUMP_DECAY * t
}

/// Launch impulse for a jump timer of `t` milliseconds.
pub fn jump_impulse(t: i64) -> (v: i64)
    requires
        0 <= t <= PLAYER_MAX_JUMP_TIME,
    ensures
        v == jump_impulse_spec(t as int),
        PLAYER_JUMP_LAUNCH_VEL <= v <= 0,
{
    PLAYER_JUMP_LAUNCH_VEL + PLAYER_JUMP_DECAY * t
}

/// For jump timers within the hold window, the launch impulse strictly
/// decreases in magnitude as the timer approaches the end of the window.
pub proof fn lemma_jump_impulse_decays(t1: int, t2: int)
    requires
        0 < t1 < t2 <= PLAYER_MAX_JUMP_TIME,
    ensures
        abs(jump_impulse_spec(t2)) < abs(jump_impulse_spec(t1)),
{
}

/// The character's bounding box with its top-left corner at `(px, py)`.
pub open spec fn player_box(px: int, py: int) -> RectModel {
    RectModel { x: px, y: py, w: PLAYER_WIDTH as int, h: PLAYER_HEIGHT as int }
}

/// The world-space box of the tile at tile coordinates `(tx, ty)`.
pub open spec fn tile_box(tx: int, ty: int) -> RectModel {
    RectModel {
        x: TILE_WIDTH * tx,
        y: TILE_HEIGHT * ty,
        w: TILE_WIDTH as int,
        h: TILE_HEIGHT as int,
    }
}

/// One step of the collision resolution loop: the character's working
/// position and grounded flag after resolving against the tile at
/// `(tx, ty)` of class `c`. A `Passable` or non-overlapping tile changes
/// nothing. Otherwise the smaller penetration axis is chosen — except that
/// a `Platform` is always treated vertically. A vertical hit grounds the
/// character only if its previous frame's bottom edge was at or above the
/// tile's top edge, and pushes it out by the vertical depth if the tile is
/// solid or the character just landed; a horizontal hit pushes only for a
/// solid tile.
pub open spec fn apply_tile(
    c: TileCollision,
    px: int,
    py: int,
    prev_bottom: int,
    grounded: bool,
    tx: int,
    ty: int,
) -> (int, int, bool) {
    let a = player_box(px, py);
    let b = tile_box(tx, ty);
    if c is Passable || !a.overlaps(b) {
        (px, py, grounded)
    } else {
        let dx = a.depth_x(b);
        let dy = a.depth_y(b);
        if abs(dy) < abs(dx) || c is Platform {
            let g2 = if prev_bottom <= b.y {
                true
            } else {
                grounded
            };
            if c is Impassable || g2 {
                (px, py + dy, g2)
            } else {
                (px, py, g2)
            }
        } else if c is Impassable {
            (px + dx, py, grounded)
        } else {
            (px, py, grounded)
        }
    }
}

/// The working state after resolving, in row-major order, every tile from
/// `(xth, yth)` through the end of the footprint `[left, right) x [top,
/// bottom)`, starting from position `(px, py)` and flag `grounded`. Each
/// tile is resolved against the already-adjusted box left by the tiles
/// before it.
pub open spec fn resolve_rec(
    g: GridModel,
    px: int,
    py: int,
    prev_bottom: int,
    grounded: bool,
    left: int,
    right: int,
    top: int,
    bottom: int,
    yth: int,
    xth: int,
) -> (int, int, bool)
    decreases bottom - yth, right - xth,
{
    if yth >= bottom || right <= left {
        (px, py, grounded)
    } else if xth >= right {
        resolve_rec(g, px, py, prev_bottom, grounded, left, right, top, bottom, yth + 1, left)
    } else {
        let s = apply_tile(classify_spec(g, xth, yth), px, py, prev_bottom, grounded, xth, yth);
        resolve_rec(g, s.0, s.1, prev_bottom, s.2, left, right, top, bottom, yth, xth + 1)
    }
}

/// Position and grounded flag after resolving the tentative position
/// `(px, py)` against every tile whose box the character's bounding box
/// overlaps: the footprint runs from the tile column containing the left
/// edge through the column past the right edge, and likewise for rows.
pub open spec fn resolve_spec(g: GridModel, px: int, py: int, prev_bottom: int) -> (
    int,
    int,
    bool,
) {
    let left = px / (TILE_WIDTH as int);
    let right = ceil_div_spec(px + PLAYER_WIDTH, TILE_WIDTH as int);
    let top = py / (TILE_HEIGHT as int);
    let bottom = ceil_div_spec(py + PLAYER_HEIGHT, TILE_HEIGHT as int);
    resolve_rec(g, px, py, prev_bottom, false, left, right, top, bottom, top, left)
}

/// Resolves the tentative position `(px0, py0)` against the tile grid,
/// walking the bounding box's tile footprint in row-major order and
/// correcting the working position tile by tile.
fn resolve_collisions(level: &TileGrid, px0: i64, py0: i64, prev_bottom: i64) -> (r: (
    i64,
    i64,
    bool,
))
    requires
        level@.wf(),
        -POS_LIMIT - 5000 <= px0 <= POS_LIMIT + 5000,
        -POS_LIMIT - 5000 <= py0 <= POS_LIMIT + 5000,
    ensures
        (r.0 as int, r.1 as int, r.2) == resolve_spec(
            level@,
            px0 as int,
            py0 as int,
            prev_bottom as int,
        ),
        -POS_LIMIT - 6000 <= r.0 <= POS_LIMIT + 6000,
        -POS_LIMIT - 6000 <= r.1 <= POS_LIMIT + 6000,
{
    let left: i64 = floor_div(px0, TILE_WIDTH);
    let right: i64 = ceil_div(px0 + PLAYER_WIDTH, TILE_WIDTH);
    let top: i64 = floor_div(py0, TILE_HEIGHT);
    let bottom: i64 = ceil_div(py0 + PLAYER_HEIGHT, TILE_HEIGHT);

    let mut px: i64 = px0;
    let mut py: i64 = py0;
    let mut grounded: bool = false;

    let ghost target = resolve_rec(
        level@,
        px0 as int,
        py0 as int,
        prev_bottom as int,
        false,
        left as int,
        right as int,
        top as int,
        bottom as int,
        top as int,
        left as int,
    );

    let mut yth: i64 = top;
    while yth < bottom
        invariant
            level@.wf(),
            top <= yth,
            yth <= bottom || yth == top,
            TILE_WIDTH * left <= px0 < TILE_WIDTH * left + TILE_WIDTH,
            px0 + PLAYER_WIDTH <= TILE_WIDTH * right < px0 + PLAYER_WIDTH + TILE_WIDTH,
            TILE_HEIGHT * top <= py0 < TILE_HEIGHT * top + TILE_HEIGHT,
            py0 + PLAYER_HEIGHT <= TILE_HEIGHT * bottom < py0 + PLAYER_HEIGHT + TILE_HEIGHT,
            -POS_LIMIT - 5000 <= px0 <= POS_LIMIT + 5000,
            -POS_LIMIT - 5000 <= py0 <= POS_LIMIT + 5000,
            px == px0 || TILE_WIDTH * left - PLAYER_WIDTH <= px <= TILE_WIDTH * right,
            py == py0 || TILE_HEIGHT * top - PLAYER_HEIGHT <= py <= TILE_HEIGHT * bottom,
            resolve_rec(
                level@,
                px as int,
                py as int,
                prev_bottom as int,
                grounded,
                left as int,
                right as int,
                top as int,
                bottom as int,
                yth as int,
                left as int,
            ) == target,
        decreases bottom - yth,
    {
        let mut xth: i64 = left;
        while xth < right
            invariant
                level@.wf(),
                left <= xth,
                xth <= right || xth == left,
                top <= yth < bottom,
                TILE_WIDTH * left <= px0 < TILE_WIDTH * left + TILE_WIDTH,
                px0 + PLAYER_WIDTH <= TILE_WIDTH * right < px0 + PLAYER_WIDTH + TILE_WIDTH,
                TILE_HEIGHT * top <= py0 < TILE_HEIGHT * top + TILE_HEIGHT,
                py0 + PLAYER_HEIGHT <= TILE_HEIGHT * bottom < py0 + PLAYER_HEIGHT + TILE_HEIGHT,
                -POS_LIMIT - 5000 <= px0 <= POS_LIMIT + 5000,
                -POS_LIMIT - 5000 <= py0 <= POS_LIMIT + 5000,
                px == px0 || TILE_WIDTH * left - PLAYER_WIDTH <= px <= TILE_WIDTH * right,
                py == py0 || TILE_HEIGHT * top - PLAYER_HEIGHT <= py <= TILE_HEIGHT * bottom,
                resolve_rec(
                    level@,
                    px as int,
                    py as int,
                    prev_bottom as int,
                    grounded,
                    left as int,
                    right as int,
                    top as int,
                    bottom as int,
                    yth as int,
                    xth as int,
                ) == target,
            decreases right - xth,
        {
            let ghost pre_px = px as int;
            let ghost pre_py = py as int;
            let ghost pre_grounded = grounded;
            let collision = level.classify(xth, yth);
            if collision != TileCollision::Passable {
                let tile = Rectangle {
                    x: xth * TILE_WIDTH,
                    y: yth * TILE_HEIGHT,
                    w: TILE_WIDTH,
                    h: TILE_HEIGHT,
                };
                let bound_rect = Rectangle { x: px, y: py, w: PLAYER_WIDTH, h: PLAYER_HEIGHT };
                assert(tile@ == tile_box(xth as int, yth as int));
                assert(bound_rect@ == player_box(px as int, py as int));
                match bound_rect.intersection_depth(&tile) {
                    Some(depth) => {
                        let (dx, dy) = depth;
                        assert(-200 <= dx <= 200 && -200 <= dy <= 200);
                        let adx: i64 = if dx >= 0 { dx } else { -dx };
                        let ady: i64 = if dy >= 0 { dy } else { -dy };
                        if ady < adx || collision == TileCollision::Platform {
                            if prev_bottom <= tile.y {
                                grounded = true;
                            }
                            if collision == TileCollision::Impassable || grounded {
                                py = py + dy;
                            }
                        } else if collision == TileCollision::Impassable {
                            px = px + dx;
                        }
                    },
                    None => {},
                }
            }
            proof {
                assert((px as int, py as int, grounded) == apply_tile(
                    classify_spec(level@, xth as int, yth as int),
                    pre_px,
                    pre_py,
                    prev_bottom as int,
                    pre_grounded,
                    xth as int,
                    yth as int,
                ));
                assert(resolve_rec(
                    level@,
                    pre_px,
                    pre_py,
                    prev_bottom as int,
                    pre_grounded,
                    left as int,
                    right as int,
                    top as int,
                    bottom as int,
                    yth as int,
                    xth as int,
                ) == resolve_rec(
                    level@,
                    px as int,
                    py as int,
                    prev_bottom as int,
                    grounded,
                    left as int,
                    right as int,
                    top as int,
                    bottom as int,
                    yth as int,
                    xth as int + 1,
                ));
            }
            xth = xth + 1;
        }
        proof {
            assert(resolve_rec(
                level@,
                px as int,
                py as int,
                prev_bottom as int,
                grounded,
                left as int,
                right as int,
                top as int,
                bottom as int,
                yth as int,
                xth as int,
            ) == resolve_rec(
                level@,
                px as int,
                py as int,
                prev_bottom as int,
                grounded,
                left as int,
                right as int,
                top as int,
                bottom as int,
                yth as int + 1,
                left as int,
            ));
        }
        yth = yth + 1;
    }
    (px, py, grounded)
}

/// Landing: a character whose bottom edge last frame was at or above a
/// platform tile's top edge, and whose box now overlaps that tile with its
/// center not below the tile's center, becomes grounded and has its bottom
/// edge snapped exactly to the tile's top edge; its horizontal position is
/// untouched.
pub proof fn lemma_platform_landing(px: int, py: int, prev_bottom: int, tx: int, ty: int)
    requires
        player_box(px, py).overlaps(tile_box(tx, ty)),
        prev_bottom <= TILE_HEIGHT * ty,
        player_box(px, py).center2_y() <= tile_box(tx, ty).center2_y(),
    ensures
        ({
            let r = apply_tile(TileCollision::Platform, px, py, prev_bottom, false, tx, ty);
            r.2 == true && r.1 + PLAYER_HEIGHT == TILE_HEIGHT * ty && r.0 == px
        }),
{
}

/// A character already overlapping a platform from the side or below (its
/// bottom edge last frame was below the tile's top edge) is neither
/// grounded by it nor pushed at all.
pub proof fn lemma_platform_no_catch(px: int, py: int, prev_bottom: int, tx: int, ty: int)
    requires
        prev_bottom > TILE_HEIGHT * ty,
    ensures
        apply_tile(TileCollision::Platform, px, py, prev_bottom, false, tx, ty) == (px, py, false),
{
}

/// Wall: when a solid tile is resolved horizontally (its vertical
/// penetration is at least as deep as its horizontal one), the character's
/// position is clamped exactly to the tile's near edge — the right edge of
/// its box to the tile's left edge when it comes from the left, and its
/// left edge to the tile's right edge when it comes from the right — while
/// its vertical position and grounded flag stay untouched. The physics
/// step then zeroes the horizontal velocity whenever the resolved position
/// equals the previous frame's (an ensures clause of `Player::update`).
pub proof fn lemma_wall_push(
    px: int,
    py: int,
    prev_bottom: int,
    grounded: bool,
    tx: int,
    ty: int,
)
    requires
        player_box(px, py).overlaps(tile_box(tx, ty)),
        abs(player_box(px, py).depth_y(tile_box(tx, ty))) >= abs(
            player_box(px, py).depth_x(tile_box(tx, ty)),
        ),
    ensures
        ({
            let r = apply_tile(TileCollision::Impassable, px, py, prev_bottom, grounded, tx, ty);
            &&& r.1 == py
            &&& r.2 == grounded
            &&& player_box(px, py).center2_x() <= tile_box(tx, ty).center2_x() ==> r.0
                + PLAYER_WIDTH == TILE_WIDTH * tx
            &&& player_box(px, py).center2_x() > tile_box(tx, ty).center2_x() ==> r.0
                == TILE_WIDTH * tx + TILE_WIDTH
        }),
{
}

/// Horizontal intent from the input flags: `-1` if only left is held, `1`
/// if only right is held, `0` otherwise.
pub open spec fn horizontal_intent(input: Input) -> int {
    if input.left && !input.right {
        -1
    } else if input.right && !input.left {
        1
    } else {
        0
    }
}

/// Mathematical model of the character's physics and animation state.
pub struct PlayerModel {
    pub pos_x: int,
    pub pos_y: int,
    pub vel_x: int,
    pub vel_y: int,
    pub on_ground: bool,
    pub is_jumping: bool,
    pub jump_time: int,
    pub previous_bottom: int,
    pub sprites: Seq<crate::gfx::AnimModel>,
    pub current: PlayerFrame,
    pub direction: PlayerDirection,
}

impl PlayerModel {
    /// State bounds that the step preserves and relies on: position within
    /// the world limit, velocities within their clamps, the jump timer
    /// within its window, and one well-formed animation clock per pose.
    pub open spec fn valid(self) -> bool {
        &&& -POS_LIMIT <= self.pos_x <= POS_LIMIT
        &&& -POS_LIMIT <= self.pos_y <= POS_LIMIT
        &&& -PLAYER_MAX_SPEED <= self.vel_x <= PLAYER_MAX_SPEED
        &&& PLAYER_JUMP_LAUNCH_VEL <= self.vel_y <= -PLAYER_JUMP_LAUNCH_VEL
        &&& 0 <= self.jump_time <= PLAYER_MAX_JUMP_TIME
        &&& self.sprites.len() == 5
        &&& forall|i: int| 0 <= i < self.sprites.len() ==> (#[trigger] self.sprites[i]).wf()
    }
}

/// The velocity-and-jump stage of the frame: the horizontal velocity after
/// input acceleration, drag and the speed clamp; the vertical velocity
/// after gravity, its clamp and any jump impulse; and the new jump timer.
pub open spec fn integrate_spec(
    vel_x: int,
    vel_y: int,
    jump_time: int,
    on_ground: bool,
    is_jumping: bool,
    input: Input,
    dt: int,
) -> (int, int, int) {
    let dxi = horizontal_intent(input);
    let vx1 = vel_x + scaled_by_dt(dxi * PLAYER_MOVE_ACCEL, dt);
    let vy1 = clamp_spec(
        vel_y + scaled_by_dt(PLAYER_GRAVITY_ACCEL as int, dt),
        -PLAYER_MAX_FALL_SPEED as int,
        PLAYER_MAX_FALL_SPEED as int,
    );
    let jt1 = if input.up && ((!is_jumping && on_ground) || jump_time > 0) {
        jump_time + dt
    } else {
        jump_time
    };
    let launching = input.up && 0 < jt1 <= PLAYER_MAX_JUMP_TIME;
    let vy2 = if launching {
        jump_impulse_spec(jt1)
    } else {
        vy1
    };
    let jt2 = if launching {
        jt1
    } else {
        0
    };
    let drag = if on_ground {
        PLAYER_GROUND_DRAG as int
    } else {
        PLAYER_AIR_DRAG as int
    };
    let vx2 = clamp_spec(
        div_trunc(vx1 * drag, 100),
        -PLAYER_MAX_SPEED as int,
        PLAYER_MAX_SPEED as int,
    );
    (vx2, vy2, jt2)
}

/// Integrates the held input, gravity, jump impulse and drag into the
/// character's velocity and jump timer for one frame.
fn integrate_velocity(
    vel_x: i64,
    vel_y: i64,
    jump_time: i64,
    on_ground: bool,
    is_jumping: bool,
    input: Input,
    dt: i64,
) -> (r: (i64, i64, i64))
    requires
        -PLAYER_MAX_SPEED <= vel_x <= PLAYER_MAX_SPEED,
        PLAYER_JUMP_LAUNCH_VEL <= vel_y <= -PLAYER_JUMP_LAUNCH_VEL,
        0 <= jump_time <= PLAYER_MAX_JUMP_TIME,
        0 <= dt <= MAX_FRAME_MS,
    ensures
        (r.0 as int, r.1 as int, r.2 as int) == integrate_spec(
            vel_x as int,
            vel_y as int,
            jump_time as int,
            on_ground,
            is_jumping,
            input,
            dt as int,
        ),
        -PLAYER_MAX_SPEED <= r.0 <= PLAYER_MAX_SPEED,
        PLAYER_JUMP_LAUNCH_VEL <= r.1 <= -PLAYER_JUMP_LAUNCH_VEL,
        0 <= r.2 <= PLAYER_MAX_JUMP_TIME,
{
    // horizontal intent
    let dxi: i64 = if input.left && !input.right {
        -1
    } else if input.right && !input.left {
        1
    } else {
        0
    };

    // the base velocity combines horizontal movement control with
    // acceleration downwards due to gravity
    let accel: i64 = dxi * PLAYER_MOVE_ACCEL;
    assert(-13_000_000 <= accel as int * dt <= 13_000_000) by (nonlinear_arith)
        requires
            -13000 <= accel <= 13000,
            0 <= dt <= 1000,
    ;
    let vx1: i64 = vel_x + (accel * dt) / 1000;
    let fallen: i64 = vel_y + (PLAYER_GRAVITY_ACCEL * dt) / 1000;
    let vy1: i64 = if fallen < -PLAYER_MAX_FALL_SPEED {
        -PLAYER_MAX_FALL_SPEED
    } else if fallen > PLAYER_MAX_FALL_SPEED {
        PLAYER_MAX_FALL_SPEED
    } else {
        fallen
    };

    // jump: the timer accumulates while the window is open, and within
    // the window the vertical velocity is overridden by the impulse
    let mut vy2: i64 = vy1;
    let mut jt: i64 = jump_time;
    if input.up {
        if (!is_jumping && on_ground) || jt > 0 {
            jt = jt + dt;
        }
        if 0 < jt && jt <= PLAYER_MAX_JUMP_TIME {
            vy2 = jump_impulse(jt);
        } else {
            jt = 0;
        }
    } else {
        jt = 0;
    }

    // drag, by the previous frame's grounded flag, then the speed clamp
    let drag: i64 = if on_ground {
        PLAYER_GROUND_DRAG
    } else {
        PLAYER_AIR_DRAG
    };
    assert(-1_000_000_000 <= vx1 as int * drag <= 1_000_000_000) by (nonlinear_arith)
        requires
            -15000 <= vx1 <= 15000,
            0 <= drag <= 100,
    ;
    let dragged: i64 = (vx1 * drag) / 100;
    let vx2: i64 = if dragged < -PLAYER_MAX_SPEED {
        -PLAYER_MAX_SPEED
    } else if dragged > PLAYER_MAX_SPEED {
        PLAYER_MAX_SPEED
    } else {
        dragged
    };

    (vx2, vy2, jt)
}

/// The character's state after one whole physics frame: velocity
/// integration, jump impulse, drag, position integration, tile collision
/// resolution, velocity zeroing against blocked axes, and pose selection
/// with the chosen pose's clock advanced.
pub open spec fn update_spec(p: PlayerModel, g: GridModel, input: Input, dt: int) -> PlayerModel {
    let dxi = horizontal_intent(input);
    let vel = integrate_spec(p.vel_x, p.vel_y, p.jump_time, p.on_ground, p.is_jumping, input, dt);
    let vx2 = vel.0;
    let vy2 = vel.1;
    let jt2 = vel.2;
    let px1 = p.pos_x + scaled_by_dt(vx2, dt);
    let py1 = p.pos_y + scaled_by_dt(vy2, dt);
    let res = resolve_spec(g, px1, py1, p.previous_bottom);
    let vx3 = if res.0 == p.pos_x {
        0
    } else {
        vx2
    };
    let vy3 = if res.1 == p.pos_y {
        0
    } else {
        vy2
    };
    let cur = if dxi == 0 && res.2 {
        PlayerFrame::Idle
    } else if !res.2 {
        PlayerFrame::Jump
    } else {
        PlayerFrame::Run
    };
    let dir = if dxi < 0 {
        PlayerDirection::Left
    } else if dxi > 0 {
        PlayerDirection::Right
    } else {
        p.direction
    };
    let idx = cur.index_spec();
    PlayerModel {
        pos_x: res.0,
        pos_y: res.1,
        vel_x: vx3,
        vel_y: vy3,
        on_ground: res.2,
        is_jumping: p.is_jumping,
        jump_time: jt2,
        previous_bottom: res.1 + PLAYER_HEIGHT,
        sprites: p.sprites.update(idx, p.sprites[idx].advanced(dt)),
        current: cur,
        direction: dir,
    }
}

/// The initial character state at spawn.
pub open spec fn initial_player() -> PlayerModel {
    PlayerModel {
        pos_x: 64,
        pos_y: 64,
        vel_x: 64,
        vel_y: 64,
        on_ground: true,
        is_jumping: false,
        jump_time: 0,
        previous_bottom: 0,
        sprites: seq![
            initial_clock(1, 1000),
            initial_clock(10, 66),
            initial_clock(11, 66),
            initial_clock(11, 66),
            initial_clock(11, 66),
        ],
        current: PlayerFrame::Idle,
        direction: PlayerDirection::Right,
    }
}

/// A freshly started animation clock.
pub open spec fn initial_clock(frames: int, frame_delay: int) -> crate::gfx::AnimModel {
    crate::gfx::AnimModel { frames, frame_delay, current_time: 0, max_time: frames * frame_delay }
}

/// The player character: position, velocity, jumping state, the bottom
/// edge it had last frame (which disambiguates landing on a platform from
/// already overlapping it), facing direction, current pose and one
/// animation clock per pose.
pub struct Player {
    pub pos_x: i64,
    pub pos_y: i64,
    pub vel_x: i64,
    pub vel_y: i64,
    pub on_ground: bool,
    pub is_jumping: bool,
    pub jump_time: i64,
    pub previous_bottom: i64,
    pub sprites: Vec<crate::gfx::AnimatedSprite>,
    pub current: PlayerFrame,
    pub direction: PlayerDirection,
}

impl View for Player {
    type V = PlayerModel;

    open spec fn view(&self) -> PlayerModel {
        PlayerModel {
            pos_x: self.pos_x as int,
            pos_y: self.pos_y as int,
            vel_x: self.vel_x as int,
            vel_y: self.vel_y as int,
            on_ground: self.on_ground,
            is_jumping: self.is_jumping,
            jump_time: self.jump_time as int,
            previous_bottom: self.previous_bottom as int,
            sprites: self.sprites@.map_values(|s: crate::gfx::AnimatedSprite| s@),
            current: self.current,
            direction: self.direction,
        }
    }
}

impl Player {
    /// A character at the spawn state: the idle pose's single still frame
    /// and four played poses at fifteen frames per second.
    pub fn new() -> (p: Player)
        ensures
            p@ == initial_player(),
            p@.valid(),
    {
        let idle = crate::gfx::AnimatedSprite::with_fps(1, 1).unwrap();
        let run = crate::gfx::AnimatedSprite::with_fps(10, 15).unwrap();
        let jump = crate::gfx::AnimatedSprite::with_fps(11, 15).unwrap();
        let celebrate = crate::gfx::AnimatedSprite::with_fps(11, 15).unwrap();
        let die = crate::gfx::AnimatedSprite::with_fps(11, 15).unwrap();
        let mut sprites: Vec<crate::gfx::AnimatedSprite> = Vec::new();
        sprites.push(idle);
        sprites.push(run);
        sprites.push(jump);
        sprites.push(celebrate);
        sprites.push(die);
        let p = Player {
            pos_x: 64,
            pos_y: 64,
            vel_x: 64,
            vel_y: 64,
            on_ground: true,
            is_jumping: false,
            jump_time: 0,
            previous_bottom: 0,
            sprites,
            current: PlayerFrame::Idle,
            direction: PlayerDirection::Right,
        };
        proof {
            assert(p@.sprites =~= initial_player().sprites);
            assert(p@ == initial_player());
        }
        p
    }

    /// The character's bounding box at its current position.
    pub fn bounding_rect(&self) -> (r: Rectangle)
        ensures
            r@ == player_box(self@.pos_x, self@.pos_y),
    {
        Rectangle { x: self.pos_x, y: self.pos_y, w: PLAYER_WIDTH, h: PLAYER_HEIGHT }
    }

    /// How the character's sprite is mirrored for its facing direction.
    pub fn render_fx(&self) -> (fx: crate::gfx::RenderFx)
        ensures
            self.direction is Left ==> fx is NoFlip,
            self.direction is Right ==> fx is FlipX,
    {
        match self.direction {
            PlayerDirection::Left => crate::gfx::RenderFx::NoFlip,
            PlayerDirection::Right => crate::gfx::RenderFx::FlipX,
        }
    }

    /// Index of the frame to draw now, within the current pose's frames.
    pub fn current_frame_index(&self) -> (i: usize)
        requires
            self@.valid(),
        ensures
            i == self@.sprites[self.current.index_spec()].frame_index(),
    {
        let idx: usize = self.current.index();
        assert(self@.sprites[idx as int] == self.sprites@[idx as int]@);
        self.sprites[idx].current_frame()
    }

    /// One whole physics frame: integrates the held input and gravity into
    /// the velocity, applies jump impulse within the hold window, drag and
    /// the speed clamps, advances the position, resolves it against the
    /// tile grid, re-derives the grounded flag from scratch, zeroes the
    /// velocity along fully blocked axes, and selects pose and facing.
    pub fn update(&mut self, level: &TileGrid, input: Input, dt: i64)
        requires
            old(self)@.valid(),
            level@.wf(),
            0 <= dt <= MAX_FRAME_MS,
        ensures
            final(self)@ == update_spec(old(self)@, level@, input, dt as int),
            final(self)@.pos_x == old(self)@.pos_x ==> final(self)@.vel_x == 0,
            final(self)@.pos_y == old(self)@.pos_y ==> final(self)@.vel_y == 0,
            -PLAYER_MAX_SPEED <= final(self)@.vel_x <= PLAYER_MAX_SPEED,
            PLAYER_JUMP_LAUNCH_VEL <= final(self)@.vel_y <= -PLAYER_JUMP_LAUNCH_VEL,
            0 <= final(self)@.jump_time <= PLAYER_MAX_JUMP_TIME,
            final(self)@.sprites.len() == 5,
            forall|i: int| 0 <= i < 5 ==> (#[trigger] final(self)@.sprites[i]).wf(),
    {
        let ghost p0 = self@;

        // horizontal intent, repeated for pose and facing selection below
        let dxi: i64 = if input.left && !input.right {
            -1
        } else if input.right && !input.left {
            1
        } else {
            0
        };

        // velocity integration: input acceleration, gravity and its clamp,
        // jump impulse within the hold window, drag and the speed clamp
        let (vx, vy, jt) = integrate_velocity(
            self.vel_x,
            self.vel_y,
            self.jump_time,
            self.on_ground,
            self.is_jumping,
            input,
            dt,
        );
        self.vel_x = vx;
        self.vel_y = vy;
        self.jump_time = jt;

        // position integration
        let old_x: i64 = self.pos_x;
        let old_y: i64 = self.pos_y;
        assert(-4_000_000 <= vx as int * dt <= 4_000_000) by (nonlinear_arith)
            requires
                -4000 <= vx <= 4000,
                0 <= dt <= 1000,
        ;
        assert(-4_000_000 <= vy as int * dt <= 4_000_000) by (nonlinear_arith)
            requires
                -4000 <= vy <= 4000,
                0 <= dt <= 1000,
        ;
        self.pos_x = self.pos_x + (vx * dt) / 1000;
        self.pos_y = self.pos_y + (vy * dt) / 1000;

        // collision resolution over the box's tile footprint; the grounded
        // flag is recomputed from scratch
        let (rx, ry, grounded) = resolve_collisions(
            level,
            self.pos_x,
            self.pos_y,
            self.previous_bottom,
        );
        self.pos_x = rx;
        self.pos_y = ry;
        self.on_ground = grounded;

        self.previous_bottom = self.pos_y + PLAYER_HEIGHT;

        // reset the velocity along an axis a collision fully blocked
        if old_x == self.pos_x {
            self.vel_x = 0;
        }
        if old_y == self.pos_y {
            self.vel_y = 0;
        }

        // pose and facing from the resolved outcome
        self.current = if dxi == 0 && self.on_ground {
            PlayerFrame::Idle
        } else if !self.on_ground {
            PlayerFrame::Jump
        } else {
            PlayerFrame::Run
        };
        if dxi < 0 {
            self.direction = PlayerDirection::Left;
        } else if dxi > 0 {
            self.direction = PlayerDirection::Right;
        }

        // advance the chosen pose's own clock
        let idx: usize = self.current.index();
        assert(p0.sprites[idx as int] == self.sprites@[idx as int]@);
        let clock = &mut self.sprites[idx];
        clock.add_time(dt);

        proof {
            let m = update_spec(p0, level@, input, dt as int);
            assert(self@.sprites =~= m.sprites);
            assert(self@ == m);
        }
    }
}

/// Byte of level text for open space (an ASCII full stop).
pub const BYTE_OPEN: u8 = 46;

/// Byte of level text marking the exit point (an ASCII capital X).
pub const BYTE_EXIT: u8 = 88;

/// Byte of level text marking a gem (an ASCII capital G).
pub const BYTE_GEM: u8 = 71;

/// Byte of level text for a floating platform (an ASCII hyphen).
pub const BYTE_PLATFORM: u8 = 45;

/// Bytes of level text reserved for enemies (ASCII capitals A to D); the
/// tiles themselves are open.
pub const BYTE_ENEMY_A: u8 = 65;

pub const BYTE_ENEMY_B: u8 = 66;

pub const BYTE_ENEMY_C: u8 = 67;

pub const BYTE_ENEMY_D: u8 = 68;

/// Byte of level text for a platform block (an ASCII tilde).
pub const BYTE_PLATFORM_BLOCK: u8 = 126;

/// Byte of level text for a passable block (an ASCII colon).
pub const BYTE_PASSABLE_BLOCK: u8 = 58;

/// Byte of level text marking the character's start point (an ASCII 1).
pub const BYTE_START: u8 = 49;

/// Byte of level text for a solid block (an ASCII number sign).
pub const BYTE_SOLID: u8 = 35;

/// Whether a byte of level text names a tile kind.
pub open spec fn tile_supported(b: u8) -> bool {
    b == BYTE_OPEN || b == BYTE_EXIT || b == BYTE_GEM || b == BYTE_PLATFORM || b == BYTE_ENEMY_A
        || b == BYTE_ENEMY_B || b == BYTE_ENEMY_C || b == BYTE_ENEMY_D || b == BYTE_PLATFORM_BLOCK
        || b == BYTE_PASSABLE_BLOCK || b == BYTE_START || b == BYTE_SOLID
}

/// Collision class a supported byte of level text stands for: `#` is a
/// solid block, `-` and `~` are platforms, everything else (open space and
/// the marker bytes for exit, gems, enemies and the start point) is open.
pub open spec fn tile_class(b: u8) -> TileCollision {
    if b == BYTE_SOLID {
        TileCollision::Impassable
    } else if b == BYTE_PLATFORM || b == BYTE_PLATFORM_BLOCK {
        TileCollision::Platform
    } else {
        TileCollision::Passable
    }
}

/// Every byte of every row names a tile kind.
pub open spec fn all_supported(rows: Seq<Seq<u8>>) -> bool {
    forall|i: int, j: int|
        0 <= i < rows.len() && 0 <= j < rows[i].len() ==> tile_supported(#[trigger] rows[i][j])
}

/// One row of level text decoded to collision classes.
pub open spec fn decode_row(row: Seq<u8>) -> Seq<TileCollision> {
    row.map_values(|b: u8| tile_class(b))
}

/// Level text decoded to collision classes.
pub open spec fn decode_rows(rows: Seq<Seq<u8>>) -> Seq<Seq<TileCollision>> {
    rows.map_values(|row: Seq<u8>| decode_row(row))
}

/// Column of the last occurrence of marker byte `m` in a row, if any.
pub open spec fn last_marker_in_row(row: Seq<u8>, m: u8) -> Option<int>
    decreases row.len(),
{
    if row.len() == 0 {
        None
    } else if row.last() == m {
        Some(row.len() - 1)
    } else {
        last_marker_in_row(row.drop_last(), m)
    }
}

/// Tile coordinates of the last occurrence of marker byte `m` in the level
/// text, in row-major scan order, if any.
pub open spec fn last_marker(rows: Seq<Seq<u8>>, m: u8) -> Option<(int, int)>
    decreases rows.len(),
{
    if rows.len() == 0 {
        None
    } else {
        match last_marker_in_row(rows.last(), m) {
            Some(x) => Some((x, rows.len() - 1)),
            None => last_marker(rows.drop_last(), m),
        }
    }
}

/// World-space center of the tile holding the last occurrence of marker
/// byte `m`, or the origin when the marker never occurs.
pub open spec fn marker_world(rows: Seq<Seq<u8>>, m: u8) -> (int, int) {
    match last_marker(rows, m) {
        Some(p) => (
            TILE_WIDTH * p.0 + TILE_WIDTH / 2,
            TILE_HEIGHT * p.1 + TILE_HEIGHT / 2,
        ),
        None => (0, 0),
    }
}

/// World-space centers of the gem tiles in one row, left to right.
pub open spec fn gems_in_row(row: Seq<u8>, y: int) -> Seq<(int, int)>
    decreases row.len(),
{
    if row.len() == 0 {
        Seq::empty()
    } else {
        gems_in_row(row.drop_last(), y) + if row.last() == BYTE_GEM {
            seq![
                (
                    TILE_WIDTH * (row.len() - 1) + TILE_WIDTH / 2,
                    TILE_HEIGHT * y + TILE_HEIGHT / 2,
                ),
            ]
        } else {
            Seq::empty()
        }
    }
}

/// World-space centers of all gem tiles, in row-major scan order.
pub open spec fn gem_positions(rows: Seq<Seq<u8>>) -> Seq<(int, int)>
    decreases rows.len(),
{
    if rows.len() == 0 {
        Seq::empty()
    } else {
        gem_positions(rows.drop_last()) + gems_in_row(rows.last(), rows.len() - 1)
    }
}

/// The world-space gem positions as unbounded integer pairs.
pub open spec fn gem_view(gs: Seq<(i64, i64)>) -> Seq<(int, int)> {
    gs.map_values(|g: (i64, i64)| (g.0 as int, g.1 as int))
}

/// A decoded level: its collision grid, the world-space start and exit
/// points, and the gem positions in scan order.
pub struct LevelMap {
    pub grid: TileGrid,
    pub start_x: i64,
    pub start_y: i64,
    pub exit_x: i64,
    pub exit_y: i64,
    pub gems: Vec<(i64, i64)>,
}

impl LevelMap {
    /// Decodes level text, one byte per tile, into a collision grid plus
    /// the start point, exit point and gem positions its marker bytes
    /// denote (for a marker seen more than once, the last in scan order
    /// wins). Ragged or oversized text, or a byte that names no tile kind,
    /// is rejected outright.
    pub fn parse(lines: &Vec<Vec<u8>>) -> (r: Result<LevelMap, LevelError>)
        ensures
            ({
                let rows = lines@.map_values(|row: Vec<u8>| row@);
                &&& (r is Ok <==> rows.len() <= MAX_GRID && rows_uniform(rows) && rows_width(rows)
                    <= MAX_GRID && all_supported(rows))
                &&& rows.len() > MAX_GRID ==> r == Err::<LevelMap, LevelError>(LevelError::TooLarge)
                &&& rows.len() <= MAX_GRID && !rows_uniform(rows) ==> r == Err::<
                    LevelMap,
                    LevelError,
                >(LevelError::Ragged)
                &&& rows.len() <= MAX_GRID && rows_uniform(rows) && rows_width(rows) > MAX_GRID
                    ==> r == Err::<LevelMap, LevelError>(LevelError::TooLarge)
                &&& rows.len() <= MAX_GRID && rows_uniform(rows) && rows_width(rows) <= MAX_GRID
                    && !all_supported(rows) ==> r == Err::<LevelMap, LevelError>(
                    LevelError::UnsupportedTile,
                )
                &&& r matches Ok(m) ==> {
                    &&& m.grid@ == (GridModel {
                        rows: decode_rows(rows),
                        width: rows_width(rows),
                        height: rows.len() as int,
                    })
                    &&& m.grid@.wf()
                    &&& (m.start_x as int, m.start_y as int) == marker_world(rows, BYTE_START)
                    &&& (m.exit_x as int, m.exit_y as int) == marker_world(rows, BYTE_EXIT)
                    &&& gem_view(m.gems@) == gem_positions(rows)
                }
            }),
    {
        let ghost rows = lines@.map_values(|row: Vec<u8>| row@);
        let height = lines.len();
        if height > MAX_GRID {
            return Err(LevelError::TooLarge);
        }
        let width = if height == 0 {
            0
        } else {
            lines[0].len()
        };
        let mut i: usize = 0;
        while i < height
            invariant
                i <= height,
                height == lines@.len(),
                height <= MAX_GRID,
                rows == lines@.map_values(|row: Vec<u8>| row@),
                rows.len() == height,
                rows_width(rows) == width,
                forall|j: int| 0 <= j < i ==> #[trigger] rows[j].len() == width,
            decreases height - i,
        {
            if lines[i].len() != width {
                assert(rows[i as int].len() != width);
                assert(!rows_uniform(rows));
                return Err(LevelError::Ragged);
            }
            i += 1;
        }
        assert(rows_uniform(rows));
        if width > MAX_GRID {
            return Err(LevelError::TooLarge);
        }

        let mut tiles: Vec<Vec<TileCollision>> = Vec::new();
        let mut gems: Vec<(i64, i64)> = Vec::new();
        let mut start_x: i64 = 0;
        let mut start_y: i64 = 0;
        let mut exit_x: i64 = 0;
        let mut exit_y: i64 = 0;

        let mut y: usize = 0;
        while y < height
            invariant
                y <= height,
                height == lines@.len(),
                height <= MAX_GRID,
                width <= MAX_GRID,
                rows == lines@.map_values(|row: Vec<u8>| row@),
                rows.len() == height,
                rows_width(rows) == width,
                rows_uniform(rows),
                forall|a: int, b: int|
                    0 <= a < y && 0 <= b < rows[a].len() ==> tile_supported(#[trigger] rows[a][b]),
                tiles@.len() == y,
                forall|a: int| 0 <= a < y ==> #[trigger] tiles@[a]@ == decode_row(rows[a]),
                (start_x as int, start_y as int) == marker_world(rows.take(y as int), BYTE_START),
                (exit_x as int, exit_y as int) == marker_world(rows.take(y as int), BYTE_EXIT),
                gem_view(gems@) == gem_positions(rows.take(y as int)),
            decreases height - y,
        {
            let ghost prev_rows = rows.take(y as int);
            let ghost prev_start: (int, int) = (start_x as int, start_y as int);
            let ghost prev_exit: (int, int) = (exit_x as int, exit_y as int);
            let ghost prev_gems = gem_view(gems@);
            let ghost row = rows[y as int];
            let line = &lines[y];
            let mut rowv: Vec<TileCollision> = Vec::new();
            let mut x: usize = 0;
            while x < width
                invariant
                    x <= width,
                    y < height,
                    height == lines@.len(),
                    height <= MAX_GRID,
                    width <= MAX_GRID,
                    rows == lines@.map_values(|row_: Vec<u8>| row_@),
                    rows.len() == height,
                    rows_uniform(rows),
                    rows_width(rows) == width,
                    row == rows[y as int],
                    row.len() == width,
                    line@ == row,
                    forall|b: int| 0 <= b < x ==> tile_supported(#[trigger] row[b]),
                    rowv@.len() == x,
                    forall|b: int| 0 <= b < x ==> #[trigger] rowv@[b] == tile_class(row[b]),
                    ({
                        let sofar = match last_marker_in_row(row.take(x as int), BYTE_START) {
                            Some(j) => (
                                TILE_WIDTH * j + TILE_WIDTH / 2,
                                TILE_HEIGHT * (y as int) + TILE_HEIGHT / 2,
                            ),
                            None => prev_start,
                        };
                        (start_x as int, start_y as int) == sofar
                    }),
                    ({
                        let sofar = match last_marker_in_row(row.take(x as int), BYTE_EXIT) {
                            Some(j) => (
                                TILE_WIDTH * j + TILE_WIDTH / 2,
                                TILE_HEIGHT * (y as int) + TILE_HEIGHT / 2,
                            ),
                            None => prev_exit,
                        };
                        (exit_x as int, exit_y as int) == sofar
                    }),
                    gem_view(gems@) == prev_gems + gems_in_row(row.take(x as int), y as int),
                decreases width - x,
            {
                let b = line[x];
                if !(b == BYTE_OPEN || b == BYTE_EXIT || b == BYTE_GEM || b == BYTE_PLATFORM
                    || b == BYTE_ENEMY_A || b == BYTE_ENEMY_B || b == BYTE_ENEMY_C
                    || b == BYTE_ENEMY_D || b == BYTE_PLATFORM_BLOCK || b == BYTE_PASSABLE_BLOCK
                    || b == BYTE_START || b == BYTE_SOLID) {
                    assert(!tile_supported(row[x as int]));
                    assert(!all_supported(rows));
                    return Err(LevelError::UnsupportedTile);
                }
                let c = if b == BYTE_SOLID {
                    TileCollision::Impassable
                } else if b == BYTE_PLATFORM || b == BYTE_PLATFORM_BLOCK {
                    TileCollision::Platform
                } else {
                    TileCollision::Passable
                };
                assert(tile_supported(row[x as int]) && c == tile_class(row[x as int]));
                if b == BYTE_START {
                    start_x = (x as i64) * TILE_WIDTH + TILE_WIDTH / 2;
                    start_y = (y as i64) * TILE_HEIGHT + TILE_HEIGHT / 2;
                }
                if b == BYTE_EXIT {
                    exit_x = (x as i64) * TILE_WIDTH + TILE_WIDTH / 2;
                    exit_y = (y as i64) * TILE_HEIGHT + TILE_HEIGHT / 2;
                }
                let ghost gems_before = gems@;
                if b == BYTE_GEM {
                    gems.push(
                        (
                            (x as i64) * TILE_WIDTH + TILE_WIDTH / 2,
                            (y as i64) * TILE_HEIGHT + TILE_HEIGHT / 2,
                        ),
                    );
                    proof {
                        assert(gem_view(gems@) =~= gem_view(gems_before).push(
                            (
                                TILE_WIDTH * (x as int) + TILE_WIDTH / 2,
                                TILE_HEIGHT * (y as int) + TILE_HEIGHT / 2,
                            ),
                        ));
                    }
                }
                rowv.push(c);
                proof {
                    assert(row.take(x as int + 1).drop_last() =~= row.take(x as int));
                    assert(row.take(x as int + 1).last() == row[x as int]);
                    assert(gems_in_row(row.take(x as int + 1), y as int) == gems_in_row(
                        row.take(x as int),
                        y as int,
                    ) + (if row[x as int] == BYTE_GEM {
                        seq![
                            (
                                TILE_WIDTH * (x as int) + TILE_WIDTH / 2,
                                TILE_HEIGHT * (y as int) + TILE_HEIGHT / 2,
                            ),
                        ]
                    } else {
                        Seq::<(int, int)>::empty()
                    }));
                    assert(gem_view(gems@) =~= prev_gems + gems_in_row(
                        row.take(x as int + 1),
                        y as int,
                    ));
                }
                x += 1;
            }
            tiles.push(rowv);
            proof {
                assert(row.take(width as int) =~= row);
                assert(rowv@ =~= decode_row(row));
                assert(rows.take(y as int + 1).drop_last() =~= rows.take(y as int));
                assert(rows.take(y as int + 1).last() == rows[y as int]);
            }
            y += 1;
        }
        proof {
            assert(rows.take(height as int) =~= rows);
            assert(forall|a: int, b: int|
                0 <= a < rows.len() && 0 <= b < rows[a].len() ==> tile_supported(
                    #[trigger] rows[a][b],
                ));
            assert(all_supported(rows));
            assert(tiles@.map_values(|row_: Vec<TileCollision>| row_@) =~= decode_rows(rows));
        }
        let grid = TileGrid { tiles, width, height };
        Ok(LevelMap { grid, start_x, start_y, exit_x, exit_y, gems })
    }
}

} // verus!
