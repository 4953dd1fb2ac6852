//! Entities, the game world, and its mathematical model.
//!
//! Coordinates are integers in sub-units, 60 to a logical unit, with the
//! origin at the center of the canvas.  Velocities are sub-units per second,
//! so one tick (1/60 s) advances a position by the velocity divided by 60.

use vstd::prelude::*;
use crate::geom::BoxModel;
use crate::geom::Aabb;
use crate::geom::COORD_LIMIT;

verus! {

/// Sub-units per logical unit.
pub const SUBS: i64 = 60;

/// Canvas width, 1000 units.
pub const CANVAS_WIDTH: i64 = 60000;

/// Canvas height, 800 units.
pub const CANVAS_HEIGHT: i64 = 48000;

/// Horizontal center-to-edge distance of the canvas.
pub const ARENA_HALF_WIDTH: i64 = 30000;

/// Vertical center-to-edge distance of the canvas.
pub const ARENA_HALF_HEIGHT: i64 = 24000;

/// Half of the wall thickness, 10 units.
pub const WALL_HALF_THICKNESS: i64 = 600;

/// Half length of the left and right walls, (800 + 20) / 2 units.
pub const SIDE_WALL_HALF_LEN: i64 = 24600;

/// Half length of the top and bottom walls, (1000 + 20) / 2 units.
pub const FLAT_WALL_HALF_LEN: i64 = 30600;

/// Half of the paddle width, 60 units.
pub const PADDLE_HALF_WIDTH: i64 = 3600;

/// Half of the paddle height, 10 units.
pub const PADDLE_HALF_HEIGHT: i64 = 600;

/// The paddle's fixed height: 30 units above the bottom wall's center.
pub const PADDLE_Y: i64 = -22200;

/// Paddle travel per tick: 800 units per second over 60 ticks per second.
pub const PADDLE_STEP: i64 = 800;

/// Paddle padding of 20 units keeps the paddle off the side walls.
pub const PADDLE_MIN_X: i64 = -24600;

/// Mirror bound of `PADDLE_MIN_X`.
pub const PADDLE_MAX_X: i64 = 24600;

/// Half of the ball's square side, 15 units.
pub const BALL_HALF: i64 = 900;

/// The ball's starting x position.
pub const BALL_START_X: i64 = 0;

/// The ball's starting y position, 50 units below the center.
pub const BALL_START_Y: i64 = -3000;

/// Ball base speed, 500 units per second.
pub const BALL_SPEED: i64 = 30000;

/// Launch speed on each axis: half the base speed.
pub const LAUNCH_SPEED: i64 = 15000;

/// A waiting ball sits 25 units above the paddle's center.
pub const STICK_OFFSET_Y: i64 = 1500;

/// Half of the brick width, 35 units.
pub const BRICK_HALF_WIDTH: i64 = 2100;

/// Half of the brick height, 12.5 units.
pub const BRICK_HALF_HEIGHT: i64 = 750;

/// Bricks per row.
pub const BRICK_COLS: usize = 12;

/// Brick rows.
pub const BRICK_ROWS: usize = 6;

/// x position of the first brick column, 80 units right of the left wall.
pub const BRICK_X0: i64 = -25200;

/// y position of the first brick row, 80 units below the top wall.
pub const BRICK_Y0: i64 = 19200;

/// Horizontal spacing between brick columns, 75 units.
pub const BRICK_DX: i64 = 4500;

/// Vertical spacing between brick rows, 30 units.
pub const BRICK_DY: i64 = 1800;

/// Number of cycling brick colors.
pub const BRICK_COLOR_COUNT: u8 = 6;

/// Gain in the ball's vertical speed for each destroyed brick, 10 units/s.
pub const SPEED_INCREMENT: i64 = 600;

/// The paddle-bounce contact offset is divided by 70 before clamping.
pub const STEER_DIVISOR: i64 = 70;

/// Clamp bound of the steering ratio: 0.8 in sub-unit scale.
pub const STEER_LIMIT: i64 = 48;

/// The clamped steering ratio times this gain gives the new x velocity.
pub const STEER_GAIN: i64 = 500;

/// Simulation ticks per second.
pub const TICK_RATE: i64 = 60;

/// Lives at the start of a run.
pub const START_LIVES: u32 = 3;

/// Largest ball or paddle coordinate magnitude a tick accepts.
pub const POS_LIMIT: i64 = 900000000;

/// Largest velocity magnitude a tick accepts.
pub const VEL_LIMIT: i64 = 1000000;

/// Largest score a tick accepts (one tick adds at most one point per brick).
pub const SCORE_LIMIT: u32 = 4000000000;

/// The four static walls framing the arena.
#[derive(Clone, Copy, Debug, PartialEq, Eq, Structural)]
pub enum WallLocation {
    Left,
    Right,
    Bottom,
    Top,
}

/// Mathematical ball state: position and velocity.
pub struct BallModel {
    pub x: int,
    pub y: int,
    pub vx: int,
    pub vy: int,
}

/// Mathematical brick state: a fixed position, a color index, and whether
/// the brick still stands.
pub struct BrickModel {
    pub x: int,
    pub y: int,
    pub color: int,
    pub alive: bool,
}

/// Mathematical state of the whole game.
#[verifier::ext_equal]
pub struct WorldModel {
    pub ball: BallModel,
    pub paddle_x: int,
    pub bricks: Seq<BrickModel>,
    pub score: int,
    pub lives: int,
    pub ball_waiting: bool,
}

/// Executable ball state.
#[derive(Clone, Copy, Debug)]
pub struct Ball {
    pub x: i64,
    pub y: i64,
    pub vx: i64,
    pub vy: i64,
}

impl View for Ball {
    type V = BallModel;

    open spec fn view(&self) -> BallModel {
        BallModel { x: self.x as int, y: self.y as int, vx: self.vx as int, vy: self.vy as int }
    }
}

/// Executable brick state.
#[derive(Clone, Copy, Debug)]
pub struct Brick {
    pub x: i64,
    pub y: i64,
    pub color: u8,
    pub alive: bool,
}

impl View for Brick {
    type V = BrickModel;

    open spec fn view(&self) -> BrickModel {
        BrickModel { x: self.x as int, y: self.y as int, color: self.color as int, alive: self.alive }
    }
}

/// Executable state of the whole game: the one ball, the one paddle, the
/// brick arena (destroyed bricks keep their slot with `alive` cleared, so
/// brick indices stay stable), and the score, lives and ball-waiting flag.
#[derive(Debug)]
pub struct World {
    pub ball: Ball,
    pub paddle_x: i64,
    pub bricks: Vec<Brick>,
    pub score: u32,
    pub lives: u32,
    pub ball_waiting: bool,
}

impl View for World {
    type V = WorldModel;

    open spec fn view(&self) -> WorldModel {
        WorldModel {
            ball: self.ball@,
            paddle_x: self.paddle_x as int,
            bricks: Seq::new(self.bricks@.len(), |i: int| self.bricks@[i]@),
            score: self.score as int,
            lives: self.lives as int,
            ball_waiting: self.ball_waiting,
        }
    }
}

/// The box the ball occupies.
pub open spec fn ball_box(b: BallModel) -> BoxModel {
    BoxModel { x: b.x, y: b.y, hw: BALL_HALF as int, hh: BALL_HALF as int }
}

/// The box the paddle occupies; its height never changes.
pub open spec fn paddle_box(paddle_x: int) -> BoxModel {
    BoxModel {
        x: paddle_x,
        y: PADDLE_Y as int,
        hw: PADDLE_HALF_WIDTH as int,
        hh: PADDLE_HALF_HEIGHT as int,
    }
}

/// The box a brick occupies.
pub open spec fn brick_box(b: BrickModel) -> BoxModel {
    BoxModel { x: b.x, y: b.y, hw: BRICK_HALF_WIDTH as int, hh: BRICK_HALF_HEIGHT as int }
}

/// The box a wall occupies.  The side walls overhang the canvas corners by
/// half a wall thickness, as do the top and bottom walls.
pub open spec fn wall_box(loc: WallLocation) -> BoxModel {
    match loc {
        WallLocation::Left => BoxModel {
            x: -ARENA_HALF_WIDTH as int,
            y: 0,
            hw: WALL_HALF_THICKNESS as int,
            hh: SIDE_WALL_HALF_LEN as int,
        },
        WallLocation::Right => BoxModel {
            x: ARENA_HALF_WIDTH as int,
            y: 0,
            hw: WALL_HALF_THICKNESS as int,
            hh: SIDE_WALL_HALF_LEN as int,
        },
        WallLocation::Bottom => BoxModel {
            x: 0,
            y: -ARENA_HALF_HEIGHT as int,
            hw: FLAT_WALL_HALF_LEN as int,
            hh: WALL_HALF_THICKNESS as int,
        },
        WallLocation::Top => BoxModel {
            x: 0,
            y: ARENA_HALF_HEIGHT as int,
            hw: FLAT_WALL_HALF_LEN as int,
            hh: WALL_HALF_THICKNESS as int,
        },
    }
}

/// Executable wall geometry.
pub fn wall_aabb(loc: WallLocation) -> (r: Aabb)
    ensures
        r@ == wall_box(loc),
{
    match loc {
        WallLocation::Left => Aabb {
            x: -ARENA_HALF_WIDTH,
            y: 0,
            hw: WALL_HALF_THICKNESS,
            hh: SIDE_WALL_HALF_LEN,
        },
        WallLocation::Right => Aabb {
            x: ARENA_HALF_WIDTH,
            y: 0,
            hw: WALL_HALF_THICKNESS,
            hh: SIDE_WALL_HALF_LEN,
        },
        WallLocation::Bottom => Aabb {
            x: 0,
            y: -ARENA_HALF_HEIGHT,
            hw: FLAT_WALL_HALF_LEN,
            hh: WALL_HALF_THICKNESS,
        },
        WallLocation::Top => Aabb {
            x: 0,
            y: ARENA_HALF_HEIGHT,
            hw: FLAT_WALL_HALF_LEN,
            hh: WALL_HALF_THICKNESS,
        },
    }
}

/// The brick of the initial arena at slot `i`: bricks are laid out column by
/// column (12 columns of 6), each row wearing one of the 6 cycling colors.
pub open spec fn initial_brick(i: int) -> BrickModel {
    BrickModel {
        x: BRICK_X0 as int + (i / 6) * (BRICK_DX as int),
        y: BRICK_Y0 as int - (i % 6) * (BRICK_DY as int),
        color: i % 6,
        alive: true,
    }
}

/// The world at the start of a run.
pub open spec fn initial_world() -> WorldModel {
    WorldModel {
        ball: BallModel { x: BALL_START_X as int, y: BALL_START_Y as int, vx: 0, vy: 0 },
        paddle_x: 0,
        bricks: Seq::new(72, |i: int| initial_brick(i)),
        score: 0,
        lives: START_LIVES as int,
        ball_waiting: true,
    }
}

/// Bounds under which one tick can run without the executable arithmetic
/// leaving `i64` (or the score leaving `u32`); far wider than the arena.
pub open spec fn tick_ready(w: WorldModel) -> bool {
    &&& -POS_LIMIT <= w.ball.x <= POS_LIMIT
    &&& -POS_LIMIT <= w.ball.y <= POS_LIMIT
    &&& -VEL_LIMIT <= w.ball.vx <= VEL_LIMIT
    &&& -VEL_LIMIT <= w.ball.vy <= VEL_LIMIT
    &&& -POS_LIMIT <= w.paddle_x <= POS_LIMIT
    &&& w.bricks.len() <= 72
    &&& forall|i: int|
        0 <= i < w.bricks.len() ==> -POS_LIMIT <= #[trigger] w.bricks[i].x <= POS_LIMIT
            && -POS_LIMIT <= w.bricks[i].y <= POS_LIMIT
    &&& w.score <= SCORE_LIMIT as int
}

/// Number of bricks still standing.
pub open spec fn live_before(bs: Seq<BrickModel>, n: int) -> int
    decreases n,
{
    if n <= 0 {
        0
    } else {
        live_before(bs, n - 1) + if bs[n - 1].alive {
            1int
        } else {
            0int
        }
    }
}

/// Number of bricks still standing in the whole arena.
pub open spec fn live_count(bs: Seq<BrickModel>) -> int {
    live_before(bs, bs.len() as int)
}

impl World {
    /// Build the world of a fresh run: ball resting 50 units below the
    /// center with zero velocity, paddle centered, 12 x 6 bricks standing,
    /// no score, three lives, and the ball waiting on the paddle.
    pub fn new() -> (w: World)
        ensures
            w@ == initial_world(),
    {
        let mut bricks: Vec<Brick> = Vec::new();
        let mut c: usize = 0;
        while c < BRICK_COLS
            invariant
                c <= BRICK_COLS,
                bricks@.len() == 6 * c,
                forall|i: int|
                    0 <= i < bricks@.len() ==> #[trigger] bricks@[i]@ == initial_brick(i),
            decreases BRICK_COLS - c,
        {
            let mut r: usize = 0;
            while r < BRICK_ROWS
                invariant
                    c < BRICK_COLS,
                    r <= BRICK_ROWS,
                    bricks@.len() == 6 * c + r,
                    forall|i: int|
                        0 <= i < bricks@.len() ==> #[trigger] bricks@[i]@ == initial_brick(i),
                decreases BRICK_ROWS - r,
            {
                let brick = Brick {
                    x: BRICK_X0 + (c as i64) * BRICK_DX,
                    y: BRICK_Y0 - (r as i64) * BRICK_DY,
                    color: r as u8,
                    alive: true,
                };
                proof {
                    let i = bricks@.len() as int;
                    assert(i / 6 == c && i % 6 == r) by (nonlinear_arith)
                        requires
                            i == 6 * (c as int) + (r as int),
                            0 <= (r as int) < 6,
                            0 <= (c as int);
                }
                bricks.push(brick);
                r = r + 1;
            }
            c = c + 1;
        }
        let w = World {
            ball: Ball { x: BALL_START_X, y: BALL_START_Y, vx: 0, vy: 0 },
            paddle_x: 0,
            bricks,
            score: 0,
            lives: START_LIVES,
            ball_waiting: true,
        };
        proof {
            assert(w@.bricks =~= initial_world().bricks);
            assert(w@ =~= initial_world());
        }
        w
    }

    /// The run is over exactly when no lives are left; no further launches
    /// are accepted then.
    pub fn game_over(&self) -> (r: bool)
        ensures
            r == (self@.lives == 0),
    {
        self.lives == 0
    }

    /// Count the bricks still standing.
    pub fn live_bricks(&self) -> (n: usize)
        ensures
            n == live_count(self@.bricks),
    {
        let mut n: usize = 0;
        let mut i: usize = 0;
        while i < self.bricks.len()
            invariant
                i <= self.bricks.len(),
                self@.bricks.len() == self.bricks.len(),
                n == live_before(self@.bricks, i as int),
                n <= i,
            decreases self.bricks.len() - i,
        {
            if self.bricks[i].alive {
                n = n + 1;
            }
            i = i + 1;
        }
        n
    }
}

} // verus!
