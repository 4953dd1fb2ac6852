//! The per-tick simulation: paddle motion, ball sticking and launch,
//! integration, and the collision pass with its responses.
//!
//! Each sub-step has a ghost step function over `WorldModel`; `spec_tick`
//! composes them in the fixed order of one tick, and the executable
//! functions are proved to follow them exactly.  Colliders are tested in a
//! fixed order: paddle, then the left, right, bottom and top walls, then the
//! bricks by slot index.

use vstd::prelude::*;
use crate::geom::Side;
use crate::geom::Aabb;
use crate::geom::collide_spec;
use crate::geom::collide;
use crate::geom::clamp_spec;
use crate::geom::abs_val;
use crate::geom::clamp_i64;
use crate::geom::div_trunc;
use crate::geom::div_trunc_i64;
use crate::geom::COORD_LIMIT;
use crate::state::BallModel;
use crate::state::BrickModel;
use crate::state::WorldModel;
use crate::state::World;
use crate::state::WallLocation;
use crate::state::ball_box;
use crate::state::paddle_box;
use crate::state::brick_box;
use crate::state::wall_box;
use crate::state::wall_aabb;
use crate::state::tick_ready;
use crate::state::PADDLE_STEP;
use crate::state::PADDLE_MIN_X;
use crate::state::PADDLE_MAX_X;
use crate::state::PADDLE_Y;
use crate::state::STICK_OFFSET_Y;
use crate::state::LAUNCH_SPEED;
use crate::state::ARENA_HALF_WIDTH;
use crate::state::BALL_HALF;
use crate::state::BRICK_HALF_WIDTH;
use crate::state::BRICK_HALF_HEIGHT;
use crate::state::PADDLE_HALF_WIDTH;
use crate::state::PADDLE_HALF_HEIGHT;
use crate::state::SPEED_INCREMENT;
use crate::state::STEER_DIVISOR;
use crate::state::STEER_LIMIT;
use crate::state::STEER_GAIN;
use crate::state::TICK_RATE;
use crate::state::POS_LIMIT;
use crate::state::VEL_LIMIT;
use crate::state::SCORE_LIMIT;
use crate::input::RawInput;
use crate::input::spec_paddle_dir;
use crate::input::spec_launch_intent;
use crate::input::read_intents;

verus! {

/// Step 1: keyboard paddle motion, always clamped into the arena.
pub open spec fn spec_move_paddle(w: WorldModel, left_down: bool, right_down: bool) -> WorldModel {
    WorldModel {
        paddle_x: clamp_spec(
            w.paddle_x + spec_paddle_dir(left_down, right_down) * (PADDLE_STEP as int),
            PADDLE_MIN_X as int,
            PADDLE_MAX_X as int,
        ),
        ..w
    }
}

/// Step 2: mouse paddle motion; when a cursor position is present it
/// overwrites the keyboard result (the cursor is given in window
/// coordinates, so half the canvas width recenters it).
pub open spec fn spec_move_paddle_by_mouse(w: WorldModel, cursor_x: Option<i64>) -> WorldModel {
    match cursor_x {
        Option::None => w,
        Option::Some(cx) => WorldModel {
            paddle_x: clamp_spec(
                cx as int - ARENA_HALF_WIDTH as int,
                PADDLE_MIN_X as int,
                PADDLE_MAX_X as int,
            ),
            ..w
        },
    }
}

/// Step 3: a waiting ball rides on the paddle.
pub open spec fn spec_stick(w: WorldModel) -> WorldModel {
    if w.ball_waiting {
        WorldModel {
            ball: BallModel {
                x: w.paddle_x,
                y: PADDLE_Y as int + STICK_OFFSET_Y as int,
                ..w.ball
            },
            ..w
        }
    } else {
        w
    }
}

/// Step 4: launch the waiting ball, only while lives remain.  The launch
/// speed is half the base ball speed on each axis; holding the left key
/// aims the launch to the left.
pub open spec fn spec_launch(w: WorldModel, launch: bool, aim_left: bool) -> WorldModel {
    if w.lives > 0 && w.ball_waiting && launch {
        WorldModel {
            ball: BallModel {
                vx: if aim_left {
                    -LAUNCH_SPEED as int
                } else {
                    LAUNCH_SPEED as int
                },
                vy: LAUNCH_SPEED as int,
                ..w.ball
            },
            ball_waiting: false,
            ..w
        }
    } else {
        w
    }
}

/// Step 5: integrate the ball's position by one tick of its velocity.
pub open spec fn spec_integrate(w: WorldModel) -> WorldModel {
    WorldModel {
        ball: BallModel {
            x: w.ball.x + div_trunc(w.ball.vx, TICK_RATE as int),
            y: w.ball.y + div_trunc(w.ball.vy, TICK_RATE as int),
            ..w.ball
        },
        ..w
    }
}

/// The ball reflects off a side only when moving into it.
pub open spec fn spec_reflect_x(side: Side, vx: int) -> bool {
    match side {
        Side::Left => vx > 0,
        Side::Right => vx < 0,
        _ => false,
    }
}

/// Vertical counterpart of `spec_reflect_x`.
pub open spec fn spec_reflect_y(side: Side, vy: int) -> bool {
    match side {
        Side::Top => vy < 0,
        Side::Bottom => vy > 0,
        _ => false,
    }
}

/// Plain reflection response: each axis inverts independently, and only
/// when the ball moves into the struck side.
pub open spec fn spec_reflected(side: Side, b: BallModel) -> BallModel {
    BallModel {
        vx: if spec_reflect_x(side, b.vx) {
            -b.vx
        } else {
            b.vx
        },
        vy: if spec_reflect_y(side, b.vy) {
            -b.vy
        } else {
            b.vy
        },
        ..b
    }
}

/// Paddle steering: the contact offset from the paddle's center, divided by
/// 70 and clamped to 0.8 in magnitude, scales the base ball speed into the
/// new x velocity.
pub open spec fn spec_steer_vx(ball_x: int, paddle_x: int) -> int {
    clamp_spec(
        div_trunc(ball_x - paddle_x, STEER_DIVISOR as int),
        -STEER_LIMIT as int,
        STEER_LIMIT as int,
    ) * (STEER_GAIN as int)
}

/// Collision response against the paddle.  When a reflection would occur on
/// either axis, the paddle overrides it entirely: the ball always leaves
/// upward, away from the paddle — the y velocity becomes the upward
/// magnitude of the current one, whatever its incoming sign — and the x
/// velocity is recomputed from the contact offset.
pub open spec fn spec_paddle_response(w: WorldModel) -> WorldModel {
    match collide_spec(ball_box(w.ball), paddle_box(w.paddle_x)) {
        Option::None => w,
        Option::Some(side) => {
            if spec_reflect_x(side, w.ball.vx) || spec_reflect_y(side, w.ball.vy) {
                WorldModel {
                    ball: BallModel {
                        vx: spec_steer_vx(w.ball.x, w.paddle_x),
                        vy: abs_val(w.ball.vy),
                        ..w.ball
                    },
                    ..w
                }
            } else {
                w
            }
        },
    }
}

/// Collision response against one wall.  Contact with the bottom wall
/// zeroes the velocity, parks the ball on the paddle, and costs a life —
/// guarded so that the count never falls below zero; the reflection is then
/// evaluated on the current (for the bottom wall, already zeroed) velocity.
pub open spec fn spec_wall_response(w: WorldModel, loc: WallLocation) -> WorldModel {
    match collide_spec(ball_box(w.ball), wall_box(loc)) {
        Option::None => w,
        Option::Some(side) => {
            let w1 = match loc {
                WallLocation::Bottom => WorldModel {
                    ball: BallModel { vx: 0, vy: 0, ..w.ball },
                    ball_waiting: true,
                    lives: if w.lives > 0 {
                        w.lives - 1
                    } else {
                        w.lives
                    },
                    ..w
                },
                _ => w,
            };
            WorldModel { ball: spec_reflected(side, w1.ball), ..w1 }
        },
    }
}

/// Collision response against the brick in slot `i`.  A destroyed brick is
/// skipped.  A hit destroys the brick, scores a point, and raises the
/// magnitude of the y velocity by the fixed increment (a non-negative y
/// velocity gains it, a negative one loses it: the sign is kept and a
/// resting ball is pushed upward); the reflection is then evaluated on that
/// raised velocity.
pub open spec fn spec_brick_response(w: WorldModel, i: int) -> WorldModel
    recommends
        0 <= i < w.bricks.len(),
{
    let b = w.bricks[i];
    if !b.alive {
        w
    } else {
        match collide_spec(ball_box(w.ball), brick_box(b)) {
            Option::None => w,
            Option::Some(side) => {
                let vy1 = if w.ball.vy >= 0 {
                    w.ball.vy + SPEED_INCREMENT as int
                } else {
                    w.ball.vy - SPEED_INCREMENT as int
                };
                let w1 = WorldModel {
                    score: w.score + 1,
                    bricks: w.bricks.update(i, BrickModel { alive: false, ..b }),
                    ball: BallModel { vy: vy1, ..w.ball },
                    ..w
                };
                WorldModel { ball: spec_reflected(side, w1.ball), ..w1 }
            },
        }
    }
}

/// Brick responses from slot `i` to the end of the arena, in slot order.
pub open spec fn spec_bricks_from(w: WorldModel, i: int) -> WorldModel
    decreases w.bricks.len() - i,
{
    if i < 0 || i >= w.bricks.len() {
        w
    } else {
        spec_bricks_from(spec_brick_response(w, i), i + 1)
    }
}

/// Step 6: the whole collision pass, every collider tested against the
/// ball's current position in the fixed order paddle, left, right, bottom
/// and top wall, then bricks; each hit applies its response to the current
/// velocity and state, with no early exit.
pub open spec fn spec_collision_pass(w: WorldModel) -> WorldModel {
    let w1 = spec_paddle_response(w);
    let w2 = spec_wall_response(w1, WallLocation::Left);
    let w3 = spec_wall_response(w2, WallLocation::Right);
    let w4 = spec_wall_response(w3, WallLocation::Bottom);
    let w5 = spec_wall_response(w4, WallLocation::Top);
    spec_bricks_from(w5, 0)
}

/// One full tick in the fixed sub-step order.
pub open spec fn spec_tick(w: WorldModel, raw: RawInput) -> WorldModel {
    let w1 = spec_move_paddle(w, raw.left_down, raw.right_down);
    let w2 = spec_move_paddle_by_mouse(w1, raw.cursor_x);
    let w3 = spec_stick(w2);
    let w4 = spec_launch(w3, spec_launch_intent(raw), raw.left_down);
    let w5 = spec_integrate(w4);
    spec_collision_pass(w5)
}

/// Bounds under which the collision pass runs without overflow.
pub open spec fn pass_ready(w: WorldModel) -> bool {
    &&& -COORD_LIMIT <= w.ball.x <= COORD_LIMIT
    &&& -COORD_LIMIT <= w.ball.y <= COORD_LIMIT
    &&& -VEL_LIMIT <= w.ball.vx <= VEL_LIMIT
    &&& -VEL_LIMIT <= w.ball.vy <= VEL_LIMIT
    &&& -COORD_LIMIT <= w.paddle_x <= COORD_LIMIT
    &&& w.bricks.len() <= 72
    &&& forall|i: int|
        0 <= i < w.bricks.len() ==> -COORD_LIMIT <= #[trigger] w.bricks[i].x <= COORD_LIMIT
            && -COORD_LIMIT <= w.bricks[i].y <= COORD_LIMIT
    &&& w.score <= SCORE_LIMIT as int
}

/// Apply the keyboard movement intent to the paddle.
pub fn move_paddle(w: &mut World, left_down: bool, right_down: bool)
    requires
        -POS_LIMIT <= old(w).paddle_x <= POS_LIMIT,
    ensures
        final(w)@ == spec_move_paddle(old(w)@, left_down, right_down),
{
    let mut dir: i64 = 0;
    if left_down {
        dir = dir - 1;
    }
    if right_down {
        dir = dir + 1;
    }
    w.paddle_x = clamp_i64(w.paddle_x + dir * PADDLE_STEP, PADDLE_MIN_X, PADDLE_MAX_X);
}

/// Apply the mouse movement intent to the paddle, when a cursor position is
/// present.
pub fn move_paddle_by_mouse(w: &mut World, cursor_x: Option<i64>)
    requires
        cursor_x matches Some(cx) ==> -POS_LIMIT <= cx <= POS_LIMIT,
    ensures
        final(w)@ == spec_move_paddle_by_mouse(old(w)@, cursor_x),
{
    match cursor_x {
        Option::None => {},
        Option::Some(cx) => {
            w.paddle_x = clamp_i64(cx - ARENA_HALF_WIDTH, PADDLE_MIN_X, PADDLE_MAX_X);
        },
    }
}

/// Keep a waiting ball parked just above the paddle's center.
pub fn stick_ball_to_paddle(w: &mut World)
    ensures
        final(w)@ == spec_stick(old(w)@),
{
    if w.ball_waiting {
        w.ball.x = w.paddle_x;
        w.ball.y = PADDLE_Y + STICK_OFFSET_Y;
    }
}

/// Launch the waiting ball on a launch intent, while lives remain.
pub fn handle_waiting_click(w: &mut World, launch: bool, aim_left: bool)
    ensures
        final(w)@ == spec_launch(old(w)@, launch, aim_left),
{
    if w.lives > 0 && w.ball_waiting && launch {
        w.ball_waiting = false;
        if aim_left {
            w.ball.vx = -LAUNCH_SPEED;
        } else {
            w.ball.vx = LAUNCH_SPEED;
        }
        w.ball.vy = LAUNCH_SPEED;
    }
}

/// Advance the ball by one tick of its velocity.
pub fn apply_velocity(w: &mut World)
    requires
        -POS_LIMIT <= old(w).ball.x <= POS_LIMIT,
        -POS_LIMIT <= old(w).ball.y <= POS_LIMIT,
        -VEL_LIMIT <= old(w).ball.vx <= VEL_LIMIT,
        -VEL_LIMIT <= old(w).ball.vy <= VEL_LIMIT,
    ensures
        final(w)@ == spec_integrate(old(w)@),
{
    let sx = div_trunc_i64(w.ball.vx, TICK_RATE);
    let sy = div_trunc_i64(w.ball.vy, TICK_RATE);
    w.ball.x = w.ball.x + sx;
    w.ball.y = w.ball.y + sy;
}

/// The box the ball occupies right now.
fn ball_aabb(w: &World) -> (r: Aabb)
    ensures
        r@ == ball_box(w@.ball),
{
    Aabb { x: w.ball.x, y: w.ball.y, hw: BALL_HALF, hh: BALL_HALF }
}

/// Test and respond to a collision with the paddle.
fn paddle_collision(w: &mut World)
    requires
        -COORD_LIMIT <= old(w).ball.x <= COORD_LIMIT,
        -COORD_LIMIT <= old(w).ball.y <= COORD_LIMIT,
        -COORD_LIMIT <= old(w).paddle_x <= COORD_LIMIT,
        -10000000 <= old(w).ball.vx <= 10000000,
        -10000000 <= old(w).ball.vy <= 10000000,
    ensures
        final(w)@ == spec_paddle_response(old(w)@),
{
    let bb = ball_aabb(w);
    let pb = Aabb { x: w.paddle_x, y: PADDLE_Y, hw: PADDLE_HALF_WIDTH, hh: PADDLE_HALF_HEIGHT };
    match collide(&bb, &pb) {
        Option::None => {},
        Option::Some(side) => {
            let rx = match side {
                Side::Left => w.ball.vx > 0,
                Side::Right => w.ball.vx < 0,
                _ => false,
            };
            let ry = match side {
                Side::Top => w.ball.vy < 0,
                Side::Bottom => w.ball.vy > 0,
                _ => false,
            };
            if rx || ry {
                if w.ball.vy < 0 {
                    w.ball.vy = -w.ball.vy;
                }
                let ratio = clamp_i64(
                    div_trunc_i64(w.ball.x - w.paddle_x, STEER_DIVISOR),
                    -STEER_LIMIT,
                    STEER_LIMIT,
                );
                w.ball.vx = ratio * STEER_GAIN;
            }
        },
    }
}

/// Test and respond to a collision with one wall.
fn wall_collision(w: &mut World, loc: WallLocation)
    requires
        -COORD_LIMIT <= old(w).ball.x <= COORD_LIMIT,
        -COORD_LIMIT <= old(w).ball.y <= COORD_LIMIT,
        -10000000 <= old(w).ball.vx <= 10000000,
        -10000000 <= old(w).ball.vy <= 10000000,
    ensures
        final(w)@ == spec_wall_response(old(w)@, loc),
{
    let bb = ball_aabb(w);
    let wb = wall_aabb(loc);
    match collide(&bb, &wb) {
        Option::None => {},
        Option::Some(side) => {
            match loc {
                WallLocation::Bottom => {
                    w.ball.vx = 0;
                    w.ball.vy = 0;
                    w.ball_waiting = true;
                    if w.lives > 0 {
                        w.lives = w.lives - 1;
                    }
                },
                _ => {},
            }
            let rx = match side {
                Side::Left => w.ball.vx > 0,
                Side::Right => w.ball.vx < 0,
                _ => false,
            };
            let ry = match side {
                Side::Top => w.ball.vy < 0,
                Side::Bottom => w.ball.vy > 0,
                _ => false,
            };
            if rx {
                w.ball.vx = -w.ball.vx;
            }
            if ry {
                w.ball.vy = -w.ball.vy;
            }
        },
    }
}

/// Step 6: test the ball against every collider in the fixed order —
/// paddle, the four walls, then the bricks by slot — applying each hit's
/// response to the current velocity and state, with no early exit.
pub fn check_for_collisions(w: &mut World)
    requires
        pass_ready(old(w)@),
    ensures
        final(w)@ == spec_collision_pass(old(w)@),
{
    paddle_collision(w);
    proof {
        assert(-10000000 <= w@.ball.vx <= 10000000 && -10000000 <= w@.ball.vy <= 10000000);
    }
    wall_collision(w, WallLocation::Left);
    proof {
        assert(-10000000 <= w@.ball.vx <= 10000000 && -10000000 <= w@.ball.vy <= 10000000);
    }
    wall_collision(w, WallLocation::Right);
    proof {
        assert(-10000000 <= w@.ball.vx <= 10000000 && -10000000 <= w@.ball.vy <= 10000000);
    }
    wall_collision(w, WallLocation::Bottom);
    proof {
        assert(-10000000 <= w@.ball.vx <= 10000000 && -10000000 <= w@.ball.vy <= 10000000);
    }
    wall_collision(w, WallLocation::Top);
    let ghost w0 = w@;
    proof {
        assert(w0.bricks == old(w)@.bricks && w0.score == old(w)@.score);
        assert(-10000000 <= w0.ball.vx <= 10000000 && -10000000 <= w0.ball.vy <= 10000000);
    }
    let n = w.bricks.len();
    let mut i: usize = 0;
    while i < n
        invariant
            i <= n,
            n <= 72,
            n == w@.bricks.len(),
            spec_bricks_from(w0, 0) == spec_bricks_from(w@, i as int),
            w@.ball.x == w0.ball.x,
            w@.ball.y == w0.ball.y,
            -COORD_LIMIT <= w0.ball.x <= COORD_LIMIT,
            -COORD_LIMIT <= w0.ball.y <= COORD_LIMIT,
            w@.ball.vx == w0.ball.vx || w@.ball.vx == -w0.ball.vx,
            -10000000 <= w0.ball.vx <= 10000000,
            -10000000 - 600 * (i as int) <= w@.ball.vy <= 10000000 + 600 * (i as int),
            forall|j: int|
                0 <= j < n ==> (#[trigger] w@.bricks[j]).x == w0.bricks[j].x
                    && w@.bricks[j].y == w0.bricks[j].y,
            forall|j: int|
                0 <= j < n ==> -COORD_LIMIT <= #[trigger] w0.bricks[j].x <= COORD_LIMIT
                    && -COORD_LIMIT <= w0.bricks[j].y <= COORD_LIMIT,
            w0.score <= w@.score <= w0.score + i,
            w0.score <= SCORE_LIMIT as int,
            w@.score == w.score as int,
        decreases n - i,
    {
        let ghost wi = w@;
        let b = w.bricks[i];
        if b.alive {
            let bb = ball_aabb(w);
            let kb = Aabb { x: b.x, y: b.y, hw: BRICK_HALF_WIDTH, hh: BRICK_HALF_HEIGHT };
            match collide(&bb, &kb) {
                Option::None => {},
                Option::Some(side) => {
                    w.score = w.score + 1;
                    let mut nb = b;
                    nb.alive = false;
                    w.bricks[i] = nb;
                    if w.ball.vy >= 0 {
                        w.ball.vy = w.ball.vy + SPEED_INCREMENT;
                    } else {
                        w.ball.vy = w.ball.vy - SPEED_INCREMENT;
                    }
                    let rx = match side {
                        Side::Left => w.ball.vx > 0,
                        Side::Right => w.ball.vx < 0,
                        _ => false,
                    };
                    let ry = match side {
                        Side::Top => w.ball.vy < 0,
                        Side::Bottom => w.ball.vy > 0,
                        _ => false,
                    };
                    if rx {
                        w.ball.vx = -w.ball.vx;
                    }
                    if ry {
                        w.ball.vy = -w.ball.vy;
                    }
                    proof {
                        assert(w@ =~= spec_brick_response(wi, i as int));
                    }
                },
            }
        }
        proof {
            assert(w@ == spec_brick_response(wi, i as int));
            assert(spec_bricks_from(wi, i as int) == spec_bricks_from(w@, i as int + 1));
        }
        i = i + 1;
    }
}

/// One full simulation tick: read the raw input as intents, move the paddle by
/// keyboard then mouse, park or launch the waiting ball, integrate the
/// ball's position, and run the collision pass.
pub fn tick(w: &mut World, raw: &RawInput)
    requires
        tick_ready(old(w)@),
        raw.cursor_x matches Some(cx) ==> -POS_LIMIT <= cx <= POS_LIMIT,
    ensures
        final(w)@ == spec_tick(old(w)@, *raw),
{
    let it = read_intents(raw);
    move_paddle(w, raw.left_down, raw.right_down);
    move_paddle_by_mouse(w, it.cursor_x);
    stick_ball_to_paddle(w);
    handle_waiting_click(w, it.launch, it.aim_left);
    proof {
        assert(w@.bricks == old(w)@.bricks && w@.score == old(w)@.score);
        assert(-POS_LIMIT <= w@.ball.x <= POS_LIMIT && -POS_LIMIT <= w@.ball.y <= POS_LIMIT);
        assert(-VEL_LIMIT <= w@.ball.vx <= VEL_LIMIT && -VEL_LIMIT <= w@.ball.vy <= VEL_LIMIT);
    }
    apply_velocity(w);
    proof {
        assert(w@.bricks == old(w)@.bricks && w@.score == old(w)@.score);
        assert(pass_ready(w@));
    }
    check_for_collisions(w);
}

} // verus!
