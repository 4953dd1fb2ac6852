//! The library's stated laws: properties of the collision classifier and of
//! the tick step functions, proved once for all inputs.

use vstd::prelude::*;
use crate::geom::Side;
use crate::geom::BoxModel;
use crate::geom::collide_spec;
use crate::geom::y_overlap;
use crate::geom::abs_val;
use crate::geom::boxes_meet;
use crate::state::BallModel;
use crate::state::brick_box;
use crate::state::BALL_HALF;
use crate::state::WorldModel;
use crate::state::WallLocation;
use crate::state::ball_box;
use crate::state::paddle_box;
use crate::state::wall_box;
use crate::state::live_before;
use crate::state::live_count;
use crate::state::BrickModel;
use crate::input::RawInput;
use crate::sim::spec_reflect_x;
use crate::sim::spec_reflect_y;
use crate::sim::spec_paddle_response;
use crate::sim::spec_wall_response;
use crate::sim::spec_brick_response;
use crate::sim::spec_bricks_from;
use crate::sim::spec_tick;

verus! {

/// A box strictly left of another, approaching, collides as `Left` at the
/// exact moment the boxes first touch, provided their vertical spans
/// strictly overlap.
pub proof fn lemma_collide_touching_left(a: BoxModel, b: BoxModel)
    requires
        a.hw > 0,
        b.hw > 0,
        a.x + a.hw == b.x - b.hw,
        y_overlap(a, b) > 0,
    ensures
        collide_spec(a, b) == Some(Side::Left),
{
}

/// Boxes separated by any positive gap, on either axis and either side,
/// do not collide.
pub proof fn lemma_collide_gap_none(a: BoxModel, b: BoxModel)
    requires
        a.x + a.hw < b.x - b.hw || b.x + b.hw < a.x - a.hw || a.y + a.hh < b.y - b.hh || b.y + b.hh
            < a.y - a.hh,
    ensures
        collide_spec(a, b) == None::<Side>,
{
}

/// A separated collider causes no state change at all: this holds of the
/// paddle, of every wall (the bottom one included), and of every brick.
pub proof fn lemma_separated_collider_no_change(w: WorldModel, loc: WallLocation, i: int)
    ensures
        !boxes_meet(ball_box(w.ball), paddle_box(w.paddle_x)) ==> spec_paddle_response(w) == w,
        !boxes_meet(ball_box(w.ball), wall_box(loc)) ==> spec_wall_response(w, loc) == w,
        (0 <= i < w.bricks.len() && !boxes_meet(ball_box(w.ball), brick_box(w.bricks[i])))
            ==> spec_brick_response(w, i) == w,
{
}

/// A ball strictly left of a plain wall, approaching rightward, at the
/// exact moment the boxes first touch (vertical spans strictly
/// overlapping): the hit classifies Left and the response inverts only vx.
pub proof fn lemma_wall_first_touch_left(w: WorldModel, loc: WallLocation)
    requires
        loc != WallLocation::Bottom,
        w.ball.vx > 0,
        w.ball.x + BALL_HALF as int == wall_box(loc).x - wall_box(loc).hw,
        y_overlap(ball_box(w.ball), wall_box(loc)) > 0,
    ensures
        collide_spec(ball_box(w.ball), wall_box(loc)) == Some(Side::Left),
        spec_wall_response(w, loc) == (WorldModel {
            ball: (BallModel { vx: -w.ball.vx, ..w.ball }),
            ..w
        }),
{
    lemma_collide_touching_left(ball_box(w.ball), wall_box(loc));
}

/// Reflection law: a `Top`-side collision with a plain wall while the ball
/// moves downward inverts the y velocity and leaves the x velocity — and
/// everything else — alone.
pub proof fn lemma_reflection_top(w: WorldModel, loc: WallLocation)
    requires
        loc != WallLocation::Bottom,
        collide_spec(ball_box(w.ball), wall_box(loc)) == Some(Side::Top),
        w.ball.vy < 0,
    ensures
        spec_wall_response(w, loc).ball.vx == w.ball.vx,
        spec_wall_response(w, loc).ball.vy == -w.ball.vy,
        spec_wall_response(w, loc).ball.x == w.ball.x,
        spec_wall_response(w, loc).ball.y == w.ball.y,
        spec_wall_response(w, loc).score == w.score,
        spec_wall_response(w, loc).lives == w.lives,
        spec_wall_response(w, loc).ball_waiting == w.ball_waiting,
        spec_wall_response(w, loc).bricks == w.bricks,
{
}

/// The paddle overrides reflection on a bounce.
pub open spec fn paddle_bounce_occurs(w: WorldModel) -> bool {
    match collide_spec(ball_box(w.ball), paddle_box(w.paddle_x)) {
        Option::None => false,
        Option::Some(side) => spec_reflect_x(side, w.ball.vx) || spec_reflect_y(side, w.ball.vy),
    }
}

/// Paddle-bounce determinism: a contact offset of +35 units (half the
/// paddle width) steers the ball to exactly half the base speed, and the
/// ball leaves upward, whatever the incoming sign of the y velocity.
pub proof fn lemma_paddle_bounce_offset(w: WorldModel)
    requires
        paddle_bounce_occurs(w),
        w.ball.x - w.paddle_x == 2100,
    ensures
        spec_paddle_response(w).ball.vx == 15000,
        spec_paddle_response(w).ball.vy == abs_val(w.ball.vy),
        spec_paddle_response(w).ball.vy >= 0,
{
    assert(crate::geom::div_trunc(2100, 70) == 30);
}

/// Every paddle bounce sends the ball away from the paddle, toward the
/// playfield: the y velocity leaves with its upward magnitude, whatever its
/// incoming sign and wherever on the paddle the contact fell.
pub proof fn lemma_paddle_bounce_upward(w: WorldModel)
    requires
        paddle_bounce_occurs(w),
    ensures
        spec_paddle_response(w).ball.vy == abs_val(w.ball.vy),
        spec_paddle_response(w).ball.vy >= 0,
{
}

/// Updating one slot of a brick row changes the standing count before `n`
/// exactly when the slot lies before `n`, by the difference of the two
/// bricks' standing flags.
proof fn lemma_live_before_update(bs: Seq<BrickModel>, i: int, b2: BrickModel, n: int)
    requires
        0 <= i < bs.len(),
        n <= bs.len(),
    ensures
        live_before(bs.update(i, b2), n) == live_before(bs, n) + if i < n {
            (if b2.alive {
                1int
            } else {
                0int
            }) - (if bs[i].alive {
                1int
            } else {
                0int
            })
        } else {
            0int
        },
    decreases n,
{
    if n > 0 {
        lemma_live_before_update(bs, i, b2, n - 1);
    }
}

/// Brick conservation over the tail of the collision pass: slots and
/// positions survive, a fallen brick never rises again, and the score grows
/// by exactly the number of bricks that fell.
pub proof fn lemma_bricks_pass_conservation(w: WorldModel, i: int)
    ensures
        spec_bricks_from(w, i).bricks.len() == w.bricks.len(),
        forall|j: int|
            0 <= j < w.bricks.len() ==> {
                let r = spec_bricks_from(w, i);
                (!(#[trigger] w.bricks[j]).alive ==> !r.bricks[j].alive) && r.bricks[j].x
                    == w.bricks[j].x && r.bricks[j].y == w.bricks[j].y && r.bricks[j].color
                    == w.bricks[j].color
            },
        spec_bricks_from(w, i).score - w.score == live_count(w.bricks) - live_count(
            spec_bricks_from(w, i).bricks,
        ),
        spec_bricks_from(w, i).lives == w.lives,
        spec_bricks_from(w, i).ball_waiting == w.ball_waiting,
        spec_bricks_from(w, i).paddle_x == w.paddle_x,
        spec_bricks_from(w, i).ball.x == w.ball.x,
        spec_bricks_from(w, i).ball.y == w.ball.y,
    decreases w.bricks.len() - i,
{
    if i < 0 || i >= w.bricks.len() {
    } else {
        let w1 = spec_brick_response(w, i);
        lemma_bricks_pass_conservation(w1, i + 1);
        let b = w.bricks[i];
        if b.alive {
            match collide_spec(ball_box(w.ball), brick_box(b)) {
                Option::None => {},
                Option::Some(side) => {
                    lemma_live_before_update(
                        w.bricks,
                        i,
                        BrickModel { alive: false, ..b },
                        w.bricks.len() as int,
                    );
                },
            }
        }
        assert forall|j: int| 0 <= j < w.bricks.len() implies (!(#[trigger] w.bricks[j]).alive
            ==> !w1.bricks[j].alive) && w1.bricks[j].x == w.bricks[j].x && w1.bricks[j].y
            == w.bricks[j].y && w1.bricks[j].color == w.bricks[j].color by {}
    }
}

/// The collision pass touches no brick slot's position and resurrects no
/// brick, and pays one point per fallen brick: brick destruction is
/// idempotent and counts exactly once.
pub proof fn lemma_brick_destruction_once(w: WorldModel, raw: RawInput)
    ensures
        spec_tick(w, raw).bricks.len() == w.bricks.len(),
        forall|j: int|
            0 <= j < w.bricks.len() && !(#[trigger] w.bricks[j]).alive ==> !spec_tick(
                w,
                raw,
            ).bricks[j].alive,
        spec_tick(w, raw).score - w.score == live_count(w.bricks) - live_count(
            spec_tick(w, raw).bricks,
        ),
{
    let w5 = pre_pass(w, raw);
    assert(w5.bricks == w.bricks && w5.score == w.score);
    let w6 = spec_paddle_response(w5);
    let w7 = spec_wall_response(w6, WallLocation::Left);
    let w8 = spec_wall_response(w7, WallLocation::Right);
    let w9 = spec_wall_response(w8, WallLocation::Bottom);
    let w10 = spec_wall_response(w9, WallLocation::Top);
    assert(w10.bricks == w.bricks && w10.score == w.score);
    lemma_bricks_pass_conservation(w10, 0);
}

/// The world as it stands right before the collision pass of a tick.
pub open spec fn pre_pass(w: WorldModel, raw: RawInput) -> WorldModel {
    crate::sim::spec_integrate(
        crate::sim::spec_launch(
            crate::sim::spec_stick(
                crate::sim::spec_move_paddle_by_mouse(
                    crate::sim::spec_move_paddle(w, raw.left_down, raw.right_down),
                    raw.cursor_x,
                ),
            ),
            crate::input::spec_launch_intent(raw),
            raw.left_down,
        ),
    )
}

/// Life-loss monotonicity: no tick ever raises the number of lives.
pub proof fn lemma_lives_monotone(w: WorldModel, raw: RawInput)
    ensures
        spec_tick(w, raw).lives <= w.lives,
{
    let w5 = pre_pass(w, raw);
    let w6 = spec_paddle_response(w5);
    let w7 = spec_wall_response(w6, WallLocation::Left);
    let w8 = spec_wall_response(w7, WallLocation::Right);
    let w9 = spec_wall_response(w8, WallLocation::Bottom);
    let w10 = spec_wall_response(w9, WallLocation::Top);
    lemma_bricks_pass_conservation(w10, 0);
}

/// A run out of lives stays out of lives, and its waiting ball stays
/// waiting: the launch transition is permanently blocked, whatever intents
/// keep arriving.
pub proof fn lemma_game_over_terminal(w: WorldModel, raw: RawInput)
    requires
        w.lives == 0,
    ensures
        spec_tick(w, raw).lives == 0,
        w.ball_waiting ==> spec_tick(w, raw).ball_waiting,
{
    let w5 = pre_pass(w, raw);
    let w6 = spec_paddle_response(w5);
    let w7 = spec_wall_response(w6, WallLocation::Left);
    let w8 = spec_wall_response(w7, WallLocation::Right);
    let w9 = spec_wall_response(w8, WallLocation::Bottom);
    let w10 = spec_wall_response(w9, WallLocation::Top);
    lemma_bricks_pass_conservation(w10, 0);
}

/// Bricks misses: when every brick's vertical gap to the ball is positive,
/// the brick leg of the collision pass changes nothing.
proof fn lemma_bricks_pass_misses(w: WorldModel, i: int)
    requires
        forall|j: int|
            0 <= j < w.bricks.len() ==> (#[trigger] w.bricks[j]).y - w.ball.y > 1650,
    ensures
        spec_bricks_from(w, i) == w,
    decreases w.bricks.len() - i,
{
    if 0 <= i < w.bricks.len() {
        assert(spec_brick_response(w, i) == w);
        lemma_bricks_pass_misses(w, i + 1);
    }
}

/// A well-set arena: every brick sits at or above the lowest row of the
/// initial grid, and the paddle stands within its clamp bounds.  (The ball
/// can then never be parked on the paddle and inside a brick at once.)
pub open spec fn arena_like(w: WorldModel) -> bool {
    &&& forall|j: int|
        0 <= j < w.bricks.len() ==> (#[trigger] w.bricks[j]).y >= crate::state::BRICK_Y0 as int - 5
            * (crate::state::BRICK_DY as int)
    &&& crate::state::PADDLE_MIN_X as int <= w.paddle_x <= crate::state::PADDLE_MAX_X as int
}

/// The waiting half of the game-state invariant: a waiting ball does not
/// move.
pub open spec fn waiting_inv(w: WorldModel) -> bool {
    w.ball_waiting ==> w.ball.vx == 0 && w.ball.vy == 0
}

/// The fresh world satisfies the game-state invariant.
pub proof fn lemma_initial_world_invariant()
    ensures
        waiting_inv(crate::state::initial_world()),
        arena_like(crate::state::initial_world()),
{
    let w = crate::state::initial_world();
    assert forall|j: int| 0 <= j < w.bricks.len() implies (#[trigger] w.bricks[j]).y
        >= crate::state::BRICK_Y0 as int - 5 * (crate::state::BRICK_DY as int) by {
        assert(w.bricks[j] == crate::state::initial_brick(j));
        assert(0 <= j % 6 < 6);
    }
}

/// The game-state invariant survives every tick: however the inputs and
/// collisions fall, a tick leaves any waiting ball with zero velocity, and
/// keeps the arena well set.
pub proof fn lemma_waiting_invariant_preserved(w: WorldModel, raw: RawInput)
    requires
        waiting_inv(w),
        arena_like(w),
    ensures
        waiting_inv(spec_tick(w, raw)),
        arena_like(spec_tick(w, raw)),
{
    let w5 = pre_pass(w, raw);
    let w6 = spec_paddle_response(w5);
    let w7 = spec_wall_response(w6, WallLocation::Left);
    let w8 = spec_wall_response(w7, WallLocation::Right);
    let w9 = spec_wall_response(w8, WallLocation::Bottom);
    let w10 = spec_wall_response(w9, WallLocation::Top);
    lemma_bricks_pass_conservation(w10, 0);
    let wt = spec_bricks_from(w10, 0);
    assert(spec_tick(w, raw) == wt);
    assert(w10.bricks == w.bricks);
    assert(crate::state::PADDLE_MIN_X as int <= w10.paddle_x <= crate::state::PADDLE_MAX_X as int);
    assert(wt.paddle_x == w10.paddle_x);
    assert forall|j: int| 0 <= j < wt.bricks.len() implies (#[trigger] wt.bricks[j]).y
        >= crate::state::BRICK_Y0 as int - 5 * (crate::state::BRICK_DY as int) by {
        assert(wt.bricks[j].y == w10.bricks[j].y);
        assert(w.bricks[j].y >= crate::state::BRICK_Y0 as int - 5 * (crate::state::BRICK_DY as int));
    }
    if w10.ball_waiting {
        if w5.ball_waiting {
            // The ball rode the paddle with zero velocity, so no response
            // changes it and the bricks hang far above.
            assert(w5.ball.vx == 0 && w5.ball.vy == 0);
            assert(w5.ball.y == crate::state::PADDLE_Y as int
                + crate::state::STICK_OFFSET_Y as int);
            assert(w10.ball.vx == 0 && w10.ball.vy == 0);
            assert(w10.ball.y == w5.ball.y);
            lemma_bricks_pass_misses(w10, 0);
        } else {
            // Waiting arose inside the pass: only the bottom wall sets it,
            // zeroing the velocity; the contact pins the ball low, out of
            // reach of the top wall and of every brick.
            assert(collide_spec(ball_box(w8.ball), wall_box(WallLocation::Bottom))
                is Some);
            assert(w8.ball.y <= -22500);
            assert(w9.ball.vx == 0 && w9.ball.vy == 0);
            assert(w10 == w9);
            lemma_bricks_pass_misses(w10, 0);
        }
    }
}

/// A whole run: ticks folded over a stream of raw inputs.
pub open spec fn spec_run(w: WorldModel, inputs: Seq<RawInput>) -> WorldModel
    decreases inputs.len(),
{
    if inputs.len() == 0 {
        w
    } else {
        spec_run(spec_tick(w, inputs[0]), inputs.drop_first())
    }
}

/// Life-loss monotonicity over a whole run, of any length.
pub proof fn lemma_lives_monotone_run(w: WorldModel, inputs: Seq<RawInput>)
    ensures
        spec_run(w, inputs).lives <= w.lives,
    decreases inputs.len(),
{
    if inputs.len() > 0 {
        lemma_lives_monotone(w, inputs[0]);
        lemma_lives_monotone_run(spec_tick(w, inputs[0]), inputs.drop_first());
    }
}

} // verus!


