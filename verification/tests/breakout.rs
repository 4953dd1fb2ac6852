use breakout::geom::{clamp_i64, collide, div_trunc_i64, Aabb, Side};
use breakout::input::{read_intents, RawInput};
use breakout::sim::{
    apply_velocity, check_for_collisions, handle_waiting_click, move_paddle, move_paddle_by_mouse,
    stick_ball_to_paddle, tick,
};
use breakout::state::{World, WallLocation};

fn no_input() -> RawInput {
    RawInput {
        left_down: false,
        right_down: false,
        space_down: false,
        fire_clicked: false,
        cursor_x: None,
    }
}

fn square(x: i64, y: i64, h: i64) -> Aabb {
    Aabb { x, y, hw: h, hh: h }
}

#[test]
fn collide_left_on_first_touch() {
    // Ball-sized box strictly left of a collider, approaching: contact at
    // gap zero classifies as Left.
    let a = square(0, 0, 900);
    let b = Aabb { x: 1500, y: 0, hw: 600, hh: 600 };
    assert_eq!(collide(&a, &b), Some(Side::Left));
}

#[test]
fn collide_none_on_positive_gap() {
    let a = square(0, 0, 900);
    let b = Aabb { x: 1501, y: 0, hw: 600, hh: 600 };
    assert_eq!(collide(&a, &b), None);
    let far = Aabb { x: 900000000, y: 0, hw: 600, hh: 600 };
    assert_eq!(collide(&a, &far), None);
}

#[test]
fn collide_classifies_each_side() {
    let b = square(0, 0, 600);
    // Deeper x overlap than y overlap attributes the hit to the y axis.
    assert_eq!(collide(&square(0, 1400, 900), &b), Some(Side::Top));
    assert_eq!(collide(&square(0, -1400, 900), &b), Some(Side::Bottom));
    assert_eq!(collide(&square(1400, 0, 900), &b), Some(Side::Right));
    assert_eq!(collide(&square(-1400, 0, 900), &b), Some(Side::Left));
}

#[test]
fn collide_tie_and_containment_are_inside() {
    // Equal overlap depth on both axes: no side is singled out.
    let a = square(0, 0, 900);
    let b = square(1000, 1000, 900);
    assert_eq!(collide(&a, &b), Some(Side::Inside));
    // A small box fully inside a large one.
    let small = square(0, 0, 100);
    let large = square(0, 0, 900);
    assert_eq!(collide(&small, &large), Some(Side::Inside));
}

#[test]
fn clamp_and_truncating_division() {
    assert_eq!(clamp_i64(5, -3, 3), 3);
    assert_eq!(clamp_i64(-5, -3, 3), -3);
    assert_eq!(clamp_i64(2, -3, 3), 2);
    assert_eq!(div_trunc_i64(125, 60), 2);
    assert_eq!(div_trunc_i64(-125, 60), -2);
    assert_eq!(div_trunc_i64(2100, 70), 30);
}

#[test]
fn intents_map_from_keys() {
    let mut raw = no_input();
    raw.left_down = true;
    let it = read_intents(&raw);
    assert_eq!(it.paddle_dir, -1);
    assert!(it.aim_left);
    assert!(!it.launch);

    raw.right_down = true;
    assert_eq!(read_intents(&raw).paddle_dir, 0);

    raw.left_down = false;
    assert_eq!(read_intents(&raw).paddle_dir, 1);

    raw.space_down = true;
    assert!(read_intents(&raw).launch);
    raw.space_down = false;
    raw.fire_clicked = true;
    assert!(read_intents(&raw).launch);
}

#[test]
fn initial_world_layout() {
    let w = World::new();
    assert_eq!(w.score, 0);
    assert_eq!(w.lives, 3);
    assert!(w.ball_waiting);
    assert_eq!(w.paddle_x, 0);
    assert_eq!((w.ball.x, w.ball.y), (0, -3000));
    assert_eq!((w.ball.vx, w.ball.vy), (0, 0));
    assert_eq!(w.bricks.len(), 72);
    assert_eq!(w.live_bricks(), 72);
    // Column-major layout with cycling row colors.
    assert_eq!((w.bricks[0].x, w.bricks[0].y, w.bricks[0].color), (-25200, 19200, 0));
    assert_eq!((w.bricks[5].x, w.bricks[5].y, w.bricks[5].color), (-25200, 10200, 5));
    assert_eq!((w.bricks[6].x, w.bricks[6].y, w.bricks[6].color), (-20700, 19200, 0));
    assert_eq!((w.bricks[71].x, w.bricks[71].y, w.bricks[71].color), (24300, 10200, 5));
}

#[test]
fn wall_geometry() {
    let left = breakout::state::wall_aabb(WallLocation::Left);
    assert_eq!((left.x, left.y, left.hw, left.hh), (-30000, 0, 600, 24600));
    let bottom = breakout::state::wall_aabb(WallLocation::Bottom);
    assert_eq!((bottom.x, bottom.y, bottom.hw, bottom.hh), (0, -24000, 30600, 600));
}

#[test]
fn paddle_moves_and_clamps() {
    let mut w = World::new();
    move_paddle(&mut w, false, true);
    assert_eq!(w.paddle_x, 800);
    move_paddle(&mut w, true, false);
    assert_eq!(w.paddle_x, 0);
    w.paddle_x = 24600;
    move_paddle(&mut w, false, true);
    assert_eq!(w.paddle_x, 24600);
    // Both keys held cancel out.
    move_paddle(&mut w, true, true);
    assert_eq!(w.paddle_x, 24600);
}

#[test]
fn mouse_overrides_keyboard() {
    let mut w = World::new();
    move_paddle(&mut w, false, true);
    move_paddle_by_mouse(&mut w, Some(35000));
    // Cursor at window x 35000 recenters to 5000.
    assert_eq!(w.paddle_x, 5000);
    // A cursor near the window edge clamps to the arena bound.
    move_paddle_by_mouse(&mut w, Some(10));
    assert_eq!(w.paddle_x, -24600);
    // Without a cursor the keyboard result stands.
    let key_only = w.paddle_x;
    move_paddle_by_mouse(&mut w, None);
    assert_eq!(w.paddle_x, key_only);
}

#[test]
fn waiting_ball_rides_the_paddle() {
    let mut w = World::new();
    w.paddle_x = 4000;
    stick_ball_to_paddle(&mut w);
    assert_eq!((w.ball.x, w.ball.y), (4000, -20700));
}

#[test]
fn launch_sets_velocity_and_aim() {
    let mut w = World::new();
    handle_waiting_click(&mut w, true, false);
    assert!(!w.ball_waiting);
    assert_eq!((w.ball.vx, w.ball.vy), (15000, 15000));

    let mut l = World::new();
    handle_waiting_click(&mut l, true, true);
    assert_eq!((l.ball.vx, l.ball.vy), (-15000, 15000));
}

#[test]
fn launch_blocked_without_lives() {
    let mut w = World::new();
    w.lives = 0;
    handle_waiting_click(&mut w, true, false);
    assert!(w.ball_waiting);
    assert_eq!((w.ball.vx, w.ball.vy), (0, 0));
    assert!(w.game_over());
}

#[test]
fn integration_moves_by_velocity_over_sixty() {
    let mut w = World::new();
    w.ball_waiting = false;
    w.ball.x = 100;
    w.ball.y = 200;
    w.ball.vx = 15000;
    w.ball.vy = -15000;
    apply_velocity(&mut w);
    assert_eq!((w.ball.x, w.ball.y), (350, -50));
}

#[test]
fn top_wall_reflects_upward_ball() {
    // Ball just under the top wall moving up strikes the wall's bottom side
    // and only the y velocity inverts.
    let mut w = World::new();
    w.ball_waiting = false;
    w.ball.x = 0;
    w.ball.y = 22800;
    w.ball.vx = 1200;
    w.ball.vy = 3000;
    check_for_collisions(&mut w);
    assert_eq!((w.ball.vx, w.ball.vy), (1200, -3000));
    assert_eq!(w.score, 0);
    assert_eq!(w.lives, 3);
}

#[test]
fn top_side_reflection_keeps_vx() {
    // A ball above the top wall falling onto it: Top-side collision with
    // vy < 0 leaves (vx, -vy).
    let mut w = World::new();
    w.ball_waiting = false;
    w.ball.x = 0;
    w.ball.y = 25200;
    w.ball.vx = 1200;
    w.ball.vy = -3000;
    check_for_collisions(&mut w);
    assert_eq!((w.ball.vx, w.ball.vy), (1200, 3000));
}

#[test]
fn paddle_bounce_steers_from_contact_offset() {
    // Contact offset +2100 sub-units (half the paddle width): the steering
    // ratio is 2100/70 = 30, clamped within 48, times the gain 500.
    let mut w = World::new();
    w.ball_waiting = false;
    w.paddle_x = 1000;
    w.ball.x = 3100;
    w.ball.y = -20800;
    w.ball.vx = -2000;
    w.ball.vy = -9000;
    check_for_collisions(&mut w);
    assert_eq!(w.ball.vx, 15000);
    // The falling ball leaves upward with its speed kept.
    assert_eq!(w.ball.vy, 9000);
}

#[test]
fn paddle_side_bounce_keeps_rising() {
    // A rising ball striking the paddle's left side still leaves upward:
    // the bounce takes the upward magnitude of vy whatever its incoming
    // sign, and steers vx from the (here fully clamped) contact offset.
    let mut w = World::new();
    w.ball_waiting = false;
    w.paddle_x = 0;
    w.ball.x = -4400;
    w.ball.y = -22200;
    w.ball.vx = 2000;
    w.ball.vy = 3000;
    check_for_collisions(&mut w);
    assert_eq!(w.ball.vx, -24000);
    assert_eq!(w.ball.vy, 3000);
    assert_eq!(w.lives, 3);
}

#[test]
fn paddle_underside_and_bottom_wall_share_a_tick() {
    // A ball rising into the paddle's underside also overlaps the bottom
    // wall (the paddle sits directly on it).  Colliders act independently
    // in order with no early exit: the paddle bounce fires first (keeping
    // vy upward and steering vx), then the bottom wall zeroes the velocity
    // and costs a life.
    let mut w = World::new();
    w.ball_waiting = false;
    w.paddle_x = 1000;
    w.ball.x = 3100;
    w.ball.y = -23600;
    w.ball.vx = 0;
    w.ball.vy = 9000;
    check_for_collisions(&mut w);
    assert_eq!((w.ball.vx, w.ball.vy), (0, 0));
    assert!(w.ball_waiting);
    assert_eq!(w.lives, 2);
    assert_eq!(w.score, 0);
}

#[test]
fn brick_hit_scores_and_speeds_up() {
    let mut w = World::new();
    w.ball_waiting = false;
    // Just under brick 5, the lowest of the first column at (-25200,
    // 10200), moving up; no other brick is in reach from below.
    w.ball.x = -25200;
    w.ball.y = 8600;
    w.ball.vx = 0;
    w.ball.vy = 2400;
    check_for_collisions(&mut w);
    assert_eq!(w.score, 1);
    assert!(!w.bricks[5].alive);
    assert_eq!(w.live_bricks(), 71);
    // |vy| grew by 600, then the Bottom-side reflection inverted it.
    assert_eq!(w.ball.vy, -3000);
}

#[test]
fn brick_hit_at_zero_vy_adds_speed() {
    // A resting ball counts as non-negative: the increment is added, so
    // the ball is pushed upward, and no reflection follows (vy is not
    // moving into the brick's top side).
    let mut w = World::new();
    w.ball_waiting = false;
    for b in w.bricks.iter_mut() {
        b.alive = false;
    }
    w.bricks[71].alive = true;
    // Just above brick 71 at (24300, 10200).
    w.ball.x = 24300;
    w.ball.y = 11700;
    w.ball.vx = 0;
    w.ball.vy = 0;
    check_for_collisions(&mut w);
    assert_eq!(w.score, 1);
    assert!(!w.bricks[71].alive);
    assert_eq!(w.ball.vy, 600);
}

#[test]
fn destroyed_brick_is_never_hit_again() {
    let mut w = World::new();
    w.ball_waiting = false;
    for b in w.bricks.iter_mut() {
        b.alive = false;
    }
    w.bricks[0].alive = true;
    w.ball.x = -25200;
    w.ball.y = 17600;
    w.ball.vx = 0;
    w.ball.vy = 2400;
    check_for_collisions(&mut w);
    assert_eq!(w.score, 1);
    assert_eq!(w.live_bricks(), 0);
    let vy_after = w.ball.vy;
    // The ball still overlaps the dead brick's slot, but a second pass
    // skips it: the score and the velocity stay put.
    check_for_collisions(&mut w);
    assert_eq!(w.score, 1);
    assert_eq!(w.ball.vy, vy_after);
    assert_eq!(w.live_bricks(), 0);
}

#[test]
fn scenario_launch_and_first_move() {
    // From the fresh world, a launch intent with no aim-left gives velocity
    // (250, 250) units/s and the first tick moves the ball by 250/60 units
    // (250 sub-units) on each axis from its paddle-snapped start.
    let mut w = World::new();
    let mut raw = no_input();
    raw.space_down = true;
    tick(&mut w, &raw);
    assert!(!w.ball_waiting);
    assert_eq!((w.ball.vx, w.ball.vy), (15000, 15000));
    assert_eq!((w.ball.x, w.ball.y), (250, -20700 + 250));
    assert_eq!(w.lives, 3);
    assert_eq!(w.score, 0);
}

#[test]
fn scenario_bottom_wall_costs_a_life() {
    let mut w = World::new();
    w.ball_waiting = false;
    w.ball.x = 10000;
    w.ball.y = -23000;
    w.ball.vx = 0;
    w.ball.vy = -6000;
    tick(&mut w, &no_input());
    assert_eq!(w.lives, 2);
    assert_eq!((w.ball.vx, w.ball.vy), (0, 0));
    assert!(w.ball_waiting);
    // The next tick reparks the ball on the paddle.
    tick(&mut w, &no_input());
    assert_eq!((w.ball.x, w.ball.y), (0, -20700));
    assert_eq!(w.lives, 2);
}

#[test]
fn scenario_last_brick_empties_the_arena() {
    let mut w = World::new();
    w.ball_waiting = false;
    for b in w.bricks.iter_mut() {
        b.alive = false;
    }
    w.bricks[71].alive = true;
    w.score = 71;
    // Brick 71 sits at (24300, 10200); approach it from below.
    w.ball.x = 24300;
    w.ball.y = 11000;
    w.ball.vx = 0;
    w.ball.vy = 3000;
    tick(&mut w, &no_input());
    assert_eq!(w.score, 72);
    assert_eq!(w.live_bricks(), 0);
    assert!(!w.bricks[71].alive);
    assert_eq!(w.ball.vy, 3600);
}

#[test]
fn game_over_blocks_launches_forever() {
    let mut w = World::new();
    w.lives = 0;
    let mut raw = no_input();
    raw.space_down = true;
    raw.fire_clicked = true;
    for _ in 0..5 {
        tick(&mut w, &raw);
        assert_eq!(w.lives, 0);
        assert!(w.ball_waiting);
        assert_eq!((w.ball.vx, w.ball.vy), (0, 0));
    }
}

#[test]
fn waiting_ball_follows_paddle_at_rest() {
    // Without a launch the waiting ball tracks the paddle tick after tick
    // and its velocity stays zero.
    let mut w = World::new();
    let mut raw = no_input();
    raw.right_down = true;
    for t in 1..=5 {
        tick(&mut w, &raw);
        assert!(w.ball_waiting);
        assert_eq!((w.ball.vx, w.ball.vy), (0, 0));
        assert_eq!(w.paddle_x, 800 * t);
        assert_eq!((w.ball.x, w.ball.y), (w.paddle_x, -20700));
    }
}

#[test]
fn lives_never_increase_over_a_run() {
    let mut w = World::new();
    let mut raw = no_input();
    raw.space_down = true;
    let mut last = w.lives;
    for i in 0..240 {
        raw.left_down = i % 3 == 0;
        raw.right_down = i % 5 == 0;
        tick(&mut w, &raw);
        assert!(w.lives <= last);
        last = w.lives;
    }
}
