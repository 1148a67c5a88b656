use platformer::body::{Platform, PlayerBody};
use platformer::geometry::{Aabb, Vector2};
use platformer::input::InputState;
use platformer::systems::{apply_gravity, find_landing, player_jump, player_movement};
use platformer::world::World;

// Length in millionths of a world unit, time in milliseconds.
const UNIT: i64 = 1_000_000;
const GRAVITY: i64 = -980; // -980 units/s^2
const SPEED: i64 = 250_000; // 250 units/s
const JUMP: i64 = 400_000; // 400 units/s
const DT: u32 = 16;

fn player_at(y: i64) -> PlayerBody {
    PlayerBody::new(
        Vector2::new(0, y),
        Vector2::new(25 * UNIT, 25 * UNIT),
        SPEED,
        JUMP,
    )
}

fn ground() -> Platform {
    Platform::new(Vector2::new(0, -100 * UNIT), Vector2::new(100 * UNIT, 15 * UNIT))
}

fn input(left: bool, right: bool, jump_held: bool, jump_just_pressed: bool) -> InputState {
    InputState { move_left: left, move_right: right, jump_held, jump_just_pressed }
}

#[test]
fn spawn_is_airborne_at_rest() {
    let p = player_at(0);
    assert_eq!(p.velocity, Vector2::zero());
    assert!(!p.is_grounded);
}

#[test]
fn falling_velocity_strictly_decreases() {
    let mut w = World::new(player_at(0), vec![], GRAVITY);
    let mut prev = w.player.velocity.y;
    for n in 1..=20i64 {
        w.tick(false, false, false, DT);
        assert!(w.player.velocity.y < prev);
        assert_eq!(w.player.velocity.y, n * GRAVITY * DT as i64);
        assert!(!w.player.is_grounded);
        prev = w.player.velocity.y;
    }
}

#[test]
fn gravity_integrates_velocity_then_position() {
    let mut p = player_at(0);
    apply_gravity(&mut p, &vec![], GRAVITY, DT);
    assert_eq!(p.velocity.y, -15_680);
    assert_eq!(p.position.y, -15_680 * 16);
}

#[test]
fn landing_snaps_exactly_onto_platform_top() {
    let mut p = player_at(-65 * UNIT);
    apply_gravity(&mut p, &vec![ground()], GRAVITY, DT);
    assert_eq!(p.position.y, -60 * UNIT);
    assert_eq!(p.velocity.y, 0);
    assert!(p.is_grounded);
}

#[test]
fn jump_held_for_ten_ticks_fires_once() {
    let mut w = World::new(player_at(-65 * UNIT), vec![ground()], GRAVITY);
    w.tick(false, false, false, DT);
    assert!(w.player.is_grounded);
    let mut fresh_presses = 0;
    let mut velocity_sets = 0;
    for _ in 0..10 {
        let before = w.player.velocity.y;
        w.tick(false, false, true, DT);
        if w.input.jump_just_pressed {
            fresh_presses += 1;
        }
        if w.player.velocity.y > before {
            velocity_sets += 1;
        }
    }
    assert_eq!(fresh_presses, 1);
    assert_eq!(velocity_sets, 1);
}

#[test]
fn jump_sets_velocity_and_leaves_ground() {
    let mut w = World::new(player_at(-65 * UNIT), vec![ground()], GRAVITY);
    w.tick(false, false, false, DT);
    w.tick(false, false, true, DT);
    assert_eq!(w.player.velocity.y, JUMP + GRAVITY * DT as i64);
    assert!(!w.player.is_grounded);
    assert!(w.player.position.y > -60 * UNIT);
}

#[test]
fn no_jump_in_mid_air() {
    let mut p = player_at(0);
    p.velocity.y = -1234;
    let before = p;
    player_jump(&mut p, &input(false, false, true, true));
    assert_eq!(p, before);
}

#[test]
fn held_jump_without_fresh_press_does_nothing() {
    let mut p = player_at(0);
    p.is_grounded = true;
    let before = p;
    player_jump(&mut p, &input(false, false, true, false));
    assert_eq!(p, before);
}

#[test]
fn move_right_advances_exactly() {
    let mut p = player_at(0);
    let before = p;
    player_movement(&mut p, &input(false, true, false, false), 100);
    assert_eq!(p.position.x, 25 * UNIT);
    assert_eq!(p.position.y, 0);
    assert_eq!(p.velocity, before.velocity);
}

#[test]
fn move_left_goes_back_exactly() {
    let mut p = player_at(0);
    p.velocity = Vector2::new(7, -3);
    player_movement(&mut p, &input(true, false, false, false), 100);
    assert_eq!(p.position.x, -25 * UNIT);
    assert_eq!(p.velocity, Vector2::new(7, -3));
}

#[test]
fn opposite_keys_cancel() {
    let mut p = player_at(0);
    p.position.x = 7;
    p.velocity.x = 7;
    let before = p;
    player_movement(&mut p, &input(true, true, false, false), 100);
    assert_eq!(p, before);
}

#[test]
fn upward_body_passes_through_platform() {
    let mut p = player_at(-100 * UNIT);
    p.velocity.y = JUMP;
    apply_gravity(&mut p, &vec![ground()], GRAVITY, DT);
    assert_eq!(p.velocity.y, JUMP + GRAVITY * DT as i64);
    assert_eq!(p.position.y, -100 * UNIT + (JUMP + GRAVITY * DT as i64) * DT as i64);
    assert!(!p.is_grounded);
}

#[test]
fn first_platform_in_order_wins() {
    let higher = Platform::new(Vector2::new(0, -90 * UNIT), Vector2::new(100 * UNIT, 20 * UNIT));
    let mut a = player_at(-65 * UNIT);
    apply_gravity(&mut a, &vec![ground(), higher], GRAVITY, DT);
    assert_eq!(a.position.y, -60 * UNIT);
    let mut b = player_at(-65 * UNIT);
    apply_gravity(&mut b, &vec![higher, ground()], GRAVITY, DT);
    assert_eq!(b.position.y, -45 * UNIT);
    assert_eq!(find_landing(&player_at(-65 * UNIT), &vec![higher, ground()]), Some(0));
}

#[test]
fn no_platforms_means_free_fall() {
    let p = player_at(0);
    assert_eq!(find_landing(&p, &vec![]), None);
}

#[test]
fn walking_off_a_ledge_clears_grounded() {
    let mut w = World::new(player_at(-65 * UNIT), vec![ground()], GRAVITY);
    w.tick(false, false, false, DT);
    assert!(w.player.is_grounded);
    w.player.position.x = 200 * UNIT;
    w.tick(false, false, false, DT);
    assert!(!w.player.is_grounded);
    w.tick(false, false, true, DT);
    assert!(w.player.velocity.y < 0);
}

#[test]
fn resting_body_stays_grounded() {
    let mut w = World::new(player_at(-65 * UNIT), vec![ground()], GRAVITY);
    for _ in 0..5 {
        w.tick(false, false, false, DT);
        assert!(w.player.is_grounded);
        assert_eq!(w.player.position.y, -60 * UNIT);
    }
}

#[test]
fn touching_boxes_intersect() {
    let a = Aabb::new(Vector2::new(0, 0), Vector2::new(10, 10));
    let b = Aabb::new(Vector2::new(20, 20), Vector2::new(10, 10));
    let c = Aabb::new(Vector2::new(21, 0), Vector2::new(10, 10));
    assert!(a.intersects(&b));
    assert!(!a.intersects(&c));
    assert!(c.intersects(&c));
}

#[test]
fn extreme_coordinates_do_not_overflow_overlap_test() {
    let a = Aabb::new(Vector2::new(i64::MIN, 0), Vector2::new(i64::MAX, 0));
    let b = Aabb::new(Vector2::new(0, 0), Vector2::new(1, 0));
    assert!(a.intersects(&b));
    let e = Aabb::new(Vector2::new(i64::MAX, 0), Vector2::new(i64::MAX, 0));
    assert!(!a.intersects(&e));
    let c = Aabb::new(Vector2::new(i64::MAX, 0), Vector2::new(0, 0));
    let d = Aabb::new(Vector2::new(i64::MIN, 0), Vector2::new(0, 0));
    assert!(!c.intersects(&d));
}

#[test]
fn input_edge_trigger() {
    let s0 = InputState::released();
    let s1 = s0.next(false, false, true);
    assert!(s1.jump_just_pressed);
    let s2 = s1.next(false, false, true);
    assert!(!s2.jump_just_pressed);
    let s3 = s2.next(false, false, false);
    assert!(!s3.jump_just_pressed);
    let s4 = s3.next(true, false, true);
    assert!(s4.jump_just_pressed);
    assert_eq!(s4.direction(), -1);
    assert_eq!(s4.next(true, true, false).direction(), 0);
    assert_eq!(s4.next(false, true, false).direction(), 1);
}

#[test]
fn can_tick_rejects_overflowing_step() {
    let mut p = player_at(0);
    p.speed = i64::MAX;
    let w = World::new(p, vec![ground()], GRAVITY);
    assert!(!w.can_tick(false, true, false, 2));
    assert!(w.can_tick(false, false, false, 2));
    let fast = World::new(player_at(i64::MIN + 10), vec![], GRAVITY);
    assert!(!fast.can_tick(false, false, false, DT));
}

#[test]
fn movement_changes_only_horizontal_position() {
    let mut p = player_at(5);
    p.velocity = Vector2::new(7, 11);
    p.is_grounded = true;
    let before = p;
    player_movement(&mut p, &input(false, false, true, true), 100);
    assert_eq!(p, before);
    player_movement(&mut p, &input(false, true, false, false), 1);
    assert_eq!(p.position.x, SPEED);
    assert_eq!(p.position.y, 5);
    assert_eq!(p.velocity, before.velocity);
    assert!(p.is_grounded);
}

#[test]
fn far_platform_near_range_edge_does_not_block_tick() {
    let far = Platform::new(Vector2::new(0, i64::MAX - 10), Vector2::new(1, 100));
    let w = World::new(player_at(-65 * UNIT), vec![ground(), far], GRAVITY);
    assert!(w.can_tick(false, false, false, DT));
    let mut w = w;
    w.tick(false, false, false, DT);
    assert_eq!(w.player.position.y, -60 * UNIT);
}
