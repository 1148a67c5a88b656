//! Properties of the simulation that relate its steps over inputs and ticks.
use vstd::prelude::*;
use crate::body::{Platform, PlayerBody};
use crate::geometry::Vector2;
use crate::input::{edge, InputState};
use crate::systems::{
    first_landing, gravity_fits, gravity_spec, integrate_fits, integrate_spec, jump_spec, landed_spec,
    lands_on, lemma_first_landing_from, movement_fits, movement_spec, rest_height,
};
use crate::world::{step_fits, step_spec};

verus! {

/// How many fresh presses of a key a run of ticks holds, given whether the key
/// was held on the tick before the run and whether it is held on each tick.
pub open spec fn presses(was_held: bool, held: Seq<bool>) -> nat
    decreases held.len(),
{
    if held.len() == 0 {
        0
    } else {
        (if edge(was_held, held[0]) {
            1nat
        } else {
            0nat
        }) + presses(held[0], held.subrange(1, held.len() as int))
    }
}

/// An airborne body that lands on no platform falls faster on every tick:
/// its vertical velocity drops by exactly `gravity * dt`, and it stays
/// airborne.
pub proof fn lemma_airborne_velocity_decreases(
    b: PlayerBody,
    ps: Seq<Platform>,
    gravity: i64,
    input: InputState,
    dt: u32,
)
    requires
        !b.is_grounded,
        gravity < 0,
        dt > 0,
        step_fits(b, ps, gravity, input, dt),
        first_landing(integrate_spec(movement_spec(b, input, dt), gravity, dt), ps) is None,
    ensures
        step_spec(b, ps, gravity, input, dt).velocity.y == b.velocity.y + gravity * dt,
        step_spec(b, ps, gravity, input, dt).velocity.y < b.velocity.y,
        !step_spec(b, ps, gravity, input, dt).is_grounded,
{
    assert(gravity * dt < 0) by (nonlinear_arith)
        requires
            gravity < 0,
            dt > 0,
    ;
}

/// The body after `n` ticks of gravity with no platforms at all.
pub open spec fn free_fall(b: PlayerBody, gravity: i64, dt: u32, n: nat) -> PlayerBody
    decreases n,
{
    if n == 0 {
        b
    } else {
        gravity_spec(free_fall(b, gravity, dt, (n - 1) as nat), Seq::empty(), gravity, dt)
    }
}

/// With no platforms, the vertical velocity after `n` ticks is the initial one
/// plus `n * gravity * dt`: it drops on every tick, with no terminal cap, and
/// the body never becomes grounded.
pub proof fn lemma_free_fall_velocity(b: PlayerBody, gravity: i64, dt: u32, n: nat)
    requires
        gravity < 0,
        dt > 0,
        forall|k: nat| k < n ==> integrate_fits(#[trigger] free_fall(b, gravity, dt, k), gravity, dt),
    ensures
        free_fall(b, gravity, dt, n).velocity.y == b.velocity.y + n * gravity * dt,
        n >= 1 ==> free_fall(b, gravity, dt, n).velocity.y < free_fall(
            b,
            gravity,
            dt,
            (n - 1) as nat,
        ).velocity.y,
        n >= 1 ==> !free_fall(b, gravity, dt, n).is_grounded,
    decreases n,
{
    if n > 0 {
        let m = (n - 1) as nat;
        lemma_free_fall_velocity(b, gravity, dt, m);
        let prev = free_fall(b, gravity, dt, m);
        assert(integrate_fits(prev, gravity, dt));
        lemma_first_landing_from(integrate_spec(prev, gravity, dt), Seq::<Platform>::empty(), 0);
        let g = gravity as int;
        let t = dt as int;
        assert(n * g * t == m * g * t + g * t) by (nonlinear_arith)
            requires
                n == m + 1,
        ;
        assert(g * t < 0) by (nonlinear_arith)
            requires
                g < 0,
                t > 0,
        ;
    } else {
        assert(0 * (gravity as int) * (dt as int) == 0) by (nonlinear_arith);
    }
}

/// A body that lands comes to rest with its bottom exactly on the top of the
/// platform it landed on, with no vertical velocity, grounded.
pub proof fn lemma_landing_rests_on_top(
    b: PlayerBody,
    ps: Seq<Platform>,
    gravity: i64,
    dt: u32,
    k: int,
)
    requires
        gravity_fits(b, ps, gravity, dt),
        first_landing(integrate_spec(b, gravity, dt), ps) == Some(k),
    ensures
        0 <= k < ps.len(),
        gravity_spec(b, ps, gravity, dt).position.y - b.half_extent.y == ps[k].top(),
        gravity_spec(b, ps, gravity, dt).velocity.y == 0,
        gravity_spec(b, ps, gravity, dt).is_grounded,
{
    lemma_first_landing_from(integrate_spec(b, gravity, dt), ps, 0);
    assert(rest_height(b, ps[k]) == rest_height(integrate_spec(b, gravity, dt), ps[k]));
}

/// Holding a key through a run of ticks that starts with it released gives
/// exactly one fresh press, on the first tick of the run.
pub proof fn lemma_held_key_presses_once(held: Seq<bool>)
    requires
        held.len() >= 1,
        forall|i: int| 0 <= i < held.len() ==> held[i],
    ensures
        presses(false, held) == 1,
        edge(false, held[0]),
{
    lemma_held_key_no_new_press(held.subrange(1, held.len() as int));
}

/// Holding a key that was already held gives no fresh press at all.
pub proof fn lemma_held_key_no_new_press(held: Seq<bool>)
    requires
        forall|i: int| 0 <= i < held.len() ==> held[i],
    ensures
        presses(true, held) == 0,
    decreases held.len(),
{
    if held.len() > 0 {
        let rest = held.subrange(1, held.len() as int);
        assert forall|i: int| 0 <= i < rest.len() implies rest[i] by {
            assert(rest[i] == held[i + 1]);
        }
        lemma_held_key_no_new_press(rest);
    }
}

/// On a tick where jump was already held on the tick before, the whole tick
/// runs as if no jump were asked for: a held key never starts a second jump.
pub proof fn lemma_held_jump_does_not_refire(
    b: PlayerBody,
    ps: Seq<Platform>,
    gravity: i64,
    prev: InputState,
    move_left: bool,
    move_right: bool,
    dt: u32,
)
    requires
        prev.jump_held,
    ensures
        step_spec(b, ps, gravity, prev.next_spec(move_left, move_right, true), dt)
            == gravity_spec(
            movement_spec(b, prev.next_spec(move_left, move_right, true), dt),
            ps,
            gravity,
            dt,
        ),
{
}

/// Without a fresh press of jump on this tick, the jump system changes nothing.
pub proof fn lemma_jump_needs_fresh_press(b: PlayerBody, input: InputState)
    requires
        !input.jump_just_pressed,
    ensures
        jump_spec(b, input) == b,
{
}

/// A body in the air cannot jump, whatever the input.
pub proof fn lemma_no_mid_air_jump(b: PlayerBody, input: InputState)
    requires
        !b.is_grounded,
    ensures
        jump_spec(b, input) == b,
{
}

/// Moving with only right held advances `position.x` by exactly
/// `speed * dt`; with only left held it goes back by as much.
pub proof fn lemma_movement_exact(b: PlayerBody, input: InputState, dt: u32)
    requires
        movement_fits(b, input, dt),
    ensures
        input.move_right && !input.move_left ==> movement_spec(b, input, dt).position.x
            == b.position.x + b.speed * dt,
        input.move_left && !input.move_right ==> movement_spec(b, input, dt).position.x
            == b.position.x - b.speed * dt,
        movement_spec(b, input, dt).position.y == b.position.y,
{
    let v = b.speed as int;
    let t = dt as int;
    assert((-1) * v * t == -(v * t)) by (nonlinear_arith);
    assert(1 * v * t == v * t) by (nonlinear_arith);
}

/// Horizontal movement changes the horizontal position alone, and the new
/// position depends only on the old one, the speed, the left and right keys
/// and `dt`.
pub proof fn lemma_movement_only_moves_x(
    b1: PlayerBody,
    b2: PlayerBody,
    in1: InputState,
    in2: InputState,
    dt: u32,
)
    requires
        b1.position.x == b2.position.x,
        b1.speed == b2.speed,
        in1.move_left == in2.move_left,
        in1.move_right == in2.move_right,
    ensures
        movement_spec(b1, in1, dt).position.x == movement_spec(b2, in2, dt).position.x,
        movement_spec(b1, in1, dt) == (PlayerBody {
            position: Vector2 { x: movement_spec(b1, in1, dt).position.x, y: b1.position.y },
            ..b1
        }),
{
}

/// Left and right held together cancel: the body does not move.
pub proof fn lemma_opposite_keys_cancel(b: PlayerBody, input: InputState, dt: u32)
    requires
        input.move_left,
        input.move_right,
    ensures
        movement_spec(b, input, dt).position == b.position,
{
    let v = b.speed as int;
    let t = dt as int;
    assert(0 * v * t == 0) by (nonlinear_arith);
    assert(input.direction_spec() == 0);
}

/// A body moving upward after integration passes through any platform it
/// overlaps: it is not placed on it and not grounded.
pub proof fn lemma_upward_pass_through(b: PlayerBody, ps: Seq<Platform>, gravity: i64, dt: u32)
    requires
        integrate_spec(b, gravity, dt).velocity.y > 0,
    ensures
        gravity_spec(b, ps, gravity, dt).position == integrate_spec(b, gravity, dt).position,
        gravity_spec(b, ps, gravity, dt).velocity == integrate_spec(b, gravity, dt).velocity,
        !gravity_spec(b, ps, gravity, dt).is_grounded,
{
    let ib = integrate_spec(b, gravity, dt);
    lemma_first_landing_from(ib, ps, 0);
    assert(forall|j: int| 0 <= j < ps.len() ==> !lands_on(ib, #[trigger] ps[j]));
}

/// Where the body would land on several platforms, only the first of them in
/// registry order is used; the later ones are ignored.
pub proof fn lemma_first_match_wins(
    b: PlayerBody,
    ps: Seq<Platform>,
    gravity: i64,
    dt: u32,
    i: int,
    j: int,
)
    requires
        0 <= i < j < ps.len(),
        lands_on(integrate_spec(b, gravity, dt), ps[i]),
        lands_on(integrate_spec(b, gravity, dt), ps[j]),
        forall|k: int| 0 <= k < i ==> !lands_on(integrate_spec(b, gravity, dt), #[trigger] ps[k]),
    ensures
        first_landing(integrate_spec(b, gravity, dt), ps) == Some(i),
        gravity_spec(b, ps, gravity, dt) == landed_spec(integrate_spec(b, gravity, dt), ps[i]),
        gravity_spec(b, ps, gravity, dt) == gravity_spec(b, ps.subrange(0, i + 1), gravity, dt),
{
    let ib = integrate_spec(b, gravity, dt);
    let head = ps.subrange(0, i + 1);
    lemma_first_landing_from(ib, ps, 0);
    lemma_first_landing_from(ib, head, 0);
    assert(head[i] == ps[i]);
    match first_landing(ib, head) {
        Some(k) => {
            assert(head[k] == ps[k]);
            if k < i {
                assert(!lands_on(ib, ps[k]));
            } else if k > i {
                assert(!lands_on(ib, head[i]));
            }
        },
        None => {
            assert(!lands_on(ib, head[i]));
        },
    }
    match first_landing(ib, ps) {
        Some(k) => {
            if k < i {
                assert(!lands_on(ib, ps[k]));
            } else if k > i {
                assert(!lands_on(ib, ps[i]));
            }
        },
        None => {
            assert(!lands_on(ib, ps[i]));
        },
    }
}

} // verus!
