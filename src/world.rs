//! The simulation context: one player, the platforms, gravity, and the input
//! of the last tick.
use vstd::prelude::*;
use crate::body::{Platform, PlayerBody};
use crate::geometry::{lemma_direction_bound, lemma_scaled_bound};
use crate::input::{edge, InputState};
use crate::systems::{
    apply_gravity, find_landing, gravity_fits, gravity_spec, integrate_spec, jump_spec,
    lemma_first_landing_from, movement_fits, movement_spec, player_jump, player_movement,
};

verus! {

/// The player after one whole tick: movement, then jump, then gravity and
/// collision, all with the same `dt`.
pub open spec fn step_spec(
    b: PlayerBody,
    ps: Seq<Platform>,
    gravity: i64,
    input: InputState,
    dt: u32,
) -> PlayerBody {
    gravity_spec(jump_spec(movement_spec(b, input, dt), input), ps, gravity, dt)
}

/// Every step of one tick fits the machine integers.
pub open spec fn step_fits(
    b: PlayerBody,
    ps: Seq<Platform>,
    gravity: i64,
    input: InputState,
    dt: u32,
) -> bool {
    &&& movement_fits(b, input, dt)
    &&& gravity_fits(jump_spec(movement_spec(b, input, dt), input), ps, gravity, dt)
}

/// The state of a running simulation. There is exactly one player by
/// construction; the platforms never change.
pub struct World {
    pub player: PlayerBody,
    pub platforms: Vec<Platform>,
    /// The vertical acceleration, negative for a downward pull.
    pub gravity: i64,
    /// The input as it was on the last tick, for edge-triggered jumping.
    pub input: InputState,
}

impl World {
    pub fn new(player: PlayerBody, platforms: Vec<Platform>, gravity: i64) -> (r: World)
        ensures
            r.player == player,
            r.platforms@ == platforms@,
            r.gravity == gravity,
            r.input == InputState::released_spec(),
    {
        World { player, platforms, gravity, input: InputState::released() }
    }

    /// Whether one tick with these keys held and this `dt` keeps every
    /// quantity within the machine integers, so that `tick` may be called.
    pub fn can_tick(&self, move_left: bool, move_right: bool, jump_held: bool, dt: u32) -> (r:
        bool)
        ensures
            r == step_fits(
                self.player,
                self.platforms@,
                self.gravity,
                self.input.next_spec(move_left, move_right, jump_held),
                dt,
            ),
    {
        let input = self.input.next(move_left, move_right, jump_held);
        let b = self.player;
        let t: i128 = dt as i128;
        let dir = input.direction();
        proof {
            lemma_direction_bound(dir as int, b.speed as int);
        }
        let vx: i128 = dir as i128 * b.speed as i128;
        proof {
            lemma_scaled_bound(vx as int, t as int);
        }
        let x: i128 = b.position.x as i128 + vx * t;
        if x < i64::MIN as i128 || x > i64::MAX as i128 {
            return false;
        }
        let jumps = input.jump_just_pressed && b.is_grounded;
        let vy0: i64 = if jumps {
            b.jump_power
        } else {
            b.velocity.y
        };
        proof {
            lemma_scaled_bound(self.gravity as int, t as int);
        }
        let vy: i128 = vy0 as i128 + self.gravity as i128 * t;
        if vy < i64::MIN as i128 || vy > i64::MAX as i128 {
            return false;
        }
        proof {
            lemma_scaled_bound(vy as int, t as int);
        }
        let y: i128 = b.position.y as i128 + vy * t;
        if y < i64::MIN as i128 || y > i64::MAX as i128 {
            return false;
        }
        let mut moved = b;
        moved.position.x = x as i64;
        moved.velocity.y = vy as i64;
        moved.position.y = y as i64;
        if jumps {
            moved.is_grounded = false;
        }
        let ghost jumped = jump_spec(movement_spec(b, input, dt), input);
        assert(moved == integrate_spec(jumped, self.gravity, dt));
        match find_landing(&moved, &self.platforms) {
            Some(k) => {
                proof {
                    lemma_first_landing_from(moved, self.platforms@, 0);
                }
                let p = &self.platforms[k];
                let rest: i128 = p.position.y as i128 + p.half_extent.y as i128
                    + b.half_extent.y as i128;
                i64::MIN as i128 <= rest && rest <= i64::MAX as i128
            },
            None => true,
        }
    }

    /// Advances the simulation by one fixed tick of `dt` time units, with the
    /// given logical keys held.
    pub fn tick(&mut self, move_left: bool, move_right: bool, jump_held: bool, dt: u32)
        requires
            step_fits(
                old(self).player,
                old(self).platforms@,
                old(self).gravity,
                old(self).input.next_spec(move_left, move_right, jump_held),
                dt,
            ),
        ensures
            final(self).input == old(self).input.next_spec(move_left, move_right, jump_held),
            final(self).input.jump_just_pressed == edge(old(self).input.jump_held, jump_held),
            final(self).player == step_spec(
                old(self).player,
                old(self).platforms@,
                old(self).gravity,
                final(self).input,
                dt,
            ),
            final(self).platforms@ == old(self).platforms@,
            final(self).gravity == old(self).gravity,
    {
        let input = self.input.next(move_left, move_right, jump_held);
        self.input = input;
        player_movement(&mut self.player, &input, dt);
        player_jump(&mut self.player, &input);
        apply_gravity(&mut self.player, &self.platforms, self.gravity, dt);
    }
}

} // verus!
