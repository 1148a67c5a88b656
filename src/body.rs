//! The player's kinematic state and the static platforms.
use vstd::prelude::*;
use crate::geometry::{Aabb, Vector2};

verus! {

/// The player: where it is, how it moves, and whether it stands on a platform.
#[derive(Clone, Copy, Debug, PartialEq, Eq, Structural)]
pub struct PlayerBody {
    /// World-space center.
    pub position: Vector2,
    /// Velocity; gravity and jumps change `y`. Horizontal movement comes from
    /// the input and `speed` alone and does not read or write `x`.
    pub velocity: Vector2,
    /// Horizontal movement rate.
    pub speed: i64,
    /// Upward velocity given by a jump.
    pub jump_power: i64,
    /// Whether the body rested on a platform's top after the last collision pass.
    pub is_grounded: bool,
    /// Half-width and half-height of the body's box.
    pub half_extent: Vector2,
}

/// A static platform: a box that never moves.
#[derive(Clone, Copy, Debug, PartialEq, Eq, Structural)]
pub struct Platform {
    /// World-space center.
    pub position: Vector2,
    /// Half-width and half-height of the platform's box.
    pub half_extent: Vector2,
}

impl PlayerBody {
    /// A body at rest and airborne, as it is at spawn.
    pub fn new(position: Vector2, half_extent: Vector2, speed: i64, jump_power: i64)
        -> (r: PlayerBody)
        ensures
            r.position == position,
            r.half_extent == half_extent,
            r.speed == speed,
            r.jump_power == jump_power,
            r.velocity == (Vector2 { x: 0, y: 0 }),
            !r.is_grounded,
    {
        PlayerBody {
            position,
            velocity: Vector2::zero(),
            speed,
            jump_power,
            is_grounded: false,
            half_extent,
        }
    }

    pub open spec fn aabb_spec(self) -> Aabb {
        Aabb { center: self.position, half_extent: self.half_extent }
    }

    /// The body's bounding box.
    pub fn aabb(&self) -> (r: Aabb)
        ensures
            r == self.aabb_spec(),
    {
        Aabb::new(self.position, self.half_extent)
    }
}

impl Platform {
    pub fn new(position: Vector2, half_extent: Vector2) -> (r: Platform)
        ensures
            r.position == position,
            r.half_extent == half_extent,
    {
        Platform { position, half_extent }
    }

    pub open spec fn aabb_spec(self) -> Aabb {
        Aabb { center: self.position, half_extent: self.half_extent }
    }

    /// The platform's bounding box.
    pub fn aabb(&self) -> (r: Aabb)
        ensures
            r == self.aabb_spec(),
    {
        Aabb::new(self.position, self.half_extent)
    }

    /// The height of the platform's top surface.
    pub open spec fn top(self) -> int {
        self.position.y + self.half_extent.y
    }
}

} // verus!
