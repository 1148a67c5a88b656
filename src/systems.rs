//! The three per-tick systems: horizontal movement, jumping, and gravity with
//! collision against the platforms.
use vstd::prelude::*;
use crate::body::{Platform, PlayerBody};
use crate::geometry::{fits_i64, lemma_direction_bound, lemma_scaled_bound, overlaps, Vector2};
use crate::input::InputState;

verus! {

/// The horizontal velocity asked for by the input.
pub open spec fn horizontal_velocity(b: PlayerBody, input: InputState) -> int {
    input.direction_spec() * b.speed
}

/// The new horizontal position fits the machine integers.
pub open spec fn movement_fits(b: PlayerBody, input: InputState, dt: u32) -> bool {
    fits_i64(b.position.x + horizontal_velocity(b, input) * dt)
}

/// The body after horizontal movement: `position.x` advances by the input's
/// direction times `speed` for `dt`; nothing else changes.
pub open spec fn movement_spec(b: PlayerBody, input: InputState, dt: u32) -> PlayerBody {
    PlayerBody {
        position: Vector2 {
            x: (b.position.x + horizontal_velocity(b, input) * dt) as i64,
            y: b.position.y,
        },
        ..b
    }
}

/// Moves the body horizontally by `direction * speed * dt`.
pub fn player_movement(player: &mut PlayerBody, input: &InputState, dt: u32)
    requires
        movement_fits(*old(player), *input, dt),
    ensures
        *final(player) == movement_spec(*old(player), *input, dt),
{
    let dir = input.direction();
    proof {
        lemma_direction_bound(dir as int, player.speed as int);
    }
    let vx: i128 = dir as i128 * player.speed as i128;
    proof {
        lemma_scaled_bound(vx as int, dt as int);
    }
    let x: i128 = player.position.x as i128 + vx * dt as i128;
    player.position.x = x as i64;
}

/// The body after the jump system: a jump starts only when jump was freshly
/// pressed on this tick and the body is grounded.
pub open spec fn jump_spec(b: PlayerBody, input: InputState) -> PlayerBody {
    if input.jump_just_pressed && b.is_grounded {
        PlayerBody {
            velocity: Vector2 { x: b.velocity.x, y: b.jump_power },
            is_grounded: false,
            ..b
        }
    } else {
        b
    }
}

/// Starts a jump when jump was just pressed and the body is grounded.
pub fn player_jump(player: &mut PlayerBody, input: &InputState)
    ensures
        *final(player) == jump_spec(*old(player), *input),
{
    if input.jump_just_pressed && player.is_grounded {
        player.velocity.y = player.jump_power;
        player.is_grounded = false;
    }
}

/// The vertical velocity after gravity acts for `dt`.
pub open spec fn fallen_velocity(b: PlayerBody, gravity: i64, dt: u32) -> int {
    b.velocity.y + gravity * dt
}

/// The integration steps fit the machine integers.
pub open spec fn integrate_fits(b: PlayerBody, gravity: i64, dt: u32) -> bool {
    &&& fits_i64(fallen_velocity(b, gravity, dt))
    &&& fits_i64(b.position.y + fallen_velocity(b, gravity, dt) * dt)
}

/// The body after integration: first the velocity, then the position with the
/// new velocity.
pub open spec fn integrate_spec(b: PlayerBody, gravity: i64, dt: u32) -> PlayerBody {
    PlayerBody {
        velocity: Vector2 { x: b.velocity.x, y: fallen_velocity(b, gravity, dt) as i64 },
        position: Vector2 {
            x: b.position.x,
            y: (b.position.y + fallen_velocity(b, gravity, dt) * dt) as i64,
        },
        ..b
    }
}

/// The body lands on `p`: it is not moving upward and the boxes overlap.
pub open spec fn lands_on(b: PlayerBody, p: Platform) -> bool {
    b.velocity.y <= 0 && overlaps(b.aabb_spec(), p.aabb_spec())
}

/// The first index from `i` on whose platform the body lands.
pub open spec fn first_landing_from(b: PlayerBody, ps: Seq<Platform>, i: int) -> Option<int>
    decreases ps.len() - i,
{
    if i < 0 || i >= ps.len() {
        None
    } else if lands_on(b, ps[i]) {
        Some(i)
    } else {
        first_landing_from(b, ps, i + 1)
    }
}

/// The first platform, in registry order, on which the body lands.
pub open spec fn first_landing(b: PlayerBody, ps: Seq<Platform>) -> Option<int> {
    first_landing_from(b, ps, 0)
}

/// The height of the body's center when its bottom rests on the top of `p`.
pub open spec fn rest_height(b: PlayerBody, p: Platform) -> int {
    p.top() + b.half_extent.y
}

/// A first landing from `i` is the least index from `i` on whose platform the
/// body lands.
pub proof fn lemma_first_landing_from(b: PlayerBody, ps: Seq<Platform>, i: int)
    requires
        0 <= i,
    ensures
        (match first_landing_from(b, ps, i) {
            Some(k) => i <= k < ps.len() && lands_on(b, ps[k]) && forall|j: int|
                i <= j < k ==> !lands_on(b, #[trigger] ps[j]),
            None => forall|j: int| i <= j < ps.len() ==> !lands_on(b, #[trigger] ps[j]),
        }),
    decreases ps.len() - i,
{
    if i < ps.len() && !lands_on(b, ps[i]) {
        lemma_first_landing_from(b, ps, i + 1);
    }
}

/// The rest height on the platform the body lands on, if any, fits the
/// machine integers.
pub open spec fn landing_fits(b: PlayerBody, ps: Seq<Platform>) -> bool {
    match first_landing(b, ps) {
        Some(k) => fits_i64(rest_height(b, ps[k])),
        None => true,
    }
}

/// The body placed on top of `p`, at rest and grounded.
pub open spec fn landed_spec(b: PlayerBody, p: Platform) -> PlayerBody {
    PlayerBody {
        position: Vector2 { x: b.position.x, y: rest_height(b, p) as i64 },
        velocity: Vector2 { x: b.velocity.x, y: 0 },
        is_grounded: true,
        ..b
    }
}

/// The collision pass: the body is placed on the first platform it lands on;
/// where it lands on none, it is airborne.
pub open spec fn collide_spec(b: PlayerBody, ps: Seq<Platform>) -> PlayerBody {
    match first_landing(b, ps) {
        Some(k) => landed_spec(b, ps[k]),
        None => PlayerBody { is_grounded: false, ..b },
    }
}

/// Both steps of the gravity system fit the machine integers.
pub open spec fn gravity_fits(b: PlayerBody, ps: Seq<Platform>, gravity: i64, dt: u32) -> bool {
    integrate_fits(b, gravity, dt) && landing_fits(integrate_spec(b, gravity, dt), ps)
}

/// The body after the gravity system: integration, then the collision pass.
pub open spec fn gravity_spec(b: PlayerBody, ps: Seq<Platform>, gravity: i64, dt: u32)
    -> PlayerBody {
    collide_spec(integrate_spec(b, gravity, dt), ps)
}

/// The index of the first platform in `platforms` on which `player` lands.
pub fn find_landing(player: &PlayerBody, platforms: &Vec<Platform>) -> (r: Option<usize>)
    ensures
        (match r {
            Some(k) => first_landing(*player, platforms@) == Some(k as int),
            None => first_landing(*player, platforms@) is None,
        }),
{
    let player_aabb = player.aabb();
    let mut i: usize = 0;
    while i < platforms.len()
        invariant
            0 <= i <= platforms.len(),
            first_landing(*player, platforms@) == first_landing_from(*player, platforms@, i as int),
            player_aabb == player.aabb_spec(),
        decreases platforms.len() - i,
    {
        let p = &platforms[i];
        if player.velocity.y <= 0 && player_aabb.intersects(&p.aabb()) {
            return Some(i);
        }
        i = i + 1;
    }
    None
}

/// Applies gravity for `dt`, integrates the vertical position, then rests the
/// body on the first platform it lands on. The grounded flag is cleared when
/// it lands on none, so a body that walks off a ledge cannot jump from the air.
pub fn apply_gravity(player: &mut PlayerBody, platforms: &Vec<Platform>, gravity: i64, dt: u32)
    requires
        gravity_fits(*old(player), platforms@, gravity, dt),
    ensures
        *final(player) == gravity_spec(*old(player), platforms@, gravity, dt),
{
    let vy: i128 = player.velocity.y as i128 + gravity as i128 * dt as i128;
    let y: i128 = player.position.y as i128 + vy * dt as i128;
    player.velocity.y = vy as i64;
    player.position.y = y as i64;
    match find_landing(player, platforms) {
        Some(k) => {
            proof {
                lemma_first_landing_from(*player, platforms@, 0);
            }
            let p = &platforms[k];
            let rest: i128 = p.position.y as i128 + p.half_extent.y as i128
                + player.half_extent.y as i128;
            player.position.y = rest as i64;
            player.velocity.y = 0;
            player.is_grounded = true;
        },
        None => {
            player.is_grounded = false;
        },
    }
}

} // verus!
