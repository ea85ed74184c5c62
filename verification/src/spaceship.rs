use vstd::prelude::*;
use crate::math::Vec3;
use crate::world::{
    same_identity, Archetype, Body, InputState, World, DT_LIMIT, FACING_BACK_Z, FACING_SCALE,
    POS_LIMIT,
};

verus! {

/// Bounding-sphere radius of the ship (5 units).
pub const SPACESHIP_RADIUS: i64 = 5_000_000_000;

/// Bounding-sphere radius of a missile (1 unit).
pub const MISSILE_RADIUS: i64 = 1_000_000_000;

/// Where the ship starts: 20 units behind the origin on the depth axis.
pub const STARTING_TRANSLATION_Z: i64 = -20_000_000_000;

/// Thrust speed of the ship (25 units per second), expressed per facing
/// step: the velocity is the facing vector (at `FACING_SCALE` resolution)
/// times this factor.
pub const THRUST_RATE: i64 = 25_000;

/// Yaw rate, micro-radians per millisecond (2.5 radians per second).
pub const ROTATION_SPEED: i64 = 2_500;

/// Roll rate, micro-radians per millisecond (3 radians per second).
pub const ROLL_SPEED: i64 = 3_000;

/// Missile speed (55 units per second), per facing step.
pub const MISSILE_SPEED_RATE: i64 = 55_000;

/// How far ahead of the ship a missile appears (6.5 units), per facing
/// step.
pub const MISSILE_OFFSET_RATE: i64 = 6_500_000;

pub const SPACESHIP_HEALTH: i64 = 100;

pub const SPACESHIP_COLLISION_DAMAGE: i64 = 100;

pub const MISSILE_HEALTH: i64 = 1;

pub const MISSILE_COLLISION_DAMAGE: i64 = 5;

// ---------------------------------------------------------------------------
// Finding the ship.
// ---------------------------------------------------------------------------

/// Number of ships among the first `n` bodies.
pub open spec fn ship_count(s: Seq<Body>, n: int) -> int
    decreases n,
{
    if n <= 0 {
        0
    } else {
        ship_count(s, n - 1) + if s[n - 1].archetype == Archetype::Spaceship {
            1int
        } else {
            0int
        }
    }
}

/// The control stages act only when the population holds exactly one ship.
pub open spec fn exactly_one_ship(s: Seq<Body>) -> bool {
    ship_count(s, s.len() as int) == 1
}

pub open spec fn ship_at(s: Seq<Body>, p: int) -> bool {
    &&& 0 <= p < s.len()
    &&& s[p].archetype == Archetype::Spaceship
}

/// Count the ships and report the index of the first one.
fn find_ship(bodies: &Vec<Body>) -> (r: (usize, usize))
    ensures
        r.0 as int == ship_count(bodies@, bodies@.len() as int),
        r.0 > 0 ==> ship_at(bodies@, r.1 as int),
{
    let n = bodies.len();
    let mut count: usize = 0;
    let mut idx: usize = 0;
    let mut i: usize = 0;
    while i < n
        invariant
            i <= n,
            n == bodies@.len(),
            count <= i,
            count as int == ship_count(bodies@, i as int),
            count > 0 ==> ship_at(bodies@, idx as int) && idx < i,
        decreases n - i,
    {
        if matches!(bodies[i].archetype, Archetype::Spaceship) {
            if count == 0 {
                idx = i;
            }
            count = count + 1;
        }
        i = i + 1;
    }
    (count, idx)
}

// ---------------------------------------------------------------------------
// Movement controls.
// ---------------------------------------------------------------------------

/// Yaw intent for this tick: the yaw-right key wins over yaw-left when both
/// are held (fixed key priority); positive is a turn to the left.
pub open spec fn yaw_of(input: InputState, dt: int) -> int {
    if input.yaw_right {
        -ROTATION_SPEED * dt
    } else if input.yaw_left {
        ROTATION_SPEED * dt
    } else {
        0
    }
}

/// Roll intent for this tick: the roll-left key wins over roll-right when
/// both are held; roll-left is negative.
pub open spec fn roll_of(input: InputState, dt: int) -> int {
    if input.roll_left {
        -ROLL_SPEED * dt
    } else if input.roll_right {
        ROLL_SPEED * dt
    } else {
        0
    }
}

/// Signed thrust per facing step: thrust-back wins over thrust-forward when
/// both are held.
pub open spec fn thrust_step(input: InputState) -> int {
    if input.thrust_back {
        -THRUST_RATE as int
    } else if input.thrust_forward {
        THRUST_RATE as int
    } else {
        0
    }
}

/// The ship's velocity is overwritten (not integrated) every tick: the
/// facing direction scaled by the signed thrust, negated — the ship advances
/// along the negative of its facing vector, per the sign convention of the
/// arena.
pub open spec fn thrust_velocity_ok(facing: Vec3, input: InputState, v: Vec3) -> bool {
    &&& v.x == -(facing.x * thrust_step(input))
    &&& v.y == -(facing.y * thrust_step(input))
    &&& v.z == -(facing.z * thrust_step(input))
}

/// Fields the movement controls leave untouched on the ship (everything but
/// the velocity).
pub open spec fn control_frame(pre: Body, post: Body) -> bool {
    &&& same_identity(pre, post)
    &&& post.position == pre.position
    &&& post.health == pre.health
    &&& post.spin == pre.spin
    &&& post.colliding@ == pre.colliding@
}

/// One pass of the movement controls: with exactly one ship live, its
/// velocity is overwritten from the held thrust keys and the rotation
/// intents are reported; otherwise the stage has nothing to do and reports
/// zero intents.
pub open spec fn movement_rel(
    pre: World,
    post: World,
    input: InputState,
    dt: int,
    yaw: int,
    roll: int,
) -> bool {
    &&& post.next_id == pre.next_id
    &&& post.spawn_timer == pre.spawn_timer
    &&& post.hostile_mutual_damage == pre.hostile_mutual_damage
    &&& if exactly_one_ship(pre.bodies@) {
        &&& yaw == yaw_of(input, dt)
        &&& roll == roll_of(input, dt)
        &&& post.bodies@.len() == pre.bodies@.len()
        &&& exists|p: int|
            #[trigger] ship_at(pre.bodies@, p) && (forall|i: int|
                0 <= i < pre.bodies@.len() && i != p ==> #[trigger] post.bodies@[i]
                    == pre.bodies@[i]) && control_frame(pre.bodies@[p], post.bodies@[p])
                && thrust_velocity_ok(pre.bodies@[p].facing, input, post.bodies@[p].velocity)
    } else {
        &&& post.bodies@ == pre.bodies@
        &&& yaw == 0
        &&& roll == 0
    }
}

/// Read the held yaw, roll and thrust keys and steer the single live ship:
/// yaw and roll become rotation intents for the host's orientation
/// bookkeeping, thrust overwrites the ship's velocity along its facing.
/// The facing used is the one the host supplied before this tick; the host
/// folds the reported intents into the orientation afterwards and refreshes
/// the facing for the next tick. With no ship (or more than one) live,
/// nothing happens.
pub fn spaceship_movement_controls(world: &mut World, input: InputState, dt: i64) -> (r: (i64, i64))
    requires
        0 <= dt <= DT_LIMIT,
        forall|i: int|
            0 <= i < old(world).bodies@.len() ==> (#[trigger] old(world).bodies@[i]).facing.bounded(
                FACING_SCALE as int,
            ),
    ensures
        movement_rel(*old(world), *final(world), input, dt as int, r.0 as int, r.1 as int),
{
    let ghost orig = world.bodies@;
    let (count, idx) = find_ship(&world.bodies);
    if count != 1 {
        return (0, 0);
    }
    let yaw: i64 = if input.yaw_right {
        -(ROTATION_SPEED * dt)
    } else if input.yaw_left {
        ROTATION_SPEED * dt
    } else {
        0
    };
    let roll: i64 = if input.roll_left {
        -(ROLL_SPEED * dt)
    } else if input.roll_right {
        ROLL_SPEED * dt
    } else {
        0
    };
    let step: i64 = if input.thrust_back {
        -THRUST_RATE
    } else if input.thrust_forward {
        THRUST_RATE
    } else {
        0
    };
    let facing = world.bodies[idx].facing;
    proof {
        assert(-25_000_000 <= facing.x * step <= 25_000_000 && -25_000_000 <= facing.y * step
            <= 25_000_000 && -25_000_000 <= facing.z * step <= 25_000_000) by (nonlinear_arith)
            requires
                -1_000 <= facing.x <= 1_000 && -1_000 <= facing.y <= 1_000 && -1_000 <= facing.z
                    <= 1_000 && -25_000 <= step <= 25_000,
        ;
    }
    let velocity = Vec3 { x: -(facing.x * step), y: -(facing.y * step), z: -(facing.z * step) };
    let mut olds: Vec<Body> = Vec::new();
    core::mem::swap(&mut olds, &mut world.bodies);
    let n = olds.len();
    let mut k: usize = 0;
    while k < n
        invariant
            k <= n,
            n == orig.len(),
            idx < n,
            olds@ =~= orig.subrange(k as int, n as int),
            world.bodies@.len() == k,
            forall|j: int| 0 <= j < k && j != idx as int ==> #[trigger] world.bodies@[j] == orig[j],
            k > idx ==> control_frame(orig[idx as int], world.bodies@[idx as int])
                && world.bodies@[idx as int].velocity == velocity,
            world.next_id == old(world).next_id,
            world.spawn_timer == old(world).spawn_timer,
            world.hostile_mutual_damage == old(world).hostile_mutual_damage,
        decreases n - k,
    {
        let mut b = olds.remove(0);
        proof {
            assert(b == orig[k as int]);
            assert(olds@ =~= orig.subrange(k as int + 1, n as int));
        }
        if k == idx {
            b.velocity = velocity;
        }
        world.bodies.push(b);
        k = k + 1;
    }
    proof {
        assert(ship_at(orig, idx as int));
        assert(thrust_velocity_ok(orig[idx as int].facing, input, velocity));
    }
    (yaw, roll)
}

// ---------------------------------------------------------------------------
// Weapon controls.
// ---------------------------------------------------------------------------

/// What a freshly fired missile looks like: placed `MISSILE_OFFSET_RATE`
/// facing steps ahead of the ship (against the facing vector, like the
/// thrust direction), flying the same way at the fixed missile speed,
/// fragile and harmful on contact, and removed once it leaves the arena.
pub open spec fn missile_ok(m: Body, ship: Body, id: u64) -> bool {
    &&& m.id == id
    &&& m.archetype == Archetype::SpaceshipMissile
    &&& m.position.x == ship.position.x + -(ship.facing.x * MISSILE_OFFSET_RATE)
    &&& m.position.y == ship.position.y + -(ship.facing.y * MISSILE_OFFSET_RATE)
    &&& m.position.z == ship.position.z + -(ship.facing.z * MISSILE_OFFSET_RATE)
    &&& m.velocity.x == -(ship.facing.x * MISSILE_SPEED_RATE)
    &&& m.velocity.y == -(ship.facing.y * MISSILE_SPEED_RATE)
    &&& m.velocity.z == -(ship.facing.z * MISSILE_SPEED_RATE)
    &&& m.acceleration == (Vec3 { x: 0, y: 0, z: 0 })
    &&& m.radius == MISSILE_RADIUS
    &&& m.health == Some(MISSILE_HEALTH)
    &&& m.contact_damage == Some(MISSILE_COLLISION_DAMAGE)
    &&& m.despawn_when_remote
    &&& m.colliding@ == Seq::<u64>::empty()
    &&& m.spin == 0
    &&& m.facing == ship.facing
}

/// One pass of the weapon controls: while the fire action is held and
/// exactly one ship is live, exactly one missile spawns this tick, ahead of
/// the ship along its facing; otherwise nothing happens.
pub open spec fn weapon_rel(pre: World, post: World, input: InputState, fired: bool) -> bool {
    &&& post.spawn_timer == pre.spawn_timer
    &&& post.hostile_mutual_damage == pre.hostile_mutual_damage
    &&& fired == (exactly_one_ship(pre.bodies@) && input.fire)
    &&& if fired {
        &&& post.bodies@.len() == pre.bodies@.len() + 1
        &&& forall|i: int| 0 <= i < pre.bodies@.len() ==> #[trigger] post.bodies@[i]
            == pre.bodies@[i]
        &&& exists|p: int|
            #[trigger] ship_at(pre.bodies@, p) && missile_ok(
                post.bodies@[pre.bodies@.len() as int],
                pre.bodies@[p],
                pre.next_id,
            )
        &&& post.next_id == pre.next_id + 1
    } else {
        &&& post.bodies@ == pre.bodies@
        &&& post.next_id == pre.next_id
    }
}

/// While the fire action is held, spawn one missile ahead of the single
/// live ship, inheriting its facing. With no ship live the stage has
/// nothing to do.
pub fn spaceship_weapon_controls(world: &mut World, input: InputState) -> (fired: bool)
    requires
        old(world).next_id < u64::MAX,
        forall|i: int|
            0 <= i < old(world).bodies@.len() ==> (#[trigger] old(
                world,
            ).bodies@[i]).position.bounded(POS_LIMIT as int) && old(
                world,
            ).bodies@[i].facing.bounded(FACING_SCALE as int),
    ensures
        weapon_rel(*old(world), *final(world), input, fired),
{
    let (count, idx) = find_ship(&world.bodies);
    if count != 1 || !input.fire {
        return false;
    }
    let pos = world.bodies[idx].position;
    let facing = world.bodies[idx].facing;
    proof {
        assert(-6_500_000_000 <= facing.x * MISSILE_OFFSET_RATE <= 6_500_000_000
            && -6_500_000_000 <= facing.y * MISSILE_OFFSET_RATE <= 6_500_000_000
            && -6_500_000_000 <= facing.z * MISSILE_OFFSET_RATE <= 6_500_000_000 && -55_000_000
            <= facing.x * MISSILE_SPEED_RATE <= 55_000_000 && -55_000_000 <= facing.y
            * MISSILE_SPEED_RATE <= 55_000_000 && -55_000_000 <= facing.z * MISSILE_SPEED_RATE
            <= 55_000_000) by (nonlinear_arith)
            requires
                -1_000 <= facing.x <= 1_000 && -1_000 <= facing.y <= 1_000 && -1_000 <= facing.z
                    <= 1_000,
        ;
    }
    let missile = Body {
        id: world.next_id,
        archetype: Archetype::SpaceshipMissile,
        position: Vec3 {
            x: pos.x + -(facing.x * MISSILE_OFFSET_RATE),
            y: pos.y + -(facing.y * MISSILE_OFFSET_RATE),
            z: pos.z + -(facing.z * MISSILE_OFFSET_RATE),
        },
        velocity: Vec3 {
            x: -(facing.x * MISSILE_SPEED_RATE),
            y: -(facing.y * MISSILE_SPEED_RATE),
            z: -(facing.z * MISSILE_SPEED_RATE),
        },
        acceleration: Vec3 { x: 0, y: 0, z: 0 },
        radius: MISSILE_RADIUS,
        health: Some(MISSILE_HEALTH),
        contact_damage: Some(MISSILE_COLLISION_DAMAGE),
        despawn_when_remote: true,
        colliding: Vec::new(),
        spin: 0,
        facing,
    };
    proof {
        assert(ship_at(world.bodies@, idx as int));
    }
    world.next_id = world.next_id + 1;
    world.bodies.push(missile);
    true
}

// ---------------------------------------------------------------------------
// Ship spawning and status.
// ---------------------------------------------------------------------------

/// What the freshly spawned player ship looks like.
pub open spec fn new_ship_ok(b: Body, id: u64) -> bool {
    &&& b.id == id
    &&& b.archetype == Archetype::Spaceship
    &&& b.position == (Vec3 { x: 0, y: 0, z: STARTING_TRANSLATION_Z })
    &&& b.velocity == (Vec3 { x: 0, y: 0, z: 0 })
    &&& b.acceleration == (Vec3 { x: 0, y: 0, z: 0 })
    &&& b.radius == SPACESHIP_RADIUS
    &&& b.health == Some(SPACESHIP_HEALTH)
    &&& b.contact_damage == Some(SPACESHIP_COLLISION_DAMAGE)
    &&& !b.despawn_when_remote
    &&& b.colliding@ == Seq::<u64>::empty()
    &&& b.spin == 0
    &&& b.facing == (Vec3 { x: 0, y: 0, z: FACING_BACK_Z })
}

/// Create the player ship at the start of a run: at rest behind the origin,
/// facing the negative depth axis, with full health, harmful on contact, and
/// never removed for straying (only its health can end it).
pub fn spawn_spaceship(world: &mut World)
    requires
        old(world).next_id < u64::MAX,
    ensures
        final(world).bodies@.len() == old(world).bodies@.len() + 1,
        forall|i: int| 0 <= i < old(world).bodies@.len() ==> #[trigger] final(world).bodies@[i]
            == old(world).bodies@[i],
        new_ship_ok(final(world).bodies@[old(world).bodies@.len() as int], old(world).next_id),
        final(world).next_id == old(world).next_id + 1,
        final(world).spawn_timer == old(world).spawn_timer,
        final(world).hostile_mutual_damage == old(world).hostile_mutual_damage,
{
    let ship = Body {
        id: world.next_id,
        archetype: Archetype::Spaceship,
        position: Vec3 { x: 0, y: 0, z: STARTING_TRANSLATION_Z },
        velocity: Vec3 { x: 0, y: 0, z: 0 },
        acceleration: Vec3 { x: 0, y: 0, z: 0 },
        radius: SPACESHIP_RADIUS,
        health: Some(SPACESHIP_HEALTH),
        contact_damage: Some(SPACESHIP_COLLISION_DAMAGE),
        despawn_when_remote: false,
        colliding: Vec::new(),
        spin: 0,
        facing: Vec3 { x: 0, y: 0, z: FACING_BACK_Z },
    };
    world.next_id = world.next_id + 1;
    world.bodies.push(ship);
}

/// What a host's status display reads off the ship each tick.
#[derive(Clone, Copy, PartialEq, Eq, Structural, Debug)]
pub struct PlayerStatus {
    pub position: Vec3,
    /// The ship's health, or zero if it carries none.
    pub health: i64,
}

/// Report the single live ship's position and health for an external status
/// display; nothing to report unless exactly one ship is live.
pub fn update_spaceship_status(world: &World) -> (st: Option<PlayerStatus>)
    ensures
        st is Some <==> exactly_one_ship(world.bodies@),
        match st {
            Some(ps) => exists|p: int|
                #[trigger] ship_at(world.bodies@, p) && ps.position == world.bodies@[p].position
                    && ps.health == match world.bodies@[p].health {
                    Some(h) => h,
                    None => 0,
                },
            None => true,
        },
{
    let (count, idx) = find_ship(&world.bodies);
    if count != 1 {
        return None;
    }
    let health = match world.bodies[idx].health {
        Some(h) => h,
        None => 0,
    };
    proof {
        assert(ship_at(world.bodies@, idx as int));
    }
    Some(PlayerStatus { position: world.bodies[idx].position, health })
}

} // verus!
