use vstd::prelude::*;
use crate::math::{direction_scaled, scaled_direction, Vec3};
use crate::rng::{fresh_rng, sample_range};
use crate::world::{
    ids_contain, retain_rec, same_identity, Archetype, Body, SpawnTimer, World, DT_LIMIT,
    FACING_BACK_Z, TAU_MICRORAD,
};

verus! {

/// Bounding-sphere radius of an asteroid (2.5 units).
pub const ASTEROID_RADIUS: i64 = 2_500_000_000;

/// Speed of a freshly spawned asteroid (5 units per second).
pub const VELOCITY_SCALAR: i64 = 5_000_000;

/// Acceleration magnitude of a freshly spawned asteroid (1 unit per second
/// squared).
pub const ACCELERATION_SCALAR: i64 = 1_000;

/// Horizontal spawn band, nano-units (-25 to 25 units).
pub const SPAWN_RANGE_X_MIN: i64 = -25_000_000_000;

pub const SPAWN_RANGE_X_MAX: i64 = 25_000_000_000;

/// Depth spawn band, nano-units (0 to 25 units).
pub const SPAWN_RANGE_Z_MIN: i64 = 0;

pub const SPAWN_RANGE_Z_MAX: i64 = 25_000_000_000;

/// Spawn timer period: one asteroid per second.
pub const SPAWN_TIME_MS: i64 = 1_000;

/// Visual roll rate of an asteroid, micro-radians per millisecond
/// (2.5 radians per second).
pub const ASTEROID_ROTATE_RATE: u64 = 2_500;

// ---------------------------------------------------------------------------
// Timed spawning.
// ---------------------------------------------------------------------------

/// Whether the repeating spawn countdown fires during a tick of `dt`
/// milliseconds.
pub open spec fn timer_fires(t: SpawnTimer, dt: int) -> bool {
    t.elapsed_ms + dt >= t.period_ms
}

/// What a freshly spawned asteroid looks like: placed uniformly in the fixed
/// rectangular band on the plane, with velocity and acceleration drawn as
/// random planar directions scaled to the fixed magnitudes (or zero for a
/// degenerate draw), harmless, indestructible, and removed once it leaves
/// the arena.
pub open spec fn new_asteroid_ok(b: Body, id: u64) -> bool {
    &&& b.id == id
    &&& b.archetype == Archetype::Asteroid
    &&& SPAWN_RANGE_X_MIN <= b.position.x < SPAWN_RANGE_X_MAX
    &&& b.position.y == 0
    &&& SPAWN_RANGE_Z_MIN <= b.position.z < SPAWN_RANGE_Z_MAX
    &&& -VELOCITY_SCALAR <= b.velocity.x <= VELOCITY_SCALAR
    &&& b.velocity.y == 0
    &&& -VELOCITY_SCALAR <= b.velocity.z <= VELOCITY_SCALAR
    &&& exists|dx: int, dz: int|
        -1000 <= dx < 1000 && -1000 <= dz < 1000 && #[trigger] direction_scaled(
            dx,
            dz,
            VELOCITY_SCALAR as int,
            b.velocity,
        )
    &&& -ACCELERATION_SCALAR <= b.acceleration.x <= ACCELERATION_SCALAR
    &&& b.acceleration.y == 0
    &&& -ACCELERATION_SCALAR <= b.acceleration.z <= ACCELERATION_SCALAR
    &&& exists|dx: int, dz: int|
        -1000 <= dx < 1000 && -1000 <= dz < 1000 && #[trigger] direction_scaled(
            dx,
            dz,
            ACCELERATION_SCALAR as int,
            b.acceleration,
        )
    &&& b.radius == ASTEROID_RADIUS
    &&& b.health is None
    &&& b.contact_damage is None
    &&& b.despawn_when_remote
    &&& b.colliding@ == Seq::<u64>::empty()
    &&& b.spin == 0
    &&& b.facing == (Vec3 { x: 0, y: 0, z: FACING_BACK_Z })
}

/// One pass of the timed spawner. The countdown accumulates `dt`; if it
/// reaches the period it fires exactly once — missed periods in an oversized
/// tick are dropped, not queued — and restarts from zero. On firing exactly
/// one asteroid is appended and the id counter advances by one; otherwise
/// the population is untouched.
pub open spec fn spawn_rel(pre: World, post: World, dt: int, fired: bool) -> bool {
    &&& fired == timer_fires(pre.spawn_timer, dt)
    &&& post.spawn_timer.period_ms == pre.spawn_timer.period_ms
    &&& post.hostile_mutual_damage == pre.hostile_mutual_damage
    &&& if fired {
        &&& post.spawn_timer.elapsed_ms == 0
        &&& post.bodies@.len() == pre.bodies@.len() + 1
        &&& forall|i: int| 0 <= i < pre.bodies@.len() ==> post.bodies@[i] == pre.bodies@[i]
        &&& new_asteroid_ok(post.bodies@[pre.bodies@.len() as int], pre.next_id)
        &&& post.next_id == pre.next_id + 1
    } else {
        &&& post.spawn_timer.elapsed_ms == pre.spawn_timer.elapsed_ms + dt
        &&& post.bodies@ == pre.bodies@
        &&& post.next_id == pre.next_id
    }
}

/// Advance the spawn countdown by `dt` and, when it fires, spawn one new
/// asteroid with randomised position, velocity and acceleration.
pub fn spawn_asteroid(world: &mut World, dt: i64) -> (fired: bool)
    requires
        0 <= dt <= DT_LIMIT,
        crate::world::timer_wf(old(world).spawn_timer),
        old(world).next_id < u64::MAX,
    ensures
        spawn_rel(*old(world), *final(world), dt as int, fired),
{
    let fires = world.spawn_timer.elapsed_ms + dt >= world.spawn_timer.period_ms;
    if !fires {
        world.spawn_timer.elapsed_ms = world.spawn_timer.elapsed_ms + dt;
        return false;
    }
    world.spawn_timer.elapsed_ms = 0;
    let mut rng = fresh_rng();
    let px = sample_range(&mut rng, SPAWN_RANGE_X_MIN, SPAWN_RANGE_X_MAX);
    let pz = sample_range(&mut rng, SPAWN_RANGE_Z_MIN, SPAWN_RANGE_Z_MAX);
    let vx_raw = sample_range(&mut rng, -1000, 1000);
    let vz_raw = sample_range(&mut rng, -1000, 1000);
    let ax_raw = sample_range(&mut rng, -1000, 1000);
    let az_raw = sample_range(&mut rng, -1000, 1000);
    let velocity = scaled_direction(vx_raw, vz_raw, VELOCITY_SCALAR);
    let acceleration = scaled_direction(ax_raw, az_raw, ACCELERATION_SCALAR);
    let b = Body {
        id: world.next_id,
        archetype: Archetype::Asteroid,
        position: Vec3 { x: px, y: 0, z: pz },
        velocity,
        acceleration,
        radius: ASTEROID_RADIUS,
        health: None,
        contact_damage: None,
        despawn_when_remote: true,
        colliding: Vec::new(),
        spin: 0,
        facing: Vec3 { x: 0, y: 0, z: FACING_BACK_Z },
    };
    proof {
        assert(direction_scaled(vx_raw as int, vz_raw as int, VELOCITY_SCALAR as int, velocity));
        assert(direction_scaled(
            ax_raw as int,
            az_raw as int,
            ACCELERATION_SCALAR as int,
            acceleration,
        ));
    }
    world.next_id = world.next_id + 1;
    world.bodies.push(b);
    true
}

// ---------------------------------------------------------------------------
// Visual spin.
// ---------------------------------------------------------------------------

/// One spin step: asteroids roll at the fixed rate, wrapped to one turn;
/// every other body keeps its angle. Nothing else changes.
pub open spec fn spun_body(pre: Body, post: Body, dt: int) -> bool {
    &&& same_identity(pre, post)
    &&& post.position == pre.position
    &&& post.velocity == pre.velocity
    &&& post.health == pre.health
    &&& post.colliding@ == pre.colliding@
    &&& post.spin == if pre.archetype == Archetype::Asteroid {
        (pre.spin + ASTEROID_ROTATE_RATE * dt) % (TAU_MICRORAD as int)
    } else {
        pre.spin as int
    }
}

pub open spec fn spin_rel(pre: Seq<Body>, post: Seq<Body>, dt: int) -> bool {
    &&& post.len() == pre.len()
    &&& forall|i: int| 0 <= i < pre.len() ==> spun_body(#[trigger] pre[i], #[trigger] post[i], dt)
}

/// Roll every asteroid around its local axis by the fixed rate times `dt`,
/// wrapping at a full turn. Purely cosmetic state read by the renderer.
pub fn rotate_asteroids(world: &mut World, dt: i64)
    requires
        0 <= dt <= DT_LIMIT,
        forall|i: int|
            0 <= i < old(world).bodies@.len() ==> (#[trigger] old(world).bodies@[i]).spin
                < TAU_MICRORAD,
    ensures
        spin_rel(old(world).bodies@, final(world).bodies@, dt as int),
        final(world).next_id == old(world).next_id,
        final(world).spawn_timer == old(world).spawn_timer,
        final(world).hostile_mutual_damage == old(world).hostile_mutual_damage,
{
    let ghost orig = world.bodies@;
    let mut olds: Vec<Body> = Vec::new();
    core::mem::swap(&mut olds, &mut world.bodies);
    let n = olds.len();
    let mut i: usize = 0;
    while i < n
        invariant
            i <= n,
            n == orig.len(),
            olds@ =~= orig.subrange(i as int, n as int),
            0 <= dt <= DT_LIMIT,
            forall|j: int| 0 <= j < n ==> (#[trigger] orig[j]).spin < TAU_MICRORAD,
            world.bodies@.len() == i,
            forall|j: int|
                0 <= j < i ==> spun_body(#[trigger] orig[j], #[trigger] world.bodies@[j], dt as int),
            world.next_id == old(world).next_id,
            world.spawn_timer == old(world).spawn_timer,
            world.hostile_mutual_damage == old(world).hostile_mutual_damage,
        decreases n - i,
    {
        let mut b = olds.remove(0);
        proof {
            assert(b == orig[i as int]);
            assert(olds@ =~= orig.subrange(i as int + 1, n as int));
        }
        if matches!(b.archetype, Archetype::Asteroid) {
            let add: u64 = ASTEROID_ROTATE_RATE * (dt as u64);
            b.spin = (b.spin + add) % TAU_MICRORAD;
        }
        world.bodies.push(b);
        i = i + 1;
    }
}

// ---------------------------------------------------------------------------
// Collision response of asteroids.
// ---------------------------------------------------------------------------

/// Among the first `m` bodies there is a live body of another archetype
/// that body `i` has registered an overlap with.
pub open spec fn struck_among(s: Seq<Body>, i: int, m: int) -> bool {
    exists|j: int|
        0 <= j < m && j != i && (#[trigger] s[j]).archetype != Archetype::Asteroid
            && s[i].colliding@.contains(s[j].id)
}

/// The asteroid at index `i` has registered an overlap with a live body of
/// another archetype (the ship or a missile).
pub open spec fn struck_by_stranger(s: Seq<Body>, i: int) -> bool {
    &&& s[i].archetype == Archetype::Asteroid
    &&& struck_among(s, i, s.len() as int)
}

pub open spec fn keep_unstruck_f() -> spec_fn(Seq<Body>, int) -> bool {
    |s: Seq<Body>, i: int| !struck_by_stranger(s, i)
}

/// The population after asteroids hit by a foreign body are removed.
pub open spec fn cull_struck_spec(s: Seq<Body>) -> Seq<Body> {
    retain_rec(s, keep_unstruck_f(), s.len() as int)
}

/// Remove every asteroid whose overlap set names a body of another
/// archetype; asteroid-asteroid contacts are ignored here. Everything else
/// survives, in order.
pub fn handle_asteroid_collisions(world: &mut World)
    ensures
        final(world).bodies@ == cull_struck_spec(old(world).bodies@),
        final(world).next_id == old(world).next_id,
        final(world).spawn_timer == old(world).spawn_timer,
        final(world).hostile_mutual_damage == old(world).hostile_mutual_damage,
{
    let ghost orig = world.bodies@;
    let n = world.bodies.len();
    let mut struck: Vec<bool> = Vec::new();
    let mut i: usize = 0;
    while i < n
        invariant
            i <= n,
            n == orig.len(),
            world.bodies@ == orig,
            struck@.len() == i,
            forall|p: int| 0 <= p < i ==> #[trigger] struck@[p] == struck_by_stranger(orig, p),
        decreases n - i,
    {
        let mut hit = false;
        if matches!(world.bodies[i].archetype, Archetype::Asteroid) {
            let mut j: usize = 0;
            while j < n
                invariant
                    i < n,
                    j <= n,
                    n == orig.len(),
                    world.bodies@ == orig,
                    orig[i as int].archetype == Archetype::Asteroid,
                    hit == struck_among(orig, i as int, j as int),
                decreases n - j,
            {
                if j != i && !matches!(world.bodies[j].archetype, Archetype::Asteroid)
                    && ids_contain(&world.bodies[i].colliding, world.bodies[j].id) {
                    hit = true;
                    proof {
                        assert(struck_among(orig, i as int, j as int + 1));
                    }
                } else {
                    proof {
                        if hit {
                            let q = choose|q: int|
                                0 <= q < j as int && q != i as int && (#[trigger] orig[q]).archetype
                                    != Archetype::Asteroid && orig[i as int].colliding@.contains(
                                    orig[q].id,
                                );
                            assert(struck_among(orig, i as int, j as int + 1));
                        } else if struck_among(orig, i as int, j as int + 1) {
                            let q = choose|q: int|
                                0 <= q < j as int + 1 && q != i as int && (#[trigger] orig[q]).archetype
                                    != Archetype::Asteroid && orig[i as int].colliding@.contains(
                                    orig[q].id,
                                );
                            assert(q == j as int || struck_among(orig, i as int, j as int));
                            assert(false);
                        }
                    }
                }
                j = j + 1;
            }
        }
        proof {
            assert(hit == struck_by_stranger(orig, i as int));
        }
        struck.push(hit);
        i = i + 1;
    }
    let mut olds: Vec<Body> = Vec::new();
    core::mem::swap(&mut olds, &mut world.bodies);
    let mut k: usize = 0;
    while k < n
        invariant
            k <= n,
            n == orig.len(),
            olds@ =~= orig.subrange(k as int, n as int),
            struck@.len() == n,
            forall|p: int| 0 <= p < n ==> #[trigger] struck@[p] == struck_by_stranger(orig, p),
            world.bodies@ == retain_rec(orig, keep_unstruck_f(), k as int),
            world.next_id == old(world).next_id,
            world.spawn_timer == old(world).spawn_timer,
            world.hostile_mutual_damage == old(world).hostile_mutual_damage,
        decreases n - k,
    {
        let b = olds.remove(0);
        proof {
            assert(b == orig[k as int]);
            assert(olds@ =~= orig.subrange(k as int + 1, n as int));
            assert(struck@[k as int] == struck_by_stranger(orig, k as int));
            assert((keep_unstruck_f())(orig, k as int) == !struck_by_stranger(orig, k as int));
        }
        if !struck[k] {
            world.bodies.push(b);
        }
        k = k + 1;
    }
}

} // verus!
