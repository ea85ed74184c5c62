use vstd::prelude::*;
use crate::math::Vec3;
use crate::world::{Body, World, same_identity, ACC_LIMIT, DT_LIMIT, VEL_LIMIT};

verus! {

/// Coordinate bound accepted by the integrator: a well-formed position plus
/// the margin a missile spawned this tick may add.
pub const KIN_POS_IN_LIMIT: i64 = 1_010_000_000_000_000;

/// Velocity bound guaranteed after one integration step.
pub const VEL_AFTER_LIMIT: i64 = 1_100_000_000_000;

/// Coordinate bound guaranteed after one integration step.
pub const POS_AFTER_LIMIT: i64 = 1_200_000_000_000_000_000;

/// One integration step on one body: the (constant) acceleration is folded
/// into the velocity first, then the position advances by the updated
/// velocity times `dt`. Both updates are exact integer arithmetic. Nothing
/// else about the body changes.
pub open spec fn moved_body(pre: Body, post: Body, dt: int) -> bool {
    &&& same_identity(pre, post)
    &&& post.health == pre.health
    &&& post.spin == pre.spin
    &&& post.colliding@ == pre.colliding@
    &&& post.velocity.x == pre.velocity.x + pre.acceleration.x * dt
    &&& post.velocity.y == pre.velocity.y + pre.acceleration.y * dt
    &&& post.velocity.z == pre.velocity.z + pre.acceleration.z * dt
    &&& post.position.x == pre.position.x + post.velocity.x * dt
    &&& post.position.y == pre.position.y + post.velocity.y * dt
    &&& post.position.z == pre.position.z + post.velocity.z * dt
}

/// Kinematic integration of the whole population.
pub open spec fn kine_rel(pre: Seq<Body>, post: Seq<Body>, dt: int) -> bool {
    &&& post.len() == pre.len()
    &&& forall|i: int| 0 <= i < pre.len() ==> moved_body(#[trigger] pre[i], #[trigger] post[i], dt)
}

/// Advance every body by one tick of duration `dt` milliseconds: fold the
/// acceleration into the velocity, then advance the position by the updated
/// velocity. Runs unconditionally for every body; writes position and
/// velocity exactly once each.
pub fn update_motion(world: &mut World, dt: i64)
    requires
        0 <= dt <= DT_LIMIT,
        forall|i: int|
            0 <= i < old(world).bodies@.len() ==> (#[trigger] old(
                world,
            ).bodies@[i]).position.bounded(KIN_POS_IN_LIMIT as int) && old(
                world,
            ).bodies@[i].velocity.bounded(VEL_LIMIT as int) && old(
                world,
            ).bodies@[i].acceleration.bounded(ACC_LIMIT as int),
    ensures
        kine_rel(old(world).bodies@, final(world).bodies@, dt as int),
        forall|i: int|
            0 <= i < final(world).bodies@.len() ==> (#[trigger] final(world).bodies@[i]).position.bounded(
                POS_AFTER_LIMIT as int,
            ) && final(world).bodies@[i].velocity.bounded(VEL_AFTER_LIMIT as int),
        final(world).next_id == old(world).next_id,
        final(world).spawn_timer == old(world).spawn_timer,
        final(world).hostile_mutual_damage == old(world).hostile_mutual_damage,
{
    let ghost orig = world.bodies@;
    let mut olds: Vec<Body> = Vec::new();
    core::mem::swap(&mut olds, &mut world.bodies);
    let n = olds.len();
    let mut i: usize = 0;
    while i < n
        invariant
            i <= n,
            n == orig.len(),
            olds@ =~= orig.subrange(i as int, n as int),
            world.bodies@.len() == i,
            0 <= dt <= DT_LIMIT,
            forall|j: int|
                0 <= j < n ==> (#[trigger] orig[j]).position.bounded(KIN_POS_IN_LIMIT as int)
                    && orig[j].velocity.bounded(VEL_LIMIT as int) && orig[j].acceleration.bounded(
                    ACC_LIMIT as int,
                ),
            forall|j: int|
                0 <= j < i ==> moved_body(#[trigger] orig[j], #[trigger] world.bodies@[j], dt as int),
            forall|j: int|
                0 <= j < i ==> (#[trigger] world.bodies@[j]).position.bounded(
                    POS_AFTER_LIMIT as int,
                ) && world.bodies@[j].velocity.bounded(VEL_AFTER_LIMIT as int),
            world.next_id == old(world).next_id,
            world.spawn_timer == old(world).spawn_timer,
            world.hostile_mutual_damage == old(world).hostile_mutual_damage,
        decreases n - i,
    {
        let mut b = olds.remove(0);
        proof {
            assert(b == orig[i as int]);
            assert(olds@ =~= orig.subrange(i as int + 1, n as int));
            assert(-1_000_000_000_000 <= b.acceleration.x * dt <= 1_000_000_000_000
                && -1_000_000_000_000 <= b.acceleration.y * dt <= 1_000_000_000_000
                && -1_000_000_000_000 <= b.acceleration.z * dt <= 1_000_000_000_000)
                by (nonlinear_arith)
                requires
                    -1_000_000 <= b.acceleration.x <= 1_000_000 && -1_000_000 <= b.acceleration.y
                        <= 1_000_000 && -1_000_000 <= b.acceleration.z <= 1_000_000 && 0 <= dt
                        <= 1_000_000,
            ;
        }
        let vx = b.velocity.x + b.acceleration.x * dt;
        let vy = b.velocity.y + b.acceleration.y * dt;
        let vz = b.velocity.z + b.acceleration.z * dt;
        proof {
            assert(-1_100_000_000_000_000_000 <= vx * dt <= 1_100_000_000_000_000_000
                && -1_100_000_000_000_000_000 <= vy * dt <= 1_100_000_000_000_000_000
                && -1_100_000_000_000_000_000 <= vz * dt <= 1_100_000_000_000_000_000)
                by (nonlinear_arith)
                requires
                    -1_100_000_000_000 <= vx <= 1_100_000_000_000 && -1_100_000_000_000 <= vy
                        <= 1_100_000_000_000 && -1_100_000_000_000 <= vz <= 1_100_000_000_000 && 0
                        <= dt <= 1_000_000,
            ;
        }
        let px = b.position.x + vx * dt;
        let py = b.position.y + vy * dt;
        let pz = b.position.z + vz * dt;
        b.velocity = Vec3 { x: vx, y: vy, z: vz };
        b.position = Vec3 { x: px, y: py, z: pz };
        world.bodies.push(b);
        i = i + 1;
    }
}

/// With zero acceleration one tick advances the position by exactly
/// `velocity * dt` and leaves the velocity unchanged.
pub proof fn lemma_zero_acceleration_is_linear(pre: Body, post: Body, dt: int)
    requires
        moved_body(pre, post, dt),
        pre.acceleration == (Vec3 { x: 0, y: 0, z: 0 }),
    ensures
        post.velocity == pre.velocity,
        post.position.x == pre.position.x + pre.velocity.x * dt,
        post.position.y == pre.position.y + pre.velocity.y * dt,
        post.position.z == pre.position.z + pre.velocity.z * dt,
{
    assert(pre.acceleration.x * dt == 0 && pre.acceleration.y * dt == 0 && pre.acceleration.z * dt
        == 0) by (nonlinear_arith)
        requires
            pre.acceleration.x == 0 && pre.acceleration.y == 0 && pre.acceleration.z == 0,
    ;
}

} // verus!
