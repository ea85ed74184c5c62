use vstd::prelude::*;
use crate::math::{dist2, dist2_exec, Vec3, COORD_ABS_LIMIT};
use crate::world::{retain_idx, retain_rec, lemma_retain_members, lemma_retain_keeps, Body, World};

verus! {

/// How far from the origin a body tagged `despawn_when_remote` may stray,
/// nano-units (100 spatial units). The boundary is exclusive: a body exactly
/// at this distance stays.
pub const DESPAWN_DISTANCE: i64 = 100_000_000_000;

/// The body has left the playable volume: its distance from the origin
/// strictly exceeds `DESPAWN_DISTANCE` (compared on squares).
pub open spec fn far_from_origin(b: Body) -> bool {
    dist2(b.position, Vec3 { x: 0, y: 0, z: 0 }) > (DESPAWN_DISTANCE as int) * (
    DESPAWN_DISTANCE as int)
}

/// The body carries health and it has reached exactly zero or gone below.
pub open spec fn dead(b: Body) -> bool {
    match b.health {
        Some(h) => h <= 0,
        None => false,
    }
}

/// Keep rule of the distance despawn pass.
pub open spec fn keep_near_f() -> spec_fn(Seq<Body>, int) -> bool {
    |s: Seq<Body>, i: int| !(s[i].despawn_when_remote && far_from_origin(s[i]))
}

/// Keep rule of the health despawn pass.
pub open spec fn keep_alive_f() -> spec_fn(Seq<Body>, int) -> bool {
    |s: Seq<Body>, i: int| !dead(s[i])
}

/// The population after the distance despawn pass.
pub open spec fn despawn_remote_spec(s: Seq<Body>) -> Seq<Body> {
    retain_rec(s, keep_near_f(), s.len() as int)
}

/// The population after the health despawn pass.
pub open spec fn despawn_dead_spec(s: Seq<Body>) -> Seq<Body> {
    retain_rec(s, keep_alive_f(), s.len() as int)
}

/// Remove every body tagged to vanish at range whose distance from the
/// world origin strictly exceeds `DESPAWN_DISTANCE`; everything else stays,
/// in order. Removal is immediate and final: the body simply ceases to
/// exist.
pub fn despawn_remote_entities(world: &mut World)
    requires
        forall|i: int|
            0 <= i < old(world).bodies@.len() ==> (#[trigger] old(
                world,
            ).bodies@[i]).position.bounded(COORD_ABS_LIMIT as int),
    ensures
        final(world).bodies@ == despawn_remote_spec(old(world).bodies@),
        final(world).next_id == old(world).next_id,
        final(world).spawn_timer == old(world).spawn_timer,
        final(world).hostile_mutual_damage == old(world).hostile_mutual_damage,
{
    let ghost orig = world.bodies@;
    let mut olds: Vec<Body> = Vec::new();
    core::mem::swap(&mut olds, &mut world.bodies);
    let n = olds.len();
    let mut i: usize = 0;
    while i < n
        invariant
            i <= n,
            n == orig.len(),
            olds@ =~= orig.subrange(i as int, n as int),
            forall|j: int|
                0 <= j < n ==> (#[trigger] orig[j]).position.bounded(COORD_ABS_LIMIT as int),
            world.bodies@ == retain_rec(orig, keep_near_f(), i as int),
            world.next_id == old(world).next_id,
            world.spawn_timer == old(world).spawn_timer,
            world.hostile_mutual_damage == old(world).hostile_mutual_damage,
        decreases n - i,
    {
        let b = olds.remove(0);
        proof {
            assert(b == orig[i as int]);
            assert(olds@ =~= orig.subrange(i as int + 1, n as int));
        }
        let origin = Vec3 { x: 0, y: 0, z: 0 };
        let d2 = dist2_exec(&b.position, &origin);
        proof {
            assert((DESPAWN_DISTANCE as int) * (DESPAWN_DISTANCE as int)
                == 10_000_000_000_000_000_000_000int) by (nonlinear_arith);
        }
        let threshold2: i128 = (DESPAWN_DISTANCE as i128) * (DESPAWN_DISTANCE as i128);
        let vanishes = b.despawn_when_remote && d2 > threshold2;
        proof {
            assert(vanishes == !(keep_near_f()(orig, i as int)));
        }
        if !vanishes {
            world.bodies.push(b);
        }
        i = i + 1;
    }
}

/// Remove every body whose health has reached exactly zero or gone
/// negative; everything else stays, in order. Runs every tick, so a body
/// that dies is gone on the very next lifecycle pass and can never feed
/// another tick's collision or damage pass.
pub fn despawn_dead_entities(world: &mut World)
    ensures
        final(world).bodies@ == despawn_dead_spec(old(world).bodies@),
        final(world).next_id == old(world).next_id,
        final(world).spawn_timer == old(world).spawn_timer,
        final(world).hostile_mutual_damage == old(world).hostile_mutual_damage,
{
    let ghost orig = world.bodies@;
    let mut olds: Vec<Body> = Vec::new();
    core::mem::swap(&mut olds, &mut world.bodies);
    let n = olds.len();
    let mut i: usize = 0;
    while i < n
        invariant
            i <= n,
            n == orig.len(),
            olds@ =~= orig.subrange(i as int, n as int),
            world.bodies@ == retain_rec(orig, keep_alive_f(), i as int),
            world.next_id == old(world).next_id,
            world.spawn_timer == old(world).spawn_timer,
            world.hostile_mutual_damage == old(world).hostile_mutual_damage,
        decreases n - i,
    {
        let b = olds.remove(0);
        proof {
            assert(b == orig[i as int]);
            assert(olds@ =~= orig.subrange(i as int + 1, n as int));
        }
        let is_dead = match b.health {
            Some(h) => crate::world::health_depleted(h),
            None => false,
        };
        proof {
            assert(is_dead == dead(orig[i as int]));
            assert(!is_dead == keep_alive_f()(orig, i as int));
        }
        if !is_dead {
            world.bodies.push(b);
        }
        i = i + 1;
    }
}

/// The health despawn pass is exact: no survivor is dead (a health value at
/// exactly zero or below never outlives the pass in which it was seen), and
/// no live body is removed.
pub proof fn lemma_dead_despawn_exact(s: Seq<Body>)
    ensures
        forall|k: int|
            0 <= k < despawn_dead_spec(s).len() ==> !dead(#[trigger] despawn_dead_spec(s)[k]),
        forall|i: int| 0 <= i < s.len() && !dead(#[trigger] s[i]) ==> despawn_dead_spec(s).contains(
            s[i],
        ),
{
    let keep = keep_alive_f();
    let n = s.len() as int;
    lemma_retain_members(s, keep, n);
    assert forall|k: int| 0 <= k < despawn_dead_spec(s).len() implies !dead(
        #[trigger] despawn_dead_spec(s)[k],
    ) by {
        let idx = retain_idx(s, keep, n)[k];
        assert(keep(s, idx) && retain_rec(s, keep, n)[k] == s[idx]);
    }
    assert forall|i: int| 0 <= i < s.len() && !dead(#[trigger] s[i]) implies despawn_dead_spec(
        s,
    ).contains(s[i]) by {
        assert(keep(s, i));
        lemma_retain_keeps(s, keep, n, i);
    }
}

/// After the two despawn passes of a tick run back to back — by distance,
/// then by health — no surviving body is dead and no surviving body tagged
/// to vanish at range is beyond the threshold: a body that died or strayed
/// this tick is gone before the next tick can see it.
pub proof fn lemma_despawn_passes_leave_only_valid(s: Seq<Body>)
    ensures
        forall|k: int|
            0 <= k < despawn_dead_spec(despawn_remote_spec(s)).len() ==> !dead(
                #[trigger] despawn_dead_spec(despawn_remote_spec(s))[k],
            ) && !(despawn_dead_spec(despawn_remote_spec(s))[k].despawn_when_remote
                && far_from_origin(despawn_dead_spec(despawn_remote_spec(s))[k])),
{
    let mid = despawn_remote_spec(s);
    lemma_remote_despawn_boundary(s);
    lemma_dead_despawn_exact(mid);
    lemma_retain_members(mid, keep_alive_f(), mid.len() as int);
    assert forall|k: int| 0 <= k < despawn_dead_spec(mid).len() implies !dead(
        #[trigger] despawn_dead_spec(mid)[k],
    ) && !(despawn_dead_spec(mid)[k].despawn_when_remote && far_from_origin(
        despawn_dead_spec(mid)[k],
    )) by {
        let idx = retain_idx(mid, keep_alive_f(), mid.len() as int)[k];
        assert(despawn_dead_spec(mid)[k] == mid[idx]);
    }
}

/// The distance despawn pass is exact and its boundary exclusive: every
/// survivor tagged to vanish at range is within the threshold, and every
/// body at or inside the threshold — including one at exactly the threshold
/// distance — survives, as does every body not so tagged.
pub proof fn lemma_remote_despawn_boundary(s: Seq<Body>)
    ensures
        forall|k: int|
            0 <= k < despawn_remote_spec(s).len() ==> !((#[trigger] despawn_remote_spec(
                s,
            )[k]).despawn_when_remote && far_from_origin(despawn_remote_spec(s)[k])),
        forall|i: int|
            0 <= i < s.len() && !((#[trigger] s[i]).despawn_when_remote && far_from_origin(s[i]))
                ==> despawn_remote_spec(s).contains(s[i]),
{
    let keep = keep_near_f();
    let n = s.len() as int;
    lemma_retain_members(s, keep, n);
    assert forall|k: int| 0 <= k < despawn_remote_spec(s).len() implies !((
    #[trigger] despawn_remote_spec(s)[k]).despawn_when_remote && far_from_origin(
        despawn_remote_spec(s)[k],
    )) by {
        let idx = retain_idx(s, keep, n)[k];
        assert(keep(s, idx) && retain_rec(s, keep, n)[k] == s[idx]);
    }
    assert forall|i: int|
        0 <= i < s.len() && !((#[trigger] s[i]).despawn_when_remote && far_from_origin(
            s[i],
        )) implies despawn_remote_spec(s).contains(s[i]) by {
        assert(keep(s, i));
        lemma_retain_keeps(s, keep, n, i);
    }
}

} // verus!
