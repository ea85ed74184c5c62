use vstd::prelude::*;
use crate::math::{dist2, dist2_exec, COORD_ABS_LIMIT};
use crate::world::{
    ids_contain, ids_unique, same_identity, Archetype, Body, World, DAMAGE_LIMIT, HEALTH_LIMIT,
    LEN_LIMIT, RADIUS_LIMIT,
};

verus! {

// ---------------------------------------------------------------------------
// Overlap test.
// ---------------------------------------------------------------------------

/// Two colliders overlap exactly when the distance between their centres is
/// at most the sum of their radii; compared on squares, which is equivalent
/// for the non-negative radii a well-formed world guarantees.
pub open spec fn bodies_overlap(a: Body, b: Body) -> bool {
    dist2(a.position, b.position) <= (a.radius + b.radius) * (a.radius + b.radius)
}

/// Overlap is symmetric: A collides with B exactly when B collides with A.
pub proof fn lemma_overlap_symmetric(a: Body, b: Body)
    ensures
        bodies_overlap(a, b) == bodies_overlap(b, a),
{
    assert(dist2(a.position, b.position) == dist2(b.position, a.position)) by (nonlinear_arith);
    assert((a.radius + b.radius) * (a.radius + b.radius) == (b.radius + a.radius) * (b.radius
        + a.radius)) by (nonlinear_arith);
}

/// Decide overlap of two bodies exactly.
pub fn collides(a: &Body, b: &Body) -> (r: bool)
    requires
        a.position.bounded(COORD_ABS_LIMIT as int),
        b.position.bounded(COORD_ABS_LIMIT as int),
        0 <= a.radius <= RADIUS_LIMIT,
        0 <= b.radius <= RADIUS_LIMIT,
    ensures
        r == bodies_overlap(*a, *b),
{
    let d2 = dist2_exec(&a.position, &b.position);
    let rsum = a.radius + b.radius;
    proof {
        assert(0 <= (rsum as i128) * (rsum as i128) <= 40_000_000_000_000_000_000_000)
            by (nonlinear_arith)
            requires
                0 <= rsum <= 200_000_000_000,
        ;
    }
    let r2 = (rsum as i128) * (rsum as i128);
    d2 <= r2
}

// ---------------------------------------------------------------------------
// Collision detection.
// ---------------------------------------------------------------------------

/// Fields collision detection leaves untouched (everything but the overlap
/// set).
pub open spec fn collide_frame(pre: Body, post: Body) -> bool {
    &&& same_identity(pre, post)
    &&& post.position == pre.position
    &&& post.velocity == pre.velocity
    &&& post.health == pre.health
    &&& post.spin == pre.spin
}

/// One full detection pass: every overlap set is cleared and rebuilt from
/// the current positions. Membership is exact: body `i` registers body `j`'s
/// identifier precisely when the two distinct bodies overlap; sets hold no
/// duplicates and only identifiers of currently live bodies, so nothing
/// removed earlier can leak into the new sets.
pub open spec fn collide_rel(pre: Seq<Body>, post: Seq<Body>) -> bool {
    &&& post.len() == pre.len()
    &&& forall|i: int| 0 <= i < pre.len() ==> collide_frame(#[trigger] pre[i], #[trigger] post[i])
    &&& forall|i: int| 0 <= i < pre.len() ==> (#[trigger] post[i].colliding@).no_duplicates()
    &&& forall|i: int, j: int|
        0 <= i < pre.len() && 0 <= j < pre.len() && i != j ==> (#[trigger] post[i].colliding@.contains(
            pre[j].id,
        ) == bodies_overlap(pre[i], pre[j]))
    &&& forall|i: int, id: u64|
        0 <= i < pre.len() && #[trigger] post[i].colliding@.contains(id) ==> exists|j: int|
            0 <= j < pre.len() && j != i && pre[j].id == id
}

/// Pushing onto a sequence adds exactly one member.
proof fn lemma_push_contains(s: Seq<u64>, v: u64, x: u64)
    ensures
        s.push(v).contains(x) == (s.contains(x) || x == v),
{
    if s.contains(x) {
        let k = choose|k: int| 0 <= k < s.len() && s[k] == x;
        assert(s.push(v)[k] == x);
    }
    if x == v {
        assert(s.push(v)[s.len() as int] == x);
    }
    if s.push(v).contains(x) {
        let k = choose|k: int| 0 <= k < s.push(v).len() && s.push(v)[k] == x;
        if k < s.len() {
            assert(s[k] == x);
        }
    }
}

/// Pushing a fresh element preserves freedom from duplicates.
proof fn lemma_no_dup_push(s: Seq<u64>, v: u64)
    requires
        s.no_duplicates(),
        !s.contains(v),
    ensures
        s.push(v).no_duplicates(),
{
    assert forall|p: int, q: int|
        0 <= p < s.push(v).len() && 0 <= q < s.push(v).len() && p != q implies s.push(v)[p]
        != s.push(v)[q] by {
        if p < s.len() && q < s.len() {
        } else if p < s.len() {
            assert(s[p] == s.push(v)[p]);
        } else {
            assert(q < s.len() && s[q] == s.push(v)[q]);
        }
    }
}

/// Recompute every body's overlap set from the current transforms: each
/// set is cleared, then every unordered pair of distinct bodies whose
/// bounding spheres intersect registers mutually. Brute force over all
/// pairs.
pub fn detect_collisions(world: &mut World)
    requires
        ids_unique(old(world).bodies@),
        forall|i: int|
            0 <= i < old(world).bodies@.len() ==> (#[trigger] old(
                world,
            ).bodies@[i]).position.bounded(COORD_ABS_LIMIT as int) && 0 <= old(
                world,
            ).bodies@[i].radius <= RADIUS_LIMIT,
    ensures
        collide_rel(old(world).bodies@, final(world).bodies@),
        final(world).next_id == old(world).next_id,
        final(world).spawn_timer == old(world).spawn_timer,
        final(world).hostile_mutual_damage == old(world).hostile_mutual_damage,
{
    let ghost orig = world.bodies@;
    let n = world.bodies.len();
    let mut sets: Vec<Vec<u64>> = Vec::new();
    let mut i: usize = 0;
    while i < n
        invariant
            i <= n,
            n == orig.len(),
            world.bodies@ == orig,
            ids_unique(orig),
            forall|p: int|
                0 <= p < n ==> (#[trigger] orig[p]).position.bounded(COORD_ABS_LIMIT as int) && 0
                    <= orig[p].radius <= RADIUS_LIMIT,
            sets@.len() == i,
            forall|p: int| 0 <= p < i ==> (#[trigger] sets@[p]@).no_duplicates(),
            forall|p: int, j: int|
                0 <= p < i && 0 <= j < n && j != p ==> (#[trigger] sets@[p]@.contains(orig[j].id)
                    == bodies_overlap(orig[p], orig[j])),
            forall|p: int, id: u64|
                0 <= p < i && #[trigger] sets@[p]@.contains(id) ==> exists|j: int|
                    0 <= j < n && j != p && orig[j].id == id,
        decreases n - i,
    {
        let mut ids: Vec<u64> = Vec::new();
        let ghost mut src: Seq<int> = Seq::empty();
        let mut j: usize = 0;
        while j < n
            invariant
                i < n,
                j <= n,
                n == orig.len(),
                world.bodies@ == orig,
                ids_unique(orig),
                forall|p: int|
                    0 <= p < n ==> (#[trigger] orig[p]).position.bounded(COORD_ABS_LIMIT as int)
                        && 0 <= orig[p].radius <= RADIUS_LIMIT,
                ids@.len() == src.len(),
                ids@.no_duplicates(),
                forall|k: int|
                    0 <= k < src.len() ==> 0 <= #[trigger] src[k] < j && src[k] != i as int
                        && orig[src[k]].id == ids@[k] && bodies_overlap(orig[i as int], orig[src[k]]),
                forall|q: int|
                    0 <= q < j && q != i as int ==> (#[trigger] ids@.contains(orig[q].id)
                        == bodies_overlap(orig[i as int], orig[q])),
            decreases n - j,
        {
            if j != i {
                let hit = collides(&world.bodies[i], &world.bodies[j]);
                if hit {
                    let id = world.bodies[j].id;
                    proof {
                        if ids@.contains(id) {
                            let k = choose|k: int| 0 <= k < ids@.len() && ids@[k] == id;
                            assert(orig[src[k]].id == orig[j as int].id && src[k] != j as int);
                            assert(false);
                        }
                        lemma_no_dup_push(ids@, id);
                        assert forall|x: u64| true implies #[trigger] ids@.push(id).contains(x) == (
                        ids@.contains(x) || x == id) by {
                            lemma_push_contains(ids@, id, x);
                        }
                        src = src.push(j as int);
                    }
                    ids.push(id);
                } else {
                    proof {
                        if ids@.contains(orig[j as int].id) {
                            let k = choose|k: int| 0 <= k < ids@.len() && ids@[k] == orig[
                                j as int].id;
                            assert(orig[src[k]].id == orig[j as int].id && src[k] != j as int);
                            assert(false);
                        }
                    }
                }
            }
            j = j + 1;
        }
        proof {
            assert forall|id: u64| #[trigger] ids@.contains(id) implies exists|q: int|
                0 <= q < n && q != i as int && orig[q].id == id by {
                let k = choose|k: int| 0 <= k < ids@.len() && ids@[k] == id;
                assert(0 <= src[k] < n && src[k] != i as int && orig[src[k]].id == id);
            }
        }
        sets.push(ids);
        i = i + 1;
    }
    // Install the freshly built sets.
    let mut olds: Vec<Body> = Vec::new();
    core::mem::swap(&mut olds, &mut world.bodies);
    let ghost allsets = sets@;
    let mut k: usize = 0;
    while k < n
        invariant
            k <= n,
            n == orig.len(),
            olds@ =~= orig.subrange(k as int, n as int),
            sets@ =~= allsets.subrange(k as int, n as int),
            allsets.len() == n,
            world.bodies@.len() == k,
            forall|p: int| 0 <= p < n ==> (#[trigger] allsets[p]@).no_duplicates(),
            forall|p: int, j: int|
                0 <= p < n && 0 <= j < n && j != p ==> (#[trigger] allsets[p]@.contains(orig[j].id)
                    == bodies_overlap(orig[p], orig[j])),
            forall|p: int, id: u64|
                0 <= p < n && #[trigger] allsets[p]@.contains(id) ==> exists|j: int|
                    0 <= j < n && j != p && orig[j].id == id,
            forall|p: int|
                0 <= p < k ==> collide_frame(#[trigger] orig[p], #[trigger] world.bodies@[p]),
            forall|p: int| 0 <= p < k ==> (#[trigger] world.bodies@[p]).colliding@ == allsets[p]@,
            world.next_id == old(world).next_id,
            world.spawn_timer == old(world).spawn_timer,
            world.hostile_mutual_damage == old(world).hostile_mutual_damage,
        decreases n - k,
    {
        let mut b = olds.remove(0);
        let s = sets.remove(0);
        proof {
            assert(b == orig[k as int]);
            assert(s == allsets[k as int]);
            assert(olds@ =~= orig.subrange(k as int + 1, n as int));
            assert(sets@ =~= allsets.subrange(k as int + 1, n as int));
        }
        b.colliding = s;
        world.bodies.push(b);
        k = k + 1;
    }
    proof {
        assert forall|p: int| 0 <= p < orig.len() implies (
        #[trigger] world.bodies@[p].colliding@).no_duplicates() by {
            assert(world.bodies@[p].colliding@ == allsets[p]@);
        }
        assert forall|p: int, j: int|
            0 <= p < orig.len() && 0 <= j < orig.len() && j != p implies (
        #[trigger] world.bodies@[p].colliding@.contains(orig[j].id) == bodies_overlap(
            orig[p],
            orig[j],
        )) by {
            assert(world.bodies@[p].colliding@ == allsets[p]@);
        }
        assert forall|p: int, id: u64|
            0 <= p < orig.len() && #[trigger] world.bodies@[p].colliding@.contains(
                id,
            ) implies exists|j: int| 0 <= j < orig.len() && j != p && orig[j].id == id by {
            assert(world.bodies@[p].colliding@ == allsets[p]@);
            assert(allsets[p]@.contains(id));
        }
    }
}

// ---------------------------------------------------------------------------
// Damage resolution.
// ---------------------------------------------------------------------------

/// Contact damage `att` deals to `vic` this tick: its damage amount if the
/// two are distinct bodies, `vic` has registered `att` in its overlap set,
/// and the pair is not exempt (two asteroids damage each other only when the
/// mutual-damage policy is switched on). Applied once per overlapping pair
/// per tick.
pub open spec fn damage_between(att: Body, vic: Body, policy: bool) -> int {
    match att.contact_damage {
        Some(d) => if att.id != vic.id && vic.colliding@.contains(att.id) && (policy || !(
        att.archetype == Archetype::Asteroid && vic.archetype == Archetype::Asteroid)) {
            d as int
        } else {
            0
        },
        None => 0,
    }
}

/// Total contact damage the first `n` bodies deal to body `i` this tick.
pub open spec fn total_damage(s: Seq<Body>, i: int, n: int, policy: bool) -> int
    decreases n,
{
    if n <= 0 {
        0
    } else {
        total_damage(s, i, n - 1, policy) + damage_between(s[n - 1], s[i], policy)
    }
}

pub proof fn lemma_total_damage_bound(s: Seq<Body>, i: int, n: int, policy: bool)
    requires
        0 <= n <= s.len(),
        forall|j: int|
            0 <= j < s.len() ==> match (#[trigger] s[j]).contact_damage {
                Some(d) => 0 <= d <= DAMAGE_LIMIT,
                None => true,
            },
    ensures
        0 <= total_damage(s, i, n, policy) <= n * (DAMAGE_LIMIT as int),
    decreases n,
{
    if n > 0 {
        lemma_total_damage_bound(s, i, n - 1, policy);
    }
}

/// Fields damage resolution leaves untouched (everything but health).
pub open spec fn damage_frame(pre: Body, post: Body) -> bool {
    &&& same_identity(pre, post)
    &&& post.position == pre.position
    &&& post.velocity == pre.velocity
    &&& post.spin == pre.spin
    &&& post.colliding@ == pre.colliding@
}

/// One damage pass: every damageable body loses exactly the total contact
/// damage of the partners registered in its overlap set; bodies without
/// health are immune. Health may go negative; it only ever feeds the
/// "is dead" test.
pub open spec fn damage_rel(pre: Seq<Body>, post: Seq<Body>, policy: bool) -> bool {
    &&& post.len() == pre.len()
    &&& forall|i: int| 0 <= i < pre.len() ==> damage_frame(#[trigger] pre[i], #[trigger] post[i])
    &&& forall|i: int|
        0 <= i < pre.len() ==> match (#[trigger] pre[i].health, #[trigger] post[i].health) {
            (Some(h), Some(h2)) => h2 == h - total_damage(pre, i, pre.len() as int, policy),
            (None, None) => true,
            _ => false,
        }
}

/// Apply contact damage from every registered overlap: for each damageable
/// body, subtract the damage amount of every distinct partner in its overlap
/// set (subject to the asteroid-pair policy), all computed against the
/// pre-pass state.
pub fn apply_collision_damage(world: &mut World)
    requires
        old(world).bodies@.len() <= LEN_LIMIT + 2,
        forall|i: int|
            0 <= i < old(world).bodies@.len() ==> match (#[trigger] old(
                world,
            ).bodies@[i]).contact_damage {
                Some(d) => 0 <= d <= DAMAGE_LIMIT,
                None => true,
            },
        forall|i: int|
            0 <= i < old(world).bodies@.len() ==> match (#[trigger] old(world).bodies@[i]).health {
                Some(h) => -HEALTH_LIMIT <= h <= HEALTH_LIMIT,
                None => true,
            },
    ensures
        damage_rel(old(world).bodies@, final(world).bodies@, old(world).hostile_mutual_damage),
        final(world).next_id == old(world).next_id,
        final(world).spawn_timer == old(world).spawn_timer,
        final(world).hostile_mutual_damage == old(world).hostile_mutual_damage,
{
    let ghost orig = world.bodies@;
    let ghost policy = world.hostile_mutual_damage;
    let n = world.bodies.len();
    let mut totals: Vec<i64> = Vec::new();
    let mut i: usize = 0;
    while i < n
        invariant
            i <= n,
            n == orig.len(),
            n <= LEN_LIMIT + 2,
            world.bodies@ == orig,
            world.hostile_mutual_damage == policy,
            forall|p: int|
                0 <= p < n ==> match (#[trigger] orig[p]).contact_damage {
                    Some(d) => 0 <= d <= DAMAGE_LIMIT,
                    None => true,
                },
            totals@.len() == i,
            forall|p: int|
                0 <= p < i ==> #[trigger] totals@[p] as int == total_damage(
                    orig,
                    p,
                    n as int,
                    policy,
                ),
        decreases n - i,
    {
        let mut sum: i64 = 0;
        let mut j: usize = 0;
        while j < n
            invariant
                i < n,
                j <= n,
                n == orig.len(),
                n <= LEN_LIMIT + 2,
                world.bodies@ == orig,
                world.hostile_mutual_damage == policy,
                forall|p: int|
                    0 <= p < n ==> match (#[trigger] orig[p]).contact_damage {
                        Some(d) => 0 <= d <= DAMAGE_LIMIT,
                        None => true,
                    },
                sum as int == total_damage(orig, i as int, j as int, policy),
                0 <= sum as int <= j * (DAMAGE_LIMIT as int),
            decreases n - j,
        {
            let att_damage = world.bodies[j].contact_damage;
            match att_damage {
                Some(d) => {
                    let att_id = world.bodies[j].id;
                    let vic_id = world.bodies[i].id;
                    let att_is_asteroid = matches!(world.bodies[j].archetype, Archetype::Asteroid);
                    let vic_is_asteroid = matches!(world.bodies[i].archetype, Archetype::Asteroid);
                    let allowed = world.hostile_mutual_damage || !(att_is_asteroid
                        && vic_is_asteroid);
                    if att_id != vic_id && allowed && ids_contain(
                        &world.bodies[i].colliding,
                        att_id,
                    ) {
                        sum = sum + d;
                    }
                },
                None => {},
            }
            j = j + 1;
        }
        totals.push(sum);
        i = i + 1;
    }
    let mut olds: Vec<Body> = Vec::new();
    core::mem::swap(&mut olds, &mut world.bodies);
    let ghost allt = totals@;
    let mut k: usize = 0;
    while k < n
        invariant
            k <= n,
            n == orig.len(),
            olds@ =~= orig.subrange(k as int, n as int),
            totals@ =~= allt.subrange(k as int, n as int),
            allt.len() == n,
            forall|p: int|
                0 <= p < n ==> #[trigger] allt[p] as int == total_damage(orig, p, n as int, policy),
            forall|p: int|
                0 <= p < n ==> match (#[trigger] orig[p]).health {
                    Some(h) => -HEALTH_LIMIT <= h <= HEALTH_LIMIT,
                    None => true,
                },
            forall|p: int|
                0 <= p < n ==> match (#[trigger] orig[p]).contact_damage {
                    Some(d) => 0 <= d <= DAMAGE_LIMIT,
                    None => true,
                },
            n <= LEN_LIMIT + 2,
            world.bodies@.len() == k,
            forall|p: int|
                0 <= p < k ==> damage_frame(#[trigger] orig[p], #[trigger] world.bodies@[p]),
            forall|p: int|
                0 <= p < k ==> match (#[trigger] orig[p].health, #[trigger] world.bodies@[p].health) {
                    (Some(h), Some(h2)) => h2 == h - total_damage(orig, p, n as int, policy),
                    (None, None) => true,
                    _ => false,
                },
            world.next_id == old(world).next_id,
            world.spawn_timer == old(world).spawn_timer,
            world.hostile_mutual_damage == policy,
            policy == old(world).hostile_mutual_damage,
        decreases n - k,
    {
        let mut b = olds.remove(0);
        let t = totals.remove(0);
        proof {
            assert(b == orig[k as int]);
            assert(t == allt[k as int]);
            assert(olds@ =~= orig.subrange(k as int + 1, n as int));
            assert(totals@ =~= allt.subrange(k as int + 1, n as int));
            lemma_total_damage_bound(orig, k as int, n as int, policy);
        }
        match b.health {
            Some(h) => {
                b.health = Some(h - t);
            },
            None => {},
        }
        world.bodies.push(b);
        k = k + 1;
    }
}

// ---------------------------------------------------------------------------
// Laws of the detection pass.
// ---------------------------------------------------------------------------

/// After a detection pass no body lists itself, and membership is mutual:
/// body A registers B exactly when B registers A.
pub proof fn lemma_collision_sets_mutual_and_irreflexive(pre: Seq<Body>, post: Seq<Body>)
    requires
        collide_rel(pre, post),
        ids_unique(pre),
    ensures
        forall|i: int| 0 <= i < pre.len() ==> !(#[trigger] post[i].colliding@.contains(pre[i].id)),
        forall|i: int, j: int|
            0 <= i < pre.len() && 0 <= j < pre.len() && i != j ==> (
            #[trigger] post[i].colliding@.contains(pre[j].id) == #[trigger] post[j].colliding@.contains(
                pre[i].id,
            )),
{
    assert forall|i: int| 0 <= i < pre.len() implies !(#[trigger] post[i].colliding@.contains(
        pre[i].id,
    )) by {
        if post[i].colliding@.contains(pre[i].id) {
            let j = choose|j: int| 0 <= j < pre.len() && j != i && pre[j].id == pre[i].id;
            assert(false);
        }
    }
    assert forall|i: int, j: int|
        0 <= i < pre.len() && 0 <= j < pre.len() && i != j implies (
    #[trigger] post[i].colliding@.contains(pre[j].id) == #[trigger] post[j].colliding@.contains(
        pre[i].id,
    )) by {
        lemma_overlap_symmetric(pre[i], pre[j]);
    }
}

/// Every identifier a detection pass writes belongs to a body live at the
/// time the pass ran: identifiers of bodies removed earlier never appear.
pub proof fn lemma_collision_sets_live(pre: Seq<Body>, post: Seq<Body>)
    requires
        collide_rel(pre, post),
    ensures
        forall|i: int, id: u64|
            0 <= i < post.len() && #[trigger] post[i].colliding@.contains(id) ==> exists|j: int|
                0 <= j < post.len() && j != i && post[j].id == id,
{
    assert forall|i: int, id: u64|
        0 <= i < post.len() && #[trigger] post[i].colliding@.contains(id) implies exists|j: int|
        0 <= j < post.len() && j != i && post[j].id == id by {
        let j = choose|j: int| 0 <= j < pre.len() && j != i && pre[j].id == id;
        assert(post[j].id == id);
    }
}

} // verus!
