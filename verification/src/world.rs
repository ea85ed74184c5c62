use vstd::prelude::*;
use crate::math::Vec3;

verus! {

// ---------------------------------------------------------------------------
// Fixed-point conventions.
//
// Distances are in nano-units (one spatial unit = 1_000_000_000 nano-units),
// velocities in nano-units per millisecond, accelerations in nano-units per
// millisecond squared, durations in milliseconds and angles in
// micro-radians. All values below are well-formedness limits, chosen so that
// every arithmetic step of one simulation tick fits in 64-bit (or, for
// squared distances, 128-bit) machine integers.
// ---------------------------------------------------------------------------

/// Nano-units per spatial unit.
pub const NANOS_PER_UNIT: i64 = 1_000_000_000;

/// Coordinate magnitude limit for a well-formed world (one million units).
pub const POS_LIMIT: i64 = 1_000_000_000_000_000;

/// Velocity component limit (1000 units per second).
pub const VEL_LIMIT: i64 = 1_000_000_000;

/// Acceleration component limit (1000 units per second squared).
pub const ACC_LIMIT: i64 = 1_000_000;

/// Largest collider radius (100 units).
pub const RADIUS_LIMIT: i64 = 100_000_000_000;

/// Largest health magnitude.
pub const HEALTH_LIMIT: i64 = 1_000_000_000_000;

/// Largest contact damage amount.
pub const DAMAGE_LIMIT: i64 = 1_000_000_000;

/// Largest live population.
pub const LEN_LIMIT: usize = 100_000;

/// Longest tick duration (1000 seconds).
pub const DT_LIMIT: i64 = 1_000_000;

/// A facing direction is a unit vector scaled by this factor.
pub const FACING_SCALE: i64 = 1_000;

/// Facing straight along the negative depth axis (the orientation every
/// body starts with), at `FACING_SCALE` resolution.
pub const FACING_BACK_Z: i64 = -1_000;

/// One full turn in micro-radians (2 * pi, rounded down).
pub const TAU_MICRORAD: u64 = 6_283_185;

/// Longest spawn timer period.
pub const TIMER_LIMIT: i64 = 1_000_000_000;

/// Role of a body in the arena. The archetype decides how a body is spawned,
/// which despawn rule applies to it and which pairs exchange contact damage.
#[derive(Clone, Copy, PartialEq, Eq, Structural, Debug)]
pub enum Archetype {
    /// The single player-controlled ship.
    Spaceship,
    /// A hostile asteroid, spawned on a timer.
    Asteroid,
    /// A missile fired by the ship.
    SpaceshipMissile,
}

/// One simulated object: spatial state, optional capabilities (collider
/// radius, health, contact damage, despawn-at-range marker) and the overlap
/// set recomputed each tick.
pub struct Body {
    /// Stable identifier, unique among live bodies and never reused.
    pub id: u64,
    pub archetype: Archetype,
    /// Centre position, nano-units.
    pub position: Vec3,
    /// Linear velocity, nano-units per millisecond.
    pub velocity: Vec3,
    /// Constant acceleration, nano-units per millisecond squared.
    pub acceleration: Vec3,
    /// Bounding-sphere radius, nano-units. Never negative; a zero radius is
    /// a configuration defect of the caller and simply never overlaps
    /// anything that does not touch the centre.
    pub radius: i64,
    /// Remaining health; `None` marks an indestructible body.
    pub health: Option<i64>,
    /// Damage dealt to any damageable body this one overlaps; `None` marks
    /// a harmless body.
    pub contact_damage: Option<i64>,
    /// Whether the body is removed once it strays beyond
    /// `DESPAWN_DISTANCE` from the origin.
    pub despawn_when_remote: bool,
    /// Identifiers of the bodies overlapping this one, rebuilt from scratch
    /// by every collision pass.
    pub colliding: Vec<u64>,
    /// Accumulated visual roll angle, micro-radians in `[0, TAU_MICRORAD)`.
    pub spin: u64,
    /// Facing direction: a unit vector scaled by `FACING_SCALE`, supplied by
    /// the host's orientation bookkeeping. Only meaningful for the ship.
    pub facing: Vec3,
}

/// The repeating countdown that drives timed asteroid spawning. It
/// accumulates elapsed milliseconds; when they reach the period the timer
/// fires once and restarts from zero, dropping any missed periods.
#[derive(Clone, Copy, PartialEq, Eq, Structural, Debug)]
pub struct SpawnTimer {
    /// Period between spawns, milliseconds. Positive.
    pub period_ms: i64,
    /// Milliseconds accumulated since the last fire, always below the
    /// period.
    pub elapsed_ms: i64,
}

/// Keys that the simulation core reads, reduced to "is the logical action
/// currently held". Where opposing keys are held at once the first branch of
/// the corresponding control rule wins (see the control stage).
#[derive(Clone, Copy, PartialEq, Eq, Structural, Debug, Default)]
pub struct InputState {
    pub yaw_left: bool,
    pub yaw_right: bool,
    pub roll_left: bool,
    pub roll_right: bool,
    pub thrust_forward: bool,
    pub thrust_back: bool,
    pub fire: bool,
}

/// What one tick asked of the host: rotation deltas to fold into the ship's
/// orientation (micro-radians), and whether bodies were created.
#[derive(Clone, Copy, PartialEq, Eq, Structural, Debug)]
pub struct TickEffects {
    /// Yaw to apply to the ship's orientation this tick, micro-radians.
    pub yaw_delta: i64,
    /// Roll to apply to the ship's orientation this tick, micro-radians.
    pub roll_delta: i64,
    /// Whether the spawn timer fired and a new asteroid was created.
    pub spawned_hostile: bool,
    /// Whether the ship fired a missile this tick.
    pub fired_missile: bool,
}

/// The whole simulation state between ticks.
pub struct World {
    pub bodies: Vec<Body>,
    /// Identifier for the next spawned body; strictly above every live id.
    pub next_id: u64,
    pub spawn_timer: SpawnTimer,
    /// Policy switch: whether two asteroids deal contact damage to each
    /// other. The baseline design exempts same-archetype hostiles.
    pub hostile_mutual_damage: bool,
}

// ---------------------------------------------------------------------------
// Well-formedness.
// ---------------------------------------------------------------------------

pub open spec fn body_wf(b: Body) -> bool {
    &&& b.position.bounded(POS_LIMIT as int)
    &&& b.velocity.bounded(VEL_LIMIT as int)
    &&& b.acceleration.bounded(ACC_LIMIT as int)
    &&& 0 <= b.radius <= RADIUS_LIMIT
    &&& match b.health {
        Some(h) => -HEALTH_LIMIT <= h <= HEALTH_LIMIT,
        None => true,
    }
    &&& match b.contact_damage {
        Some(d) => 0 <= d <= DAMAGE_LIMIT,
        None => true,
    }
    &&& b.spin < TAU_MICRORAD
    &&& b.facing.bounded(FACING_SCALE as int)
}

pub open spec fn bodies_wf(s: Seq<Body>) -> bool {
    forall|i: int| 0 <= i < s.len() ==> body_wf(#[trigger] s[i])
}

/// No two live bodies share an identifier.
pub open spec fn ids_unique(s: Seq<Body>) -> bool {
    forall|i: int, j: int| 0 <= i < s.len() && 0 <= j < s.len() && i != j ==> #[trigger] s[i].id
        != #[trigger] s[j].id
}

/// Every live identifier is below the allocation counter.
pub open spec fn ids_below(s: Seq<Body>, next: u64) -> bool {
    forall|i: int| 0 <= i < s.len() ==> #[trigger] s[i].id < next
}

pub open spec fn timer_wf(t: SpawnTimer) -> bool {
    &&& 0 < t.period_ms <= TIMER_LIMIT
    &&& 0 <= t.elapsed_ms < t.period_ms
}

/// A world on which a tick may run.
pub open spec fn world_wf(w: World) -> bool {
    &&& bodies_wf(w.bodies@)
    &&& ids_unique(w.bodies@)
    &&& ids_below(w.bodies@, w.next_id)
    &&& w.bodies@.len() <= LEN_LIMIT as int
    &&& w.next_id <= u64::MAX - 2
    &&& timer_wf(w.spawn_timer)
}

// ---------------------------------------------------------------------------
// Frame predicates: which fields a stage leaves untouched.
// ---------------------------------------------------------------------------

/// The fields no pipeline stage ever changes on a live body.
pub open spec fn same_identity(a: Body, b: Body) -> bool {
    &&& a.id == b.id
    &&& a.archetype == b.archetype
    &&& a.acceleration == b.acceleration
    &&& a.radius == b.radius
    &&& a.contact_damage == b.contact_damage
    &&& a.despawn_when_remote == b.despawn_when_remote
    &&& a.facing == b.facing
}

/// Bodies equal in every field the simulation reads.
pub open spec fn body_like(a: Body, b: Body) -> bool {
    &&& same_identity(a, b)
    &&& a.position == b.position
    &&& a.velocity == b.velocity
    &&& a.health == b.health
    &&& a.spin == b.spin
    &&& a.colliding@ == b.colliding@
}

pub open spec fn seq_bodies_like(a: Seq<Body>, b: Seq<Body>) -> bool {
    &&& a.len() == b.len()
    &&& forall|i: int| 0 <= i < a.len() ==> body_like(#[trigger] a[i], #[trigger] b[i])
}

// ---------------------------------------------------------------------------
// Order-preserving removal, shared by the three despawn rules.
// ---------------------------------------------------------------------------

/// The subsequence of the first `n` bodies of `s` whose index satisfies
/// `keep` (which may inspect the whole population, e.g. to look a collision
/// partner up).
pub open spec fn retain_rec(s: Seq<Body>, keep: spec_fn(Seq<Body>, int) -> bool, n: int) -> Seq<
    Body,
>
    decreases n,
{
    if n <= 0 {
        Seq::empty()
    } else if keep(s, n - 1) {
        retain_rec(s, keep, n - 1).push(s[n - 1])
    } else {
        retain_rec(s, keep, n - 1)
    }
}

/// The indices (in increasing order) of the first `n` bodies of `s` that
/// `keep` retains; `retain_rec` picks exactly the bodies at these indices.
pub open spec fn retain_idx(s: Seq<Body>, keep: spec_fn(Seq<Body>, int) -> bool, n: int) -> Seq<
    int,
>
    decreases n,
{
    if n <= 0 {
        Seq::empty()
    } else if keep(s, n - 1) {
        retain_idx(s, keep, n - 1).push(n - 1)
    } else {
        retain_idx(s, keep, n - 1)
    }
}

/// Everything retained comes from a kept index, in the original order:
/// removal never invents, duplicates or reorders bodies.
pub proof fn lemma_retain_members(s: Seq<Body>, keep: spec_fn(Seq<Body>, int) -> bool, n: int)
    requires
        0 <= n <= s.len(),
    ensures
        retain_rec(s, keep, n).len() <= n,
        retain_idx(s, keep, n).len() == retain_rec(s, keep, n).len(),
        forall|k: int|
            #![trigger retain_idx(s, keep, n)[k]]
            0 <= k < retain_idx(s, keep, n).len() ==> 0 <= retain_idx(s, keep, n)[k] < n && keep(
                s,
                retain_idx(s, keep, n)[k],
            ) && retain_rec(s, keep, n)[k] == s[retain_idx(s, keep, n)[k]],
        forall|k1: int, k2: int|
            0 <= k1 < k2 < retain_idx(s, keep, n).len() ==> #[trigger] retain_idx(s, keep, n)[k1]
                < #[trigger] retain_idx(s, keep, n)[k2],
    decreases n,
{
    if n > 0 {
        lemma_retain_members(s, keep, n - 1);
    }
}

/// A body at a kept index survives the removal pass.
pub proof fn lemma_retain_keeps(
    s: Seq<Body>,
    keep: spec_fn(Seq<Body>, int) -> bool,
    n: int,
    i: int,
)
    requires
        0 <= i < n <= s.len(),
        keep(s, i),
    ensures
        exists|k: int|
            0 <= k < retain_rec(s, keep, n).len() && #[trigger] retain_rec(s, keep, n)[k] == s[i],
    decreases n,
{
    let cur = retain_rec(s, keep, n);
    if i == n - 1 {
        assert(cur[cur.len() - 1] == s[i]);
    } else {
        lemma_retain_keeps(s, keep, n - 1, i);
        let prev = retain_rec(s, keep, n - 1);
        let k = choose|k: int| 0 <= k < prev.len() && #[trigger] prev[k] == s[i];
        assert(cur[k] == s[i]);
    }
}

// ---------------------------------------------------------------------------
// Small executable helpers.
// ---------------------------------------------------------------------------

/// Whether an identifier is registered in an overlap set.
pub fn ids_contain(v: &Vec<u64>, id: u64) -> (r: bool)
    ensures
        r == v@.contains(id),
{
    let n = v.len();
    let mut i: usize = 0;
    while i < n
        invariant
            i <= n,
            n == v@.len(),
            forall|j: int| 0 <= j < i ==> v@[j] != id,
        decreases n - i,
    {
        if v[i] == id {
            return true;
        }
        i = i + 1;
    }
    false
}

/// The "is dead" test shared by damage resolution, despawning and the host's
/// status display: a health value of exactly zero or below.
pub fn health_depleted(value: i64) -> (r: bool)
    ensures
        r == (value <= 0),
{
    value <= 0
}

fn body_wf_check(b: &Body) -> (r: bool)
    ensures
        r == body_wf(*b),
{
    let ok_health = match b.health {
        Some(h) => -HEALTH_LIMIT <= h && h <= HEALTH_LIMIT,
        None => true,
    };
    let ok_damage = match b.contact_damage {
        Some(d) => 0 <= d && d <= DAMAGE_LIMIT,
        None => true,
    };
    -POS_LIMIT <= b.position.x && b.position.x <= POS_LIMIT && -POS_LIMIT <= b.position.y
        && b.position.y <= POS_LIMIT && -POS_LIMIT <= b.position.z && b.position.z <= POS_LIMIT
        && -VEL_LIMIT <= b.velocity.x && b.velocity.x <= VEL_LIMIT && -VEL_LIMIT <= b.velocity.y
        && b.velocity.y <= VEL_LIMIT && -VEL_LIMIT <= b.velocity.z && b.velocity.z <= VEL_LIMIT
        && -ACC_LIMIT <= b.acceleration.x && b.acceleration.x <= ACC_LIMIT && -ACC_LIMIT
        <= b.acceleration.y && b.acceleration.y <= ACC_LIMIT && -ACC_LIMIT <= b.acceleration.z
        && b.acceleration.z <= ACC_LIMIT && 0 <= b.radius && b.radius <= RADIUS_LIMIT && ok_health
        && ok_damage && b.spin < TAU_MICRORAD && -FACING_SCALE <= b.facing.x && b.facing.x
        <= FACING_SCALE && -FACING_SCALE <= b.facing.y && b.facing.y <= FACING_SCALE
        && -FACING_SCALE <= b.facing.z && b.facing.z <= FACING_SCALE
}

/// Whether a whole world satisfies the tick precondition `world_wf`; hosts
/// call this before handing a world they assembled to the pipeline.
pub fn world_wf_check(w: &World) -> (r: bool)
    ensures
        r == world_wf(*w),
{
    let n = w.bodies.len();
    if n > LEN_LIMIT {
        return false;
    }
    if w.next_id > u64::MAX - 2 {
        return false;
    }
    if !(0 < w.spawn_timer.period_ms && w.spawn_timer.period_ms <= TIMER_LIMIT) {
        return false;
    }
    if !(0 <= w.spawn_timer.elapsed_ms && w.spawn_timer.elapsed_ms < w.spawn_timer.period_ms) {
        return false;
    }
    let mut i: usize = 0;
    while i < n
        invariant
            i <= n,
            n == w.bodies@.len(),
            forall|p: int| 0 <= p < i ==> body_wf(#[trigger] w.bodies@[p]),
            forall|p: int| 0 <= p < i ==> #[trigger] w.bodies@[p].id < w.next_id,
            forall|p: int, q: int|
                0 <= p < i && 0 <= q < i && p != q ==> #[trigger] w.bodies@[p].id
                    != #[trigger] w.bodies@[q].id,
        decreases n - i,
    {
        if !body_wf_check(&w.bodies[i]) {
            return false;
        }
        if w.bodies[i].id >= w.next_id {
            return false;
        }
        let mut j: usize = 0;
        while j < i
            invariant
                j <= i < n,
                n == w.bodies@.len(),
                forall|q: int| 0 <= q < j ==> #[trigger] w.bodies@[q].id != w.bodies@[i as int].id,
            decreases i - j,
        {
            if w.bodies[j].id == w.bodies[i].id {
                return false;
            }
            j = j + 1;
        }
        i = i + 1;
    }
    true
}

} // verus!
