use asteroid_arena::asteroid::{
    handle_asteroid_collisions, rotate_asteroids, spawn_asteroid, ASTEROID_RADIUS,
};
use asteroid_arena::collision::{apply_collision_damage, detect_collisions};
use asteroid_arena::despawn::{despawn_dead_entities, despawn_remote_entities, DESPAWN_DISTANCE};
use asteroid_arena::math::{isqrt64, scaled_direction, Vec3};
use asteroid_arena::movement::update_motion;
use asteroid_arena::schedule::tick;
use asteroid_arena::spaceship::{
    spaceship_movement_controls, spaceship_weapon_controls, spawn_spaceship,
    update_spaceship_status, MISSILE_COLLISION_DAMAGE, MISSILE_HEALTH, MISSILE_RADIUS,
    SPACESHIP_HEALTH, SPACESHIP_RADIUS,
};
use asteroid_arena::world::{
    health_depleted, world_wf_check, Archetype, Body, InputState, SpawnTimer, World,
    NANOS_PER_UNIT,
};

const UNIT: i64 = NANOS_PER_UNIT;

fn mk_body(id: u64, archetype: Archetype, pos: Vec3, radius: i64) -> Body {
    Body {
        id,
        archetype,
        position: pos,
        velocity: Vec3 { x: 0, y: 0, z: 0 },
        acceleration: Vec3 { x: 0, y: 0, z: 0 },
        radius,
        health: None,
        contact_damage: None,
        despawn_when_remote: false,
        colliding: vec![],
        spin: 0,
        facing: Vec3 { x: 0, y: 0, z: -1000 },
    }
}

fn mk_world(bodies: Vec<Body>) -> World {
    World {
        bodies,
        next_id: 100,
        spawn_timer: SpawnTimer { period_ms: 1000, elapsed_ms: 0 },
        hostile_mutual_damage: false,
    }
}

fn v3(x: i64, y: i64, z: i64) -> Vec3 {
    Vec3 { x, y, z }
}

// --- Kinematics ---

#[test]
fn position_advances_by_velocity_times_dt() {
    // One tick with dt = 1000 ms and zero acceleration: the position moves
    // by exactly velocity * dt.
    let mut b = mk_body(1, Archetype::Asteroid, v3(7 * UNIT, 0, -2 * UNIT), UNIT);
    b.velocity = v3(1_000_000, 2_000_000, -3_000_000); // (1, 2, -3) units/s
    let mut w = mk_world(vec![b]);
    update_motion(&mut w, 1000);
    assert_eq!(w.bodies[0].position, v3(8 * UNIT, 2 * UNIT, -5 * UNIT));
    assert_eq!(w.bodies[0].velocity, v3(1_000_000, 2_000_000, -3_000_000));
}

#[test]
fn acceleration_folds_into_velocity_before_position_update() {
    let mut b = mk_body(1, Archetype::Asteroid, v3(0, 0, 0), UNIT);
    b.acceleration = v3(1_000, 0, 0); // 1 unit/s^2
    let mut w = mk_world(vec![b]);
    update_motion(&mut w, 1000);
    // velocity first becomes 1 unit/s, then the position advances a full
    // second at that updated velocity.
    assert_eq!(w.bodies[0].velocity, v3(1_000_000, 0, 0));
    assert_eq!(w.bodies[0].position, v3(UNIT, 0, 0));
}

// --- Collision detection ---

#[test]
fn radius_two_and_a_half_collide_at_four_units_not_at_six() {
    // Two bodies of radius 2.5 with centres 4 units apart collide (4 <= 5);
    // moved to 6 units apart they no longer do.
    let a = mk_body(1, Archetype::Asteroid, v3(0, 0, 0), ASTEROID_RADIUS);
    let b = mk_body(2, Archetype::Asteroid, v3(4 * UNIT, 0, 0), ASTEROID_RADIUS);
    let mut w = mk_world(vec![a, b]);
    detect_collisions(&mut w);
    assert_eq!(w.bodies[0].colliding, vec![2]);
    assert_eq!(w.bodies[1].colliding, vec![1]);
    w.bodies[1].position = v3(6 * UNIT, 0, 0);
    detect_collisions(&mut w);
    assert!(w.bodies[0].colliding.is_empty());
    assert!(w.bodies[1].colliding.is_empty());
}

#[test]
fn overlap_is_symmetric_mutual_and_never_self() {
    let a = mk_body(10, Archetype::Spaceship, v3(0, 0, 0), 2 * UNIT);
    let b = mk_body(20, Archetype::Asteroid, v3(3 * UNIT, 0, 0), 2 * UNIT);
    let c = mk_body(30, Archetype::Asteroid, v3(50 * UNIT, 0, 0), UNIT);
    let mut w = mk_world(vec![a, b, c]);
    detect_collisions(&mut w);
    // membership is mutual,
    assert!(w.bodies[0].colliding.contains(&20));
    assert!(w.bodies[1].colliding.contains(&10));
    // never reflexive,
    assert!(!w.bodies[0].colliding.contains(&10));
    assert!(!w.bodies[1].colliding.contains(&20));
    // and absent for the distant body.
    assert!(w.bodies[2].colliding.is_empty());
    assert!(!w.bodies[0].colliding.contains(&30));
}

#[test]
fn touching_boundary_counts_as_overlap() {
    // distance exactly equal to the radius sum collides (<=, not <).
    let a = mk_body(1, Archetype::Asteroid, v3(0, 0, 0), 2 * UNIT);
    let b = mk_body(2, Archetype::Asteroid, v3(5 * UNIT, 0, 0), 3 * UNIT);
    let mut w = mk_world(vec![a, b]);
    detect_collisions(&mut w);
    assert_eq!(w.bodies[0].colliding, vec![2]);
}

#[test]
fn recomputed_sets_never_name_removed_bodies() {
    // A overlaps B; B dies; the next detection pass must not name B.
    let a = mk_body(1, Archetype::Spaceship, v3(0, 0, 0), 2 * UNIT);
    let mut b = mk_body(2, Archetype::SpaceshipMissile, v3(UNIT, 0, 0), 2 * UNIT);
    b.health = Some(0);
    let mut w = mk_world(vec![a, b]);
    detect_collisions(&mut w);
    assert_eq!(w.bodies[0].colliding, vec![2]);
    despawn_dead_entities(&mut w);
    assert_eq!(w.bodies.len(), 1);
    detect_collisions(&mut w);
    assert!(w.bodies[0].colliding.is_empty());
}

// --- Damage resolution ---

#[test]
fn overlapping_damagers_hurt_each_other_once() {
    let mut ship = mk_body(1, Archetype::Spaceship, v3(0, 0, 0), SPACESHIP_RADIUS);
    ship.health = Some(SPACESHIP_HEALTH);
    ship.contact_damage = Some(100);
    let mut missile = mk_body(2, Archetype::SpaceshipMissile, v3(UNIT, 0, 0), MISSILE_RADIUS);
    missile.health = Some(MISSILE_HEALTH);
    missile.contact_damage = Some(MISSILE_COLLISION_DAMAGE);
    let mut w = mk_world(vec![ship, missile]);
    detect_collisions(&mut w);
    apply_collision_damage(&mut w);
    assert_eq!(w.bodies[0].health, Some(95)); // 100 - 5, applied exactly once
    assert_eq!(w.bodies[1].health, Some(-99)); // 1 - 100; may go negative
}

#[test]
fn body_without_health_is_immune() {
    let rock = mk_body(1, Archetype::Asteroid, v3(0, 0, 0), ASTEROID_RADIUS);
    let mut missile = mk_body(2, Archetype::SpaceshipMissile, v3(UNIT, 0, 0), MISSILE_RADIUS);
    missile.health = Some(MISSILE_HEALTH);
    missile.contact_damage = Some(MISSILE_COLLISION_DAMAGE);
    let mut w = mk_world(vec![rock, missile]);
    detect_collisions(&mut w);
    apply_collision_damage(&mut w);
    assert_eq!(w.bodies[0].health, None);
    assert_eq!(w.bodies[1].health, Some(MISSILE_HEALTH)); // rock is harmless
}

fn armed_rock(id: u64, x: i64) -> Body {
    let mut b = mk_body(id, Archetype::Asteroid, v3(x, 0, 0), ASTEROID_RADIUS);
    b.health = Some(50);
    b.contact_damage = Some(10);
    b
}

#[test]
fn asteroid_pair_damage_follows_policy() {
    let mut w = mk_world(vec![armed_rock(1, 0), armed_rock(2, UNIT)]);
    detect_collisions(&mut w);
    apply_collision_damage(&mut w);
    // baseline policy: same-archetype hostiles exempt each other
    assert_eq!(w.bodies[0].health, Some(50));
    assert_eq!(w.bodies[1].health, Some(50));
    let mut w2 = mk_world(vec![armed_rock(1, 0), armed_rock(2, UNIT)]);
    w2.hostile_mutual_damage = true;
    detect_collisions(&mut w2);
    apply_collision_damage(&mut w2);
    assert_eq!(w2.bodies[0].health, Some(40));
    assert_eq!(w2.bodies[1].health, Some(40));
}

// --- Lifecycle: despawn ---

#[test]
fn health_zero_or_below_despawns_on_next_pass() {
    let mut dying = mk_body(1, Archetype::SpaceshipMissile, v3(0, 0, 0), MISSILE_RADIUS);
    dying.health = Some(0);
    let mut hurt = mk_body(2, Archetype::SpaceshipMissile, v3(0, 0, 0), MISSILE_RADIUS);
    hurt.health = Some(-17);
    let mut alive = mk_body(3, Archetype::Spaceship, v3(0, 0, 0), SPACESHIP_RADIUS);
    alive.health = Some(1);
    let immortal = mk_body(4, Archetype::Asteroid, v3(0, 0, 0), ASTEROID_RADIUS);
    let mut w = mk_world(vec![dying, hurt, alive, immortal]);
    despawn_dead_entities(&mut w);
    let ids: Vec<u64> = w.bodies.iter().map(|b| b.id).collect();
    assert_eq!(ids, vec![3, 4]);
}

#[test]
fn despawn_distance_boundary_is_exclusive() {
    // exactly at the threshold: kept; one nano-unit beyond: removed.
    let mut at = mk_body(1, Archetype::Asteroid, v3(DESPAWN_DISTANCE, 0, 0), ASTEROID_RADIUS);
    at.despawn_when_remote = true;
    let mut beyond = mk_body(2, Archetype::Asteroid, v3(DESPAWN_DISTANCE + 1, 0, 0), ASTEROID_RADIUS);
    beyond.despawn_when_remote = true;
    // far away but not tagged: stays regardless.
    let untagged = mk_body(3, Archetype::Spaceship, v3(0, 0, 3 * DESPAWN_DISTANCE), SPACESHIP_RADIUS);
    let mut w = mk_world(vec![at, beyond, untagged]);
    despawn_remote_entities(&mut w);
    let ids: Vec<u64> = w.bodies.iter().map(|b| b.id).collect();
    assert_eq!(ids, vec![1, 3]);
}

#[test]
fn asteroid_struck_by_stranger_is_removed() {
    let mut rock = mk_body(1, Archetype::Asteroid, v3(0, 0, 0), ASTEROID_RADIUS);
    rock.despawn_when_remote = true;
    let mut missile = mk_body(2, Archetype::SpaceshipMissile, v3(UNIT, 0, 0), MISSILE_RADIUS);
    missile.health = Some(MISSILE_HEALTH);
    missile.contact_damage = Some(MISSILE_COLLISION_DAMAGE);
    let far_rock = mk_body(3, Archetype::Asteroid, v3(50 * UNIT, 0, 0), ASTEROID_RADIUS);
    let mut w = mk_world(vec![rock, missile, far_rock]);
    detect_collisions(&mut w);
    handle_asteroid_collisions(&mut w);
    let ids: Vec<u64> = w.bodies.iter().map(|b| b.id).collect();
    assert_eq!(ids, vec![2, 3]); // struck asteroid gone, the others stay
}

#[test]
fn asteroid_on_asteroid_contact_is_ignored_by_the_cull() {
    let a = mk_body(1, Archetype::Asteroid, v3(0, 0, 0), ASTEROID_RADIUS);
    let b = mk_body(2, Archetype::Asteroid, v3(UNIT, 0, 0), ASTEROID_RADIUS);
    let mut w = mk_world(vec![a, b]);
    detect_collisions(&mut w);
    handle_asteroid_collisions(&mut w);
    assert_eq!(w.bodies.len(), 2);
}

// --- Lifecycle: timed spawn ---

#[test]
fn oversized_tick_fires_at_most_one_spawn_and_resets_once() {
    // 2.5 s elapse in one tick on a 1 s repeating timer: exactly one spawn,
    // and the countdown restarts from a single reset, not a backlog.
    let mut w = mk_world(vec![]);
    let fired = spawn_asteroid(&mut w, 2500);
    assert!(fired);
    assert_eq!(w.bodies.len(), 1);
    assert_eq!(w.spawn_timer.elapsed_ms, 0);
    assert_eq!(w.spawn_timer.period_ms, 1000);
    // the next short tick therefore cannot fire again
    let fired2 = spawn_asteroid(&mut w, 400);
    assert!(!fired2);
    assert_eq!(w.bodies.len(), 1);
    assert_eq!(w.spawn_timer.elapsed_ms, 400);
}

#[test]
fn spawned_asteroid_is_inside_the_spawn_band() {
    let mut w = mk_world(vec![]);
    for _ in 0..50 {
        let fired = spawn_asteroid(&mut w, 1000);
        assert!(fired);
    }
    assert_eq!(w.bodies.len(), 50);
    for b in w.bodies.iter() {
        assert!(matches!(b.archetype, Archetype::Asteroid));
        assert!(-25 * UNIT <= b.position.x && b.position.x < 25 * UNIT);
        assert_eq!(b.position.y, 0);
        assert!(0 <= b.position.z && b.position.z < 25 * UNIT);
        assert!(b.velocity.x.abs() <= 5_000_000 && b.velocity.z.abs() <= 5_000_000);
        assert_eq!(b.velocity.y, 0);
        assert!(b.acceleration.x.abs() <= 1_000 && b.acceleration.z.abs() <= 1_000);
        assert_eq!(b.radius, ASTEROID_RADIUS);
        assert!(b.despawn_when_remote);
        assert!(b.health.is_none() && b.contact_damage.is_none());
        assert!(b.colliding.is_empty());
    }
    // ids were allocated consecutively and uniquely
    for (k, b) in w.bodies.iter().enumerate() {
        assert_eq!(b.id, 100 + k as u64);
    }
    assert_eq!(w.next_id, 150);
}

// --- Actor control ---

#[test]
fn thrust_forward_one_second_advances_25_units_against_facing() {
    let mut w = mk_world(vec![]);
    spawn_spaceship(&mut w);
    // place the ship at the origin facing +Z
    w.bodies[0].position = v3(0, 0, 0);
    w.bodies[0].facing = v3(0, 0, 1000);
    let input = InputState { thrust_forward: true, ..InputState::default() };
    let (yaw, roll) = spaceship_movement_controls(&mut w, input, 1000);
    assert_eq!((yaw, roll), (0, 0));
    assert_eq!(w.bodies[0].velocity, v3(0, 0, -25_000_000)); // 25 units/s along -facing
    update_motion(&mut w, 1000);
    assert_eq!(w.bodies[0].position, v3(0, 0, -25 * UNIT));
}

#[test]
fn weapon_held_spawns_one_missile_six_and_a_half_units_ahead() {
    let mut w = mk_world(vec![]);
    spawn_spaceship(&mut w);
    let ship_pos = w.bodies[0].position;
    assert_eq!(ship_pos, v3(0, 0, -20 * UNIT));
    let input = InputState { fire: true, ..InputState::default() };
    let fired = spaceship_weapon_controls(&mut w, input);
    assert!(fired);
    assert_eq!(w.bodies.len(), 2);
    let m = &w.bodies[1];
    // default facing is -Z, so "ahead" (against the facing) is +Z
    assert_eq!(m.position, v3(0, 0, -20 * UNIT + 6_500_000_000));
    assert_eq!(m.velocity, v3(0, 0, 55_000_000));
    assert!(matches!(m.archetype, Archetype::SpaceshipMissile));
    assert_eq!(m.radius, MISSILE_RADIUS);
    assert_eq!(m.health, Some(MISSILE_HEALTH));
    assert_eq!(m.contact_damage, Some(MISSILE_COLLISION_DAMAGE));
    assert!(m.despawn_when_remote);
    // exactly one per press-tick: a second tick with the key still held
    // spawns exactly one more
    let fired2 = spaceship_weapon_controls(&mut w, input);
    assert!(fired2);
    assert_eq!(w.bodies.len(), 3);
}

#[test]
fn opposing_keys_resolve_by_fixed_priority() {
    let mut w = mk_world(vec![]);
    spawn_spaceship(&mut w);
    w.bodies[0].facing = v3(0, 0, 1000);
    let input = InputState {
        yaw_left: true,
        yaw_right: true,
        roll_left: true,
        roll_right: true,
        thrust_forward: true,
        thrust_back: true,
        fire: false,
    };
    let (yaw, roll) = spaceship_movement_controls(&mut w, input, 16);
    assert_eq!(yaw, -2_500 * 16); // yaw-right wins
    assert_eq!(roll, -3_000 * 16); // roll-left wins
    assert_eq!(w.bodies[0].velocity, v3(0, 0, 25_000_000)); // thrust-back wins
}

#[test]
fn controls_do_nothing_without_exactly_one_ship() {
    let rock = mk_body(7, Archetype::Asteroid, v3(0, 0, 0), ASTEROID_RADIUS);
    let mut w = mk_world(vec![rock]);
    let input = InputState { thrust_forward: true, fire: true, ..InputState::default() };
    let (yaw, roll) = spaceship_movement_controls(&mut w, input, 16);
    assert_eq!((yaw, roll), (0, 0));
    assert!(!spaceship_weapon_controls(&mut w, input));
    assert_eq!(w.bodies.len(), 1);
    assert!(update_spaceship_status(&w).is_none());
    // two ships: get_single fails the same way
    let mut w2 = mk_world(vec![]);
    spawn_spaceship(&mut w2);
    spawn_spaceship(&mut w2);
    assert!(!spaceship_weapon_controls(&mut w2, input));
    assert_eq!(w2.bodies.len(), 2);
}

#[test]
fn status_reports_the_ship() {
    let mut w = mk_world(vec![]);
    spawn_spaceship(&mut w);
    let st = update_spaceship_status(&w).unwrap();
    assert_eq!(st.position, v3(0, 0, -20 * UNIT));
    assert_eq!(st.health, SPACESHIP_HEALTH);
}

// --- Spin ---

#[test]
fn asteroids_spin_at_fixed_rate_and_wrap() {
    let rock = mk_body(1, Archetype::Asteroid, v3(0, 0, 0), ASTEROID_RADIUS);
    let ship = mk_body(2, Archetype::Spaceship, v3(0, 0, 0), SPACESHIP_RADIUS);
    let mut w = mk_world(vec![rock, ship]);
    rotate_asteroids(&mut w, 1000);
    assert_eq!(w.bodies[0].spin, 2_500_000); // 2.5 radians in micro-radians
    assert_eq!(w.bodies[1].spin, 0);
    rotate_asteroids(&mut w, 2000);
    assert_eq!(w.bodies[0].spin, (2_500_000 + 5_000_000) % 6_283_185);
}

// --- Whole ticks ---

#[test]
fn quiet_tick_keeps_the_world_still() {
    let mut w = mk_world(vec![]);
    spawn_spaceship(&mut w);
    assert!(world_wf_check(&w));
    let fx = tick(&mut w, InputState::default(), 16);
    assert!(!fx.spawned_hostile);
    assert!(!fx.fired_missile);
    assert_eq!(fx.yaw_delta, 0);
    assert_eq!(fx.roll_delta, 0);
    assert_eq!(w.bodies.len(), 1);
    assert_eq!(w.bodies[0].position, v3(0, 0, -20 * UNIT));
    assert_eq!(w.spawn_timer.elapsed_ms, 16);
}

#[test]
fn full_second_tick_spawns_a_hostile() {
    let mut w = mk_world(vec![]);
    spawn_spaceship(&mut w);
    assert!(world_wf_check(&w));
    let fx = tick(&mut w, InputState::default(), 1000);
    assert!(fx.spawned_hostile);
    assert_eq!(w.bodies.len(), 2);
    assert_eq!(w.spawn_timer.elapsed_ms, 0);
}

#[test]
fn tick_reports_rotation_intents() {
    let mut w = mk_world(vec![]);
    spawn_spaceship(&mut w);
    assert!(world_wf_check(&w));
    let input = InputState { yaw_left: true, roll_right: true, ..InputState::default() };
    let fx = tick(&mut w, input, 16);
    assert_eq!(fx.yaw_delta, 2_500 * 16);
    assert_eq!(fx.roll_delta, 3_000 * 16);
}

#[test]
fn missile_kills_asteroid_within_one_tick() {
    // An asteroid overlapping a missile: the collision pass links them and
    // the cull removes the asteroid within the same tick. The missile stays:
    // asteroids are harmless, so nothing damaged it.
    let mut w = mk_world(vec![]);
    spawn_spaceship(&mut w);
    w.bodies[0].position = v3(60 * UNIT, 0, 0); // ship far away
    let rock = mk_body(50, Archetype::Asteroid, v3(0, 0, 0), ASTEROID_RADIUS);
    let mut missile = mk_body(51, Archetype::SpaceshipMissile, v3(UNIT, 0, 0), MISSILE_RADIUS);
    missile.health = Some(MISSILE_HEALTH);
    missile.contact_damage = Some(MISSILE_COLLISION_DAMAGE);
    missile.despawn_when_remote = true;
    w.bodies.push(rock);
    w.bodies.push(missile);
    assert!(world_wf_check(&w));
    let fx = tick(&mut w, InputState::default(), 1);
    assert!(!fx.spawned_hostile);
    let ids: Vec<u64> = w.bodies.iter().map(|b| b.id).collect();
    assert_eq!(ids, vec![100, 51]); // asteroid culled; ship and missile live
}

// --- Well-formedness and helpers ---

#[test]
fn wf_check_accepts_sane_worlds_and_rejects_broken_ones() {
    let mut w = mk_world(vec![]);
    spawn_spaceship(&mut w);
    assert!(world_wf_check(&w));
    // duplicate identifiers
    let mut w2 = mk_world(vec![
        mk_body(5, Archetype::Asteroid, v3(0, 0, 0), UNIT),
        mk_body(5, Archetype::Asteroid, v3(UNIT, 0, 0), UNIT),
    ]);
    assert!(!world_wf_check(&w2));
    w2.bodies[1].id = 6;
    assert!(world_wf_check(&w2));
    // a timer that already passed its period
    w2.spawn_timer.elapsed_ms = w2.spawn_timer.period_ms;
    assert!(!world_wf_check(&w2));
    // negative radius is a caller contract violation
    let mut w3 = mk_world(vec![mk_body(1, Archetype::Asteroid, v3(0, 0, 0), -1)]);
    assert!(!world_wf_check(&w3));
    w3.bodies[0].radius = 0;
    assert!(world_wf_check(&w3));
}

#[test]
fn health_depleted_at_exactly_zero() {
    assert!(health_depleted(0));
    assert!(health_depleted(-1));
    assert!(!health_depleted(1));
}

#[test]
fn integer_square_root_rounds_down() {
    assert_eq!(isqrt64(0), 0);
    assert_eq!(isqrt64(1), 1);
    assert_eq!(isqrt64(24), 4);
    assert_eq!(isqrt64(25), 5);
    assert_eq!(isqrt64(2_000_000), 1414);
}

#[test]
fn scaled_direction_is_exact_and_zero_safe() {
    // A 3-4-5 triangle scales exactly.
    let d = scaled_direction(300, 400, 5_000_000);
    assert_eq!(d, v3(3_000_000, 0, 4_000_000));
    let d2 = scaled_direction(-300, 400, 5_000_000);
    assert_eq!(d2, v3(-3_000_000, 0, 4_000_000));
    // The normalise-or-zero policy: a degenerate draw becomes a zero vector.
    let z = scaled_direction(0, 0, 5_000_000);
    assert_eq!(z, v3(0, 0, 0));
    // An axis-aligned draw reaches the full magnitude.
    let a = scaled_direction(0, -999, 1_000);
    assert_eq!(a, v3(0, 0, -1_000));
}
