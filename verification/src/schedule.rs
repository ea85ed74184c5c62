use vstd::prelude::*;
use crate::asteroid::{
    handle_asteroid_collisions, rotate_asteroids, spawn_asteroid, cull_struck_spec, spawn_rel,
    spin_rel,
};
use crate::collision::{
    apply_collision_damage, collide_rel, damage_rel, detect_collisions,
};
use crate::despawn::{
    despawn_dead_entities, despawn_dead_spec, despawn_remote_entities, despawn_remote_spec,
};
use crate::movement::{kine_rel, update_motion, KIN_POS_IN_LIMIT};
use crate::spaceship::{
    spaceship_movement_controls, spaceship_weapon_controls, movement_rel, weapon_rel,
};
use crate::world::{
    body_wf, ids_unique, lemma_retain_members, retain_idx, world_wf, Body, InputState,
    TickEffects, World, ACC_LIMIT, DAMAGE_LIMIT, DT_LIMIT, FACING_SCALE, HEALTH_LIMIT, LEN_LIMIT,
    RADIUS_LIMIT, TAU_MICRORAD, VEL_LIMIT,
};
use crate::math::COORD_ABS_LIMIT;

verus! {

/// Bounds every body satisfies between the population-changing stages of a
/// tick and the integration stage: like `body_wf` but with the position
/// margin a freshly spawned missile may add.
pub open spec fn mid_body_ok(b: Body) -> bool {
    &&& b.position.bounded(KIN_POS_IN_LIMIT as int)
    &&& b.velocity.bounded(VEL_LIMIT as int)
    &&& b.acceleration.bounded(ACC_LIMIT as int)
    &&& 0 <= b.radius <= RADIUS_LIMIT
    &&& match b.health {
        Some(h) => -HEALTH_LIMIT <= h <= HEALTH_LIMIT,
        None => true,
    }
    &&& match b.contact_damage {
        Some(d) => 0 <= d <= DAMAGE_LIMIT,
        None => true,
    }
    &&& b.spin < TAU_MICRORAD
    &&& b.facing.bounded(FACING_SCALE as int)
}

pub open spec fn mid_ok(s: Seq<Body>) -> bool {
    forall|i: int| 0 <= i < s.len() ==> mid_body_ok(#[trigger] s[i])
}

/// One simulation tick: the stages run in this fixed order, once each, with
/// no interleaving —
///
/// 1. timed spawning (asteroids),
/// 2. actor control (thrust/rotation intents, then weapon fire),
/// 3. asteroid spin and kinematic integration,
/// 4. collision detection over the just-updated transforms,
/// 5. damage resolution from the just-built overlap sets,
/// 6. asteroid collision response, then
/// 7. despawning, by distance and by depleted health.
///
/// Spawning precedes detection and despawning follows it, so overlap sets
/// are only ever read against the population and transforms they were
/// computed from, and a body despawned this tick is gone before any later
/// pass could see it again.
pub fn tick(world: &mut World, input: InputState, dt: i64) -> (fx: TickEffects)
    requires
        world_wf(*old(world)),
        0 <= dt <= DT_LIMIT,
    ensures
        exists|w1: World, w2: World, w3: World, s4: Seq<Body>, s5: Seq<Body>, s6: Seq<Body>, s7: Seq<Body>|
            {
                &&& #[trigger] spawn_rel(*old(world), w1, dt as int, fx.spawned_hostile)
                &&& movement_rel(w1, w2, input, dt as int, fx.yaw_delta as int, fx.roll_delta as int)
                &&& #[trigger] weapon_rel(w2, w3, input, fx.fired_missile)
                &&& spin_rel(w3.bodies@, s4, dt as int)
                &&& #[trigger] kine_rel(s4, s5, dt as int)
                &&& collide_rel(s5, s6)
                &&& #[trigger] damage_rel(s6, s7, old(world).hostile_mutual_damage)
                &&& final(world).bodies@ == despawn_dead_spec(
                    despawn_remote_spec(cull_struck_spec(s7)),
                )
                &&& final(world).next_id == w3.next_id
                &&& final(world).spawn_timer == w1.spawn_timer
            },
        final(world).hostile_mutual_damage == old(world).hostile_mutual_damage,
{
    let ghost w0 = *old(world);

    // 1. Timed spawning.
    let spawned = spawn_asteroid(world, dt);
    let ghost w1 = *world;
    proof {
        assert forall|i: int| 0 <= i < w1.bodies@.len() implies mid_body_ok(
            #[trigger] w1.bodies@[i],
        ) by {
            if i < w0.bodies@.len() {
                assert(w1.bodies@[i] == w0.bodies@[i]);
                assert(body_wf(w0.bodies@[i]));
            }
        }
        assert(ids_unique(w1.bodies@) && crate::world::ids_below(w1.bodies@, w1.next_id)) by {
            assert forall|i: int, j: int|
                0 <= i < w1.bodies@.len() && 0 <= j < w1.bodies@.len() && i != j implies w1.bodies@[i].id != w1.bodies@[j].id by {
                if i < w0.bodies@.len() && j < w0.bodies@.len() {
                    assert(w1.bodies@[i] == w0.bodies@[i] && w1.bodies@[j] == w0.bodies@[j]);
                } else if i < w0.bodies@.len() {
                    assert(w1.bodies@[i] == w0.bodies@[i] && w0.bodies@[i].id < w0.next_id);
                } else {
                    assert(w1.bodies@[j] == w0.bodies@[j] && w0.bodies@[j].id < w0.next_id);
                }
            }
            assert forall|i: int| 0 <= i < w1.bodies@.len() implies #[trigger] w1.bodies@[i].id
                < w1.next_id by {
                if i < w0.bodies@.len() {
                    assert(w1.bodies@[i] == w0.bodies@[i]);
                }
            }
        }
        assert forall|i: int| 0 <= i < w1.bodies@.len() implies (
        #[trigger] w1.bodies@[i]).position.bounded(crate::world::POS_LIMIT as int) by {
            if i < w0.bodies@.len() {
                assert(w1.bodies@[i] == w0.bodies@[i]);
                assert(body_wf(w0.bodies@[i]));
            }
        }
        assert(w1.bodies@.len() <= LEN_LIMIT + 1);
        assert(w1.next_id <= u64::MAX - 1);
    }

    // 2. Actor control: movement, then weapon.
    let (yaw, roll) = spaceship_movement_controls(world, input, dt);
    let ghost w2 = *world;
    proof {
        assert forall|i: int| 0 <= i < w2.bodies@.len() implies mid_body_ok(
            #[trigger] w2.bodies@[i],
        ) by {
            lemma_movement_mid(w1, w2, input, dt as int, yaw as int, roll as int, i);
        }
        lemma_movement_ids(w1, w2, input, dt as int, yaw as int, roll as int);
        assert forall|i: int| 0 <= i < w2.bodies@.len() implies (
        #[trigger] w2.bodies@[i]).position.bounded(crate::world::POS_LIMIT as int) by {
            assert(w2.bodies@[i].position == w1.bodies@[i].position);
        }
    }
    let fired = spaceship_weapon_controls(world, input);
    let ghost w3 = *world;
    proof {
        assert forall|i: int| 0 <= i < w3.bodies@.len() implies mid_body_ok(
            #[trigger] w3.bodies@[i],
        ) by {
            if i < w2.bodies@.len() {
                assert(w3.bodies@[i] == w2.bodies@[i]);
            } else {
                assert(fired);
                lemma_missile_mid(w2, w3, input, i);
            }
        }
        assert(ids_unique(w3.bodies@) && w3.bodies@.len() <= LEN_LIMIT + 2) by {
            assert forall|i: int, j: int|
                0 <= i < w3.bodies@.len() && 0 <= j < w3.bodies@.len() && i != j implies w3.bodies@[i].id != w3.bodies@[j].id by {
                if i < w2.bodies@.len() && j < w2.bodies@.len() {
                    assert(w3.bodies@[i] == w2.bodies@[i] && w3.bodies@[j] == w2.bodies@[j]);
                } else if i < w2.bodies@.len() {
                    assert(w3.bodies@[i] == w2.bodies@[i] && w2.bodies@[i].id < w2.next_id);
                } else if j < w2.bodies@.len() {
                    assert(w3.bodies@[j] == w2.bodies@[j] && w2.bodies@[j].id < w2.next_id);
                }
            }
        }
    }

    // 3. Spin and kinematic integration.
    rotate_asteroids(world, dt);
    let ghost s4 = world.bodies@;
    proof {
        assert forall|i: int| 0 <= i < s4.len() implies mid_body_ok(#[trigger] s4[i]) by {
            assert(crate::asteroid::spun_body(w3.bodies@[i], s4[i], dt as int));
            assert(mid_body_ok(w3.bodies@[i]));
        }
    }
    update_motion(world, dt);
    let ghost s5 = world.bodies@;
    proof {
        assert(ids_unique(s5)) by {
            assert forall|i: int| 0 <= i < s5.len() implies #[trigger] s5[i].id == w3.bodies@[i].id by {
                assert(crate::asteroid::spun_body(w3.bodies@[i], s4[i], dt as int));
                assert(crate::movement::moved_body(s4[i], s5[i], dt as int));
            }
        }
        assert forall|i: int| 0 <= i < s5.len() implies (#[trigger] s5[i]).position.bounded(
            COORD_ABS_LIMIT as int,
        ) && 0 <= s5[i].radius <= RADIUS_LIMIT by {
            assert(crate::asteroid::spun_body(w3.bodies@[i], s4[i], dt as int));
            assert(crate::movement::moved_body(s4[i], s5[i], dt as int));
            assert(mid_body_ok(s4[i]));
        }
    }

    // 4. Collision detection on the just-updated transforms.
    detect_collisions(world);
    let ghost s6 = world.bodies@;
    proof {
        assert(s6.len() <= LEN_LIMIT + 2);
        assert forall|i: int| 0 <= i < s6.len() implies match (#[trigger] s6[i]).contact_damage {
            Some(d) => 0 <= d <= DAMAGE_LIMIT,
            None => true,
        } && match s6[i].health {
            Some(h) => -HEALTH_LIMIT <= h <= HEALTH_LIMIT,
            None => true,
        } by {
            assert(crate::collision::collide_frame(s5[i], s6[i]));
            assert(crate::asteroid::spun_body(w3.bodies@[i], s4[i], dt as int));
            assert(crate::movement::moved_body(s4[i], s5[i], dt as int));
            assert(mid_body_ok(w3.bodies@[i]));
        }
    }

    // 5. Damage resolution from the just-built overlap sets.
    apply_collision_damage(world);
    let ghost s7 = world.bodies@;
    proof {
        assert forall|i: int| 0 <= i < s7.len() implies (#[trigger] s7[i]).position.bounded(
            COORD_ABS_LIMIT as int,
        ) by {
            assert(crate::collision::damage_frame(s6[i], s7[i]));
            assert(crate::collision::collide_frame(s5[i], s6[i]));
            assert(s5[i].position.bounded(COORD_ABS_LIMIT as int));
        }
    }

    // 6. Asteroid collision response.
    handle_asteroid_collisions(world);
    proof {
        let culled = world.bodies@;
        lemma_retain_members(s7, crate::asteroid::keep_unstruck_f(), s7.len() as int);
        assert forall|k: int| 0 <= k < culled.len() implies (#[trigger] culled[k]).position.bounded(
            COORD_ABS_LIMIT as int,
        ) by {
            let idx = retain_idx(s7, crate::asteroid::keep_unstruck_f(), s7.len() as int)[k];
            assert(culled[k] == s7[idx]);
        }
    }

    // 7. Despawn: out-of-range bodies, then depleted health.
    despawn_remote_entities(world);
    despawn_dead_entities(world);

    let fx = TickEffects {
        yaw_delta: yaw,
        roll_delta: roll,
        spawned_hostile: spawned,
        fired_missile: fired,
    };
    proof {
        assert(spawn_rel(w0, w1, dt as int, fx.spawned_hostile));
        assert(movement_rel(w1, w2, input, dt as int, fx.yaw_delta as int, fx.roll_delta as int));
        assert(weapon_rel(w2, w3, input, fx.fired_missile));
        assert(spin_rel(w3.bodies@, s4, dt as int));
        assert(kine_rel(s4, s5, dt as int));
        assert(collide_rel(s5, s6));
        assert(damage_rel(s6, s7, w0.hostile_mutual_damage));
        assert(world.bodies@ == despawn_dead_spec(despawn_remote_spec(cull_struck_spec(s7))));
    }
    fx
}

/// Bounds are kept through the movement controls: only the ship's velocity
/// changes, and it is overwritten with a facing-scaled thrust well inside
/// the velocity limit.
proof fn lemma_movement_mid(
    w1: World,
    w2: World,
    input: InputState,
    dt: int,
    yaw: int,
    roll: int,
    i: int,
)
    requires
        movement_rel(w1, w2, input, dt, yaw, roll),
        mid_ok(w1.bodies@),
        0 <= i < w2.bodies@.len(),
    ensures
        mid_body_ok(w2.bodies@[i]),
{
    if crate::spaceship::exactly_one_ship(w1.bodies@) {
        let p = choose|p: int|
            #[trigger] crate::spaceship::ship_at(w1.bodies@, p) && (forall|j: int|
                0 <= j < w1.bodies@.len() && j != p ==> #[trigger] w2.bodies@[j]
                    == w1.bodies@[j]) && crate::spaceship::control_frame(
                w1.bodies@[p],
                w2.bodies@[p],
            ) && crate::spaceship::thrust_velocity_ok(
                w1.bodies@[p].facing,
                input,
                w2.bodies@[p].velocity,
            );
        if i == p {
            let f = w1.bodies@[p].facing;
            let st = crate::spaceship::thrust_step(input);
            assert(-25_000_000 <= -(f.x * st) <= 25_000_000 && -25_000_000 <= -(f.y * st)
                <= 25_000_000 && -25_000_000 <= -(f.z * st) <= 25_000_000) by (nonlinear_arith)
                requires
                    -1_000 <= f.x <= 1_000 && -1_000 <= f.y <= 1_000 && -1_000 <= f.z <= 1_000
                        && -25_000 <= st <= 25_000,
            ;
        } else {
            assert(w2.bodies@[i] == w1.bodies@[i]);
        }
    } else {
        assert(w2.bodies@[i] == w1.bodies@[i]);
    }
}

/// Identifiers are untouched by the movement controls.
proof fn lemma_movement_ids(w1: World, w2: World, input: InputState, dt: int, yaw: int, roll: int)
    requires
        movement_rel(w1, w2, input, dt, yaw, roll),
        ids_unique(w1.bodies@),
        crate::world::ids_below(w1.bodies@, w1.next_id),
    ensures
        ids_unique(w2.bodies@),
        crate::world::ids_below(w2.bodies@, w2.next_id),
        w2.bodies@.len() == w1.bodies@.len(),
        forall|i: int|
            0 <= i < w2.bodies@.len() ==> (#[trigger] w2.bodies@[i]).position
                == w1.bodies@[i].position,
{
    assert forall|i: int| 0 <= i < w2.bodies@.len() implies #[trigger] w2.bodies@[i].id
        == w1.bodies@[i].id && w2.bodies@[i].position == w1.bodies@[i].position by {
        if crate::spaceship::exactly_one_ship(w1.bodies@) {
            let p = choose|p: int|
                #[trigger] crate::spaceship::ship_at(w1.bodies@, p) && (forall|j: int|
                    0 <= j < w1.bodies@.len() && j != p ==> #[trigger] w2.bodies@[j]
                        == w1.bodies@[j]) && crate::spaceship::control_frame(
                    w1.bodies@[p],
                    w2.bodies@[p],
                ) && crate::spaceship::thrust_velocity_ok(
                    w1.bodies@[p].facing,
                    input,
                    w2.bodies@[p].velocity,
                );
            if i != p {
                assert(w2.bodies@[i] == w1.bodies@[i]);
            }
        }
    }
}

/// A freshly fired missile respects the mid-tick bounds: it appears a fixed
/// small offset ahead of a well-placed ship, inside the integrator's
/// position margin.
proof fn lemma_missile_mid(w2: World, w3: World, input: InputState, i: int)
    requires
        weapon_rel(w2, w3, input, true),
        mid_ok(w2.bodies@),
        forall|j: int|
            0 <= j < w2.bodies@.len() ==> (#[trigger] w2.bodies@[j]).position.bounded(
                crate::world::POS_LIMIT as int,
            ),
        w2.bodies@.len() <= i < w3.bodies@.len(),
    ensures
        mid_body_ok(w3.bodies@[i]),
{
    let p = choose|p: int|
        #[trigger] crate::spaceship::ship_at(w2.bodies@, p) && crate::spaceship::missile_ok(
            w3.bodies@[w2.bodies@.len() as int],
            w2.bodies@[p],
            w2.next_id,
        );
    let ship = w2.bodies@[p];
    let f = ship.facing;
    assert(-6_500_000_000 <= -(f.x * crate::spaceship::MISSILE_OFFSET_RATE) <= 6_500_000_000
        && -6_500_000_000 <= -(f.y * crate::spaceship::MISSILE_OFFSET_RATE) <= 6_500_000_000
        && -6_500_000_000 <= -(f.z * crate::spaceship::MISSILE_OFFSET_RATE) <= 6_500_000_000
        && -55_000_000 <= -(f.x * crate::spaceship::MISSILE_SPEED_RATE) <= 55_000_000
        && -55_000_000 <= -(f.y * crate::spaceship::MISSILE_SPEED_RATE) <= 55_000_000
        && -55_000_000 <= -(f.z * crate::spaceship::MISSILE_SPEED_RATE) <= 55_000_000)
        by (nonlinear_arith)
        requires
            -1_000 <= f.x <= 1_000 && -1_000 <= f.y <= 1_000 && -1_000 <= f.z <= 1_000,
    ;
}

} // verus!
