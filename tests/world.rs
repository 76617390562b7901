use nbody::ids::IdGenerator;
use nbody::vector::Vector2;
use nbody::world::{Body, World};

fn world() -> World<f32> {
    World::new(0.0, 2.0)
}

fn plus(a: f32, b: f32) -> f32 {
    a + b
}

#[test]
fn add_body_appends_a_body_at_rest() {
    let mut w = world();
    let id = w.add_body(10.0, 20.0, 1.0);
    assert_eq!(id, 0);
    assert_eq!(w.bodies.len(), 1);
    let b = w.bodies[0];
    assert_eq!(b.position, Vector2::new(10.0, 20.0));
    assert_eq!(b.velocity, Vector2::new(0.0, 0.0));
    assert_eq!(b.mass, 1.0);
    assert_eq!(b.radius, 2.0);
    assert_eq!(b.id, 0);
}

#[test]
fn count_equals_number_of_additions() {
    let mut w = world();
    for k in 0..7 {
        let id = w.add_body(k as f32, 0.0, 1.0);
        assert_eq!(id, k as u16);
    }
    assert_eq!(w.bodies.len(), 7);
    assert!(w.initial_bodies.is_empty());
}

#[test]
fn reset_restores_the_snapshot() {
    let mut w = world();
    w.add_body(0.0, 0.0, 1.0);
    w.add_body(100.0, 0.0, 10.0);
    w.add_body(0.0, 50.0, 5.0);
    w.save_state();
    let saved = w.bodies.clone();
    w.update(|a: Body<f32>, b: Body<f32>| Vector2::new(b.position.x - a.position.x, 1.0), plus, 0.0);
    w.add_body(3.0, 3.0, 1.0);
    w.adjust_mass_where(|_b: Body<f32>| true, |m: f32| m + 1.0);
    assert_ne!(w.bodies, saved);
    w.reset();
    assert_eq!(w.bodies, saved);
    assert_eq!(w.initial_bodies, saved);
}

#[test]
fn reset_without_snapshot_empties() {
    let mut w = world();
    w.add_body(1.0, 1.0, 1.0);
    w.reset();
    assert!(w.bodies.is_empty());
}

#[test]
fn save_state_twice_is_the_same() {
    let mut w = world();
    w.add_body(1.0, 2.0, 3.0);
    w.save_state();
    let first = w.initial_bodies.clone();
    w.save_state();
    assert_eq!(w.initial_bodies, first);
}

#[test]
fn clear_empties_both_and_keeps_issuing_higher_ids() {
    let mut w = world();
    let mut last = 0;
    for k in 0..4 {
        last = w.add_body(k as f32, k as f32, 1.0);
    }
    w.save_state();
    w.clear();
    assert!(w.bodies.is_empty());
    assert!(w.initial_bodies.is_empty());
    let id = w.add_body(0.0, 0.0, 1.0);
    assert!(id > last);
    assert_eq!(id, 4);
}

#[test]
fn worlds_sharing_ids_never_repeat_one() {
    let mut ids = IdGenerator::new();
    assert_eq!(ids.issue(), 0);
    let mut w: World<f32> = World::with_ids(ids, 0.0, 2.0);
    assert_eq!(w.add_body(0.0, 0.0, 1.0), 1);
    assert_eq!(w.add_body(0.0, 0.0, 1.0), 2);
}

#[test]
fn step_on_empty_world_is_a_no_op() {
    let mut w = world();
    w.update(|_a: Body<f32>, _b: Body<f32>| Vector2::new(1.0, 1.0), plus, 0.0);
    assert!(w.bodies.is_empty());
}

#[test]
fn step_on_single_body_leaves_it_unchanged() {
    let mut w = world();
    w.add_body(5.0, 7.0, 10.0);
    let before = w.bodies.clone();
    let acc = w.accelerations(&|_a: Body<f32>, _b: Body<f32>| Vector2::new(1.0, 1.0), &plus, 0.0);
    assert_eq!(acc, vec![Vector2::new(0.0, 0.0)]);
    w.update(|_a: Body<f32>, _b: Body<f32>| Vector2::new(1.0, 1.0), plus, 0.0);
    assert_eq!(w.bodies, before);
}

#[test]
fn accelerations_sum_the_pull_of_every_other_body() {
    let mut w = world();
    w.add_body(0.0, 0.0, 1.0);
    w.add_body(0.0, 0.0, 2.0);
    w.add_body(0.0, 0.0, 4.0);
    let acc = w.accelerations(&|_a: Body<f32>, b: Body<f32>| Vector2::new(b.mass, -b.mass), &plus, 0.0);
    assert_eq!(
        acc,
        vec![Vector2::new(6.0, -6.0), Vector2::new(5.0, -5.0), Vector2::new(3.0, -3.0)]
    );
}

#[test]
fn integration_updates_velocity_before_position() {
    let mut w = world();
    w.add_body(10.0, 20.0, 1.0);
    w.apply_accelerations(&vec![Vector2::new(3.0, 4.0)], &plus);
    let b = w.bodies[0];
    assert_eq!(b.velocity, Vector2::new(3.0, 4.0));
    assert_eq!(b.position, Vector2::new(13.0, 24.0));
    w.apply_accelerations(&vec![Vector2::new(1.0, 1.0)], &plus);
    let b = w.bodies[0];
    assert_eq!(b.velocity, Vector2::new(4.0, 5.0));
    assert_eq!(b.position, Vector2::new(17.0, 29.0));
    assert_eq!(b.mass, 1.0);
    assert_eq!(b.radius, 2.0);
}

#[test]
fn step_reads_positions_from_before_the_step() {
    let mut w = world();
    w.add_body(0.0, 0.0, 1.0);
    w.add_body(10.0, 0.0, 1.0);
    // each body is pulled by the x distance to the other
    w.update(|a: Body<f32>, b: Body<f32>| Vector2::new(b.position.x - a.position.x, 0.0), plus, 0.0);
    assert_eq!(w.bodies[0].velocity, Vector2::new(10.0, 0.0));
    assert_eq!(w.bodies[0].position, Vector2::new(10.0, 0.0));
    assert_eq!(w.bodies[1].velocity, Vector2::new(-10.0, 0.0));
    assert_eq!(w.bodies[1].position, Vector2::new(0.0, 0.0));
}

fn under(x: f32, y: f32) -> impl Fn(Body<f32>) -> bool {
    move |b: Body<f32>| {
        (x - b.position.x).powf(2.0) + (y - b.position.y).powf(2.0) < b.radius.powf(2.0)
    }
}

#[test]
fn selection_picks_the_last_overlapping_body() {
    let mut w = world();
    assert_eq!(w.add_body(50.0, 50.0, 1.0), 0);
    assert_eq!(w.add_body(50.0, 50.0, 1.0), 1);
    assert_eq!(w.add_body(50.0, 50.0, 1.0), 2);
    assert_eq!(w.find_body_at_point(under(50.0, 50.0)), Some(2));
    assert_eq!(w.find_body_at_point(under(51.0, 50.0)), Some(2));
}

#[test]
fn selection_misses_give_none() {
    let mut w = world();
    w.add_body(50.0, 50.0, 1.0);
    w.add_body(10.0, 10.0, 1.0);
    assert_eq!(w.find_body_at_point(under(52.0, 50.0)), None);
    assert_eq!(w.find_body_at_point(under(10.0, 11.0)), Some(1));
    assert_eq!(world().find_body_at_point(under(0.0, 0.0)), None);
}

#[test]
fn mass_and_radius_grow_only_at_the_exact_position() {
    let mut w = world();
    w.add_body(30.0, 40.0, 1.0);
    w.add_body(31.0, 40.0, 1.0);
    w.add_body(30.0, 40.0, 10.0);
    let at = |b: Body<f32>| b.position.x == 30.0 && b.position.y == 40.0;
    w.adjust_mass_where(at, |m: f32| m + 1.0);
    w.adjust_radius_where(at, |r: f32| r + 1.0);
    assert_eq!(w.bodies[0].mass, 2.0);
    assert_eq!(w.bodies[0].radius, 3.0);
    assert_eq!(w.bodies[1].mass, 1.0);
    assert_eq!(w.bodies[1].radius, 2.0);
    assert_eq!(w.bodies[2].mass, 11.0);
    assert_eq!(w.bodies[2].radius, 3.0);
    assert_eq!(w.bodies[2].id, 2);
}

#[test]
fn lone_moving_body_keeps_its_velocity() {
    let mut w = world();
    w.add_body(5.0, 7.0, 10.0);
    w.bodies[0].velocity = Vector2::new(1.0, -2.0);
    w.update(|_a: Body<f32>, _b: Body<f32>| Vector2::new(1.0, 1.0), plus, 0.0);
    assert_eq!(w.bodies[0].velocity, Vector2::new(1.0, -2.0));
    assert_eq!(w.bodies[0].position, Vector2::new(6.0, 5.0));
}
