use snrt::binary32::Binary32;
use snrt::geometry::{Geometry, Sphere};
use snrt::material::{Lambertian, Material};
use snrt::vector::Vector3;
use snrt::world::{plan_cell, CellPlan, MaterialKind, World};

fn b(v: f32) -> Binary32 {
    Binary32::from_bits(v.to_bits())
}

fn ball(x: f32) -> Geometry {
    let grey = Vector3::splat(b(0.5));
    Geometry::Sphere(Sphere {
        pos: Vector3::new(b(x), b(0.0), b(0.0)),
        radius: b(1.0),
        material: Material::Lambertian(Lambertian { albedo: grey }),
    })
}

fn world_of(n: usize) -> World {
    let mut w = World::new();
    for i in 0..n {
        w.add(ball(i as f32));
    }
    w
}

#[test]
fn empty_world_has_no_hit() {
    let w = World::new();
    assert_eq!(w.entities.len(), 0);
    assert_eq!(w.trace(&vec![]), None);
}

#[test]
fn nearest_entity_wins() {
    let w = world_of(4);
    assert_eq!(w.trace(&vec![None, Some(b(3.0)), Some(b(2.5)), Some(b(7.0))]), Some(2));
}

#[test]
fn equal_hits_keep_first_entity() {
    let w = world_of(4);
    assert_eq!(w.trace(&vec![Some(b(5.0)), Some(b(2.0)), Some(b(2.0)), Some(b(2.0))]), Some(1));
}

#[test]
fn unusable_hits_are_skipped() {
    let w = world_of(3);
    assert_eq!(w.trace(&vec![Some(b(f32::NAN)), Some(b(f32::MAX)), None]), None);
    assert_eq!(w.trace(&vec![Some(b(f32::NAN)), Some(b(9.0)), None]), Some(1));
}

#[test]
fn world_keeps_insertion_order() {
    let w = world_of(3);
    assert_eq!(w.entities.len(), 3);
    match w.entities[2] {
        Geometry::Sphere(s) => assert_eq!(s.pos.x.bits, 2.0f32.to_bits()),
        Geometry::AABox(_) => panic!("expected a sphere"),
    }
    assert_eq!(w.entities[0].material().attenuation().y.bits, 0.5f32.to_bits());
}

#[test]
fn cells_are_planned_by_thresholds() {
    let share = b(0.3);
    assert_eq!(plan_cell(b(0.5), b(0.1), share), CellPlan { kind: MaterialKind::Diffuse, is_box: true });
    assert_eq!(plan_cell(b(0.8), b(0.3), share), CellPlan { kind: MaterialKind::Metal, is_box: false });
    assert_eq!(plan_cell(b(0.94), b(0.9), share), CellPlan { kind: MaterialKind::Metal, is_box: false });
    assert_eq!(plan_cell(b(0.95), b(0.0), share), CellPlan { kind: MaterialKind::Glass, is_box: true });
    assert_eq!(plan_cell(b(0.7999), b(0.0), b(0.0)), CellPlan { kind: MaterialKind::Diffuse, is_box: false });
}
