use gfluid::config::{MAX_PARTICLES, MAX_SHAPES, MAX_TRIANGLES};
use gfluid::geometry::CollisionGeometry;
use gfluid::helper::{fluid_phase, SHAPE_BOX};
use gfluid::state::{CreateError, FlexState, ParticleInit, Uploads};
use gfluid::types::{Quat, Vector3, Vector4};

fn grid(n: u32, spacing: f32) -> Vec<ParticleInit> {
    let mut out = Vec::new();
    for x in 0..n {
        for y in 0..n {
            for z in 0..n {
                out.push(ParticleInit {
                    pos: Vector4(
                        (x as f32 * spacing).to_bits(),
                        (y as f32 * spacing).to_bits(),
                        (5000.0 + z as f32 * spacing).to_bits(),
                        2.0f32.to_bits(),
                    ),
                    velocity: Vector3(0, 0, (-5.0f32).to_bits()),
                    phase: fluid_phase(),
                    active: true,
                });
            }
        }
    }
    out
}

#[test]
fn new_session_is_empty() {
    let s = FlexState::new(7);
    assert_eq!(s.last_tick, 7);
    assert_eq!(s.particles.get_count(), 0);
    assert_eq!(s.particles.get_capacity(), MAX_PARTICLES);
    assert_eq!(s.shapes.get_capacity(), MAX_SHAPES);
    assert_eq!(s.triangles.get_count(), 0);
    assert_eq!(s.triangles.buffers().buffer.capacity(), MAX_TRIANGLES);
    assert!(!s.particles.has_changes() && !s.shapes.has_changes() && !s.triangles.has_changes());
}

#[test]
fn grid_scene_end_to_end() {
    let mut s = FlexState::new(1_000);
    let scene = grid(5, 50.0);
    for p in &scene {
        assert_eq!(s.particles.create(p.pos, p.velocity, p.phase, p.active), Ok(()));
    }
    assert!(s.particles.flush());
    let dt = s.tick(17_000_000);
    assert_eq!(dt, 16_999_000);
    let out = s.get();
    assert_eq!(out.len(), 125);
    assert!(out.iter().all(|p| p.phase == 0x7f50_0000));
    assert_eq!(f32::from_bits(out[124].pdata.0), 200.0);
    assert_eq!(f32::from_bits(out[1].pdata.2), 5050.0);
}

#[test]
fn default_scene_has_three_ground_boxes() {
    let mut s = FlexState::new(0);
    let scene = grid(5, 50.0);
    assert_eq!(s.init(&scene), Ok(Uploads { particles: true, shapes: true, triangles: false }));
    let list = s.shapes.get_list();
    assert_eq!(list.len(), 3);
    assert!(list.iter().all(|b| b.kind() == SHAPE_BOX));
    let ground = CollisionGeometry::Box {
        half_extents: Vector3(50000.0f32.to_bits(), 50000.0f32.to_bits(), 5.0f32.to_bits()),
    };
    assert!(list.iter().all(|b| b.as_union() == ground && *b.get_pos() == Vector4(0, 0, 0, 0)));
    assert_eq!(*list[0].get_rot(), Quat(0, 0, 0, 0));
    assert_eq!(*list[1].get_rot(), Quat(0, 1.0f32.to_bits(), 0, 0));
    assert_eq!(*list[2].get_rot(), Quat(1.0f32.to_bits(), 0, 0, 0));
    assert_eq!(s.shapes.buffers().flags.as_slice()[..3], [0x7f00_0002; 3]);
    assert_eq!(s.particles.get_count(), 125);
    // Everything was flushed by the scene load already.
    assert!(!s.particles.has_changes() && !s.shapes.has_changes() && !s.triangles.has_changes());
    assert!(!s.particles.flush());
    assert!(!s.shapes.flush());
    assert!(!s.triangles.flush());
    let out = s.get();
    assert_eq!(out.len(), 125);
    assert!(out.iter().all(|p| p.phase == fluid_phase()));
}

#[test]
fn init_refuses_scene_that_does_not_fit() {
    let mut s = FlexState::new(0);
    let too_many = grid(13, 1.0);
    assert!(too_many.len() > MAX_PARTICLES);
    assert_eq!(s.init(&too_many), Err(CreateError::Max));
    assert_eq!(s.shapes.get_count(), 0);
    assert_eq!(s.particles.get_count(), 0);
    assert!(!s.shapes.has_changes());
}

#[test]
fn tick_measures_elapsed_time() {
    let mut s = FlexState::new(100);
    assert_eq!(s.tick(250), 150);
    assert_eq!(s.last_tick, 250);
    assert_eq!(s.tick(250), 0);
    assert_eq!(s.tick(200), 0);
    assert_eq!(s.last_tick, 200);
    assert_eq!(s.tick(u64::MAX), u64::MAX - 200);
}

#[test]
fn init_reports_earlier_pending_changes() {
    let mut s = FlexState::new(0);
    s.triangles.create(1, Vector3(0, 0, 0), Vector3(0, 0, 0)).unwrap();
    assert_eq!(s.init(&vec![]), Ok(Uploads { particles: false, shapes: true, triangles: true }));
    assert_eq!(s.particles.get_count(), 0);
    assert_eq!(s.shapes.get_count(), 3);
    assert_eq!(s.triangles.get_count(), 1);
    assert!(!s.triangles.has_changes() && !s.shapes.has_changes());
}
