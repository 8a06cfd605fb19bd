use gfluid::buffer::HostBuffer;
use gfluid::helper::{fluid_phase, make_phase, PHASE_FLUID, PHASE_SELF_COLLIDE};
use gfluid::state::{CreateError, ParticleBuffers, ParticleFactory, ParticleInit, ParticleState};
use gfluid::types::{Particle, Vector3, Vector4};

fn v4(x: f32, y: f32, z: f32, w: f32) -> Vector4 {
    Vector4(x.to_bits(), y.to_bits(), z.to_bits(), w.to_bits())
}

fn v3(x: f32, y: f32, z: f32) -> Vector3 {
    Vector3(x.to_bits(), y.to_bits(), z.to_bits())
}

fn init(i: u32) -> ParticleInit {
    ParticleInit { pos: v4(i as f32, 1.0, 2.0, 0.5), velocity: v3(0.0, 0.0, -(i as f32)), phase: i as i32, active: true }
}

#[test]
fn host_buffer_map_write_read() {
    let mut b: HostBuffer<i32> = HostBuffer::new(3, 7);
    assert_eq!(b.capacity(), 3);
    assert!(!b.is_mapped());
    assert_eq!(b.as_slice(), &[7, 7, 7]);
    b.map();
    assert!(b.is_mapped());
    b.write(1, 42);
    assert_eq!(b.read(1), 42);
    assert_eq!(b.read(0), 7);
    b.unmap();
    assert!(!b.is_mapped());
    assert_eq!(b.as_slice(), &[7, 42, 7]);
}

#[test]
fn phase_bits() {
    assert_eq!(fluid_phase(), 0x7f50_0000);
    assert_eq!(make_phase(0, PHASE_SELF_COLLIDE | PHASE_FLUID), 0x7f50_0000);
    assert_eq!(make_phase(5, 0), 0x7f00_0005);
    assert_eq!(make_phase(-1, -1), 0x7fff_ffff);
}

#[test]
fn create_counts_up_to_capacity_then_refuses() {
    let mut s = ParticleState::new(3);
    assert_eq!(s.get_count(), 0);
    for i in 0..3u32 {
        let p = init(i);
        assert_eq!(s.create(p.pos, p.velocity, p.phase, p.active), Ok(()));
        assert_eq!(s.get_count(), i as usize + 1);
        assert_eq!(s.get_active_count(), i as usize + 1);
    }
    assert!(s.flush());
    let before: Vec<Vector4> = s.buffers().buffer.as_slice().to_vec();
    let p = init(9);
    assert_eq!(s.create(p.pos, p.velocity, p.phase, p.active), Err(CreateError::Max));
    assert_eq!(s.get_count(), 3);
    assert!(!s.has_changes());
    assert_eq!(s.buffers().buffer.as_slice(), before.as_slice());
    assert_eq!(s.buffers().active_indices.as_slice(), &[0, 1, 2]);
}

#[test]
fn zero_capacity_store_refuses_everything() {
    let mut s = ParticleState::new(0);
    let p = init(1);
    assert_eq!(s.create(p.pos, p.velocity, p.phase, p.active), Err(CreateError::Max));
    assert_eq!(s.factory(&vec![]), Ok(()));
    assert!(!s.has_changes());
    assert_eq!(s.factory(&vec![p]), Err(CreateError::Max));
    assert!(s.get().is_empty());
}

#[test]
fn create_flush_read_round_trip() {
    let mut s = ParticleState::new(8);
    let pos = v4(1.5, -2.25, 3.0, 2.0);
    let vel = v3(0.0, 0.0, -5.0);
    let phase = fluid_phase();
    assert_eq!(s.create(pos, vel, phase, true), Ok(()));
    assert!(s.flush());
    let out = s.get();
    assert_eq!(out.len(), 1);
    assert_eq!(out[0], Particle { pdata: pos, velocity: vel, phase });
    assert_eq!(f32::from_bits(out[0].pdata.1), -2.25);
    assert_eq!(f32::from_bits(out[0].velocity.2), -5.0);
}

#[test]
fn flush_twice_uploads_once() {
    let mut s = ParticleState::new(4);
    assert!(!s.flush());
    let p = init(1);
    s.create(p.pos, p.velocity, p.phase, p.active).unwrap();
    assert!(s.has_changes());
    assert!(s.flush());
    assert!(!s.has_changes());
    assert!(!s.flush());
    assert_eq!(s.get_count(), 1);
}

#[test]
fn factory_appends_batch_after_existing_particles() {
    let mut s = ParticleState::new(5);
    let first = init(100);
    s.create(first.pos, first.velocity, first.phase, first.active).unwrap();
    s.flush();
    let batch = vec![init(1), init(2), init(3)];
    assert_eq!(s.factory(&batch), Ok(()));
    assert_eq!(s.get_count(), 4);
    assert!(s.has_changes());
    assert_eq!(s.buffers().active_indices.as_slice(), &[0, 1, 2, 3, 0]);
    let out = s.get();
    assert_eq!(out.len(), 4);
    assert_eq!(out[0].pdata, first.pos);
    for i in 0..3 {
        assert_eq!(out[i + 1].pdata, batch[i].pos);
        assert_eq!(out[i + 1].velocity, batch[i].velocity);
        assert_eq!(out[i + 1].phase, batch[i].phase);
    }
}

#[test]
fn factory_refuses_batch_that_does_not_fit() {
    let mut s = ParticleState::new(3);
    s.factory(&vec![init(1), init(2)]).unwrap();
    s.flush();
    assert_eq!(s.factory(&vec![init(3), init(4)]), Err(CreateError::Max));
    assert_eq!(s.get_count(), 2);
    assert!(!s.has_changes());
    assert_eq!(s.factory(&vec![init(3)]), Ok(()));
    assert_eq!(s.get_count(), 3);
}

#[test]
fn empty_batch_leaves_store_clean() {
    let mut s = ParticleState::new(3);
    assert_eq!(s.factory(&vec![]), Ok(()));
    assert_eq!(s.get_count(), 0);
    assert!(!s.has_changes());
}

#[test]
fn factory_writes_from_its_offset() {
    let mut b = ParticleBuffers::new(4);
    b.buffer.map();
    b.velocities.map();
    b.phases.map();
    b.active_indices.map();
    let mut f = ParticleFactory::new(Some(2), b);
    assert_eq!(f.nparticles, 2);
    let p = init(7);
    f.create(p.pos, p.velocity, p.phase, true);
    assert_eq!(f.nparticles, 3);
    let mut b = f.finish();
    assert!(b.buffer.is_mapped());
    b.unmap();
    assert!(!b.buffer.is_mapped() && !b.active_indices.is_mapped());
    assert_eq!(b.buffer.as_slice()[2], p.pos);
    assert_eq!(b.buffer.as_slice()[0], Vector4(0, 0, 0, 0));
    assert_eq!(b.phases.as_slice(), &[0, 0, 7, 0]);
    assert_eq!(b.active_indices.as_slice(), &[0, 0, 2, 0]);

    let mut b2 = ParticleBuffers::new(2);
    b2.buffer.map();
    b2.velocities.map();
    b2.phases.map();
    b2.active_indices.map();
    let f2 = ParticleFactory::new(None, b2);
    assert_eq!(f2.nparticles, 0);
}

#[test]
fn refresh_takes_solver_state_when_clean() {
    let mut s = ParticleState::new(4);
    s.factory(&vec![init(1), init(2)]).unwrap();
    let moved = vec![v4(9.0, 9.0, 9.0, 2.0), v4(8.0, 8.0, 8.0, 2.0)];
    let vels = vec![v3(1.0, 0.0, 0.0), v3(0.0, 1.0, 0.0)];
    let phases = vec![11, 12];
    // Not yet flushed: the solver does not hold these particles.
    assert!(!s.refresh(&moved, &vels, &phases));
    assert_eq!(s.get()[0].pdata, init(1).pos);
    s.flush();
    // One entry too few.
    assert!(!s.refresh(&moved[..1].to_vec(), &vels, &phases));
    assert!(s.refresh(&moved, &vels, &phases));
    assert!(!s.has_changes());
    let out = s.get();
    assert_eq!(out.len(), 2);
    assert_eq!(out[0], Particle { pdata: moved[0], velocity: vels[0], phase: 11 });
    assert_eq!(out[1], Particle { pdata: moved[1], velocity: vels[1], phase: 12 });
    assert_eq!(s.buffers().active_indices.as_slice(), &[0, 1, 0, 0]);
}

#[test]
fn unmap_leaves_contents() {
    let mut s = ParticleState::new(2);
    s.create(init(1).pos, init(1).velocity, 1, true).unwrap();
    s.unmap();
    assert_eq!(s.get_count(), 1);
    assert!(s.has_changes());
    assert!(!s.buffers().buffer.is_mapped());
    assert_eq!(s.get()[0].pdata, init(1).pos);
}

#[test]
fn only_first_capacity_creations_succeed() {
    let mut s = ParticleState::new(4);
    let mut outcomes = Vec::new();
    for i in 0..7u32 {
        let p = init(i);
        outcomes.push(s.create(p.pos, p.velocity, p.phase, p.active).is_ok());
        assert_eq!(s.get_count(), std::cmp::min(i as usize + 1, 4));
    }
    assert_eq!(outcomes, vec![true, true, true, true, false, false, false]);
    let out = s.get();
    assert_eq!(out.len(), 4);
    assert_eq!(out[3].phase, 3);
}
