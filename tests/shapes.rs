use gfluid::geometry::{Capsule, CollisionGeometry, Cube, Shape, Sphere};
use gfluid::helper::{make_shape_flags, SHAPE_BOX, SHAPE_CAPSULE, SHAPE_SPHERE};
use gfluid::state::{CreateError, ShapeState, TriangleState};
use gfluid::types::{Quat, Vector3, Vector4};

fn v4(x: f32, y: f32, z: f32) -> Vector4 {
    Vector4(x.to_bits(), y.to_bits(), z.to_bits(), 0)
}

fn q(w: f32, x: f32, y: f32, z: f32) -> Quat {
    Quat(w.to_bits(), x.to_bits(), y.to_bits(), z.to_bits())
}

fn cube() -> Shape {
    Cube::new(v4(1.0, 2.0, 3.0), q(1.0, 0.0, 0.0, 0.0), Vector3(10.0f32.to_bits(), 20.0f32.to_bits(), 30.0f32.to_bits()))
        .into()
}

fn capsule() -> Shape {
    Capsule::new(v4(-1.0, 0.0, 0.0), q(0.0, 1.0, 0.0, 0.0), 32.0f32.to_bits(), 72.0f32.to_bits()).into()
}

fn sphere() -> Shape {
    Sphere::new(v4(0.0, 0.0, 5.0), q(0.0, 0.0, 1.0, 0.0), 20.0f32.to_bits()).into()
}

#[test]
fn shape_flag_bits() {
    assert_eq!(make_shape_flags(SHAPE_BOX, false), 0x7f00_0002);
    assert_eq!(make_shape_flags(SHAPE_SPHERE, true), 0x7f00_0008);
    assert_eq!(make_shape_flags(SHAPE_CAPSULE, false), 0x7f00_0001);
}

#[test]
fn shape_accessors() {
    let c = cube();
    assert_eq!(c.kind(), SHAPE_BOX);
    assert_eq!(*c.get_pos(), v4(1.0, 2.0, 3.0));
    assert_eq!(*c.get_rot(), q(1.0, 0.0, 0.0, 0.0));
    assert_eq!(
        c.as_union(),
        CollisionGeometry::Box { half_extents: Vector3(10.0f32.to_bits(), 20.0f32.to_bits(), 30.0f32.to_bits()) }
    );
    let k = capsule();
    assert_eq!(k.kind(), SHAPE_CAPSULE);
    assert_eq!(k.as_union(), CollisionGeometry::Capsule { radius: 32.0f32.to_bits(), half_height: 72.0f32.to_bits() });
    assert_eq!(*k.get_rot(), q(0.0, 1.0, 0.0, 0.0));
    let s = sphere();
    assert_eq!(s.kind(), SHAPE_SPHERE);
    assert_eq!(s.as_union(), CollisionGeometry::Sphere { radius: 20.0f32.to_bits() });
    assert_eq!(*s.get_pos(), v4(0.0, 0.0, 5.0));
    assert_eq!(Shape::from_geometry(s.as_union(), *s.get_pos(), *s.get_rot()), s);
    assert_eq!(Shape::from(Sphere::new(v4(0.0, 0.0, 5.0), q(0.0, 0.0, 1.0, 0.0), 20.0f32.to_bits())), s);
}

#[test]
fn register_keeps_insertion_order() {
    let mut st = ShapeState::new(10);
    let (a, b, c) = (cube(), capsule(), sphere());
    assert_eq!(st.register(a), Ok(()));
    assert_eq!(st.register(b), Ok(()));
    assert_eq!(st.register(c), Ok(()));
    assert_eq!(st.get_list(), &vec![a, b, c]);
    let kinds: Vec<i32> = st.get_list().iter().map(|s| s.kind()).collect();
    assert_eq!(kinds, vec![SHAPE_BOX, SHAPE_CAPSULE, SHAPE_SPHERE]);
    assert_eq!(st.get_count(), 3);
    let bufs = st.buffers();
    assert_eq!(&bufs.buffer.as_slice()[..3], &[a.as_union(), b.as_union(), c.as_union()]);
    assert_eq!(&bufs.positions.as_slice()[..3], &[*a.get_pos(), *b.get_pos(), *c.get_pos()]);
    assert_eq!(&bufs.previous_positions.as_slice()[..3], &[*a.get_pos(), *b.get_pos(), *c.get_pos()]);
    assert_eq!(&bufs.rotations.as_slice()[..3], &[*a.get_rot(), *b.get_rot(), *c.get_rot()]);
    assert_eq!(&bufs.previous_rotations.as_slice()[..3], &[*a.get_rot(), *b.get_rot(), *c.get_rot()]);
    assert_eq!(&bufs.flags.as_slice()[..4], &[0x7f00_0002, 0x7f00_0001, 0x7f00_0000, 0]);
}

#[test]
fn register_beyond_capacity_fails() {
    let mut st = ShapeState::new(2);
    assert_eq!(st.register(cube()), Ok(()));
    assert_eq!(st.register(sphere()), Ok(()));
    assert!(st.flush());
    assert_eq!(st.register(capsule()), Err(CreateError::Max));
    assert_eq!(st.get_list().len(), 2);
    assert!(!st.has_changes());
    assert_eq!(st.get_capacity(), 2);
}

#[test]
fn create_from_raw_geometry() {
    let mut st = ShapeState::new(1);
    let g = CollisionGeometry::Capsule { radius: 1, half_height: 2 };
    assert_eq!(st.create(g, v4(0.0, 1.0, 0.0), q(1.0, 0.0, 0.0, 0.0), 77), Ok(()));
    assert_eq!(st.get_list()[0], Capsule::new(v4(0.0, 1.0, 0.0), q(1.0, 0.0, 0.0, 0.0), 1, 2).into());
    assert_eq!(st.buffers().flags.as_slice(), &[77]);
    assert_eq!(st.create(g, v4(0.0, 1.0, 0.0), q(1.0, 0.0, 0.0, 0.0), 77), Err(CreateError::Max));
}

#[test]
fn shape_flush_twice_uploads_once() {
    let mut st = ShapeState::new(3);
    assert!(!st.flush());
    st.register(sphere()).unwrap();
    assert!(st.flush());
    assert!(!st.flush());
    st.unmap();
    assert_eq!(st.get_count(), 1);
}

#[test]
fn triangles_create_and_flush() {
    let mut t = TriangleState::new(2);
    assert_eq!(t.get_count(), 0);
    assert!(!t.flush());
    let n = Vector3(0, 0, 1.0f32.to_bits());
    assert_eq!(t.create(4, n, Vector3(0, 0, 0)), Ok(()));
    assert_eq!(t.create(5, n, Vector3(1, 1, 1)), Ok(()));
    assert_eq!(t.create(6, n, Vector3(2, 2, 2)), Err(CreateError::Max));
    assert_eq!(t.get_count(), 2);
    assert_eq!(t.buffers().buffer.as_slice(), &[4, 5]);
    assert_eq!(t.buffers().uvs.as_slice(), &[Vector3(0, 0, 0), Vector3(1, 1, 1)]);
    assert!(t.has_changes());
    assert!(t.flush());
    assert!(!t.flush());
    t.unmap();
    assert_eq!(t.get_count(), 2);
}
