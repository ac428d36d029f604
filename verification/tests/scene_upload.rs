use rtcore::geometry::{IndexTriple, Vertex};
use rtcore::scene::{
    CommitScene, CreateDevice, CreateScene, CreateSphereGeometry, CreateTriangleGeometry,
    GeometryKind,
};

fn vert(x: f32, y: f32, z: f32) -> Vertex {
    Vertex { x: x.to_bits(), y: y.to_bits(), z: z.to_bits() }
}

fn triple(v0: u32, v1: u32, v2: u32) -> IndexTriple {
    IndexTriple { v0, v1, v2 }
}

#[test]
fn create_scene_is_empty_and_uncommitted() {
    let device = CreateDevice();
    let scene = CreateScene(&device);
    assert_eq!(scene.geometries.len(), 0);
    assert!(!scene.committed);
}

#[test]
fn triangle_geometry_attaches_one_geometry() {
    let device = CreateDevice();
    let mut scene = CreateScene(&device);
    let vertices = vec![vert(0.0, 0.0, 0.0), vert(1.0, 0.0, 0.0), vert(0.0, 1.0, 0.0)];
    let indices = vec![triple(0, 1, 2)];
    CreateTriangleGeometry(&device, &mut scene, &vertices, &indices);
    assert_eq!(scene.geometries.len(), 1);
    assert!(matches!(scene.geometries[0].kind, GeometryKind::Triangle));
    assert!(!scene.committed);
}

#[test]
fn triangle_buffers_round_trip() {
    let device = CreateDevice();
    let mut scene = CreateScene(&device);
    let raw = [(0.25f32, -1.5f32, 3.0f32), (1.0, 0.0, 0.0), (0.0, 1.0, -0.125)];
    let vertices: Vec<Vertex> = raw.iter().map(|v| vert(v.0, v.1, v.2)).collect();
    let raw_idx = [(0u32, 1u32, 2u32), (2, 1, 0)];
    let indices: Vec<IndexTriple> = raw_idx.iter().map(|t| triple(t.0, t.1, t.2)).collect();
    CreateTriangleGeometry(&device, &mut scene, &vertices, &indices);
    let geom = &scene.geometries[0];
    assert_eq!(geom.vertex_data.len(), 3 * raw.len());
    for (i, v) in raw.iter().enumerate() {
        assert_eq!(geom.vertex_data[3 * i], v.0.to_bits());
        assert_eq!(geom.vertex_data[3 * i + 1], v.1.to_bits());
        assert_eq!(geom.vertex_data[3 * i + 2], v.2.to_bits());
    }
    assert_eq!(geom.index_data.len(), 3 * raw_idx.len());
    for (i, t) in raw_idx.iter().enumerate() {
        assert_eq!(geom.index_data[3 * i], t.0);
        assert_eq!(geom.index_data[3 * i + 1], t.1);
        assert_eq!(geom.index_data[3 * i + 2], t.2);
    }
}

#[test]
fn second_geometry_preserves_first() {
    let device = CreateDevice();
    let mut scene = CreateScene(&device);
    let vertices = vec![vert(0.0, 0.0, 0.0), vert(1.0, 0.0, 0.0), vert(0.0, 1.0, 0.0)];
    let indices = vec![triple(0, 1, 2)];
    CreateTriangleGeometry(&device, &mut scene, &vertices, &indices);
    let first_vertex_data = scene.geometries[0].vertex_data.clone();
    let first_index_data = scene.geometries[0].index_data.clone();
    CreateSphereGeometry(&device, &mut scene, vert(2.0, 2.0, 2.0), 0.5f32.to_bits());
    assert_eq!(scene.geometries.len(), 2);
    assert!(matches!(scene.geometries[0].kind, GeometryKind::Triangle));
    assert_eq!(scene.geometries[0].vertex_data, first_vertex_data);
    assert_eq!(scene.geometries[0].index_data, first_index_data);
    assert!(matches!(scene.geometries[1].kind, GeometryKind::SpherePoint));
}

#[test]
fn sphere_unit_at_origin_buffer() {
    let device = CreateDevice();
    let mut scene = CreateScene(&device);
    CreateSphereGeometry(&device, &mut scene, vert(0.0, 0.0, 0.0), 1.0f32.to_bits());
    assert_eq!(scene.geometries.len(), 1);
    let geom = &scene.geometries[0];
    assert!(matches!(geom.kind, GeometryKind::SpherePoint));
    assert_eq!(
        geom.vertex_data,
        vec![0.0f32.to_bits(), 0.0f32.to_bits(), 0.0f32.to_bits(), 1.0f32.to_bits()]
    );
    assert_eq!(geom.index_data.len(), 0);
}

#[test]
fn out_of_range_index_is_copied_verbatim() {
    // An index triple referencing a vertex that does not exist is an upstream
    // contract violation: this layer must not validate it, only hand it
    // through untouched, so the upload succeeds and the buffer holds the
    // out-of-range values as given.
    let device = CreateDevice();
    let mut scene = CreateScene(&device);
    let vertices = vec![vert(0.0, 0.0, 0.0)];
    let indices = vec![triple(0, 5, 99)];
    CreateTriangleGeometry(&device, &mut scene, &vertices, &indices);
    assert_eq!(scene.geometries.len(), 1);
    assert_eq!(scene.geometries[0].index_data, vec![0, 5, 99]);
}

#[test]
fn empty_mesh_gives_empty_buffers() {
    let device = CreateDevice();
    let mut scene = CreateScene(&device);
    let vertices: Vec<Vertex> = Vec::new();
    let indices: Vec<IndexTriple> = Vec::new();
    CreateTriangleGeometry(&device, &mut scene, &vertices, &indices);
    assert_eq!(scene.geometries.len(), 1);
    assert_eq!(scene.geometries[0].vertex_data.len(), 0);
    assert_eq!(scene.geometries[0].index_data.len(), 0);
}

#[test]
fn commit_scene_sets_flag_and_keeps_geometries() {
    let device = CreateDevice();
    let mut scene = CreateScene(&device);
    CreateSphereGeometry(&device, &mut scene, vert(0.0, 0.0, 0.0), 1.0f32.to_bits());
    CommitScene(&mut scene);
    assert!(scene.committed);
    assert_eq!(scene.geometries.len(), 1);
    CommitScene(&mut scene);
    assert!(scene.committed);
    assert_eq!(scene.geometries.len(), 1);
}
