//! The wrapper-side model of the kernel's device and scene objects, and the
//! geometry-upload functions layered over it.
//!
//! The kernel's own handles are opaque; what this layer can speak about is
//! everything it decides on their behalf: which geometries have been attached
//! to a scene, in what order, with exactly which buffer contents, and whether
//! the scene has been committed. A `Scene` value records precisely that.

use vstd::prelude::*;
use crate::geometry::{Vertex, IndexTriple, packed_vertices, packed_indices};
use crate::geometry::{pack_vertex_buffer, pack_index_buffer, pack_sphere_buffer};
use crate::geometry::{lemma_packed_vertices_components, lemma_packed_indices_components};

verus! {

/// The declared type of an uploaded geometry.
#[derive(Clone, Copy, PartialEq, Eq, Structural, Debug)]
pub enum GeometryKind {
    /// A triangle mesh: a vertex buffer plus an index buffer of triples.
    Triangle,
    /// A sphere batch: one four-component entry per sphere, center plus
    /// radius packed together; no index buffer.
    SpherePoint,
}

/// One geometry as this layer hands it to the kernel: its declared type and
/// the images of the buffers written on its behalf. Ownership of the data
/// passes to the scene when the geometry is attached, so the record lives in
/// the scene it was attached to.
#[derive(Debug)]
pub struct Geometry {
    pub kind: GeometryKind,
    pub vertex_data: Vec<u32>,
    pub index_data: Vec<u32>,
}

/// An execution context of the kernel. The kernel's handle is opaque and
/// carries nothing this layer reads, so the model holds no fields; the value
/// only scopes scene creation, as the handle does.
#[derive(Clone, Copy, Debug)]
pub struct Device {}

/// The wrapper-side record of a scene: the geometries attached so far, in
/// attach order, and whether the scene has been committed.
#[derive(Debug)]
pub struct Scene {
    pub geometries: Vec<Geometry>,
    pub committed: bool,
}

/// What holds of every geometry this layer attaches: a triangle geometry's
/// buffers hold whole three-slot entries, and a sphere geometry is exactly
/// one four-slot entry with no index buffer.
pub open spec fn geometry_well_formed(g: Geometry) -> bool {
    match g.kind {
        GeometryKind::Triangle => g.vertex_data@.len() % 3 == 0 && g.index_data@.len() % 3 == 0,
        GeometryKind::SpherePoint => g.vertex_data@.len() == 4 && g.index_data@.len() == 0,
    }
}

/// A scene only ever holds geometries this layer attached, so each one is
/// well formed.
pub open spec fn scene_well_formed(s: Scene) -> bool {
    forall|k: int|
        0 <= k < s.geometries@.len() ==> geometry_well_formed(#[trigger] s.geometries@[k])
}

/// Requests a new execution context with default configuration.
pub fn CreateDevice() -> Device {
    Device {}
}

/// Requests a new empty scene bound to the given device: no geometries
/// attached, not yet committed.
pub fn CreateScene(device: &Device) -> (s: Scene)
    ensures
        s.geometries@.len() == 0,
        !s.committed,
        scene_well_formed(s),
{
    Scene { geometries: Vec::new(), committed: false }
}

/// Uploads a triangle mesh into the scene: packs the vertices and the index
/// triples into the kernel's flat buffer layout, and attaches the result as
/// one new geometry. Exactly one geometry is appended, earlier geometries and
/// the commit flag are untouched, and every buffer slot holds the
/// corresponding input component verbatim — index triples included, whether
/// or not they are in range: range checking is deliberately left to the
/// kernel.
pub fn CreateTriangleGeometry(
    device: &Device,
    scene: &mut Scene,
    vertices: &Vec<Vertex>,
    indices: &Vec<IndexTriple>,
)
    ensures
        final(scene).geometries@.len() == old(scene).geometries@.len() + 1,
        final(scene).geometries@.drop_last() == old(scene).geometries@,
        final(scene).geometries@.last().kind == GeometryKind::Triangle,
        final(scene).geometries@.last().vertex_data@ == packed_vertices(vertices@),
        final(scene).geometries@.last().index_data@ == packed_indices(indices@),
        final(scene).committed == old(scene).committed,
        scene_well_formed(*old(scene)) ==> scene_well_formed(*final(scene)),
{
    let vertex_data = pack_vertex_buffer(vertices);
    let index_data = pack_index_buffer(indices);
    let geom = Geometry { kind: GeometryKind::Triangle, vertex_data, index_data };
    scene.geometries.push(geom);
    proof {
        assert(scene.geometries@.drop_last() =~= old(scene).geometries@);
        lemma_packed_vertices_components(vertices@);
        lemma_packed_indices_components(indices@);
        if scene_well_formed(*old(scene)) {
            assert forall|k: int|
                0 <= k < scene.geometries@.len() implies geometry_well_formed(
                #[trigger] scene.geometries@[k],
            ) by {
                if k < scene.geometries@.len() - 1 {
                    assert(scene.geometries@[k] == old(scene).geometries@[k]);
                }
            }
        }
    }
}

/// Uploads one sphere into the scene: a single four-component buffer entry
/// holding the center components at slots 0 to 2 and the radius at slot 3,
/// attached as one new geometry. Exactly one geometry is appended, earlier
/// geometries and the commit flag are untouched.
pub fn CreateSphereGeometry(device: &Device, scene: &mut Scene, center: Vertex, radius: u32)
    ensures
        final(scene).geometries@.len() == old(scene).geometries@.len() + 1,
        final(scene).geometries@.drop_last() == old(scene).geometries@,
        final(scene).geometries@.last().kind == GeometryKind::SpherePoint,
        final(scene).geometries@.last().vertex_data@ == seq![
            center.x,
            center.y,
            center.z,
            radius,
        ],
        final(scene).geometries@.last().index_data@ == Seq::<u32>::empty(),
        final(scene).committed == old(scene).committed,
        scene_well_formed(*old(scene)) ==> scene_well_formed(*final(scene)),
{
    let vertex_data = pack_sphere_buffer(center, radius);
    let geom = Geometry {
        kind: GeometryKind::SpherePoint,
        vertex_data,
        index_data: Vec::new(),
    };
    proof {
        assert(geom.index_data@ =~= Seq::<u32>::empty());
    }
    scene.geometries.push(geom);
    proof {
        assert(scene.geometries@.drop_last() =~= old(scene).geometries@);
        if scene_well_formed(*old(scene)) {
            assert forall|k: int|
                0 <= k < scene.geometries@.len() implies geometry_well_formed(
                #[trigger] scene.geometries@[k],
            ) by {
                if k < scene.geometries@.len() - 1 {
                    assert(scene.geometries@[k] == old(scene).geometries@[k]);
                }
            }
        }
    }
}

/// Finalizes the scene after all geometries are attached: the commit flag is
/// set and the attached geometries are untouched. Nothing here stops a caller
/// from attaching after the commit or querying before it — calling out of
/// order is a caller contract violation the kernel owns.
pub fn CommitScene(scene: &mut Scene)
    ensures
        final(scene).committed,
        final(scene).geometries@ == old(scene).geometries@,
        scene_well_formed(*old(scene)) ==> scene_well_formed(*final(scene)),
{
    scene.committed = true;
}

} // verus!
