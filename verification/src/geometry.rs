//! Vertex and index data, and the verified packing of that data into the flat
//! buffers the kernel allocates for a geometry.

use vstd::prelude::*;

verus! {

/// One vertex position: three single-precision components, each carried as its
/// IEEE-754 bit pattern. This layer only copies component values, so the bit
/// pattern is the whole story.
#[derive(Clone, Copy, PartialEq, Eq, Structural, Debug)]
pub struct Vertex {
    pub x: u32,
    pub y: u32,
    pub z: u32,
}

/// One triangle: three indices into a vertex sequence. Whether the indices are
/// in range is deliberately not checked anywhere in this layer; out-of-range
/// indices are a caller contract violation handed through to the kernel.
#[derive(Clone, Copy, PartialEq, Eq, Structural, Debug)]
pub struct IndexTriple {
    pub v0: u32,
    pub v1: u32,
    pub v2: u32,
}

/// The flat layout of a vertex buffer: the components of vertex `i` occupy
/// slots `3*i`, `3*i + 1` and `3*i + 2`, in input order.
pub open spec fn packed_vertices(vs: Seq<Vertex>) -> Seq<u32>
    decreases vs.len(),
{
    if vs.len() == 0 {
        Seq::empty()
    } else {
        packed_vertices(vs.drop_last()) + seq![vs.last().x, vs.last().y, vs.last().z]
    }
}

/// The flat layout of an index buffer: the members of triple `i` occupy slots
/// `3*i`, `3*i + 1` and `3*i + 2`, in input order.
pub open spec fn packed_indices(ts: Seq<IndexTriple>) -> Seq<u32>
    decreases ts.len(),
{
    if ts.len() == 0 {
        Seq::empty()
    } else {
        packed_indices(ts.drop_last()) + seq![ts.last().v0, ts.last().v1, ts.last().v2]
    }
}

/// Round-trip fidelity of the vertex copy: every component slot of the packed
/// buffer holds exactly the corresponding component of the input vertex.
pub proof fn lemma_packed_vertices_components(vs: Seq<Vertex>)
    ensures
        packed_vertices(vs).len() == 3 * vs.len(),
        forall|i: int|
            0 <= i < vs.len() ==> {
                &&& packed_vertices(vs)[3 * i] == (#[trigger] vs[i]).x
                &&& packed_vertices(vs)[3 * i + 1] == vs[i].y
                &&& packed_vertices(vs)[3 * i + 2] == vs[i].z
            },
    decreases vs.len(),
{
    if vs.len() > 0 {
        let prefix = vs.drop_last();
        lemma_packed_vertices_components(prefix);
        assert forall|i: int| 0 <= i < vs.len() implies {
            &&& packed_vertices(vs)[3 * i] == (#[trigger] vs[i]).x
            &&& packed_vertices(vs)[3 * i + 1] == vs[i].y
            &&& packed_vertices(vs)[3 * i + 2] == vs[i].z
        } by {
            if i < vs.len() - 1 {
                assert(prefix[i] == vs[i]);
            }
        }
    }
}

/// Round-trip fidelity of the index copy: every slot of the packed buffer
/// holds exactly the corresponding member of the input triple.
pub proof fn lemma_packed_indices_components(ts: Seq<IndexTriple>)
    ensures
        packed_indices(ts).len() == 3 * ts.len(),
        forall|i: int|
            0 <= i < ts.len() ==> {
                &&& packed_indices(ts)[3 * i] == (#[trigger] ts[i]).v0
                &&& packed_indices(ts)[3 * i + 1] == ts[i].v1
                &&& packed_indices(ts)[3 * i + 2] == ts[i].v2
            },
    decreases ts.len(),
{
    if ts.len() > 0 {
        let prefix = ts.drop_last();
        lemma_packed_indices_components(prefix);
        assert forall|i: int| 0 <= i < ts.len() implies {
            &&& packed_indices(ts)[3 * i] == (#[trigger] ts[i]).v0
            &&& packed_indices(ts)[3 * i + 1] == ts[i].v1
            &&& packed_indices(ts)[3 * i + 2] == ts[i].v2
        } by {
            if i < ts.len() - 1 {
                assert(prefix[i] == ts[i]);
            }
        }
    }
}

/// Flattens a vertex sequence into the buffer image the kernel expects for a
/// three-component float vertex buffer.
pub fn pack_vertex_buffer(vertices: &Vec<Vertex>) -> (buf: Vec<u32>)
    ensures
        buf@ == packed_vertices(vertices@),
{
    let mut buf: Vec<u32> = Vec::new();
    let mut i: usize = 0;
    while i < vertices.len()
        invariant
            i <= vertices@.len(),
            buf@ == packed_vertices(vertices@.take(i as int)),
        decreases vertices@.len() - i,
    {
        let v = vertices[i];
        buf.push(v.x);
        buf.push(v.y);
        buf.push(v.z);
        proof {
            let t = vertices@.take(i as int + 1);
            assert(t.drop_last() =~= vertices@.take(i as int));
            assert(buf@ =~= packed_vertices(t));
        }
        i = i + 1;
    }
    proof {
        assert(vertices@.take(vertices@.len() as int) =~= vertices@);
    }
    buf
}

/// Builds the single four-component buffer entry the kernel expects for one
/// sphere: the center components at slots 0 to 2 and the radius at slot 3.
pub fn pack_sphere_buffer(center: Vertex, radius: u32) -> (buf: Vec<u32>)
    ensures
        buf@ == seq![center.x, center.y, center.z, radius],
{
    let mut buf: Vec<u32> = Vec::new();
    buf.push(center.x);
    buf.push(center.y);
    buf.push(center.z);
    buf.push(radius);
    proof {
        assert(buf@ =~= seq![center.x, center.y, center.z, radius]);
    }
    buf
}

/// Flattens an index-triple sequence into the buffer image the kernel expects
/// for a three-component integer index buffer.
pub fn pack_index_buffer(indices: &Vec<IndexTriple>) -> (buf: Vec<u32>)
    ensures
        buf@ == packed_indices(indices@),
{
    let mut buf: Vec<u32> = Vec::new();
    let mut i: usize = 0;
    while i < indices.len()
        invariant
            i <= indices@.len(),
            buf@ == packed_indices(indices@.take(i as int)),
        decreases indices@.len() - i,
    {
        let t = indices[i];
        buf.push(t.v0);
        buf.push(t.v1);
        buf.push(t.v2);
        proof {
            let p = indices@.take(i as int + 1);
            assert(p.drop_last() =~= indices@.take(i as int));
            assert(buf@ =~= packed_indices(p));
        }
        i = i + 1;
    }
    proof {
        assert(indices@.take(indices@.len() as int) =~= indices@);
    }
    buf
}

} // verus!
