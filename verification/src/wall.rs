//! Solid wall meshes and their triangle-mesh colliders.
//!
//! A wall is drawn as a line list but collides as a thin slab: every segment
//! that lies in the play plane (height zero at both ends) is extruded one
//! unit below and one unit above the plane, giving four collider vertices
//! and two triangles. Segments outside the plane are still drawn but
//! contribute nothing to the collider.

use vstd::prelude::*;

use crate::color::Rgba;
use crate::pairs::{flatten_pairs, flatten_pairs_spec, lemma_pair_flatten_roundtrip, pair_spec};
use crate::transform::TransformBits;
use crate::vec3i::Vec3i;

verus! {

/// One collider triangle, as three indices into a vertex buffer.
#[derive(PartialEq, Eq, Structural, Clone, Copy, Debug)]
pub struct Triangle {
    pub a: u32,
    pub b: u32,
    pub c: u32,
}

/// A triangle-mesh collider: a vertex buffer and the triangles over it.
pub struct TriMesh {
    pub vertices: Vec<Vec3i>,
    pub indices: Vec<Triangle>,
}

/// A segment lies in the play plane when both endpoints have height zero.
pub open spec fn coplanar(seg: (Vec3i, Vec3i)) -> bool {
    seg.0.z == 0 && seg.1.z == 0
}

/// How many segments of the list lie in the play plane.
pub open spec fn coplanar_count(segs: Seq<(Vec3i, Vec3i)>) -> nat
    decreases segs.len(),
{
    if segs.len() == 0 {
        0
    } else {
        coplanar_count(segs.drop_last()) + if coplanar(segs.last()) {
            1nat
        } else {
            0nat
        }
    }
}

/// The collider vertices one segment contributes: each endpoint extruded one
/// unit below and one unit above the play plane, or nothing for a segment
/// outside it.
pub open spec fn seg_collider_vertices(seg: (Vec3i, Vec3i)) -> Seq<Vec3i> {
    if coplanar(seg) {
        seq![
            Vec3i { x: seg.0.x, y: seg.0.y, z: -1i64 },
            Vec3i { x: seg.0.x, y: seg.0.y, z: 1i64 },
            Vec3i { x: seg.1.x, y: seg.1.y, z: -1i64 },
            Vec3i { x: seg.1.x, y: seg.1.y, z: 1i64 },
        ]
    } else {
        Seq::empty()
    }
}

/// The two triangles one coplanar segment contributes, over its four
/// extruded vertices starting at index `base`.
pub open spec fn seg_collider_triangles(base: int, seg: (Vec3i, Vec3i)) -> Seq<Triangle> {
    if coplanar(seg) {
        seq![
            Triangle { a: base as u32, b: (base + 2) as u32, c: (base + 1) as u32 },
            Triangle { a: (base + 1) as u32, b: (base + 2) as u32, c: (base + 3) as u32 },
        ]
    } else {
        Seq::empty()
    }
}

/// The collider vertex buffer of a segment list.
pub open spec fn collider_vertices(segs: Seq<(Vec3i, Vec3i)>) -> Seq<Vec3i>
    decreases segs.len(),
{
    if segs.len() == 0 {
        Seq::empty()
    } else {
        collider_vertices(segs.drop_last()) + seg_collider_vertices(segs.last())
    }
}

/// The collider triangles of a segment list, each over the four vertices its
/// segment contributed.
pub open spec fn collider_triangles(segs: Seq<(Vec3i, Vec3i)>) -> Seq<Triangle>
    decreases segs.len(),
{
    if segs.len() == 0 {
        Seq::empty()
    } else {
        collider_triangles(segs.drop_last()) + seg_collider_triangles(
            collider_vertices(segs.drop_last()).len() as int,
            segs.last(),
        )
    }
}

/// All three corners of the triangle index into a buffer of `n` vertices.
pub open spec fn triangle_in_range(t: Triangle, n: int) -> bool {
    t.a < n && t.b < n && t.c < n
}

/// A collider has four vertices and two triangles for every coplanar
/// segment, and none for any other segment.
pub proof fn lemma_collider_shape(segs: Seq<(Vec3i, Vec3i)>)
    ensures
        collider_vertices(segs).len() == 4 * coplanar_count(segs),
        collider_triangles(segs).len() == 2 * coplanar_count(segs),
        coplanar_count(segs) <= segs.len(),
    decreases segs.len(),
{
    if segs.len() > 0 {
        lemma_collider_shape(segs.drop_last());
    }
}

/// Every triangle of a collider indexes into its own vertex buffer.
pub proof fn lemma_collider_indices_valid(segs: Seq<(Vec3i, Vec3i)>)
    requires
        4 * segs.len() <= u32::MAX,
    ensures
        forall|i: int|
            0 <= i < collider_triangles(segs).len() ==> triangle_in_range(
                #[trigger] collider_triangles(segs)[i],
                collider_vertices(segs).len() as int,
            ),
    decreases segs.len(),
{
    if segs.len() > 0 {
        let prefix = segs.drop_last();
        lemma_collider_indices_valid(prefix);
        lemma_collider_shape(prefix);
        lemma_collider_shape(segs);
    }
}

/// Builds the triangle-mesh collider of a segment list: the plane-extrusion
/// rule applied to every coplanar segment, in order.
pub fn build_collider(segs: &Vec<(Vec3i, Vec3i)>) -> (r: TriMesh)
    requires
        4 * segs@.len() <= u32::MAX,
    ensures
        r.vertices@ == collider_vertices(segs@),
        r.indices@ == collider_triangles(segs@),
{
    let mut vertices: Vec<Vec3i> = Vec::new();
    let mut indices: Vec<Triangle> = Vec::new();
    let mut i: usize = 0;
    while i < segs.len()
        invariant
            i <= segs@.len(),
            4 * segs@.len() <= u32::MAX,
            vertices@ == collider_vertices(segs@.take(i as int)),
            indices@ == collider_triangles(segs@.take(i as int)),
        decreases segs@.len() - i,
    {
        proof {
            lemma_collider_shape(segs@.take(i as int));
        }
        let seg = segs[i];
        if seg.0.z == 0 && seg.1.z == 0 {
            let idx: u32 = vertices.len() as u32;
            vertices.push(Vec3i::new(seg.0.x, seg.0.y, -1));
            vertices.push(Vec3i::new(seg.0.x, seg.0.y, 1));
            vertices.push(Vec3i::new(seg.1.x, seg.1.y, -1));
            vertices.push(Vec3i::new(seg.1.x, seg.1.y, 1));
            indices.push(Triangle { a: idx, b: idx + 2, c: idx + 1 });
            indices.push(Triangle { a: idx + 1, b: idx + 2, c: idx + 3 });
        }
        i = i + 1;
        proof {
            assert(segs@.take(i as int).drop_last() =~= segs@.take(i - 1));
            assert(vertices@ =~= collider_vertices(segs@.take(i as int)));
            assert(indices@ =~= collider_triangles(segs@.take(i as int)));
        }
    }
    proof {
        assert(segs@.take(segs@.len() as int) =~= segs@);
    }
    TriMesh { vertices, indices }
}

/// A solidified wall: the flat vertex buffer it is drawn from (two vertices
/// per segment), its color, the transform the engine placed it with, and
/// the collider of its coplanar segments.
pub struct WallMesh {
    pub vertices: Vec<Vec3i>,
    pub color: Rgba,
    pub transform: TransformBits,
    pub collider: TriMesh,
}

impl WallMesh {
    /// The wall's segments, as its flat vertex buffer groups back into pairs.
    pub open spec fn segments(self) -> Seq<(Vec3i, Vec3i)> {
        pair_spec(self.vertices@)
    }

    /// The collider is exactly what the plane-extrusion rule produces from
    /// the wall's own segments.
    pub open spec fn wf(self) -> bool {
        &&& self.vertices@.len() % 2 == 0
        &&& self.collider.vertices@ == collider_vertices(self.segments())
        &&& self.collider.indices@ == collider_triangles(self.segments())
    }
}

/// Solidifies a segment list into a wall placed by the given transform: the
/// segments flattened into the vertex buffer that draws them, and the
/// collider built from the coplanar ones.
pub fn wall_from_segments(segs: &Vec<(Vec3i, Vec3i)>, color: Rgba, transform: TransformBits) -> (w:
    WallMesh)
    requires
        4 * segs@.len() <= u32::MAX,
        2 * segs@.len() <= usize::MAX,
    ensures
        w.wf(),
        w.segments() == segs@,
        w.vertices@ == flatten_pairs_spec(segs@),
        w.color == color,
        w.transform == transform,
        w.collider.vertices@ == collider_vertices(segs@),
        w.collider.indices@ == collider_triangles(segs@),
{
    let vertices = flatten_pairs(segs);
    let collider = build_collider(segs);
    proof {
        lemma_pair_flatten_roundtrip(segs@);
    }
    WallMesh { vertices, color, transform, collider }
}

} // verus!
