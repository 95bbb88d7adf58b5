//! The editor's point/line graph.
//!
//! The level editor lets the user place points on the grid, join them with
//! lines, delete points and lines again, and finally solidify the graph into
//! one wall mesh. Points and lines are referred to by identifier; a line is
//! valid only while both of its endpoints exist, and the retain pass below
//! despawns any line whose endpoint has been removed.

use vstd::prelude::*;

use crate::color::Rgba;
use crate::transform::TransformBits;
use crate::vec3i::Vec3i;
use crate::wall::{wall_from_segments, WallMesh};

verus! {

/// An editable point of the mesh graph, placed on the grid.
#[derive(PartialEq, Eq, Structural, Clone, Copy, Debug)]
pub struct MeshPoint {
    pub id: u64,
    pub position: Vec3i,
}

/// An editable line of the mesh graph, joining two points by identifier.
#[derive(PartialEq, Eq, Structural, Clone, Copy, Debug)]
pub struct MeshLine {
    pub id: u64,
    pub start: u64,
    pub end: u64,
}

/// Some point of the list carries this identifier.
pub open spec fn seq_has_point(points: Seq<MeshPoint>, id: u64) -> bool {
    exists|j: int| 0 <= j < points.len() && (#[trigger] points[j]).id == id
}

/// A line touches the selection when either endpoint is selected.
pub open spec fn line_touches(l: MeshLine, selected: Seq<u64>) -> bool {
    selected.contains(l.start) || selected.contains(l.end)
}

/// The lines kept by deleting every line that touches the selection, in
/// order.
pub open spec fn lines_not_touching(lines: Seq<MeshLine>, selected: Seq<u64>) -> Seq<MeshLine>
    decreases lines.len(),
{
    if lines.len() == 0 {
        Seq::empty()
    } else {
        let prefix = lines_not_touching(lines.drop_last(), selected);
        if line_touches(lines.last(), selected) {
            prefix
        } else {
            prefix.push(lines.last())
        }
    }
}

/// The lines kept by despawning every line with a missing endpoint, in
/// order.
pub open spec fn lines_with_endpoints(lines: Seq<MeshLine>, points: Seq<MeshPoint>) -> Seq<
    MeshLine,
>
    decreases lines.len(),
{
    if lines.len() == 0 {
        Seq::empty()
    } else {
        let prefix = lines_with_endpoints(lines.drop_last(), points);
        let l = lines.last();
        if seq_has_point(points, l.start) && seq_has_point(points, l.end) {
            prefix.push(l)
        } else {
            prefix
        }
    }
}

/// The points kept by removing the one with the given identifier, in order.
pub open spec fn points_without(points: Seq<MeshPoint>, id: u64) -> Seq<MeshPoint>
    decreases points.len(),
{
    if points.len() == 0 {
        Seq::empty()
    } else {
        let prefix = points_without(points.drop_last(), id);
        if points.last().id == id {
            prefix
        } else {
            prefix.push(points.last())
        }
    }
}

/// The editor's graph: its points, its lines, and the next identifier to
/// hand out.
pub struct MeshGraph {
    pub points: Vec<MeshPoint>,
    pub lines: Vec<MeshLine>,
    pub next_id: u64,
}

impl MeshGraph {
    /// Some point of the graph carries this identifier.
    pub open spec fn has_point(self, id: u64) -> bool {
        seq_has_point(self.points@, id)
    }

    /// The index of the point with this identifier; meaningful only under
    /// `ids_wf`, which makes it unique.
    pub open spec fn point_index(self, id: u64) -> int {
        choose|j: int| 0 <= j < self.points@.len() && (#[trigger] self.points@[j]).id == id
    }

    /// Where the point with this identifier sits.
    pub open spec fn position_of(self, id: u64) -> Vec3i {
        self.points@[self.point_index(id)].position
    }

    /// Identifiers are unique across points and lines, all below the
    /// counter, and every point sits inside the world box.
    pub open spec fn ids_wf(self) -> bool {
        &&& forall|j: int|
            0 <= j < self.points@.len() ==> (#[trigger] self.points@[j]).id < self.next_id
                && self.points@[j].position.in_bounds()
        &&& forall|j: int, k: int|
            0 <= j < k < self.points@.len() ==> (#[trigger] self.points@[j]).id != (
            #[trigger] self.points@[k]).id
        &&& forall|j: int|
            0 <= j < self.lines@.len() ==> (#[trigger] self.lines@[j]).id < self.next_id
        &&& forall|j: int, k: int|
            0 <= j < k < self.lines@.len() ==> (#[trigger] self.lines@[j]).id != (
            #[trigger] self.lines@[k]).id
        &&& forall|j: int, k: int|
            0 <= j < self.points@.len() && 0 <= k < self.lines@.len() ==> (
            #[trigger] self.points@[j]).id != (#[trigger] self.lines@[k]).id
    }

    /// Every line's endpoints exist.
    pub open spec fn lines_valid(self) -> bool {
        forall|j: int|
            0 <= j < self.lines@.len() ==> self.has_point((#[trigger] self.lines@[j]).start)
                && self.has_point(self.lines@[j].end)
    }

    pub open spec fn wf(self) -> bool {
        self.ids_wf() && self.lines_valid()
    }

    /// With unique identifiers, the index of a point's identifier is that
    /// point's own index.
    pub proof fn lemma_point_index(self, j: int)
        requires
            self.ids_wf(),
            0 <= j < self.points@.len(),
        ensures
            self.point_index(self.points@[j].id) == j,
            self.has_point(self.points@[j].id),
    {
        let id = self.points@[j].id;
        assert(seq_has_point(self.points@, id));
        let k = self.point_index(id);
        if k != j {
            if k < j {
                assert(self.points@[k].id != self.points@[j].id);
            } else {
                assert(self.points@[j].id != self.points@[k].id);
            }
        }
    }

    pub fn new() -> (g: MeshGraph)
        ensures
            g.wf(),
            g.points@.len() == 0,
            g.lines@.len() == 0,
            g.next_id == 0,
    {
        MeshGraph { points: Vec::new(), lines: Vec::new(), next_id: 0 }
    }

    /// The index of the point carrying this identifier.
    fn find_point_index(&self, id: u64) -> (j: usize)
        requires
            self.has_point(id),
        ensures
            j < self.points@.len(),
            self.points@[j as int].id == id,
    {
        let mut j: usize = 0;
        while j < self.points.len()
            invariant
                j <= self.points@.len(),
                self.has_point(id),
                forall|k: int| 0 <= k < j ==> (#[trigger] self.points@[k]).id != id,
            decreases self.points@.len() - j,
        {
            if self.points[j].id == id {
                return j;
            }
            j = j + 1;
        }
        proof {
            assert(false);
        }
        0
    }

    /// Whether the graph holds a point with this identifier.
    pub fn contains_point(&self, id: u64) -> (r: bool)
        ensures
            r == self.has_point(id),
    {
        let mut j: usize = 0;
        while j < self.points.len()
            invariant
                j <= self.points@.len(),
                forall|k: int| 0 <= k < j ==> (#[trigger] self.points@[k]).id != id,
            decreases self.points@.len() - j,
        {
            if self.points[j].id == id {
                return true;
            }
            j = j + 1;
        }
        false
    }

    /// Where the point with this identifier sits, if it exists.
    pub fn point_position(&self, id: u64) -> (r: Option<Vec3i>)
        requires
            self.ids_wf(),
        ensures
            r matches Some(p) ==> self.has_point(id) && p == self.position_of(id),
            r is None <==> !self.has_point(id),
    {
        if self.contains_point(id) {
            let j = self.find_point_index(id);
            proof {
                self.lemma_point_index(j as int);
            }
            Some(self.points[j].position)
        } else {
            None
        }
    }

    /// Places a new point at the given grid position and hands its
    /// identifier back.
    pub fn spawn_point(&mut self, position: Vec3i) -> (id: u64)
        requires
            old(self).wf(),
            position.in_bounds(),
            old(self).next_id < u64::MAX,
        ensures
            final(self).wf(),
            id == old(self).next_id,
            final(self).points@ == old(self).points@.push(MeshPoint { id, position }),
            final(self).lines@ == old(self).lines@,
            final(self).next_id == old(self).next_id + 1,
    {
        let id = self.next_id;
        self.points.push(MeshPoint { id, position });
        self.next_id = self.next_id + 1;
        proof {
            assert forall|j: int|
                0 <= j < self.lines@.len() implies self.has_point(
                (#[trigger] self.lines@[j]).start,
            ) && self.has_point(self.lines@[j].end) by {
                assert(old(self).has_point(self.lines@[j].start));
                let s = choose|k: int|
                    0 <= k < old(self).points@.len() && (#[trigger] old(self).points@[k]).id
                        == self.lines@[j].start;
                assert(self.points@[s].id == self.lines@[j].start);
                assert(old(self).has_point(self.lines@[j].end));
                let e = choose|k: int|
                    0 <= k < old(self).points@.len() && (#[trigger] old(self).points@[k]).id
                        == self.lines@[j].end;
                assert(self.points@[e].id == self.lines@[j].end);
            }
        }
        id
    }

    /// Joins two existing, distinct points with a new line and hands its
    /// identifier back; refuses a line from a point to itself or to or from
    /// a missing point, leaving the graph untouched.
    pub fn spawn_line(&mut self, start: u64, end: u64) -> (r: Option<u64>)
        requires
            old(self).wf(),
            old(self).next_id < u64::MAX,
        ensures
            final(self).wf(),
            (r is Some) == (start != end && old(self).has_point(start) && old(self).has_point(
                end,
            )),
            r matches Some(id) ==> {
                &&& id == old(self).next_id
                &&& final(self).lines@ == old(self).lines@.push(MeshLine { id, start, end })
                &&& final(self).points@ == old(self).points@
                &&& final(self).next_id == old(self).next_id + 1
            },
            r is None ==> *final(self) == *old(self),
    {
        if start == end {
            return None;
        }
        if !self.contains_point(start) || !self.contains_point(end) {
            return None;
        }
        let id = self.next_id;
        self.lines.push(MeshLine { id, start, end });
        self.next_id = self.next_id + 1;
        Some(id)
    }

    /// Deletes every line that touches one of the selected entities, as the
    /// editor's delete-connected-lines command does.
    pub fn delete_connected_lines(&mut self, selected: &Vec<u64>)
        requires
            old(self).wf(),
        ensures
            final(self).wf(),
            final(self).lines@ == lines_not_touching(old(self).lines@, selected@),
            final(self).points@ == old(self).points@,
            final(self).next_id == old(self).next_id,
    {
        let mut kept: Vec<MeshLine> = Vec::new();
        let mut i: usize = 0;
        while i < self.lines.len()
            invariant
                i <= self.lines@.len(),
                self.wf(),
                kept@ == lines_not_touching(self.lines@.take(i as int), selected@),
                forall|j: int|
                    0 <= j < kept@.len() ==> exists|k: int|
                        0 <= k < i && #[trigger] kept@[j] == self.lines@[k],
                forall|j1: int, j2: int|
                    0 <= j1 < j2 < kept@.len() ==> (#[trigger] kept@[j1]).id != (
                    #[trigger] kept@[j2]).id,
                *self == *old(self),
            decreases self.lines@.len() - i,
        {
            let l = self.lines[i];
            if !contains_id(selected, l.start) && !contains_id(selected, l.end) {
                proof {
                    assert forall|j: int| 0 <= j < kept@.len() implies (
                    #[trigger] kept@[j]).id != self.lines@[i as int].id by {
                        let k = choose|k: int| 0 <= k < i && kept@[j] == self.lines@[k];
                        assert(self.lines@[k].id != self.lines@[i as int].id);
                    }
                }
                kept.push(l);
                proof {
                    assert(kept@[kept@.len() - 1] == self.lines@[i as int]);
                }
            }
            i = i + 1;
            proof {
                assert(self.lines@.take(i as int).drop_last() =~= self.lines@.take(i - 1));
            }
        }
        proof {
            assert(self.lines@.take(self.lines@.len() as int) =~= self.lines@);
        }
        self.lines = kept;
        proof {
            lemma_kept_lines_wf(old(self), self);
        }
    }

    /// Removes the point with this identifier. Lines that referred to it
    /// dangle until the next retain pass; the identifier bookkeeping stays
    /// intact.
    pub fn remove_point(&mut self, id: u64)
        requires
            old(self).ids_wf(),
        ensures
            final(self).ids_wf(),
            final(self).points@ == points_without(old(self).points@, id),
            final(self).lines@ == old(self).lines@,
            final(self).next_id == old(self).next_id,
    {
        let mut kept: Vec<MeshPoint> = Vec::new();
        let mut i: usize = 0;
        while i < self.points.len()
            invariant
                i <= self.points@.len(),
                self.ids_wf(),
                kept@ == points_without(self.points@.take(i as int), id),
                forall|j: int|
                    0 <= j < kept@.len() ==> exists|k: int|
                        0 <= k < i && #[trigger] kept@[j] == self.points@[k],
                forall|j1: int, j2: int|
                    0 <= j1 < j2 < kept@.len() ==> (#[trigger] kept@[j1]).id != (
                    #[trigger] kept@[j2]).id,
                *self == *old(self),
            decreases self.points@.len() - i,
        {
            let p = self.points[i];
            if p.id != id {
                proof {
                    assert forall|j: int| 0 <= j < kept@.len() implies (
                    #[trigger] kept@[j]).id != self.points@[i as int].id by {
                        let k = choose|k: int| 0 <= k < i && kept@[j] == self.points@[k];
                        assert(self.points@[k].id != self.points@[i as int].id);
                    }
                }
                kept.push(p);
                proof {
                    assert(kept@[kept@.len() - 1] == self.points@[i as int]);
                }
            }
            i = i + 1;
            proof {
                assert(self.points@.take(i as int).drop_last() =~= self.points@.take(i - 1));
            }
        }
        proof {
            assert(self.points@.take(self.points@.len() as int) =~= self.points@);
        }
        self.points = kept;
        proof {
            lemma_kept_points_wf(old(self), self);
        }
    }

    /// Despawns every line whose endpoints no longer both exist, restoring
    /// the graph invariant after points were removed.
    pub fn retain_valid_lines(&mut self)
        requires
            old(self).ids_wf(),
        ensures
            final(self).wf(),
            final(self).lines@ == lines_with_endpoints(old(self).lines@, old(self).points@),
            final(self).points@ == old(self).points@,
            final(self).next_id == old(self).next_id,
    {
        let mut kept: Vec<MeshLine> = Vec::new();
        let mut i: usize = 0;
        while i < self.lines.len()
            invariant
                i <= self.lines@.len(),
                self.ids_wf(),
                kept@ == lines_with_endpoints(self.lines@.take(i as int), self.points@),
                forall|j: int|
                    0 <= j < kept@.len() ==> exists|k: int|
                        0 <= k < i && #[trigger] kept@[j] == self.lines@[k],
                forall|j1: int, j2: int|
                    0 <= j1 < j2 < kept@.len() ==> (#[trigger] kept@[j1]).id != (
                    #[trigger] kept@[j2]).id,
                forall|j: int|
                    0 <= j < kept@.len() ==> seq_has_point(
                        self.points@,
                        (#[trigger] kept@[j]).start,
                    ) && seq_has_point(self.points@, kept@[j].end),
                *self == *old(self),
            decreases self.lines@.len() - i,
        {
            let l = self.lines[i];
            if self.contains_point(l.start) && self.contains_point(l.end) {
                proof {
                    assert forall|j: int| 0 <= j < kept@.len() implies (
                    #[trigger] kept@[j]).id != self.lines@[i as int].id by {
                        let k = choose|k: int| 0 <= k < i && kept@[j] == self.lines@[k];
                        assert(self.lines@[k].id != self.lines@[i as int].id);
                    }
                }
                kept.push(l);
                proof {
                    assert(kept@[kept@.len() - 1] == self.lines@[i as int]);
                }
            }
            i = i + 1;
            proof {
                assert(self.lines@.take(i as int).drop_last() =~= self.lines@.take(i - 1));
            }
        }
        proof {
            assert(self.lines@.take(self.lines@.len() as int) =~= self.lines@);
        }
        self.lines = kept;
        proof {
            lemma_kept_lines_wf(old(self), self);
        }
    }

    /// Reads every line off as the segment between its endpoints' positions.
    pub fn line_segments(&self) -> (segs: Vec<(Vec3i, Vec3i)>)
        requires
            self.wf(),
        ensures
            segs@.len() == self.lines@.len(),
            forall|i: int|
                0 <= i < segs@.len() ==> #[trigger] segs@[i] == (
                    self.position_of(self.lines@[i].start),
                    self.position_of(self.lines@[i].end),
                ),
    {
        let mut segs: Vec<(Vec3i, Vec3i)> = Vec::new();
        let mut i: usize = 0;
        while i < self.lines.len()
            invariant
                i <= self.lines@.len(),
                self.wf(),
                segs@.len() == i,
                forall|j: int|
                    0 <= j < i ==> #[trigger] segs@[j] == (
                        self.position_of(self.lines@[j].start),
                        self.position_of(self.lines@[j].end),
                    ),
            decreases self.lines@.len() - i,
        {
            let l = self.lines[i];
            let s = self.find_point_index(l.start);
            let e = self.find_point_index(l.end);
            proof {
                self.lemma_point_index(s as int);
                self.lemma_point_index(e as int);
            }
            segs.push((self.points[s].position, self.points[e].position));
            i = i + 1;
        }
        segs
    }

    /// Solidifies the whole graph into one wall mesh spawned at the
    /// identity transform: every line becomes a drawn segment, every
    /// coplanar line a collider slab, and all points and lines are
    /// despawned.
    pub fn solidify(&mut self, color: Rgba) -> (w: WallMesh)
        requires
            old(self).wf(),
            4 * old(self).lines@.len() <= u32::MAX,
            2 * old(self).lines@.len() <= usize::MAX,
        ensures
            final(self).wf(),
            final(self).points@.len() == 0,
            final(self).lines@.len() == 0,
            final(self).next_id == old(self).next_id,
            w.wf(),
            w.color == color,
            w.transform == TransformBits::identity_spec(),
            w.segments().len() == old(self).lines@.len(),
            forall|i: int|
                0 <= i < w.segments().len() ==> #[trigger] w.segments()[i] == (
                    old(self).position_of(old(self).lines@[i].start),
                    old(self).position_of(old(self).lines@[i].end),
                ),
    {
        let segs = self.line_segments();
        let w = wall_from_segments(&segs, color, TransformBits::identity());
        self.points = Vec::new();
        self.lines = Vec::new();
        w
    }
}

/// After a filtering pass left `g.lines` holding, in order, values that all
/// stood in `pre.lines`, the graph invariants carry over from `pre`.
proof fn lemma_kept_lines_wf(pre: &MeshGraph, g: &MeshGraph)
    requires
        pre.ids_wf(),
        g.points@ == pre.points@,
        g.next_id == pre.next_id,
        forall|j: int|
            0 <= j < g.lines@.len() ==> exists|k: int|
                0 <= k < pre.lines@.len() && #[trigger] g.lines@[j] == pre.lines@[k],
        forall|j1: int, j2: int|
            0 <= j1 < j2 < g.lines@.len() ==> (#[trigger] g.lines@[j1]).id != (
            #[trigger] g.lines@[j2]).id,
    ensures
        g.ids_wf(),
        pre.lines_valid() ==> g.lines_valid(),
{
    assert forall|j: int| 0 <= j < g.lines@.len() implies (#[trigger] g.lines@[j]).id
        < g.next_id && (pre.lines_valid() ==> g.has_point(g.lines@[j].start) && g.has_point(
        g.lines@[j].end,
    )) by {
        let k = choose|k: int| 0 <= k < pre.lines@.len() && g.lines@[j] == pre.lines@[k];
        assert(pre.lines@[k].id < pre.next_id);
        if pre.lines_valid() {
            assert(pre.has_point(pre.lines@[k].start));
            assert(pre.has_point(pre.lines@[k].end));
        }
    }
    assert forall|j: int, k: int|
        0 <= j < g.points@.len() && 0 <= k < g.lines@.len() implies (
    #[trigger] g.points@[j]).id != (#[trigger] g.lines@[k]).id by {
        let k0 = choose|k0: int| 0 <= k0 < pre.lines@.len() && g.lines@[k] == pre.lines@[k0];
        assert(pre.points@[j].id != pre.lines@[k0].id);
    }
}

/// After a filtering pass left `g.points` holding, in order, values that all
/// stood in `pre.points`, the identifier invariants carry over from `pre`.
proof fn lemma_kept_points_wf(pre: &MeshGraph, g: &MeshGraph)
    requires
        pre.ids_wf(),
        g.lines@ == pre.lines@,
        g.next_id == pre.next_id,
        forall|j: int|
            0 <= j < g.points@.len() ==> exists|k: int|
                0 <= k < pre.points@.len() && #[trigger] g.points@[j] == pre.points@[k],
        forall|j1: int, j2: int|
            0 <= j1 < j2 < g.points@.len() ==> (#[trigger] g.points@[j1]).id != (
            #[trigger] g.points@[j2]).id,
    ensures
        g.ids_wf(),
{
    assert forall|j: int| 0 <= j < g.points@.len() implies (#[trigger] g.points@[j]).id
        < g.next_id && g.points@[j].position.in_bounds() by {
        let k = choose|k: int| 0 <= k < pre.points@.len() && g.points@[j] == pre.points@[k];
        assert(pre.points@[k].id < pre.next_id);
    }
    assert forall|j: int, k: int|
        0 <= j < g.points@.len() && 0 <= k < g.lines@.len() implies (
    #[trigger] g.points@[j]).id != (#[trigger] g.lines@[k]).id by {
        let j0 = choose|j0: int| 0 <= j0 < pre.points@.len() && g.points@[j] == pre.points@[j0];
        assert(pre.points@[j0].id != pre.lines@[k].id);
    }
}

/// Whether the vector holds this identifier.
pub fn contains_id(v: &Vec<u64>, id: u64) -> (r: bool)
    ensures
        r == v@.contains(id),
{
    let mut j: usize = 0;
    while j < v.len()
        invariant
            j <= v@.len(),
            forall|k: int| 0 <= k < j ==> v@[k] != id,
        decreases v@.len() - j,
    {
        if v[j] == id {
            return true;
        }
        j = j + 1;
    }
    false
}

/// The display transform of an editable line: it is drawn translated to its
/// start point and scaled by the difference of its endpoints.
pub fn line_display_transform(start: Vec3i, end: Vec3i) -> (r: (Vec3i, Vec3i))
    requires
        start.in_bounds(),
        end.in_bounds(),
    ensures
        r.0 == start,
        r.1 == Vec3i::sub_spec(end, start),
{
    (start, end.sub(start))
}

} // verus!
