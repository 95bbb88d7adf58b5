//! Exploding a wall mesh back into an editable graph.
//!
//! The inverse editor operation to solidifying: the wall's flat vertex
//! buffer is walked, every distinct position becomes a fresh point (kept at
//! its first occurrence), and every overlapping window of the buffer becomes
//! a fresh line joining the points at its two positions. A window whose two
//! positions coincide — two chained segments meeting at a shared point —
//! yields a line from that point to itself, exactly as the walk over the
//! buffer dictates. The buffer is read as it stands, in the wall's own
//! frame; a wall the engine has moved has its vertices carried into that
//! placement by the caller.

use vstd::prelude::*;

use crate::graph::{MeshGraph, MeshLine, MeshPoint};
use crate::pairs::{window_spec, windows_of};
use crate::vec3i::Vec3i;
use crate::wall::WallMesh;

verus! {

/// The distinct positions of a vertex buffer, each kept at its first
/// occurrence, in order.
pub open spec fn dedup_spec(s: Seq<Vec3i>) -> Seq<Vec3i>
    decreases s.len(),
{
    if s.len() == 0 {
        Seq::empty()
    } else {
        let prefix = dedup_spec(s.drop_last());
        if prefix.contains(s.last()) {
            prefix
        } else {
            prefix.push(s.last())
        }
    }
}

/// Deduplication keeps exactly the positions of the buffer, each once.
pub proof fn lemma_dedup_spec(s: Seq<Vec3i>)
    ensures
        forall|i: int| 0 <= i < s.len() ==> dedup_spec(s).contains(#[trigger] s[i]),
        forall|i: int| 0 <= i < dedup_spec(s).len() ==> s.contains(#[trigger] dedup_spec(s)[i]),
        forall|i: int, j: int|
            0 <= i < j < dedup_spec(s).len() ==> dedup_spec(s)[i] != dedup_spec(s)[j],
        dedup_spec(s).len() <= s.len(),
    decreases s.len(),
{
    if s.len() > 0 {
        let prefix = dedup_spec(s.drop_last());
        lemma_dedup_spec(s.drop_last());
        assert forall|i: int| 0 <= i < s.len() implies dedup_spec(s).contains(#[trigger] s[i]) by {
            if i < s.len() - 1 {
                assert(s.drop_last()[i] == s[i]);
                assert(prefix.contains(s[i]));
                let k = choose|k: int| 0 <= k < prefix.len() && prefix[k] == s[i];
                assert(dedup_spec(s)[k] == s[i]);
            } else {
                if prefix.contains(s.last()) {
                    let k = choose|k: int| 0 <= k < prefix.len() && prefix[k] == s.last();
                    assert(dedup_spec(s)[k] == s[i]);
                } else {
                    assert(dedup_spec(s)[dedup_spec(s).len() - 1] == s[i]);
                }
            }
        }
        assert forall|i: int| 0 <= i < dedup_spec(s).len() implies s.contains(
            #[trigger] dedup_spec(s)[i],
        ) by {
            if i < prefix.len() {
                assert(s.drop_last().contains(prefix[i]));
                let k = choose|k: int|
                    0 <= k < s.drop_last().len() && s.drop_last()[k] == prefix[i];
                assert(s[k] == dedup_spec(s)[i]);
            } else {
                assert(s[s.len() - 1] == dedup_spec(s)[i]);
            }
        }
    }
}

/// The index of a position among the deduplicated points.
pub open spec fn dedup_index(dd: Seq<Vec3i>, pos: Vec3i) -> int {
    choose|j: int| 0 <= j < dd.len() && dd[j] == pos
}

/// Over a buffer without duplicates, the index of a position is the one
/// place it occurs.
pub proof fn lemma_dedup_index(dd: Seq<Vec3i>, j: int)
    requires
        forall|i1: int, i2: int| 0 <= i1 < i2 < dd.len() ==> dd[i1] != dd[i2],
        0 <= j < dd.len(),
    ensures
        dedup_index(dd, dd[j]) == j,
{
    assert(0 <= j < dd.len() && dd[j] == dd[j]);
    let k = dedup_index(dd, dd[j]);
    if k < j {
        assert(dd[k] != dd[j]);
    } else if j < k {
        assert(dd[j] != dd[k]);
    }
}

/// The points the explode operation creates: one per distinct position,
/// with sequential identifiers starting at `base`.
pub open spec fn explode_points_spec(dd: Seq<Vec3i>, base: int) -> Seq<MeshPoint> {
    Seq::new(dd.len(), |i: int| MeshPoint { id: (base + i) as u64, position: dd[i] })
}

/// The lines the explode operation creates: one per window of the vertex
/// buffer, joining the points at its two positions, with sequential
/// identifiers starting at `first_line`.
pub open spec fn explode_lines_spec(
    ws: Seq<(Vec3i, Vec3i)>,
    dd: Seq<Vec3i>,
    base: int,
    first_line: int,
) -> Seq<MeshLine> {
    Seq::new(
        ws.len(),
        |i: int|
            MeshLine {
                id: (first_line + i) as u64,
                start: (base + dedup_index(dd, ws[i].0)) as u64,
                end: (base + dedup_index(dd, ws[i].1)) as u64,
            },
    )
}

/// The exploded lines carry sequential identifiers from `first_line` on and
/// join points of the deduplicated buffer.
pub proof fn lemma_explode_lines_spec(
    ws: Seq<(Vec3i, Vec3i)>,
    dd: Seq<Vec3i>,
    base: int,
    first_line: int,
)
    requires
        forall|i1: int, i2: int| 0 <= i1 < i2 < dd.len() ==> dd[i1] != dd[i2],
        forall|i: int|
            0 <= i < ws.len() ==> dd.contains((#[trigger] ws[i]).0) && dd.contains(ws[i].1),
        0 <= base,
        base + dd.len() <= first_line,
        first_line + ws.len() <= u64::MAX,
    ensures
        explode_lines_spec(ws, dd, base, first_line).len() == ws.len(),
        forall|k: int|
            0 <= k < ws.len() ==> {
                let l = #[trigger] explode_lines_spec(ws, dd, base, first_line)[k];
                &&& l.id == first_line + k
                &&& base <= l.start < base + dd.len()
                &&& base <= l.end < base + dd.len()
            },
{
    assert forall|k: int| 0 <= k < ws.len() implies {
        let l = #[trigger] explode_lines_spec(ws, dd, base, first_line)[k];
        &&& l.id == first_line + k
        &&& base <= l.start < base + dd.len()
        &&& base <= l.end < base + dd.len()
    } by {
        assert(dd.contains(ws[k].0));
        assert(dd.contains(ws[k].1));
        let j0 = dedup_index(dd, ws[k].0);
        let j1 = dedup_index(dd, ws[k].1);
        assert(0 <= j0 < dd.len() && dd[j0] == ws[k].0);
        assert(0 <= j1 < dd.len() && dd[j1] == ws[k].1);
    }
}

/// The index of the point at this position, if one exists.
fn find_position(points: &Vec<MeshPoint>, pos: Vec3i) -> (r: Option<usize>)
    ensures
        r matches Some(j) ==> j < points@.len() && points@[j as int].position == pos,
        r is None ==> forall|k: int| 0 <= k < points@.len() ==> (#[trigger] points@[k]).position
            != pos,
{
    let mut j: usize = 0;
    while j < points.len()
        invariant
            j <= points@.len(),
            forall|k: int| 0 <= k < j ==> (#[trigger] points@[k]).position != pos,
        decreases points@.len() - j,
    {
        if points[j].position.x == pos.x && points[j].position.y == pos.y && points[j].position.z
            == pos.z {
            proof {
                assert(points@[j as int].position == pos);
            }
            return Some(j);
        }
        j = j + 1;
    }
    None
}

impl MeshGraph {
    /// Explodes a wall mesh back into editable points and lines: one fresh
    /// point per distinct vertex position, one fresh line per overlapping
    /// window of the vertex buffer.
    pub fn explode_mesh(&mut self, wall: &WallMesh)
        requires
            old(self).wf(),
            forall|i: int|
                0 <= i < wall.vertices@.len() ==> (#[trigger] wall.vertices@[i]).in_bounds(),
            old(self).next_id + 2 * wall.vertices@.len() <= u64::MAX,
        ensures
            final(self).wf(),
            final(self).points@ == old(self).points@ + explode_points_spec(
                dedup_spec(wall.vertices@),
                old(self).next_id as int,
            ),
            final(self).lines@ == old(self).lines@ + explode_lines_spec(
                window_spec(wall.vertices@),
                dedup_spec(wall.vertices@),
                old(self).next_id as int,
                old(self).next_id + dedup_spec(wall.vertices@).len(),
            ),
            final(self).next_id == old(self).next_id + dedup_spec(wall.vertices@).len()
                + window_spec(wall.vertices@).len(),
    {
        let ghost verts = wall.vertices@;
        let ghost dd = dedup_spec(verts);
        let base = self.next_id;
        proof {
            lemma_dedup_spec(verts);
        }

        // Collect one fresh point per distinct vertex position.
        let mut added: Vec<MeshPoint> = Vec::new();
        let mut i: usize = 0;
        while i < wall.vertices.len()
            invariant
                i <= verts.len(),
                verts == wall.vertices@,
                base + 2 * verts.len() <= u64::MAX,
                added@ == explode_points_spec(dedup_spec(verts.take(i as int)), base as int),
                added@.len() <= i,
                *self == *old(self),
            decreases verts.len() - i,
        {
            let v = wall.vertices[i];
            proof {
                lemma_dedup_spec(verts.take(i as int));
            }
            if find_position(&added, v).is_none() {
                let id = base + added.len() as u64;
                added.push(MeshPoint { id, position: v });
            }
            i = i + 1;
            proof {
                assert(verts.take(i as int).drop_last() =~= verts.take(i - 1));
                let dd_i = dedup_spec(verts.take(i as int));
                let dd_prev = dedup_spec(verts.take(i - 1));
                // the scan found the position exactly when the prefix holds it
                assert forall|k: int| 0 <= k < dd_prev.len() implies (#[trigger] dd_prev[k])
                    == explode_points_spec(dd_prev, base as int)[k].position by {}
                assert(added@ =~= explode_points_spec(dd_i, base as int));
            }
        }
        proof {
            assert(verts.take(verts.len() as int) =~= verts);
            assert(added@ == explode_points_spec(dd, base as int));
        }

        // Append the fresh points and advance the identifier counter.
        let mut k: usize = 0;
        while k < added.len()
            invariant
                k <= added@.len(),
                self.points@ == old(self).points@ + added@.take(k as int),
                self.lines@ == old(self).lines@,
                self.next_id == old(self).next_id,
            decreases added@.len() - k,
        {
            self.points.push(added[k]);
            k = k + 1;
            proof {
                assert(self.points@ =~= old(self).points@ + added@.take(k as int));
            }
        }
        proof {
            assert(added@.take(added@.len() as int) =~= added@);
        }
        let first_line = base + added.len() as u64;
        self.next_id = first_line;

        // One fresh line per window, joining the points at its positions.
        let windows = windows_of(&wall.vertices);
        let ghost ws = window_spec(verts);
        proof {
            assert forall|k: int| 0 <= k < ws.len() implies dd.contains((#[trigger] ws[k]).0)
                && dd.contains(ws[k].1) by {
                assert(ws[k] == (verts[k], verts[k + 1]));
                assert(dd.contains(verts[k]));
                assert(dd.contains(verts[k + 1]));
            }
        }
        let mut i: usize = 0;
        while i < windows.len()
            invariant
                i <= ws.len(),
                windows@ == ws,
                ws == window_spec(verts),
                forall|k: int|
                    0 <= k < ws.len() ==> dd.contains((#[trigger] ws[k]).0) && dd.contains(
                        ws[k].1,
                    ),
                verts == wall.vertices@,
                dd == dedup_spec(verts),
                added@ == explode_points_spec(dd, base as int),
                base + 2 * verts.len() <= u64::MAX,
                first_line == base + dd.len(),
                ws.len() + 1 <= verts.len() || ws.len() == 0,
                self.points@ == old(self).points@ + added@,
                self.lines@ == old(self).lines@ + explode_lines_spec(
                    ws.take(i as int),
                    dd,
                    base as int,
                    first_line as int,
                ),
                self.next_id == first_line + i,
            decreases ws.len() - i,
        {
            proof {
                lemma_dedup_spec(verts);
            }
            let w = windows[i];
            proof {
                assert(w == ws[i as int]);
                assert(dd.contains(w.0));
                assert(dd.contains(w.1));
            }
            let s_idx = match find_position(&added, w.0) {
                Some(j) => j,
                None => {
                    proof {
                        let j = choose|j: int| 0 <= j < dd.len() && dd[j] == w.0;
                        assert(added@[j].position == dd[j]);
                        assert(false);
                    }
                    0
                },
            };
            let e_idx = match find_position(&added, w.1) {
                Some(j) => j,
                None => {
                    proof {
                        let j = choose|j: int| 0 <= j < dd.len() && dd[j] == w.1;
                        assert(added@[j].position == dd[j]);
                        assert(false);
                    }
                    0
                },
            };
            proof {
                lemma_dedup_index(dd, s_idx as int);
                lemma_dedup_index(dd, e_idx as int);
                assert(dd[s_idx as int] == w.0);
                assert(dd[e_idx as int] == w.1);
                assert(dedup_index(dd, w.0) == s_idx as int);
                assert(dedup_index(dd, w.1) == e_idx as int);
            }
            let lid = self.next_id;
            self.lines.push(
                MeshLine { id: lid, start: base + s_idx as u64, end: base + e_idx as u64 },
            );
            self.next_id = self.next_id + 1;
            i = i + 1;
            proof {
                assert(self.lines@ =~= old(self).lines@ + explode_lines_spec(
                    ws.take(i as int),
                    dd,
                    base as int,
                    first_line as int,
                ));
            }
        }
        proof {
            assert(ws.take(ws.len() as int) =~= ws);
            lemma_explode_mesh_wf(old(self), self, dd, ws, base as int, first_line as int);
        }
    }
}

/// The graph that the explode operation leaves behind is well formed: the
/// fresh points and lines carry fresh, distinct identifiers, and every fresh
/// line joins fresh points.
proof fn lemma_explode_mesh_wf(
    pre: &MeshGraph,
    g: &MeshGraph,
    dd: Seq<Vec3i>,
    ws: Seq<(Vec3i, Vec3i)>,
    base: int,
    first_line: int,
)
    requires
        pre.wf(),
        pre.next_id == base,
        forall|i1: int, i2: int| 0 <= i1 < i2 < dd.len() ==> dd[i1] != dd[i2],
        forall|i: int| 0 <= i < dd.len() ==> (#[trigger] dd[i]).in_bounds(),
        forall|i: int|
            0 <= i < ws.len() ==> dd.contains((#[trigger] ws[i]).0) && dd.contains(ws[i].1),
        first_line == base + dd.len(),
        first_line + ws.len() <= u64::MAX,
        g.points@ == pre.points@ + explode_points_spec(dd, base),
        g.lines@ == pre.lines@ + explode_lines_spec(ws, dd, base, first_line),
        g.next_id == first_line + ws.len(),
    ensures
        g.wf(),
{
    let new_points = explode_points_spec(dd, base);
    let new_lines = explode_lines_spec(ws, dd, base, first_line);
    let np = pre.points@.len();
    let nl = pre.lines@.len();
    lemma_explode_lines_spec(ws, dd, base, first_line);

    assert forall|j: int| 0 <= j < g.points@.len() implies (#[trigger] g.points@[j]).id
        < g.next_id && g.points@[j].position.in_bounds() by {
        if j < np {
            assert(g.points@[j] == pre.points@[j]);
        } else {
            assert(g.points@[j] == new_points[j - np]);
        }
    }
    assert forall|j: int, k: int| 0 <= j < k < g.points@.len() implies (
    #[trigger] g.points@[j]).id != (#[trigger] g.points@[k]).id by {
        if j < np {
            assert(g.points@[j] == pre.points@[j]);
        } else {
            assert(g.points@[j] == new_points[j - np]);
        }
        if k < np {
            assert(g.points@[k] == pre.points@[k]);
        } else {
            assert(g.points@[k] == new_points[k - np]);
        }
    }
    assert forall|j: int| 0 <= j < g.lines@.len() implies (#[trigger] g.lines@[j]).id
        < g.next_id by {
        if j < nl {
            assert(g.lines@[j] == pre.lines@[j]);
        } else {
            assert(g.lines@[j] == new_lines[j - nl]);
        }
    }
    assert forall|j: int, k: int| 0 <= j < k < g.lines@.len() implies (
    #[trigger] g.lines@[j]).id != (#[trigger] g.lines@[k]).id by {
        if j < nl {
            assert(g.lines@[j] == pre.lines@[j]);
        } else {
            assert(g.lines@[j] == new_lines[j - nl]);
        }
        if k < nl {
            assert(g.lines@[k] == pre.lines@[k]);
        } else {
            assert(g.lines@[k] == new_lines[k - nl]);
        }
    }
    assert forall|j: int, k: int|
        0 <= j < g.points@.len() && 0 <= k < g.lines@.len() implies (
    #[trigger] g.points@[j]).id != (#[trigger] g.lines@[k]).id by {
        if j < np {
            assert(g.points@[j] == pre.points@[j]);
        } else {
            assert(g.points@[j] == new_points[j - np]);
        }
        if k < nl {
            assert(g.lines@[k] == pre.lines@[k]);
        } else {
            assert(g.lines@[k] == new_lines[k - nl]);
        }
    }
    assert forall|j: int| 0 <= j < g.lines@.len() implies g.has_point(
        (#[trigger] g.lines@[j]).start,
    ) && g.has_point(g.lines@[j].end) by {
        if j < nl {
            assert(g.lines@[j] == pre.lines@[j]);
            assert(pre.has_point(pre.lines@[j].start));
            let s = choose|k: int|
                0 <= k < pre.points@.len() && (#[trigger] pre.points@[k]).id
                    == pre.lines@[j].start;
            assert(g.points@[s].id == g.lines@[j].start);
            assert(pre.has_point(pre.lines@[j].end));
            let e = choose|k: int|
                0 <= k < pre.points@.len() && (#[trigger] pre.points@[k]).id == pre.lines@[j].end;
            assert(g.points@[e].id == g.lines@[j].end);
        } else {
            let l = new_lines[j - nl];
            assert(g.lines@[j] == l);
            let s = l.start - base;
            assert(new_points[s as int].id == l.start);
            assert(g.points@[np + s] == new_points[s as int]);
            let e = l.end - base;
            assert(new_points[e as int].id == l.end);
            assert(g.points@[np + e] == new_points[e as int]);
        }
    }
}

} // verus!
