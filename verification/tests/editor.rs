//! The editor pipeline: graph editing, solidification, exploding, and the
//! map round trip.

use emitter::color::Rgba;
use emitter::graph::{line_display_transform, MeshGraph};
use emitter::map_asset::{load_scene, save_scene, MapLoader};
use emitter::pairs::{flatten_pairs, pairs_of, windows_of};
use emitter::transform::{QuatBits, TransformBits, Vec3Bits, FLOAT_ONE_BITS};
use emitter::vec3i::Vec3i;
use emitter::wall::{build_collider, Triangle};

fn gray() -> Rgba {
    Rgba::new(1, 2, 3, 4)
}

fn p(x: i64, y: i64, z: i64) -> Vec3i {
    Vec3i::new(x, y, z)
}

#[test]
fn spawn_points_and_lines() {
    let mut g = MeshGraph::new();
    let a = g.spawn_point(p(0, 0, 0));
    let b = g.spawn_point(p(10, 0, 0));
    assert_eq!(a, 0);
    assert_eq!(b, 1);
    assert_eq!(g.point_position(a), Some(p(0, 0, 0)));
    assert_eq!(g.point_position(b), Some(p(10, 0, 0)));
    assert_eq!(g.point_position(77), None);

    let l = g.spawn_line(a, b);
    assert_eq!(l, Some(2));
    assert_eq!(g.lines.len(), 1);
    assert_eq!(g.lines[0].start, a);
    assert_eq!(g.lines[0].end, b);
}

#[test]
fn spawn_line_refuses_bad_endpoints() {
    let mut g = MeshGraph::new();
    let a = g.spawn_point(p(0, 0, 0));
    // a line from a point to itself is refused
    assert_eq!(g.spawn_line(a, a), None);
    // a line to a missing point is refused
    assert_eq!(g.spawn_line(a, 99), None);
    assert_eq!(g.spawn_line(99, a), None);
    assert_eq!(g.lines.len(), 0);
}

#[test]
fn delete_connected_lines_removes_touching() {
    let mut g = MeshGraph::new();
    let a = g.spawn_point(p(0, 0, 0));
    let b = g.spawn_point(p(1, 0, 0));
    let c = g.spawn_point(p(2, 0, 0));
    g.spawn_line(a, b).unwrap();
    g.spawn_line(b, c).unwrap();
    g.spawn_line(a, c).unwrap();

    g.delete_connected_lines(&vec![b]);
    assert_eq!(g.lines.len(), 1);
    assert_eq!(g.lines[0].start, a);
    assert_eq!(g.lines[0].end, c);
    assert_eq!(g.points.len(), 3);
}

#[test]
fn removed_point_despawns_its_lines() {
    let mut g = MeshGraph::new();
    let a = g.spawn_point(p(0, 0, 0));
    let b = g.spawn_point(p(1, 0, 0));
    let c = g.spawn_point(p(2, 0, 0));
    g.spawn_line(a, b).unwrap();
    g.spawn_line(b, c).unwrap();

    g.remove_point(b);
    assert_eq!(g.points.len(), 2);
    // both lines referred to the removed point; the retain pass drops them
    g.retain_valid_lines();
    assert_eq!(g.lines.len(), 0);
}

#[test]
fn retain_keeps_intact_lines() {
    let mut g = MeshGraph::new();
    let a = g.spawn_point(p(0, 0, 0));
    let b = g.spawn_point(p(1, 0, 0));
    let c = g.spawn_point(p(2, 0, 0));
    let kept = g.spawn_line(a, c).unwrap();
    g.spawn_line(a, b).unwrap();

    g.remove_point(b);
    g.retain_valid_lines();
    assert_eq!(g.lines.len(), 1);
    assert_eq!(g.lines[0].id, kept);
}

#[test]
fn line_display_transform_translates_and_scales() {
    let (translation, scale) = line_display_transform(p(1, 2, 0), p(4, 6, 0));
    assert_eq!(translation, p(1, 2, 0));
    assert_eq!(scale, p(3, 4, 0));
}

#[test]
fn collider_extrudes_coplanar_lines_only() {
    // one line in the play plane, one out of it
    let segs = vec![(p(0, 0, 0), p(10, 0, 0)), (p(0, 0, 3), p(10, 0, 3))];
    let mesh = build_collider(&segs);

    assert_eq!(
        mesh.vertices,
        vec![p(0, 0, -1), p(0, 0, 1), p(10, 0, -1), p(10, 0, 1)]
    );
    assert_eq!(mesh.indices.len(), 2);
    assert_eq!(mesh.indices[0], Triangle { a: 0, b: 2, c: 1 });
    assert_eq!(mesh.indices[1], Triangle { a: 1, b: 2, c: 3 });
}

#[test]
fn collider_counts_per_coplanar_line() {
    let segs = vec![
        (p(0, 0, 0), p(1, 0, 0)),
        (p(1, 0, 0), p(1, 1, 0)),
        (p(0, 0, 5), p(1, 0, 5)),
    ];
    let mesh = build_collider(&segs);
    assert_eq!(mesh.vertices.len(), 8);
    assert_eq!(mesh.indices.len(), 4);
    // the second slab's triangles start at the fifth vertex
    assert_eq!(mesh.indices[2], Triangle { a: 4, b: 6, c: 5 });
    assert_eq!(mesh.indices[3], Triangle { a: 5, b: 6, c: 7 });
}

#[test]
fn solidify_clears_graph_and_draws_all_lines() {
    let mut g = MeshGraph::new();
    let a = g.spawn_point(p(0, 0, 0));
    let b = g.spawn_point(p(5, 0, 0));
    let c = g.spawn_point(p(5, 5, 2));
    g.spawn_line(a, b).unwrap();
    g.spawn_line(b, c).unwrap();

    let wall = g.solidify(gray());
    assert_eq!(g.points.len(), 0);
    assert_eq!(g.lines.len(), 0);

    // both lines are drawn ...
    assert_eq!(
        wall.vertices,
        vec![p(0, 0, 0), p(5, 0, 0), p(5, 0, 0), p(5, 5, 2)]
    );
    // ... but only the coplanar one collides
    assert_eq!(wall.collider.vertices.len(), 4);
    assert_eq!(wall.collider.indices.len(), 2);
    assert_eq!(wall.color, gray());
    // a fresh wall is spawned at the identity transform
    assert_eq!(wall.transform, TransformBits::identity());
}

#[test]
fn explode_deduplicates_points_and_joins_windows() {
    let mut g = MeshGraph::new();
    let a = g.spawn_point(p(0, 0, 0));
    let b = g.spawn_point(p(5, 0, 0));
    g.spawn_line(a, b).unwrap();
    let wall = g.solidify(gray());

    g.explode_mesh(&wall);
    // the two distinct vertex positions come back as points
    assert_eq!(g.points.len(), 2);
    assert_eq!(g.points[0].position, p(0, 0, 0));
    assert_eq!(g.points[1].position, p(5, 0, 0));
    // the one window joins them
    assert_eq!(g.lines.len(), 1);
    assert_eq!(g.lines[0].start, g.points[0].id);
    assert_eq!(g.lines[0].end, g.points[1].id);
}

#[test]
fn explode_spawns_one_line_per_window() {
    let mut g = MeshGraph::new();
    let a = g.spawn_point(p(0, 0, 0));
    let b = g.spawn_point(p(5, 0, 0));
    let c = g.spawn_point(p(5, 5, 0));
    g.spawn_line(a, b).unwrap();
    g.spawn_line(b, c).unwrap();
    let wall = g.solidify(gray());
    // vertex buffer: [a, b, b, c] — three windows, three lines, the middle
    // one joining the shared point to itself

    g.explode_mesh(&wall);
    assert_eq!(g.points.len(), 3);
    assert_eq!(g.lines.len(), 3);
    assert_eq!(g.lines[0].start, g.points[0].id);
    assert_eq!(g.lines[0].end, g.points[1].id);
    assert_eq!(g.lines[1].start, g.points[1].id);
    assert_eq!(g.lines[1].end, g.points[1].id);
    assert_eq!(g.lines[2].start, g.points[1].id);
    assert_eq!(g.lines[2].end, g.points[2].id);
}

#[test]
fn scene_roundtrip_reproduces_colliders() {
    let mut g = MeshGraph::new();
    let a = g.spawn_point(p(0, 0, 0));
    let b = g.spawn_point(p(7, 3, 0));
    let c = g.spawn_point(p(7, 9, 1));
    g.spawn_line(a, b).unwrap();
    g.spawn_line(b, c).unwrap();
    let walls = vec![g.solidify(gray())];

    let map = save_scene(&walls);
    assert_eq!(map.map_meshes.len(), 1);
    assert_eq!(
        map.map_meshes[0].lines.lines,
        vec![(p(0, 0, 0), p(7, 3, 0)), (p(7, 3, 0), p(7, 9, 1))]
    );
    assert_eq!(map.map_meshes[0].transform, walls[0].transform);

    let reloaded = load_scene(&map);
    assert_eq!(reloaded.len(), 1);
    assert_eq!(reloaded[0].vertices, walls[0].vertices);
    assert_eq!(reloaded[0].collider.vertices, walls[0].collider.vertices);
    assert_eq!(reloaded[0].collider.indices, walls[0].collider.indices);
    assert_eq!(reloaded[0].color, walls[0].color);
    assert_eq!(reloaded[0].transform, walls[0].transform);
}

#[test]
fn moved_wall_keeps_its_transform_through_the_roundtrip() {
    let mut g = MeshGraph::new();
    let a = g.spawn_point(p(0, 0, 0));
    let b = g.spawn_point(p(4, 0, 0));
    g.spawn_line(a, b).unwrap();
    let mut wall = g.solidify(gray());
    // the editor's gizmo moved the wall after it solidified
    let moved = TransformBits {
        translation: Vec3Bits { x: 101, y: 102, z: 103 },
        rotation: QuatBits { x: 5, y: 6, z: 7, w: 8 },
        scale: Vec3Bits { x: FLOAT_ONE_BITS, y: FLOAT_ONE_BITS, z: FLOAT_ONE_BITS },
    };
    wall.transform = moved;

    let map = save_scene(&vec![wall]);
    assert_eq!(map.map_meshes[0].transform, moved);
    let reloaded = load_scene(&map);
    assert_eq!(reloaded[0].transform, moved);
}

#[test]
fn map_loader_extension() {
    let exts = MapLoader.extensions();
    assert_eq!(exts, vec!["map.ron"]);
}

#[test]
fn pairing_groups_disjoint_pairs() {
    let v = vec![
        p(1, 0, 0),
        p(2, 0, 0),
        p(3, 0, 0),
        p(4, 0, 0),
        p(5, 0, 0),
    ];
    // a trailing odd element is dropped
    let pairs = pairs_of(&v);
    assert_eq!(pairs, vec![(p(1, 0, 0), p(2, 0, 0)), (p(3, 0, 0), p(4, 0, 0))]);
}

#[test]
fn windows_overlap() {
    let v = vec![p(1, 0, 0), p(2, 0, 0), p(3, 0, 0)];
    let windows = windows_of(&v);
    assert_eq!(
        windows,
        vec![(p(1, 0, 0), p(2, 0, 0)), (p(2, 0, 0), p(3, 0, 0))]
    );
    let one = vec![p(1, 0, 0)];
    assert_eq!(windows_of(&one), vec![]);
}

#[test]
fn flatten_then_pair_is_identity() {
    let segs = vec![(p(1, 0, 0), p(2, 0, 0)), (p(3, 0, 0), p(4, 0, 0))];
    let flat = flatten_pairs(&segs);
    assert_eq!(flat, vec![p(1, 0, 0), p(2, 0, 0), p(3, 0, 0), p(4, 0, 0)]);
    assert_eq!(pairs_of(&flat), segs);
}

#[test]
fn empty_graph_solidifies_to_empty_wall() {
    let mut g = MeshGraph::new();
    let wall = g.solidify(gray());
    assert_eq!(wall.vertices, vec![]);
    assert_eq!(wall.collider.vertices.len(), 0);
    assert_eq!(wall.collider.indices.len(), 0);
}

#[test]
fn empty_scene_roundtrip() {
    let map = save_scene(&vec![]);
    assert_eq!(map.map_meshes.len(), 0);
    assert_eq!(load_scene(&map).len(), 0);
}
