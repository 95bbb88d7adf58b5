//! The map asset: what a saved scene holds, and how walls are rebuilt from
//! it.
//!
//! Saving walks every wall mesh and records its transform, its segments and
//! its color; loading spawns a wall per recorded mesh at the recorded
//! transform, regenerating the collider with the same plane-extrusion rule
//! that solidification uses. The round-trip law at the bottom states that
//! this reproduces each wall's placement and collider exactly.

use vstd::prelude::*;

use crate::color::Rgba;
use crate::pairs::{lemma_flatten_pair_roundtrip, pair_spec, pairs_of};
use crate::transform::TransformBits;
use crate::vec3i::Vec3i;
use crate::wall::{wall_from_segments, WallMesh};

verus! {

/// A line list: segments and the one color they are drawn with.
pub struct LineList {
    pub lines: Vec<(Vec3i, Vec3i)>,
    pub color: Rgba,
}

/// One wall mesh as the map file records it: where the wall sits, and what
/// it draws.
pub struct MapMesh {
    pub transform: TransformBits,
    pub lines: LineList,
}

/// A whole saved map: every solidified wall of the scene.
pub struct MapAsset {
    pub map_meshes: Vec<MapMesh>,
}

/// The file name suffix that selects the map asset loader.
pub struct MapLoader;

impl MapLoader {
    pub fn extensions(&self) -> (r: Vec<&'static str>)
        ensures
            r@.len() == 1,
            r@[0]@ == "map.ron"@,
    {
        let mut r: Vec<&'static str> = Vec::new();
        r.push("map.ron");
        r
    }
}

/// Records one wall into the form the map file holds: its transform, its
/// vertex buffer read back as segments, and its color.
pub fn save_wall(wall: &WallMesh) -> (m: MapMesh)
    ensures
        m.transform == wall.transform,
        m.lines.lines@ == pair_spec(wall.vertices@),
        m.lines.color == wall.color,
{
    let lines = pairs_of(&wall.vertices);
    MapMesh { transform: wall.transform, lines: LineList { lines, color: wall.color } }
}

/// Saves a scene: one recorded mesh per wall, in order.
pub fn save_scene(walls: &Vec<WallMesh>) -> (map: MapAsset)
    ensures
        map.map_meshes@.len() == walls@.len(),
        forall|i: int|
            0 <= i < walls@.len() ==> {
                &&& (#[trigger] map.map_meshes@[i]).transform == walls@[i].transform
                &&& map.map_meshes@[i].lines.lines@ == pair_spec(walls@[i].vertices@)
                &&& map.map_meshes@[i].lines.color == walls@[i].color
            },
{
    let mut map_meshes: Vec<MapMesh> = Vec::new();
    let mut i: usize = 0;
    while i < walls.len()
        invariant
            i <= walls@.len(),
            map_meshes@.len() == i,
            forall|j: int|
                0 <= j < i ==> {
                    &&& (#[trigger] map_meshes@[j]).transform == walls@[j].transform
                    &&& map_meshes@[j].lines.lines@ == pair_spec(walls@[j].vertices@)
                    &&& map_meshes@[j].lines.color == walls@[j].color
                },
        decreases walls@.len() - i,
    {
        let m = save_wall(&walls[i]);
        map_meshes.push(m);
        i = i + 1;
    }
    MapAsset { map_meshes }
}

/// Rebuilds one wall from its recorded mesh at the recorded transform,
/// regenerating the collider from the recorded segments by the
/// plane-extrusion rule.
pub fn load_wall(mesh: &MapMesh) -> (w: WallMesh)
    requires
        4 * mesh.lines.lines@.len() <= u32::MAX,
        2 * mesh.lines.lines@.len() <= usize::MAX,
    ensures
        w.wf(),
        w.segments() == mesh.lines.lines@,
        w.color == mesh.lines.color,
        w.transform == mesh.transform,
{
    wall_from_segments(&mesh.lines.lines, mesh.lines.color, mesh.transform)
}

/// Loads a scene: one wall per recorded mesh, in order, each with its
/// collider regenerated.
pub fn load_scene(map: &MapAsset) -> (walls: Vec<WallMesh>)
    requires
        forall|i: int|
            0 <= i < map.map_meshes@.len() ==> 4 * (
            #[trigger] map.map_meshes@[i]).lines.lines@.len() <= u32::MAX && 2
                * map.map_meshes@[i].lines.lines@.len() <= usize::MAX,
    ensures
        walls@.len() == map.map_meshes@.len(),
        forall|i: int|
            0 <= i < walls@.len() ==> {
                &&& (#[trigger] walls@[i]).wf()
                &&& walls@[i].segments() == map.map_meshes@[i].lines.lines@
                &&& walls@[i].color == map.map_meshes@[i].lines.color
                &&& walls@[i].transform == map.map_meshes@[i].transform
            },
{
    let mut walls: Vec<WallMesh> = Vec::new();
    let mut i: usize = 0;
    while i < map.map_meshes.len()
        invariant
            i <= map.map_meshes@.len(),
            walls@.len() == i,
            forall|j: int|
                0 <= j < map.map_meshes@.len() ==> 4 * (
                #[trigger] map.map_meshes@[j]).lines.lines@.len() <= u32::MAX && 2
                    * map.map_meshes@[j].lines.lines@.len() <= usize::MAX,
            forall|j: int|
                0 <= j < i ==> {
                    &&& (#[trigger] walls@[j]).wf()
                    &&& walls@[j].segments() == map.map_meshes@[j].lines.lines@
                    &&& walls@[j].color == map.map_meshes@[j].lines.color
                    &&& walls@[j].transform == map.map_meshes@[j].transform
                },
        decreases map.map_meshes@.len() - i,
    {
        let w = load_wall(&map.map_meshes[i]);
        walls.push(w);
        i = i + 1;
    }
    walls
}

/// The scene round trip: saving a well-formed wall and loading the record
/// back yields a wall at the very same transform, with the very same vertex
/// buffer and the very same collider — the same triangle count and the same
/// vertex positions.
pub proof fn lemma_scene_roundtrip(wall: WallMesh, reloaded: WallMesh)
    requires
        wall.wf(),
        reloaded.wf(),
        reloaded.segments() == pair_spec(wall.vertices@),
        reloaded.color == wall.color,
        reloaded.transform == wall.transform,
    ensures
        reloaded.vertices@ == wall.vertices@,
        reloaded.collider.vertices@ == wall.collider.vertices@,
        reloaded.collider.indices@ == wall.collider.indices@,
        reloaded.color == wall.color,
        reloaded.transform == wall.transform,
{
    lemma_flatten_pair_roundtrip(wall.vertices@);
    assert(reloaded.vertices@.len() % 2 == 0);
    assert(pair_spec(reloaded.vertices@) == pair_spec(wall.vertices@));
    lemma_flatten_pair_roundtrip(reloaded.vertices@);
}

} // verus!
