//! Core logic of a small top-down space shooter and its level editor.
//!
//! The game itself runs on a host entity-component-system engine; what lives
//! here is the engine-independent logic: the faction rules that gate damage,
//! the resolution of bullet and contact hits, the level editor's point/line
//! graph with its solidification into wall colliders, the map and model asset
//! data with their collider regeneration, and the small decision machines
//! (weapon cooldown, chase behaviour) that drive it. Positions are modelled on
//! the integer grid the editor snaps to.

pub mod chase;
pub mod collision_groups;
pub mod color;
pub mod combat;
pub mod explode;
pub mod graph;
pub mod map_asset;
pub mod model_asset;
pub mod pairs;
pub mod team;
pub mod transform;
pub mod vec3i;
pub mod viewport;
pub mod wall;
pub mod weapon;
pub mod zlock;

pub use team::Team;
pub use vec3i::Vec3i;
