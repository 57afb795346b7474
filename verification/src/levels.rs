//! The world: levels, compass directions and the actors standing on a map.

use crate::audio::Music;
use vstd::prelude::*;

verus! {

/// Width and height of one map tile, in pixels.
pub const TILE_SIZE: i32 = 16;

/// Bound on a level's width or height, in tiles.
pub const LEVEL_DIM_LIMIT: i32 = 1000;

/// Bound on the magnitude of a level's world-pixel origin.
pub const WORLD_LIMIT: i32 = 1000000;

/// A compass direction.
#[derive(Clone, Copy, Debug, PartialEq, Eq, Structural)]
pub enum Direction {
    North,
    South,
    East,
    West,
}

/// Horizontal step of a direction, in tiles.
pub open spec fn spec_dx(dir: Direction) -> int {
    match dir {
        Direction::East => 1,
        Direction::West => -1,
        _ => 0,
    }
}

/// Vertical step of a direction, in tiles.
pub open spec fn spec_dy(dir: Direction) -> int {
    match dir {
        Direction::North => -1,
        Direction::South => 1,
        _ => 0,
    }
}

impl Direction {
    /// Horizontal step, in tiles.
    pub fn dx(self) -> (r: i32)
        ensures
            r == spec_dx(self),
    {
        match self {
            Direction::East => 1,
            Direction::West => -1,
            _ => 0,
        }
    }

    /// Vertical step, in tiles.
    pub fn dy(self) -> (r: i32)
        ensures
            r == spec_dy(self),
    {
        match self {
            Direction::North => -1,
            Direction::South => 1,
            _ => 0,
        }
    }

}

/// What kind of thing an actor is.
#[derive(Clone, Copy, Debug, PartialEq, Eq, Structural)]
pub enum ActorType {
    Player,
    Bed,
    Ducille,
    Jace,
    Julis,
    Matero,
    Earth,
    Water,
    Fire,
    Chest,
    Lever,
}

/// What a chest holds.
#[derive(Clone, Copy, Debug, PartialEq, Eq, Structural)]
pub enum ChestType {
    FireEdge,
    EarthEdge,
    WaterEdge,
    LongSword,
    ChainVest,
    DuelistSword,
    SteelArmor,
    ValorBlade,
    MythicPlate,
}

/// The animation an actor is showing.
#[derive(Clone, Copy, Debug, PartialEq, Eq, Structural)]
pub enum Animation {
    Idle,
    Open,
    Closed,
    LeverLeft,
    LeverRight,
    FaceNorth,
    FaceSouth,
    FaceEast,
    FaceWest,
}

/// An interactive entity on the map.  The actor at index zero of a level's
/// actor list is always the player.
#[derive(Clone, Copy, Debug)]
pub struct Actor {
    pub identifier: ActorType,
    pub grid_x: i32,
    pub grid_y: i32,
    pub visible: bool,
    pub animation: Animation,
    pub chest_type: Option<ChestType>,
}

impl Actor {
    /// Show the given animation.
    pub fn start_animation(&mut self, animation: Animation)
        ensures
            *final(self) == (Actor { animation, ..*old(self) }),
    {
        self.animation = animation;
    }
}

/// One loaded map.
#[derive(Clone, Copy, Debug)]
pub struct Level {
    /// Identifier of the level in the level data.
    pub identifier: u32,
    /// World-pixel coordinates of the level's origin.
    pub px_world_x: i32,
    pub px_world_y: i32,
    /// Size in tiles.
    pub width: i32,
    pub height: i32,
    /// Ambient track, if any.
    pub music: Option<Music>,
    /// Encounter table the level draws random battles from, if any.
    pub encounter_group: Option<u32>,
    /// Tile where gates have been placed, if any.
    pub gates: Option<(i32, i32)>,
    /// Whether the props tied to the level's lever stand in the turned
    /// position.
    pub lever_engaged: bool,
}

impl Level {
    /// Well-formedness: sane dimensions and a tile-aligned origin.
    pub open spec fn wf(self) -> bool {
        &&& 1 <= self.width <= LEVEL_DIM_LIMIT
        &&& 1 <= self.height <= LEVEL_DIM_LIMIT
        &&& 0 <= self.px_world_x <= WORLD_LIMIT
        &&& 0 <= self.px_world_y <= WORLD_LIMIT
        &&& self.px_world_x % TILE_SIZE == 0
        &&& self.px_world_y % TILE_SIZE == 0
    }

    /// Place gates at the given tile.
    pub fn place_gates(&mut self, tile_x: i32, tile_y: i32)
        ensures
            *final(self) == (Level { gates: Some((tile_x, tile_y)), ..*old(self) }),
    {
        self.gates = Some((tile_x, tile_y));
    }

    /// Put the props tied to the lever into the given position.
    pub fn sync_props_with_lever(&mut self, lever_turned: bool)
        ensures
            *final(self) == (Level { lever_engaged: lever_turned, ..*old(self) }),
    {
        self.lever_engaged = lever_turned;
    }
}

} // verus!
