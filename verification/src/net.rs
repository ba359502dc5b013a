//! The shapes of the world data that travels between client and server.

use vstd::prelude::*;

verus! {

/// The position of a voxel in the world, counted in cells.
#[derive(Clone, Copy, Debug, PartialEq, Eq, Structural)]
pub struct VPosition {
    pub x: i32,
    pub y: i32,
    pub z: i32,
}

/// A direction of view, each angle in 256ths of a turn.
#[derive(Clone, Copy, Debug, PartialEq, Eq, Structural)]
pub struct Rotation {
    pub yaw: u8,
    pub pitch: u8,
}

/// A side of a voxel, as named on the wire.
#[derive(Clone, Copy, Debug, PartialEq, Eq, Structural)]
pub enum Face {
    Top,
    Bottom,
    North,
    South,
    East,
    West,
}

impl Face {
    /// The number that stands for the face on the wire.
    pub open spec fn spec_value(self) -> u8 {
        match self {
            Face::Top => 0,
            Face::Bottom => 1,
            Face::North => 2,
            Face::South => 3,
            Face::East => 4,
            Face::West => 5,
        }
    }

    /// The number that stands for the face on the wire.
    pub fn value(&self) -> (v: u8)
        ensures
            v == self.spec_value(),
    {
        match self {
            Face::Top => 0,
            Face::Bottom => 1,
            Face::North => 2,
            Face::South => 3,
            Face::East => 4,
            Face::West => 5,
        }
    }

    /// The face that `value` stands for on the wire, if it stands for one.
    pub fn from_value(value: u8) -> (face: Option<Face>)
        ensures
            match face {
                Some(f) => f.spec_value() == value,
                None => value > 5,
            },
    {
        match value {
            0 => Some(Face::Top),
            1 => Some(Face::Bottom),
            2 => Some(Face::North),
            3 => Some(Face::South),
            4 => Some(Face::East),
            5 => Some(Face::West),
            _ => None,
        }
    }
}

/// How far a player has come with mining a voxel.
#[derive(Clone, Copy, Debug, PartialEq, Eq, Structural)]
pub enum PlayerMiningStatus {
    /// The player started to mine.
    Started,
    /// The player stopped mining, for one by looking away.
    Stopped,
    /// The player holds the voxel to be mined through.
    Completed,
}

} // verus!
