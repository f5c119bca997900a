//! The objects that creeps act on.
use vstd::prelude::*;

use crate::constants::Direction;
use crate::local::Position;
use crate::request::Reference;

verus! {

/// An object of the game that JavaScript holds.
pub trait GameObject {
    spec fn object(&self) -> Reference;

    /// The handle on the object.
    fn reference(&self) -> (reference: Reference)
        ensures
            reference == self.object(),
    ;
}

/// Something that stands on a tile.
pub trait HasPosition {
    spec fn position(&self) -> Position;

    /// The tile.
    fn pos(&self) -> (position: Position)
        ensures
            position == self.position(),
    ;
}

/// What creeps can attack.
pub trait Attackable: GameObject {

}

/// What creeps can harvest.
pub trait Harvestable: GameObject {

}

/// What creeps can transfer resources to.
pub trait Transferable: GameObject {

}

/// What creeps can withdraw resources from.
pub trait Withdrawable: GameObject {

}

/// What is built, and can be repaired or dismantled.
pub trait StructureProperties: GameObject {

}

impl HasPosition for Position {
    open spec fn position(&self) -> Position {
        *self
    }

    fn pos(&self) -> (position: Position) {
        *self
    }
}

/// The controller of a room.
#[derive(Clone, Copy, Debug)]
pub struct StructureController {
    pub reference: Reference,
    pub pos: Position,
}

impl GameObject for StructureController {
    open spec fn object(&self) -> Reference {
        self.reference
    }

    fn reference(&self) -> (reference: Reference) {
        self.reference
    }
}

impl HasPosition for StructureController {
    open spec fn position(&self) -> Position {
        self.pos
    }

    fn pos(&self) -> (position: Position) {
        self.pos
    }
}

impl StructureProperties for StructureController {

}

/// A container, which holds any resource.
#[derive(Clone, Copy, Debug)]
pub struct StructureContainer {
    pub reference: Reference,
    pub pos: Position,
}

impl GameObject for StructureContainer {
    open spec fn object(&self) -> Reference {
        self.reference
    }

    fn reference(&self) -> (reference: Reference) {
        self.reference
    }
}

impl HasPosition for StructureContainer {
    open spec fn position(&self) -> Position {
        self.pos
    }

    fn pos(&self) -> (position: Position) {
        self.pos
    }
}

impl Attackable for StructureContainer {

}

impl Transferable for StructureContainer {

}

impl Withdrawable for StructureContainer {

}

impl StructureProperties for StructureContainer {

}

/// A site on which a structure is being built.
#[derive(Clone, Copy, Debug)]
pub struct ConstructionSite {
    pub reference: Reference,
    pub pos: Position,
}

impl GameObject for ConstructionSite {
    open spec fn object(&self) -> Reference {
        self.reference
    }

    fn reference(&self) -> (reference: Reference) {
        self.reference
    }
}

impl HasPosition for ConstructionSite {
    open spec fn position(&self) -> Position {
        self.pos
    }

    fn pos(&self) -> (position: Position) {
        self.pos
    }
}

/// A pile of a resource, dropped on the ground.
#[derive(Clone, Copy, Debug)]
pub struct Resource {
    pub reference: Reference,
    pub pos: Position,
}

impl GameObject for Resource {
    open spec fn object(&self) -> Reference {
        self.reference
    }

    fn reference(&self) -> (reference: Reference) {
        self.reference
    }
}

impl HasPosition for Resource {
    open spec fn position(&self) -> Position {
        self.pos
    }

    fn pos(&self) -> (position: Position) {
        self.pos
    }
}

/// A source of energy.
#[derive(Clone, Copy, Debug)]
pub struct Source {
    pub reference: Reference,
    pub pos: Position,
}

impl GameObject for Source {
    open spec fn object(&self) -> Reference {
        self.reference
    }

    fn reference(&self) -> (reference: Reference) {
        self.reference
    }
}

impl HasPosition for Source {
    open spec fn position(&self) -> Position {
        self.pos
    }

    fn pos(&self) -> (position: Position) {
        self.pos
    }
}

impl Harvestable for Source {

}

/// One step of a path: the tile that it leads to, and the way there.
#[derive(Clone, Copy, Debug, PartialEq, Eq, Structural)]
pub struct Step {
    pub x: u32,
    pub y: u32,
    pub dx: i32,
    pub dy: i32,
    pub direction: Direction,
}

/// What a search for a path found. The path itself stays in JavaScript.
#[derive(Clone, Copy, Debug)]
pub struct SearchResults {
    pub path: Reference,
}

impl SearchResults {
    /// The handle on the path.
    pub fn opaque_path(&self) -> (path: Reference)
        ensures
            path == self.path,
    {
        self.path
    }
}

} // verus!
