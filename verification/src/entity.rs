//! The simulated objects: what they are, where they are and how large.

use vstd::prelude::*;

verus! {

/// Side of an obstacle's square bounding box.
pub const OBSTACLE_SIDE: u32 = 150;

/// Side of the player's square bounding box.
pub const PLAYER_SIDE: u32 = 25;

/// Distance an obstacle travels to the left on each scroll tick.
pub const SCROLL_STEP: i64 = 10;

/// Distance the player rises in a frame in which the jump input is held.
pub const JUMP_STEP: i64 = 25;

/// Distance the player sinks in a frame in which the jump input is released.
pub const FALL_STEP: i64 = 1;

/// What an entity is. The two obstacle kinds differ in name only: both
/// scroll the same way.
#[derive(Clone, Copy, Debug, PartialEq, Eq, Structural)]
pub enum Kind {
    ObstacleTop,
    ObstacleBottom,
    Player,
}

/// A colour, by its red, green and blue parts.
#[derive(Clone, Copy, Debug, PartialEq, Eq, Structural)]
pub struct Rgb {
    pub red: u8,
    pub green: u8,
    pub blue: u8,
}

/// The centre of an entity's bounding box.
#[derive(Clone, Copy, Debug, PartialEq, Eq, Structural)]
pub struct Position {
    pub x: i64,
    pub y: i64,
}

/// The dimensions of an entity's bounding box.
#[derive(Clone, Copy, Debug, PartialEq, Eq, Structural)]
pub struct Size {
    pub width: u32,
    pub height: u32,
}

/// A simulated object.
#[derive(Clone, Copy, Debug, PartialEq, Eq, Structural)]
pub struct Entity {
    pub position: Position,
    pub kind: Kind,
    pub size: Size,
}

/// The player's entity, and whether it has ever touched an obstacle.
#[derive(Clone, Copy, Debug, PartialEq, Eq, Structural)]
pub struct Player {
    pub entity: Entity,
    pub collided: bool,
}

/// An entity as the rules of the game see it: a box around a centre, with
/// unbounded coordinates.
pub struct Body {
    pub x: int,
    pub y: int,
    pub kind: Kind,
    pub width: nat,
    pub height: nat,
}

/// The side of the square box that every entity of the given kind has.
pub open spec fn side_of(kind: Kind) -> nat {
    match kind {
        Kind::ObstacleTop => OBSTACLE_SIDE as nat,
        Kind::ObstacleBottom => OBSTACLE_SIDE as nat,
        Kind::Player => PLAYER_SIDE as nat,
    }
}

/// The colour in which an entity of the given kind is drawn: obstacles
/// green, the player red.
pub open spec fn color_of(kind: Kind) -> Rgb {
    match kind {
        Kind::ObstacleTop => Rgb { red: 0, green: 255, blue: 0 },
        Kind::ObstacleBottom => Rgb { red: 0, green: 255, blue: 0 },
        Kind::Player => Rgb { red: 255, green: 0, blue: 0 },
    }
}

/// A body of the given kind at the given centre.
pub open spec fn body_at(kind: Kind, x: int, y: int) -> Body {
    Body { x, y, kind, width: side_of(kind), height: side_of(kind) }
}

impl Body {
    /// The body moved by `dx` and `dy`; kind and size stay.
    pub open spec fn moved(self, dx: int, dy: int) -> Body {
        Body { x: self.x + dx, y: self.y + dy, ..self }
    }

    /// The body has the size that its kind prescribes.
    pub open spec fn wf(self) -> bool {
        self.width == side_of(self.kind) && self.height == side_of(self.kind)
    }

    /// The body is of one of the obstacle kinds.
    pub open spec fn is_obstacle(self) -> bool {
        self.kind != Kind::Player
    }
}

impl Kind {
    /// The side of the square box of an entity of this kind.
    pub fn side(self) -> (r: u32)
        ensures
            r == side_of(self),
    {
        match self {
            Kind::ObstacleTop => OBSTACLE_SIDE,
            Kind::ObstacleBottom => OBSTACLE_SIDE,
            Kind::Player => PLAYER_SIDE,
        }
    }

    /// The colour in which an entity of this kind is drawn.
    pub fn color(self) -> (r: Rgb)
        ensures
            r == color_of(self),
    {
        match self {
            Kind::ObstacleTop => Rgb { red: 0, green: 255, blue: 0 },
            Kind::ObstacleBottom => Rgb { red: 0, green: 255, blue: 0 },
            Kind::Player => Rgb { red: 255, green: 0, blue: 0 },
        }
    }

    /// Whether this kind is one of the obstacle kinds.
    pub fn is_obstacle(self) -> (r: bool)
        ensures
            r == (self != Kind::Player),
    {
        match self {
            Kind::ObstacleTop => true,
            Kind::ObstacleBottom => true,
            Kind::Player => false,
        }
    }
}

impl View for Entity {
    type V = Body;

    open spec fn view(&self) -> Body {
        Body {
            x: self.position.x as int,
            y: self.position.y as int,
            kind: self.kind,
            width: self.size.width as nat,
            height: self.size.height as nat,
        }
    }
}

impl Entity {
    /// The entity's size is the one that its kind prescribes.
    pub open spec fn wf(&self) -> bool {
        self@.wf()
    }

    /// An entity of the given kind, centred at `(x, y)`, with the size of its
    /// kind.
    pub fn new(kind: Kind, x: i64, y: i64) -> (r: Entity)
        ensures
            r@ == body_at(kind, x as int, y as int),
            r.wf(),
    {
        let side: u32 = kind.side();
        Entity { position: Position { x, y }, kind, size: Size { width: side, height: side } }
    }

    /// Whether the entity has the size that its kind prescribes.
    pub fn is_well_formed(&self) -> (r: bool)
        ensures
            r == self.wf(),
    {
        let side: u32 = self.kind.side();
        self.size.width == side && self.size.height == side
    }

    /// The centre of the entity's box.
    pub fn position(&self) -> (r: Position)
        ensures
            r == self.position,
    {
        self.position
    }

    /// The dimensions of the entity's box.
    pub fn size(&self) -> (r: Size)
        ensures
            r == self.size,
    {
        self.size
    }

    /// What the entity is.
    pub fn kind(&self) -> (r: Kind)
        ensures
            r == self.kind,
    {
        self.kind
    }
}

impl Player {
    /// The player is of kind `Player` and has the player's size.
    pub open spec fn wf(&self) -> bool {
        self.entity.wf() && self.entity.kind == Kind::Player
    }

    /// A player that has not collided, centred at `(x, y)`.
    pub fn new(x: i64, y: i64) -> (r: Player)
        ensures
            r.entity@ == body_at(Kind::Player, x as int, y as int),
            !r.collided,
            r.wf(),
    {
        Player { entity: Entity::new(Kind::Player, x, y), collided: false }
    }
}

} // verus!
