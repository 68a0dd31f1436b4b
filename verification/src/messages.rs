//! Plain values exchanged between the render loop, the RPC workers and the
//! streaming session worker: request payloads, responses, inbound
//! notifications, and the failure taxonomy.

use vstd::prelude::*;

verus! {

/// A grid coordinate.  The play field is an unbounded integer grid; a
/// character occupies exactly one cell.
#[derive(Clone, Copy, PartialEq, Eq, Structural, Debug)]
pub struct Position {
    pub x: i32,
    pub y: i32,
}

/// One of the eight discrete directions a character may step in per tick.
#[derive(Clone, Copy, PartialEq, Eq, Structural, Debug)]
pub enum Direction {
    North,
    NorthEast,
    East,
    SouthEast,
    South,
    SouthWest,
    West,
    NorthWest,
}

impl Direction {
    /// The horizontal component of one step in this direction.
    pub open spec fn spec_dx(self) -> int {
        match self {
            Direction::East | Direction::NorthEast | Direction::SouthEast => 1,
            Direction::West | Direction::NorthWest | Direction::SouthWest => -1,
            _ => 0,
        }
    }

    /// The vertical component of one step in this direction.
    pub open spec fn spec_dy(self) -> int {
        match self {
            Direction::North | Direction::NorthEast | Direction::NorthWest => 1,
            Direction::South | Direction::SouthEast | Direction::SouthWest => -1,
            _ => 0,
        }
    }

    /// The (dx, dy) delta of one step in this direction.
    pub fn delta(self) -> (r: (i32, i32))
        ensures
            r.0 as int == self.spec_dx(),
            r.1 as int == self.spec_dy(),
    {
        match self {
            Direction::North => (0, 1),
            Direction::NorthEast => (1, 1),
            Direction::East => (1, 0),
            Direction::SouthEast => (1, -1),
            Direction::South => (0, -1),
            Direction::SouthWest => (-1, -1),
            Direction::West => (-1, 0),
            Direction::NorthWest => (-1, 1),
        }
    }
}

impl Position {
    /// Whether one step from `self` in direction `d` stays within the
    /// machine range of a coordinate.
    pub open spec fn step_fits(self, d: Direction) -> bool {
        &&& i32::MIN <= self.x + d.spec_dx() <= i32::MAX
        &&& i32::MIN <= self.y + d.spec_dy() <= i32::MAX
    }

    /// One discrete grid step in direction `d`.
    pub fn step(self, d: Direction) -> (r: Position)
        requires
            self.step_fits(d),
        ensures
            r.x as int == self.x + d.spec_dx(),
            r.y as int == self.y + d.spec_dy(),
    {
        let (dx, dy) = d.delta();
        Position { x: self.x + dx, y: self.y + dy }
    }
}

/// One character a player owns or sees: a stable numeric identity, a display
/// name, and the last-known grid position when one is known.
#[derive(Clone, Debug)]
pub struct Character {
    pub id: i64,
    pub name: String,
    pub position: Option<Position>,
}

/// The opaque authentication token handed out by a successful login.
#[derive(Clone, Debug)]
pub struct Token {
    pub token: String,
}

/// The characters owned by the authenticated player.
#[derive(Clone, Debug)]
pub struct UserCharacters {
    pub characters: Vec<Character>,
}

/// The request of the login RPC.
#[derive(Clone, Debug)]
pub struct LoginPayload {
    pub username: String,
    pub password: Vec<u8>,
}

/// The response of a successful login RPC.
#[derive(Clone, Debug)]
pub struct LoginResponse {
    pub token: String,
    pub characters: Vec<Character>,
}

/// The request of the character creation RPC.
#[derive(Clone, Debug)]
pub struct CreateCharacterPayload {
    pub token: String,
    pub name: String,
}

/// One outbound message of the play stream: which character acts, under
/// which token, and optionally where it is.
#[derive(Clone, Debug)]
pub struct PlayGamePayload {
    pub token: String,
    pub character_id: i64,
    pub position: Option<Position>,
}

/// One position update inside an inbound notification batch.
#[derive(Clone, Copy, Debug)]
pub struct CharacterPosition {
    pub character_id: i64,
    pub position: Option<Position>,
}

/// One inbound notification batch of the play stream: characters that are
/// present on the field, and position updates for characters already seen.
/// A batch is always applied whole, never partially.
#[derive(Clone, Debug)]
pub struct GameNotif {
    pub character_on_notifs: Vec<Character>,
    pub character_position_notifs: Vec<CharacterPosition>,
}

/// Why an RPC failed.  The transport and the server's rejection are kept
/// apart in the data model even though the session's only recovery for
/// either is to clear the in-flight flag and stay on the current screen.
#[derive(Clone, Copy, PartialEq, Eq, Structural, Debug)]
pub enum RpcFailure {
    /// The connection or stream broke; the affected worker is done.
    TransportFailure,
    /// The server refused the request (bad credentials, invalid or taken
    /// name); the user may resubmit.
    RejectedByServer,
}

/// What a worker hands back for one request: exactly one outcome per
/// request, success or failure.
#[derive(Clone, Debug)]
pub enum RpcOutcome<T> {
    Success(T),
    Failure(RpcFailure),
}

} // verus!
