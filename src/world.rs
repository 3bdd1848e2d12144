use vstd::prelude::*;
use crate::tag::{Tag, tag3};

verus! {

/// Room numbers run from 1 to `N_ROOMS - 1`; 0 stands for "no exit".
pub type RoomId = u8;

/// Object numbers index the object table.
pub type ObjId = usize;

pub const N_ROOMS: u8 = 20;
pub const N_OBJECTS: usize = 18;
/// How many objects the player can carry at once.
pub const MAX_INVENTORY: usize = 5;

pub const START_ROOM: RoomId = 1;
pub const KITCHEN: RoomId = 2;
pub const LIBRARY: RoomId = 3;
pub const GARAGE: RoomId = 5;
pub const OPEN_FIELD: RoomId = 6;
pub const FOREST_EDGE: RoomId = 7;
pub const TREE_BRANCH: RoomId = 8;
pub const SOUTH_BANK: RoomId = 12;
pub const BOAT_ROOM: RoomId = 13;
pub const NORTH_BANK: RoomId = 14;
pub const CASTLE_GATE: RoomId = 16;
pub const NARROW_HALL: RoomId = 17;
pub const TREE_TOP: RoomId = 19;
/// Exit value of a passage that the guard blocks.
pub const GUARDED: RoomId = 128;

pub const SALT: ObjId = 4;
pub const BOTTLE: ObjId = 7;
pub const LADDER: ObjId = 8;
pub const SHOVEL: ObjId = 9;
pub const SWORD: ObjId = 11;
pub const BOAT_OBJ: ObjId = 12;
pub const FAN: ObjId = 13;
pub const GUARD: ObjId = 14;
pub const RUBY: ObjId = 16;
pub const GLOVES: ObjId = 17;

pub open spec fn is_room(r: u8) -> bool {
    1 <= r < N_ROOMS
}

/// Where an object is.
#[derive(Clone, Copy, PartialEq, Eq, Structural, Debug)]
pub enum Loc {
    /// Not yet in the world (hidden, or gone for good).
    Unrevealed,
    /// Lying on the floor of a room.
    InRoom(RoomId),
    /// Carried by the player.
    Carried,
    /// Fixed in a room: visible there, never carried.
    Fixed(RoomId),
}

/// The room an object can be seen in, if any.
pub open spec fn room_of(l: Loc) -> Option<RoomId> {
    match l {
        Loc::InRoom(r) => Some(r),
        Loc::Fixed(r) => Some(r),
        _ => None,
    }
}

pub fn seen_in(l: Loc) -> (r: Option<RoomId>)
    ensures
        r == room_of(l),
{
    match l {
        Loc::InRoom(r) => Some(r),
        Loc::Fixed(r) => Some(r),
        _ => None,
    }
}

#[derive(Clone, Copy, PartialEq, Eq, Structural, Debug)]
pub enum Dir {
    N,
    S,
    E,
    W,
    U,
    D,
    /// Boarding the boat from a river bank.
    Boat,
}

#[derive(Clone, Copy)]
pub struct RoomInfo {
    pub desc: &'static str,
    pub n: RoomId,
    pub s: RoomId,
    pub e: RoomId,
    pub w: RoomId,
    pub u: RoomId,
    pub d: RoomId,
}

#[derive(Clone, Copy)]
pub struct ObjectInfo {
    pub name: &'static str,
    pub tag: Tag,
    pub start: Loc,
}

/// The map. Any number that is not a room reads as the empty room 0.
pub open spec fn room_spec(r: RoomId) -> RoomInfo {
    match r {
        1 => RoomInfo { desc: "IN YOUR LIVING ROOM.", n: 2, s: 3, e: 4, w: 0, u: 0, d: 0 },
        2 => RoomInfo { desc: "IN THE KITCHEN.", n: 0, s: 1, e: 0, w: 0, u: 0, d: 0 },
        3 => RoomInfo { desc: "IN THE LIBRARY.", n: 1, s: 0, e: 0, w: 0, u: 0, d: 0 },
        4 => RoomInfo { desc: "IN THE FRONT YARD.", n: 0, s: 5, e: 0, w: 1, u: 0, d: 0 },
        5 => RoomInfo { desc: "IN THE GARAGE.", n: 4, s: 0, e: 0, w: 0, u: 0, d: 0 },
        6 => RoomInfo { desc: "IN AN OPEN FIELD.", n: 9, s: 7, e: 0, w: 0, u: 0, d: 0 },
        7 => RoomInfo { desc: "AT THE EDGE OF A FOREST.", n: 6, s: 0, e: 0, w: 0, u: 0, d: 0 },
        8 => RoomInfo { desc: "ON A BRANCH OF A TREE.", n: 0, s: 0, e: 0, w: 0, u: 0, d: 7 },
        9 => RoomInfo { desc: "ON A LONG, WINDING ROAD.", n: 0, s: 6, e: 10, w: 0, u: 0, d: 0 },
        10 => RoomInfo { desc: "ON A LONG, WINDING ROAD.", n: 11, s: 0, e: 0, w: 9, u: 0, d: 0 },
        11 => RoomInfo { desc: "ON A LONG, WINDING ROAD.", n: 0, s: 10, e: 0, w: 12, u: 0, d: 0 },
        12 => RoomInfo { desc: "ON THE SOUTH BANK OF A RIVER.", n: 0, s: 0, e: 11, w: 0, u: 0, d: 0 },
        13 => RoomInfo { desc: "INSIDE THE WOODEN BOAT.", n: 0, s: 0, e: 0, w: 0, u: 0, d: 0 },
        14 => RoomInfo { desc: "ON THE NORTH BANK OF A RIVER.", n: 15, s: 0, e: 0, w: 0, u: 0, d: 0 },
        15 => RoomInfo { desc: "ON A WELL-TRAVELED ROAD.", n: 16, s: 14, e: 0, w: 0, u: 0, d: 0 },
        16 => RoomInfo { desc: "IN FRONT OF A LARGE CASTLE.", n: GUARDED, s: 15, e: 0, w: 0, u: 0, d: 0 },
        17 => RoomInfo { desc: "IN A NARROW HALL.", n: 0, s: 16, e: 0, w: 0, u: 18, d: 0 },
        18 => RoomInfo { desc: "IN A LARGE HALL.", n: 0, s: 0, e: 0, w: 0, u: 0, d: 17 },
        19 => RoomInfo { desc: "ON THE TOP OF A TREE.", n: 0, s: 0, e: 0, w: 0, u: 0, d: 8 },
        _ => RoomInfo { desc: "NOWHERE?", n: 0, s: 0, e: 0, w: 0, u: 0, d: 0 },
    }
}

pub fn room(r: RoomId) -> (info: RoomInfo)
    ensures
        info == room_spec(r),
{
    match r {
        1 => RoomInfo { desc: "IN YOUR LIVING ROOM.", n: 2, s: 3, e: 4, w: 0, u: 0, d: 0 },
        2 => RoomInfo { desc: "IN THE KITCHEN.", n: 0, s: 1, e: 0, w: 0, u: 0, d: 0 },
        3 => RoomInfo { desc: "IN THE LIBRARY.", n: 1, s: 0, e: 0, w: 0, u: 0, d: 0 },
        4 => RoomInfo { desc: "IN THE FRONT YARD.", n: 0, s: 5, e: 0, w: 1, u: 0, d: 0 },
        5 => RoomInfo { desc: "IN THE GARAGE.", n: 4, s: 0, e: 0, w: 0, u: 0, d: 0 },
        6 => RoomInfo { desc: "IN AN OPEN FIELD.", n: 9, s: 7, e: 0, w: 0, u: 0, d: 0 },
        7 => RoomInfo { desc: "AT THE EDGE OF A FOREST.", n: 6, s: 0, e: 0, w: 0, u: 0, d: 0 },
        8 => RoomInfo { desc: "ON A BRANCH OF A TREE.", n: 0, s: 0, e: 0, w: 0, u: 0, d: 7 },
        9 => RoomInfo { desc: "ON A LONG, WINDING ROAD.", n: 0, s: 6, e: 10, w: 0, u: 0, d: 0 },
        10 => RoomInfo { desc: "ON A LONG, WINDING ROAD.", n: 11, s: 0, e: 0, w: 9, u: 0, d: 0 },
        11 => RoomInfo { desc: "ON A LONG, WINDING ROAD.", n: 0, s: 10, e: 0, w: 12, u: 0, d: 0 },
        12 => RoomInfo { desc: "ON THE SOUTH BANK OF A RIVER.", n: 0, s: 0, e: 11, w: 0, u: 0, d: 0 },
        13 => RoomInfo { desc: "INSIDE THE WOODEN BOAT.", n: 0, s: 0, e: 0, w: 0, u: 0, d: 0 },
        14 => RoomInfo { desc: "ON THE NORTH BANK OF A RIVER.", n: 15, s: 0, e: 0, w: 0, u: 0, d: 0 },
        15 => RoomInfo { desc: "ON A WELL-TRAVELED ROAD.", n: 16, s: 14, e: 0, w: 0, u: 0, d: 0 },
        16 => RoomInfo { desc: "IN FRONT OF A LARGE CASTLE.", n: GUARDED, s: 15, e: 0, w: 0, u: 0, d: 0 },
        17 => RoomInfo { desc: "IN A NARROW HALL.", n: 0, s: 16, e: 0, w: 0, u: 18, d: 0 },
        18 => RoomInfo { desc: "IN A LARGE HALL.", n: 0, s: 0, e: 0, w: 0, u: 0, d: 17 },
        19 => RoomInfo { desc: "ON THE TOP OF A TREE.", n: 0, s: 0, e: 0, w: 0, u: 0, d: 8 },
        _ => RoomInfo { desc: "NOWHERE?", n: 0, s: 0, e: 0, w: 0, u: 0, d: 0 },
    }
}

/// The objects of the world and where each starts.
pub open spec fn object_spec(i: ObjId) -> ObjectInfo {
    match i {
        0 => ObjectInfo { name: "DUMMY", tag: tag3('D', 'U', 'M'), start: Loc::Unrevealed },
        1 => ObjectInfo { name: "AN OLD DIARY", tag: tag3('D', 'I', 'A'), start: Loc::InRoom(1) },
        2 => ObjectInfo { name: "A SMALL BOX", tag: tag3('B', 'O', 'X'), start: Loc::InRoom(1) },
        3 => ObjectInfo { name: "A CABINET", tag: tag3('C', 'A', 'B'), start: Loc::Fixed(LIBRARY) },
        4 => ObjectInfo { name: "A SALT SHAKER", tag: tag3('S', 'A', 'L'), start: Loc::Unrevealed },
        5 => ObjectInfo { name: "A DICTIONARY", tag: tag3('D', 'I', 'C'), start: Loc::InRoom(3) },
        6 => ObjectInfo { name: "A WOODEN BARREL", tag: tag3('B', 'A', 'R'), start: Loc::Fixed(GARAGE) },
        7 => ObjectInfo { name: "A SMALL BOTTLE", tag: tag3('B', 'O', 'T'), start: Loc::Unrevealed },
        8 => ObjectInfo { name: "A LADDER", tag: tag3('L', 'A', 'D'), start: Loc::InRoom(4) },
        9 => ObjectInfo { name: "A SHOVEL", tag: tag3('S', 'H', 'O'), start: Loc::InRoom(5) },
        10 => ObjectInfo { name: "A TREE", tag: tag3('T', 'R', 'E'), start: Loc::Fixed(FOREST_EDGE) },
        11 => ObjectInfo { name: "A GOLDEN SWORD", tag: tag3('S', 'W', 'O'), start: Loc::Unrevealed },
        12 => ObjectInfo { name: "A WOODEN BOAT", tag: tag3('B', 'O', 'A'), start: Loc::Fixed(SOUTH_BANK) },
        13 => ObjectInfo { name: "A MAGIC FAN", tag: tag3('F', 'A', 'N'), start: Loc::InRoom(8) },
        14 => ObjectInfo { name: "A NASTY-LOOKING GUARD", tag: tag3('G', 'U', 'A'), start: Loc::Fixed(16) },
        15 => ObjectInfo { name: "A GLASS CASE", tag: tag3('C', 'A', 'S'), start: Loc::Fixed(18) },
        16 => ObjectInfo { name: "A GLOWING RUBY", tag: tag3('R', 'U', 'B'), start: Loc::Unrevealed },
        _ => ObjectInfo { name: "A PAIR OF RUBBER GLOVES", tag: tag3('G', 'L', 'O'), start: Loc::InRoom(19) },
    }
}

pub fn object(i: ObjId) -> (info: ObjectInfo)
    requires
        i < N_OBJECTS,
    ensures
        info == object_spec(i),
{
    match i {
        0 => ObjectInfo { name: "DUMMY", tag: Tag { len: 3, b0: 'D' as u8, b1: 'U' as u8, b2: 'M' as u8 }, start: Loc::Unrevealed },
        1 => ObjectInfo { name: "AN OLD DIARY", tag: Tag { len: 3, b0: 'D' as u8, b1: 'I' as u8, b2: 'A' as u8 }, start: Loc::InRoom(1) },
        2 => ObjectInfo { name: "A SMALL BOX", tag: Tag { len: 3, b0: 'B' as u8, b1: 'O' as u8, b2: 'X' as u8 }, start: Loc::InRoom(1) },
        3 => ObjectInfo { name: "A CABINET", tag: Tag { len: 3, b0: 'C' as u8, b1: 'A' as u8, b2: 'B' as u8 }, start: Loc::Fixed(LIBRARY) },
        4 => ObjectInfo { name: "A SALT SHAKER", tag: Tag { len: 3, b0: 'S' as u8, b1: 'A' as u8, b2: 'L' as u8 }, start: Loc::Unrevealed },
        5 => ObjectInfo { name: "A DICTIONARY", tag: Tag { len: 3, b0: 'D' as u8, b1: 'I' as u8, b2: 'C' as u8 }, start: Loc::InRoom(3) },
        6 => ObjectInfo { name: "A WOODEN BARREL", tag: Tag { len: 3, b0: 'B' as u8, b1: 'A' as u8, b2: 'R' as u8 }, start: Loc::Fixed(GARAGE) },
        7 => ObjectInfo { name: "A SMALL BOTTLE", tag: Tag { len: 3, b0: 'B' as u8, b1: 'O' as u8, b2: 'T' as u8 }, start: Loc::Unrevealed },
        8 => ObjectInfo { name: "A LADDER", tag: Tag { len: 3, b0: 'L' as u8, b1: 'A' as u8, b2: 'D' as u8 }, start: Loc::InRoom(4) },
        9 => ObjectInfo { name: "A SHOVEL", tag: Tag { len: 3, b0: 'S' as u8, b1: 'H' as u8, b2: 'O' as u8 }, start: Loc::InRoom(5) },
        10 => ObjectInfo { name: "A TREE", tag: Tag { len: 3, b0: 'T' as u8, b1: 'R' as u8, b2: 'E' as u8 }, start: Loc::Fixed(FOREST_EDGE) },
        11 => ObjectInfo { name: "A GOLDEN SWORD", tag: Tag { len: 3, b0: 'S' as u8, b1: 'W' as u8, b2: 'O' as u8 }, start: Loc::Unrevealed },
        12 => ObjectInfo { name: "A WOODEN BOAT", tag: Tag { len: 3, b0: 'B' as u8, b1: 'O' as u8, b2: 'A' as u8 }, start: Loc::Fixed(SOUTH_BANK) },
        13 => ObjectInfo { name: "A MAGIC FAN", tag: Tag { len: 3, b0: 'F' as u8, b1: 'A' as u8, b2: 'N' as u8 }, start: Loc::InRoom(8) },
        14 => ObjectInfo { name: "A NASTY-LOOKING GUARD", tag: Tag { len: 3, b0: 'G' as u8, b1: 'U' as u8, b2: 'A' as u8 }, start: Loc::Fixed(16) },
        15 => ObjectInfo { name: "A GLASS CASE", tag: Tag { len: 3, b0: 'C' as u8, b1: 'A' as u8, b2: 'S' as u8 }, start: Loc::Fixed(18) },
        16 => ObjectInfo { name: "A GLOWING RUBY", tag: Tag { len: 3, b0: 'R' as u8, b1: 'U' as u8, b2: 'B' as u8 }, start: Loc::Unrevealed },
        _ => ObjectInfo { name: "A PAIR OF RUBBER GLOVES", tag: Tag { len: 3, b0: 'G' as u8, b1: 'L' as u8, b2: 'O' as u8 }, start: Loc::InRoom(19) },
    }
}

/// Where an exit leads (0 when there is none), boat boarding aside.
pub open spec fn exit_spec(r: RoomId, d: Dir) -> RoomId {
    let info = room_spec(r);
    match d {
        Dir::N => info.n,
        Dir::S => info.s,
        Dir::E => info.e,
        Dir::W => info.w,
        Dir::U => info.u,
        Dir::D => info.d,
        Dir::Boat => if r == SOUTH_BANK || r == NORTH_BANK { BOAT_ROOM } else { 0 },
    }
}

pub fn exit(r: RoomId, d: Dir) -> (to: RoomId)
    ensures
        to == exit_spec(r, d),
{
    let info = room(r);
    match d {
        Dir::N => info.n,
        Dir::S => info.s,
        Dir::E => info.e,
        Dir::W => info.w,
        Dir::U => info.u,
        Dir::D => info.d,
        Dir::Boat => if r == SOUTH_BANK || r == NORTH_BANK { BOAT_ROOM } else { 0 },
    }
}

} // verus!
