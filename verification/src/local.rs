//! Rooms and positions, kept as plain numbers.
use vstd::prelude::*;
use vstd::string::StrSliceExecFns;

verus! {

/// The number of tiles along each side of a room.
pub const ROOM_SIZE: u32 = 50;

pub open spec fn is_digit(c: char) -> bool {
    '0' <= c <= '9'
}

/// A non-empty run of decimal digits.
pub open spec fn is_numeral(digits: Seq<char>) -> bool {
    &&& digits.len() > 0
    &&& forall|i: int| 0 <= i < digits.len() ==> is_digit(#[trigger] digits[i])
}

/// The number that decimal digits write.
pub open spec fn numeral_value(digits: Seq<char>) -> int
    decreases digits.len(),
{
    if digits.len() == 0 {
        0
    } else {
        10 * numeral_value(digits.drop_last()) + (digits.last() as int - '0' as int)
    }
}

/// A room of the world map.
///
/// Rooms are laid out on a grid whose columns and rows both go from -128 to 127. The column is
/// the upper byte of `packed` and the row its lower byte, each 128 too large.
#[derive(Clone, Copy, Debug, PartialEq, Eq, Structural)]
pub struct RoomName {
    pub packed: u16,
}

impl RoomName {
    /// The column, counted eastwards: `E0` is 0 and `W0` is -1.
    pub open spec fn column(self) -> int {
        self.packed as int / 256 - 128
    }

    /// The row, counted southwards: `S0` is 0 and `N0` is -1.
    pub open spec fn row(self) -> int {
        self.packed as int % 256 - 128
    }

    /// Whether `name` is a name of this room whose second letter stands at `middle`: a letter
    /// for east or west, the distance, a letter for north or south, the distance.
    pub open spec fn is_named_at(self, name: Seq<char>, middle: int) -> bool {
        let across = numeral_value(name.subrange(1, middle));
        let along = numeral_value(name.subrange(middle + 1, name.len() as int));
        &&& 1 < middle < name.len() - 1
        &&& is_numeral(name.subrange(1, middle))
        &&& is_numeral(name.subrange(middle + 1, name.len() as int))
        &&& match name[0] {
            'E' | 'e' => self.column() == across,
            'W' | 'w' => self.column() == -across - 1,
            _ => false,
        }
        &&& match name[middle] {
            'S' | 's' => self.row() == along,
            'N' | 'n' => self.row() == -along - 1,
            _ => false,
        }
    }

    /// Whether `name` names this room.
    pub open spec fn is_named(self, name: Seq<char>) -> bool {
        exists|middle: int| #[trigger] self.is_named_at(name, middle)
    }

    /// Reads a room's name, such as `E12S7`. Letters may have either case.
    pub fn parse(name: &str) -> (room: Option<RoomName>)
        ensures
            room matches Some(found) ==> found.is_named(name@),
            room is None ==> forall|other: RoomName| !#[trigger] other.is_named(name@),
            room is Some <==> names_a_room(name@),
    {
        let len: usize = name.unicode_len();
        if len < 4 {
            return None;
        }
        let (middle, across) = scan_numeral(name, 1, len);
        proof {
            assert forall|other: RoomName, at: int| #[trigger] other.is_named_at(
                name@,
                at,
            ) implies at == middle by {
                lemma_middle_follows_digits(other, name@, at, middle as int);
            }
        }
        if middle >= len - 1 || middle == 1 {
            return None;
        }
        let (end, along) = scan_numeral(name, middle + 1, len);
        proof {
            assert forall|other: RoomName, at: int| #[trigger] other.is_named_at(
                name@,
                at,
            ) implies end == len by {
                if end < len {
                    let rest = name@.subrange(middle + 1, len as int);
                    assert(is_digit(rest[end - (middle + 1)]));
                }
            }
        }
        if end < len || across > 127 || along > 127 {
            return None;
        }
        let column: u16 = match name.get_char(0) {
            'E' | 'e' => 128 + across,
            'W' | 'w' => 127 - across,
            _ => { return None; },
        };
        let row: u16 = match name.get_char(middle) {
            'S' | 's' => 128 + along,
            'N' | 'n' => 127 - along,
            _ => { return None; },
        };
        let room = RoomName { packed: column * 256 + row };
        assert(room.is_named_at(name@, middle as int));
        assert(room.is_named(name@));
        Some(room)
    }
}

/// Whether `name` names some room.
pub open spec fn names_a_room(name: Seq<char>) -> bool {
    exists|room: RoomName| #[trigger] room.is_named(name)
}

/// Reads the digits of `name` from `start` on. The value is that of the digits read, or 128
/// where they write a larger one.
fn scan_numeral(name: &str, start: usize, len: usize) -> (found: (usize, u16))
    requires
        start <= len,
        len == name@.len(),
    ensures
        start <= found.0 <= len,
        forall|i: int| start <= i < found.0 ==> is_digit(#[trigger] name@[i]),
        found.0 < len ==> !is_digit(name@[found.0 as int]),
        found.1 == capped(numeral_value(name@.subrange(start as int, found.0 as int))),
{
    let mut end: usize = start;
    let mut value: u16 = 0;
    while end < len
        invariant
            start <= end <= len,
            len == name@.len(),
            forall|i: int| start <= i < end ==> is_digit(#[trigger] name@[i]),
            value == capped(numeral_value(name@.subrange(start as int, end as int))),
            numeral_value(name@.subrange(start as int, end as int)) >= 0,
        decreases len - end,
    {
        let c = name.get_char(end);
        if c < '0' || c > '9' {
            return (end, value);
        }
        let digit: u16 = (c as u32 - 48) as u16;
        assert(name@.subrange(start as int, end + 1).drop_last() == name@.subrange(
            start as int,
            end as int,
        ));
        value = if value > 127 || value * 10 + digit > 127 {
            128
        } else {
            value * 10 + digit
        };
        end = end + 1;
    }
    (end, value)
}

/// `value`, or 128 where it is larger.
spec fn capped(value: int) -> int {
    if value > 127 {
        128
    } else {
        value
    }
}

/// The second letter of a name stands where the digits that follow the first letter end.
proof fn lemma_middle_follows_digits(room: RoomName, name: Seq<char>, middle: int, end: int)
    requires
        room.is_named_at(name, middle),
        1 <= end <= name.len(),
        forall|i: int| 1 <= i < end ==> is_digit(#[trigger] name[i]),
        end < name.len() ==> !is_digit(name[end]),
    ensures
        middle == end,
{
    if end < middle {
        assert(is_digit(name.subrange(1, middle)[end - 1]));
    }
}

/// What a position says: a tile, and the room that holds it.
pub struct PositionModel {
    pub x: int,
    pub y: int,
    pub room_name: RoomName,
}

impl PositionModel {
    /// The position as one number: the room in the upper two bytes, then `x`, then `y`.
    pub open spec fn packed(self) -> int {
        self.room_name.packed * 65536 + self.x * 256 + self.y
    }

    /// Whether the tile lies within the room.
    pub open spec fn in_room(self) -> bool {
        &&& 0 <= self.x < ROOM_SIZE
        &&& 0 <= self.y < ROOM_SIZE
    }
}

/// A tile of a room.
#[derive(Clone, Copy, Debug, PartialEq, Eq, Structural)]
pub struct Position {
    x: u32,
    y: u32,
    room_name: RoomName,
}

impl View for Position {
    type V = PositionModel;

    closed spec fn view(&self) -> PositionModel {
        PositionModel { x: self.x as int, y: self.y as int, room_name: self.room_name }
    }
}

impl Position {
    #[verifier::type_invariant]
    spec fn valid(self) -> bool {
        self.x < ROOM_SIZE && self.y < ROOM_SIZE
    }

    /// The tile in column `x` and row `y` of a room.
    pub fn new(x: u32, y: u32, room_name: RoomName) -> (position: Position)
        requires
            x < ROOM_SIZE,
            y < ROOM_SIZE,
        ensures
            position@ == (PositionModel { x: x as int, y: y as int, room_name }),
    {
        Position { x, y, room_name }
    }

    /// The room that holds the tile.
    pub fn room_name(self) -> (room_name: RoomName)
        ensures
            room_name == self@.room_name,
    {
        self.room_name
    }

    /// The position as one number: the room in the upper two bytes, then `x`, then `y`.
    pub fn packed_repr(self) -> (packed: u32)
        ensures
            packed == self@.packed(),
            self@.in_room(),
    {
        proof {
            use_type_invariant(&self);
        }
        self.room_name.packed as u32 * 65536 + self.x * 256 + self.y
    }
}

} // verus!
