//! What holds of rooms, their names, and positions.
use vstd::prelude::*;

use crate::laws::room_names_are_unambiguous;
use crate::local::{is_digit, is_numeral, names_a_room, numeral_value, Position, RoomName};

verus! {

/// Column and row tell a room: they make up its packed number, and each goes from -128 to 127.
pub proof fn rooms_are_told_by_column_and_row(room: RoomName)
    ensures
        -128 <= room.column() <= 127,
        -128 <= room.row() <= 127,
        room.packed == (room.column() + 128) * 256 + (room.row() + 128),
{
}

/// Digits are the ten characters from `0` to `9`, and a numeral is one of them or more.
pub proof fn numerals_are_made_of_digits(c: char, digits: Seq<char>)
    ensures
        is_digit(c) <==> 48 <= c as int <= 57,
        is_numeral(digits) <==> digits.len() > 0 && forall|i: int|
            0 <= i < digits.len() ==> 48 <= #[trigger] digits[i] as int <= 57,
{
    if is_numeral(digits) {
        assert forall|i: int| 0 <= i < digits.len() implies 48 <= #[trigger] digits[i] as int
            <= 57 by {
            assert(is_digit(digits[i]));
        }
    }
}

/// A digit written behind a numeral multiplies its value by ten and adds its own; a zero written
/// before it changes nothing.
pub proof fn numerals_are_decimal(digits: Seq<char>, digit: char)
    ensures
        numeral_value(Seq::<char>::empty()) == 0,
        numeral_value(digits.push(digit)) == 10 * numeral_value(digits) + (digit as int - 48),
        numeral_value(seq!['0'] + digits) == numeral_value(digits),
    decreases digits.len(),
{
    assert(digits.push(digit).drop_last() =~= digits);
    if digits.len() == 0 {
        assert((seq!['0'] + digits).drop_last() =~= digits);
    } else {
        let shorter = digits.drop_last();
        numerals_are_decimal(shorter, digit);
        assert((seq!['0'] + digits).drop_last() =~= seq!['0'] + shorter);
    }
}

/// The column that a first letter and a distance give.
pub open spec fn lies_across(letter: char, distance: int, column: int) -> bool {
    ||| (letter == 'E' || letter == 'e') && column == distance
    ||| (letter == 'W' || letter == 'w') && column == -1 - distance
}

/// The row that a second letter and a distance give.
pub open spec fn lies_along(letter: char, distance: int, row: int) -> bool {
    ||| (letter == 'S' || letter == 's') && row == distance
    ||| (letter == 'N' || letter == 'n') && row == -1 - distance
}

/// A letter, a numeral, a letter and a numeral name a room if and only if the first two give its
/// column and the last two its row. Neither pair has a say in what the other gives.
pub proof fn room_names_say_where_the_room_lies(
    room: RoomName,
    first: char,
    across: Seq<char>,
    second: char,
    along: Seq<char>,
)
    requires
        is_numeral(across),
        is_numeral(along),
    ensures
        room.is_named(seq![first] + across + seq![second] + along) <==> lies_across(
            first,
            numeral_value(across),
            room.column(),
        ) && lies_along(second, numeral_value(along), room.row()),
{
    let name = seq![first] + across + seq![second] + along;
    let middle = 1 + across.len() as int;
    assert(name.subrange(1, middle) =~= across);
    assert(name.subrange(middle + 1, name.len() as int) =~= along);
    assert(name[0] == first);
    assert(name[middle] == second);
    if room.is_named(name) {
        let at = choose|at: int| #[trigger] room.is_named_at(name, at);
        if at < middle {
            assert(name[at] == across[at - 1]);
            assert(is_digit(across[at - 1]));
        }
        if middle < at {
            assert(is_digit(name.subrange(1, at)[middle - 1]));
            assert(room.is_named_at(name, at));
            if at < name.len() {
                assert(name[at] == along[at - middle - 1]);
                assert(is_digit(along[at - middle - 1]));
            }
        }
        assert(at == middle);
    }
    if lies_across(first, numeral_value(across), room.column()) && lies_along(
        second,
        numeral_value(along),
        room.row(),
    ) {
        assert(room.is_named_at(name, middle));
    }
}

/// Whatever names a room is a letter, a numeral, a letter and a numeral.
pub proof fn room_names_have_four_parts(room: RoomName, name: Seq<char>)
    requires
        room.is_named(name),
    ensures
        exists|first: char, across: Seq<char>, second: char, along: Seq<char>|
            is_numeral(across) && is_numeral(along) && name == #[trigger] (seq![first] + across
                + seq![second] + along),
{
    let middle = choose|middle: int| #[trigger] room.is_named_at(name, middle);
    let across = name.subrange(1, middle);
    let along = name.subrange(middle + 1, name.len() as int);
    assert(name =~= seq![name[0]] + across + seq![name[middle]] + along);
    assert(is_numeral(across) && is_numeral(along));
}

/// The decimal numeral of a number below a thousand, without leading zeros.
pub open spec fn decimal(number: int) -> Seq<char> {
    if number < 10 {
        seq![(48 + number) as char]
    } else if number < 100 {
        seq![(48 + number / 10) as char, (48 + number % 10) as char]
    } else {
        seq![
            (48 + number / 100) as char,
            (48 + number / 10 % 10) as char,
            (48 + number % 10) as char,
        ]
    }
}

proof fn lemma_decimal(number: int)
    requires
        0 <= number < 1000,
    ensures
        is_numeral(decimal(number)),
        numeral_value(decimal(number)) == number,
{
    reveal_with_fuel(numeral_value, 4);
    let digits = decimal(number);
    assert(is_numeral(digits));
    assert(digits.drop_last().drop_last().len() == 0 || digits.len() == 3 || digits.len() == 1);
}

/// The name that the game gives a room.
pub open spec fn usual_name(room: RoomName) -> Seq<char> {
    let across = if room.column() >= 0 {
        seq!['E'] + decimal(room.column())
    } else {
        seq!['W'] + decimal(-1 - room.column())
    };
    let along = if room.row() >= 0 {
        seq!['S'] + decimal(room.row())
    } else {
        seq!['N'] + decimal(-1 - room.row())
    };
    across + along
}

/// Every room has its usual name, and no other room has it.
pub proof fn rooms_are_told_by_their_usual_names(room: RoomName, other: RoomName)
    ensures
        room.is_named(usual_name(room)),
        other.is_named(usual_name(room)) ==> other == room,
{
    rooms_are_told_by_column_and_row(room);
    let (first, distance) = if room.column() >= 0 {
        ('E', room.column())
    } else {
        ('W', -1 - room.column())
    };
    let (second, reach) = if room.row() >= 0 {
        ('S', room.row())
    } else {
        ('N', -1 - room.row())
    };
    lemma_decimal(distance);
    lemma_decimal(reach);
    room_names_say_where_the_room_lies(room, first, decimal(distance), second, decimal(reach));
    assert(usual_name(room) =~= seq![first] + decimal(distance) + seq![second] + decimal(reach));
    if other.is_named(usual_name(room)) {
        room_names_are_unambiguous(usual_name(room), other, room);
    }
}

/// Reading a name gives the room that it names, and nothing where it names none; reading the
/// usual name of a room gives that room back.
pub proof fn names_are_read_as_the_rooms_they_name(
    name: &str,
    read: Option<RoomName>,
    room: RoomName,
)
    requires
        call_ensures(RoomName::parse, (name,), read),
    ensures
        read == Some(room) <==> room.is_named(name@),
        name@ == usual_name(room) ==> read == Some(room),
{
    rooms_are_told_by_their_usual_names(room, room);
    if room.is_named(name@) {
        assert(names_a_room(name@));
        room_names_are_unambiguous(name@, read->0, room);
    }
}

/// Every tile of a room makes a position, whose packed number holds the room in its upper two
/// bytes, then `x`, then `y`; and the position keeps its room.
pub proof fn positions_keep_room_and_tile(
    x: u32,
    y: u32,
    room_name: RoomName,
    position: Position,
    packed: u32,
    kept: RoomName,
)
    requires
        call_ensures(Position::new, (x, y, room_name), position),
        call_ensures(Position::packed_repr, (position,), packed),
        call_ensures(Position::room_name, (position,), kept),
    ensures
        x < 50 && y < 50 ==> call_requires(Position::new, (x, y, room_name)),
        packed == room_name.packed * 65536 + x * 256 + y,
        x < 50,
        y < 50,
        kept == room_name,
{
}

} // verus!
