use screeps_creep::local::{Position, RoomName};

fn room(column: i32, row: i32) -> Option<RoomName> {
    Some(RoomName { packed: ((column + 128) * 256 + row + 128) as u16 })
}

#[test]
fn room_names_give_column_and_row() {
    assert_eq!(RoomName::parse("E0S0"), room(0, 0));
    assert_eq!(RoomName::parse("W0N0"), room(-1, -1));
    assert_eq!(RoomName::parse("E12S7"), room(12, 7));
    assert_eq!(RoomName::parse("w5n60"), room(-6, -61));
    assert_eq!(RoomName::parse("e01S0009"), room(1, 9));
}

#[test]
fn room_names_reach_the_corners_of_the_map() {
    assert_eq!(RoomName::parse("W127N127"), Some(RoomName { packed: 0 }));
    assert_eq!(RoomName::parse("E127S127"), Some(RoomName { packed: 65535 }));
    assert_eq!(RoomName::parse("E128S0"), None);
    assert_eq!(RoomName::parse("E0N128"), None);
    assert_eq!(RoomName::parse("W99999999999999999999S1"), None);
}

#[test]
fn what_names_no_room_is_refused() {
    for name in [
        "", "E", "E1", "E1S", "ES1", "E1S1x", "X1S1", "E1Q1", "1E1S", "E 1S1", "E1S-1", "E+1S1",
        "E1\u{661}S1", "E1S1S1", "sim",
    ] {
        assert_eq!(RoomName::parse(name), None, "{}", name);
    }
}

#[test]
fn positions_are_packed_into_bytes() {
    let home = RoomName { packed: 0x8081 };
    assert_eq!(Position::new(0, 0, home).packed_repr(), 0x8081_0000);
    assert_eq!(Position::new(49, 3, home).packed_repr(), 0x8081_3103);
    assert_eq!(Position::new(3, 49, home).packed_repr(), 0x8081_0331);
    assert_eq!(Position::new(49, 49, RoomName { packed: 65535 }).packed_repr(), 0xFFFF_3131);
    assert_eq!(Position::new(1, 2, home).room_name(), home);
}

#[test]
fn packed_positions_give_the_position_back() {
    let home = RoomName { packed: 0x7FFE };
    for x in 0..50u32 {
        for y in 0..50u32 {
            let packed = Position::new(x, y, home).packed_repr();
            assert_eq!(packed / 65536, 0x7FFE);
            assert_eq!(packed / 256 % 256, x);
            assert_eq!(packed % 256, y);
        }
    }
}
