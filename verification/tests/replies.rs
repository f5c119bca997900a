use screeps_creep::constants::{Direction, Part, ResourceType, ReturnCode};
use screeps_creep::reply::{FromReply, ReplyError, Value};
use screeps_creep::request::{MemoryReference, Reference};

#[test]
fn unsigned_numbers_are_read_through_their_whole_range() {
    assert_eq!(u32::from_reply(&Value::Integer(0)), Ok(0));
    assert_eq!(u32::from_reply(&Value::Integer(2_147_483_648)), Ok(2_147_483_648));
    assert_eq!(u32::from_reply(&Value::Integer(4_294_967_295)), Ok(4_294_967_295));
}

#[test]
fn unsigned_numbers_out_of_range_are_refused() {
    assert_eq!(u32::from_reply(&Value::Integer(-1)), Err(ReplyError::OutOfRange));
    assert_eq!(u32::from_reply(&Value::Integer(4_294_967_296)), Err(ReplyError::OutOfRange));
    assert_eq!(u32::from_reply(&Value::Integer(i64::MAX)), Err(ReplyError::OutOfRange));
    assert_eq!(u32::from_reply(&Value::Integer(i64::MIN)), Err(ReplyError::OutOfRange));
    assert_eq!(u32::from_reply(&Value::OtherNumber), Err(ReplyError::OutOfRange));
}

#[test]
fn signed_numbers_are_read_through_their_whole_range() {
    assert_eq!(i32::from_reply(&Value::Integer(-2_147_483_648)), Ok(i32::MIN));
    assert_eq!(i32::from_reply(&Value::Integer(2_147_483_647)), Ok(i32::MAX));
    assert_eq!(i32::from_reply(&Value::Integer(2_147_483_648)), Err(ReplyError::OutOfRange));
    assert_eq!(i32::from_reply(&Value::Integer(-2_147_483_649)), Err(ReplyError::OutOfRange));
    assert_eq!(i32::from_reply(&Value::Integer(9_007_199_254_740_993)), Err(ReplyError::OutOfRange));
    assert_eq!(i32::from_reply(&Value::OtherNumber), Err(ReplyError::OutOfRange));
}

#[test]
fn values_of_other_types_are_refused() {
    assert_eq!(u32::from_reply(&Value::Null), Err(ReplyError::TypeMismatch));
    assert_eq!(i32::from_reply(&Value::Bool(true)), Err(ReplyError::TypeMismatch));
    assert_eq!(bool::from_reply(&Value::Integer(1)), Err(ReplyError::TypeMismatch));
    assert_eq!(String::from_reply(&Value::Undefined), Err(ReplyError::TypeMismatch));
    assert_eq!(MemoryReference::from_reply(&Value::Symbol), Err(ReplyError::TypeMismatch));
    assert_eq!(
        ReturnCode::from_reply(&Value::Text(String::from("0"))),
        Err(ReplyError::TypeMismatch)
    );
}

#[test]
fn flags_texts_and_objects_are_read_as_they_are() {
    assert_eq!(bool::from_reply(&Value::Bool(true)), Ok(true));
    assert_eq!(bool::from_reply(&Value::Bool(false)), Ok(false));
    assert_eq!(
        String::from_reply(&Value::Text(String::from("Harvester1"))),
        Ok(String::from("Harvester1"))
    );
    assert_eq!(
        MemoryReference::from_reply(&Value::Object(Reference { id: 7 })),
        Ok(MemoryReference { reference: Reference { id: 7 } })
    );
}

#[test]
fn return_codes_are_read_from_their_numbers() {
    let all = [
        (0, ReturnCode::Success),
        (-1, ReturnCode::NotOwner),
        (-2, ReturnCode::NoPath),
        (-3, ReturnCode::NameExists),
        (-4, ReturnCode::Busy),
        (-5, ReturnCode::NotFound),
        (-6, ReturnCode::NotEnough),
        (-7, ReturnCode::InvalidTarget),
        (-8, ReturnCode::Full),
        (-9, ReturnCode::NotInRange),
        (-10, ReturnCode::InvalidArgs),
        (-11, ReturnCode::Tired),
        (-12, ReturnCode::NoBodypart),
        (-14, ReturnCode::RclNotEnough),
        (-15, ReturnCode::GclNotEnough),
    ];
    for (number, code) in all {
        assert_eq!(ReturnCode::from_reply(&Value::Integer(number)), Ok(code));
        assert_eq!(code.code() as i64, number);
    }
}

#[test]
fn unknown_return_codes_are_refused() {
    assert_eq!(ReturnCode::from_reply(&Value::Integer(1)), Err(ReplyError::UnknownCode));
    assert_eq!(ReturnCode::from_reply(&Value::Integer(-13)), Err(ReplyError::UnknownCode));
    assert_eq!(ReturnCode::from_reply(&Value::Integer(-16)), Err(ReplyError::UnknownCode));
    assert_eq!(
        ReturnCode::from_reply(&Value::Integer(-2_147_483_649)),
        Err(ReplyError::OutOfRange)
    );
}

#[test]
fn parts_are_read_from_their_numbers() {
    let all = [
        Part::Move,
        Part::Work,
        Part::Carry,
        Part::Attack,
        Part::RangedAttack,
        Part::Tough,
        Part::Heal,
        Part::Claim,
    ];
    for (number, part) in all.into_iter().enumerate() {
        assert_eq!(part.code() as usize, number);
        assert_eq!(Part::from_reply(&Value::Integer(number as i64)), Ok(part));
    }
    assert_eq!(Part::from_reply(&Value::Integer(8)), Err(ReplyError::UnknownCode));
    assert_eq!(Part::from_reply(&Value::Integer(-1)), Err(ReplyError::OutOfRange));
}

#[test]
fn resources_are_read_from_their_numbers() {
    for number in 1..=44u32 {
        let resource = ResourceType::from_code(number).unwrap();
        assert_eq!(resource.code(), number);
        assert_eq!(ResourceType::from_reply(&Value::Integer(number as i64)), Ok(resource));
    }
    assert_eq!(ResourceType::from_code(0), None);
    assert_eq!(ResourceType::from_code(45), None);
    assert_eq!(ResourceType::Energy.code(), 1);
    assert_eq!(ResourceType::Ops.code(), 44);
}

#[test]
fn a_missing_resource_is_anything_but_a_number() {
    assert_eq!(Option::<ResourceType>::from_reply(&Value::Null), Ok(None));
    assert_eq!(Option::<ResourceType>::from_reply(&Value::Undefined), Ok(None));
    assert_eq!(Option::<ResourceType>::from_reply(&Value::Text(String::new())), Ok(None));
    assert_eq!(
        Option::<ResourceType>::from_reply(&Value::Integer(2)),
        Ok(Some(ResourceType::Power))
    );
    assert_eq!(
        Option::<ResourceType>::from_reply(&Value::Integer(0)),
        Err(ReplyError::UnknownCode)
    );
    assert_eq!(
        Option::<ResourceType>::from_reply(&Value::OtherNumber),
        Err(ReplyError::OutOfRange)
    );
}

#[test]
fn directions_go_clockwise_from_the_top() {
    let all = [
        Direction::Top,
        Direction::TopRight,
        Direction::Right,
        Direction::BottomRight,
        Direction::Bottom,
        Direction::BottomLeft,
        Direction::Left,
        Direction::TopLeft,
    ];
    for (index, direction) in all.into_iter().enumerate() {
        assert_eq!(direction.code() as usize, index + 1);
    }
}
