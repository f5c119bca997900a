//! What holds of reading answers.
use vstd::prelude::*;

use crate::constants::{Direction, Part, ResourceType, ReturnCode};
use crate::reply::{FromReply, ReplyError, Value};
use crate::request::{MemoryReference, Request};

verus! {

/// A text is read whole, and nothing but a text is read as one.
pub proof fn texts_are_read_whole(value: Value, read: Result<String, ReplyError>)
    requires
        call_ensures(String::from_reply, (&value,), read),
    ensures
        match value {
            Value::Text(text) => read matches Ok(found) && found@ == text@,
            _ => read == Err::<String, ReplyError>(ReplyError::TypeMismatch),
        },
{
}

/// A flag is read as it is, and nothing but a flag is read as one.
pub proof fn flags_are_read_as_they_are(value: Value, read: Result<bool, ReplyError>)
    requires
        call_ensures(bool::from_reply, (&value,), read),
    ensures
        match value {
            Value::Bool(flag) => read == Ok::<bool, ReplyError>(flag),
            _ => read == Err::<bool, ReplyError>(ReplyError::TypeMismatch),
        },
{
}

/// The memory that is read is the very object that was answered, and nothing but an object is
/// read as memory.
pub proof fn memory_is_the_object_answered(
    value: Value,
    read: Result<MemoryReference, ReplyError>,
)
    requires
        call_ensures(MemoryReference::from_reply, (&value,), read),
    ensures
        match value {
            Value::Object(reference) => read matches Ok(found) && found.reference == reference,
            _ => read == Err::<MemoryReference, ReplyError>(ReplyError::TypeMismatch),
        },
{
}

/// A number is read unchanged where it is an integer of the type asked for, and refused as out
/// of range where it is not.
pub proof fn numbers_are_read_unchanged(
    value: Value,
    unsigned: Result<u32, ReplyError>,
    signed: Result<i32, ReplyError>,
)
    requires
        call_ensures(u32::from_reply, (&value,), unsigned),
        call_ensures(i32::from_reply, (&value,), signed),
    ensures
        match value {
            Value::Integer(number) => {
                &&& unsigned is Ok <==> 0 <= number <= 4_294_967_295
                &&& unsigned matches Ok(found) ==> found == number
                &&& unsigned matches Err(error) ==> error == ReplyError::OutOfRange
                &&& signed is Ok <==> -2_147_483_648 <= number <= 2_147_483_647
                &&& signed matches Ok(found) ==> found == number
                &&& signed matches Err(error) ==> error == ReplyError::OutOfRange
            },
            Value::OtherNumber => {
                &&& unsigned == Err::<u32, ReplyError>(ReplyError::OutOfRange)
                &&& signed == Err::<i32, ReplyError>(ReplyError::OutOfRange)
            },
            _ => {
                &&& unsigned == Err::<u32, ReplyError>(ReplyError::TypeMismatch)
                &&& signed == Err::<i32, ReplyError>(ReplyError::TypeMismatch)
            },
        },
{
}

/// Each answer of the game has the number that the game gives it.
pub proof fn answers_have_the_numbers_of_the_game(known: ReturnCode, code: i32)
    requires
        call_ensures(ReturnCode::code, (known,), code),
    ensures
        known == ReturnCode::Success ==> code == 0,
        known == ReturnCode::NotOwner ==> code == -1,
        known == ReturnCode::NoPath ==> code == -2,
        known == ReturnCode::NameExists ==> code == -3,
        known == ReturnCode::Busy ==> code == -4,
        known == ReturnCode::NotFound ==> code == -5,
        known == ReturnCode::NotEnough ==> code == -6,
        known == ReturnCode::InvalidTarget ==> code == -7,
        known == ReturnCode::Full ==> code == -8,
        known == ReturnCode::NotInRange ==> code == -9,
        known == ReturnCode::InvalidArgs ==> code == -10,
        known == ReturnCode::Tired ==> code == -11,
        known == ReturnCode::NoBodypart ==> code == -12,
        known == ReturnCode::RclNotEnough ==> code == -14,
        known == ReturnCode::GclNotEnough ==> code == -15,
{
}

/// Directions are numbered clockwise from the top.
pub proof fn directions_are_numbered_clockwise(known: Direction, code: u32)
    requires
        call_ensures(Direction::code, (known,), code),
    ensures
        known == Direction::Top ==> code == 1,
        known == Direction::TopRight ==> code == 2,
        known == Direction::Right ==> code == 3,
        known == Direction::BottomRight ==> code == 4,
        known == Direction::Bottom ==> code == 5,
        known == Direction::BottomLeft ==> code == 6,
        known == Direction::Left ==> code == 7,
        known == Direction::TopLeft ==> code == 8,
{
}

/// Kinds of parts are numbered in the order in which they are listed.
pub proof fn parts_are_numbered_in_order(known: Part, code: u32)
    requires
        call_ensures(Part::code, (known,), code),
    ensures
        known == Part::Move ==> code == 0,
        known == Part::Work ==> code == 1,
        known == Part::Carry ==> code == 2,
        known == Part::Attack ==> code == 3,
        known == Part::RangedAttack ==> code == 4,
        known == Part::Tough ==> code == 5,
        known == Part::Heal ==> code == 6,
        known == Part::Claim ==> code == 7,
{
}

/// Resources are numbered in the order in which they are listed.
pub proof fn resources_are_numbered_in_order(known: ResourceType, code: u32)
    requires
        call_ensures(ResourceType::code, (known,), code),
    ensures
        known == ResourceType::Energy ==> code == 1,
        known == ResourceType::Power ==> code == 2,
        known == ResourceType::Hydrogen ==> code == 3,
        known == ResourceType::Oxygen ==> code == 4,
        known == ResourceType::Utrium ==> code == 5,
        known == ResourceType::Keanium ==> code == 6,
        known == ResourceType::Lemergium ==> code == 7,
        known == ResourceType::Zynthium ==> code == 8,
        known == ResourceType::Catalyst ==> code == 9,
        known == ResourceType::Ghodium ==> code == 10,
        known == ResourceType::Hydroxide ==> code == 11,
        known == ResourceType::ZynthiumKeanite ==> code == 12,
        known == ResourceType::UtriumLemergite ==> code == 13,
        known == ResourceType::UtriumHydride ==> code == 14,
        known == ResourceType::UtriumOxide ==> code == 15,
        known == ResourceType::KeaniumHydride ==> code == 16,
        known == ResourceType::KeaniumOxide ==> code == 17,
        known == ResourceType::LemergiumHydride ==> code == 18,
        known == ResourceType::LemergiumOxide ==> code == 19,
        known == ResourceType::ZynthiumHydride ==> code == 20,
        known == ResourceType::ZynthiumOxide ==> code == 21,
        known == ResourceType::GhodiumHydride ==> code == 22,
        known == ResourceType::GhodiumOxide ==> code == 23,
        known == ResourceType::UtriumAcid ==> code == 24,
        known == ResourceType::UtriumAlkalide ==> code == 25,
        known == ResourceType::KeaniumAcid ==> code == 26,
        known == ResourceType::KeaniumAlkalide ==> code == 27,
        known == ResourceType::LemergiumAcid ==> code == 28,
        known == ResourceType::LemergiumAlkalide ==> code == 29,
        known == ResourceType::ZynthiumAcid ==> code == 30,
        known == ResourceType::ZynthiumAlkalide ==> code == 31,
        known == ResourceType::GhodiumAcid ==> code == 32,
        known == ResourceType::GhodiumAlkalide ==> code == 33,
        known == ResourceType::CatalyzedUtriumAcid ==> code == 34,
        known == ResourceType::CatalyzedUtriumAlkalide ==> code == 35,
        known == ResourceType::CatalyzedKeaniumAcid ==> code == 36,
        known == ResourceType::CatalyzedKeaniumAlkalide ==> code == 37,
        known == ResourceType::CatalyzedLemergiumAcid ==> code == 38,
        known == ResourceType::CatalyzedLemergiumAlkalide ==> code == 39,
        known == ResourceType::CatalyzedZynthiumAcid ==> code == 40,
        known == ResourceType::CatalyzedZynthiumAlkalide ==> code == 41,
        known == ResourceType::CatalyzedGhodiumAcid ==> code == 42,
        known == ResourceType::CatalyzedGhodiumAlkalide ==> code == 43,
        known == ResourceType::Ops ==> code == 44,
{
}

/// An answer of the game is read from its own number and from no other value; a number of none is
/// refused as unknown.
pub proof fn return_codes_are_read_from_their_own_numbers(
    known: ReturnCode,
    code: i32,
    number: i32,
    found: Option<ReturnCode>,
    value: Value,
    read: Result<ReturnCode, ReplyError>,
)
    requires
        call_ensures(ReturnCode::code, (known,), code),
        call_ensures(ReturnCode::from_code, (number,), found),
        call_ensures(ReturnCode::from_reply, (&value,), read),
    ensures
        found == Some(known) <==> number == code,
        read == Ok::<ReturnCode, ReplyError>(known) <==> value == Value::Integer(code as i64),
        match value {
            Value::Integer(given) => {
                &&& given == number && found is None ==> read == Err::<ReturnCode, ReplyError>(
                    ReplyError::UnknownCode,
                )
                &&& given < -2_147_483_648 || given > 2_147_483_647 ==> read == Err::<
                    ReturnCode,
                    ReplyError,
                >(ReplyError::OutOfRange)
            },
            Value::OtherNumber => read == Err::<ReturnCode, ReplyError>(ReplyError::OutOfRange),
            _ => read == Err::<ReturnCode, ReplyError>(ReplyError::TypeMismatch),
        },
{
}

/// A kind of part is read from its own number and from no other value; a number of none is
/// refused as unknown.
pub proof fn parts_are_read_from_their_own_numbers(
    known: Part,
    code: u32,
    number: u32,
    found: Option<Part>,
    value: Value,
    read: Result<Part, ReplyError>,
)
    requires
        call_ensures(Part::code, (known,), code),
        call_ensures(Part::from_code, (number,), found),
        call_ensures(Part::from_reply, (&value,), read),
    ensures
        found == Some(known) <==> number == code,
        read == Ok::<Part, ReplyError>(known) <==> value == Value::Integer(code as i64),
        match value {
            Value::Integer(given) => {
                &&& given == number && found is None ==> read == Err::<Part, ReplyError>(
                    ReplyError::UnknownCode,
                )
                &&& given < 0 || given > 4_294_967_295 ==> read == Err::<
                    Part,
                    ReplyError,
                >(ReplyError::OutOfRange)
            },
            Value::OtherNumber => read == Err::<Part, ReplyError>(ReplyError::OutOfRange),
            _ => read == Err::<Part, ReplyError>(ReplyError::TypeMismatch),
        },
{
}

/// A resource is read from its own number and from no other value; a number of none is refused
/// as unknown.
pub proof fn resources_are_read_from_their_own_numbers(
    known: ResourceType,
    code: u32,
    number: u32,
    found: Option<ResourceType>,
    value: Value,
    read: Result<ResourceType, ReplyError>,
)
    requires
        call_ensures(ResourceType::code, (known,), code),
        call_ensures(ResourceType::from_code, (number,), found),
        call_ensures(ResourceType::from_reply, (&value,), read),
    ensures
        found == Some(known) <==> number == code,
        read == Ok::<ResourceType, ReplyError>(known) <==> value == Value::Integer(code as i64),
        match value {
            Value::Integer(given) => {
                &&& given == number && found is None ==> read == Err::<ResourceType, ReplyError>(
                    ReplyError::UnknownCode,
                )
                &&& given < 0 || given > 4_294_967_295 ==> read == Err::<
                    ResourceType,
                    ReplyError,
                >(ReplyError::OutOfRange)
            },
            Value::OtherNumber => read == Err::<ResourceType, ReplyError>(ReplyError::OutOfRange),
            _ => read == Err::<ResourceType, ReplyError>(ReplyError::TypeMismatch),
        },
{
}

/// A resource that may be missing is read as a resource from any number, and is missing for
/// anything else.
pub proof fn a_missing_resource_is_no_number(
    value: Value,
    read: Result<Option<ResourceType>, ReplyError>,
    plain: Result<ResourceType, ReplyError>,
)
    requires
        call_ensures(<Option<ResourceType> as FromReply>::from_reply, (&value,), read),
        call_ensures(ResourceType::from_reply, (&value,), plain),
    ensures
        match value {
            Value::Integer(_) | Value::OtherNumber => match plain {
                Ok(resource) => read == Ok::<Option<ResourceType>, ReplyError>(Some(resource)),
                Err(error) => read == Err::<Option<ResourceType>, ReplyError>(error),
            },
            _ => read == Ok::<Option<ResourceType>, ReplyError>(None),
        },
{
}

/// A request reads an answer as its type is read, whatever it asks.
pub proof fn requests_read_as_their_type<'a, R>(
    request: Request<'a, R>,
    value: Value,
    decoded: Result<R, ReplyError>,
    read: Result<R, ReplyError>,
) where R: FromReply
    requires
        call_ensures(Request::<'a, R>::decode, (&request, &value), decoded),
        call_ensures(R::from_reply, (&value,), read),
    ensures
        match decoded {
            Ok(found) => read matches Ok(other) && found@ == other@,
            Err(error) => read matches Err(other) && error == other,
        },
{
}

} // verus!
