//! What JavaScript answers, and how an answer is read.
use vstd::prelude::*;

use crate::constants::{Part, ResourceType, ReturnCode};
use crate::request::{MemoryReference, Reference};

verus! {

/// A value handed over by JavaScript.
pub enum Value {
    Undefined,
    Null,
    Bool(bool),
    /// A number that is an integer and fits into 64 bits.
    Integer(i64),
    /// Any other number: fractions, `NaN`, the infinities and integers that are larger still.
    OtherNumber,
    Symbol,
    Text(String),
    Object(Reference),
}

/// What a [`Value`] says.
pub enum ValueModel {
    Undefined,
    Null,
    Bool(bool),
    Integer(int),
    OtherNumber,
    Symbol,
    Text(Seq<char>),
    Object(Reference),
}

impl View for Value {
    type V = ValueModel;

    open spec fn view(&self) -> ValueModel {
        match self {
            Value::Undefined => ValueModel::Undefined,
            Value::Null => ValueModel::Null,
            Value::Bool(flag) => ValueModel::Bool(*flag),
            Value::Integer(number) => ValueModel::Integer(*number as int),
            Value::OtherNumber => ValueModel::OtherNumber,
            Value::Symbol => ValueModel::Symbol,
            Value::Text(text) => ValueModel::Text(text@),
            Value::Object(reference) => ValueModel::Object(*reference),
        }
    }
}

impl ValueModel {
    pub open spec fn is_number(self) -> bool {
        self is Integer || self is OtherNumber
    }
}

/// Why an answer could not be read.
#[derive(Clone, Copy, Debug, PartialEq, Eq, Structural)]
pub enum ReplyError {
    /// The answer is a value of another type than the one asked for.
    TypeMismatch,
    /// The answer is a number, but no integer of the range asked for.
    OutOfRange,
    /// The answer is an integer that stands for nothing known.
    UnknownCode,
}

/// The integer that a value is, where it is one from `low` to `high`.
pub open spec fn integer_reading(value: ValueModel, low: int, high: int) -> Result<
    int,
    ReplyError,
> {
    match value {
        ValueModel::Integer(number) => if low <= number <= high {
            Ok(number)
        } else {
            Err(ReplyError::OutOfRange)
        },
        ValueModel::OtherNumber => Err(ReplyError::OutOfRange),
        _ => Err(ReplyError::TypeMismatch),
    }
}

/// Converts an integer as `stdweb` converts a JavaScript number into a `u32`: through
/// `Number::try_from(i64)` and `u32::try_from(Number)`. Claimed: the integer itself where it is
/// a `u32`, and an error everywhere else.
#[verifier::external_body]
fn number_into_u32(number: i64) -> (converted: Option<u32>)
    ensures
        0 <= number <= u32::MAX ==> converted == Some(number as u32),
        number < 0 || number > u32::MAX ==> converted is None,
{
    match stdweb::unstable::TryInto::<stdweb::Number>::try_into(number) {
        Ok(inner) => stdweb::unstable::TryInto::<u32>::try_into(inner).ok(),
        Err(_) => None,
    }
}

/// Converts an integer as `stdweb` converts a JavaScript number into an `i32`: through
/// `Number::try_from(i64)` and `i32::try_from(Number)`. Claimed: the integer itself where it is
/// an `i32`, and an error everywhere else.
#[verifier::external_body]
fn number_into_i32(number: i64) -> (converted: Option<i32>)
    ensures
        i32::MIN <= number <= i32::MAX ==> converted == Some(number as i32),
        number < i32::MIN || number > i32::MAX ==> converted is None,
{
    match stdweb::unstable::TryInto::<stdweb::Number>::try_into(number) {
        Ok(inner) => stdweb::unstable::TryInto::<i32>::try_into(inner).ok(),
        Err(_) => None,
    }
}

/// A type that answers are read as.
pub trait FromReply: View + Sized {
    /// What a value says when it is read as this type.
    spec fn reading(value: ValueModel) -> Result<<Self as View>::V, ReplyError>;

    /// Reads a value as this type.
    fn from_reply(value: &Value) -> (read: Result<Self, ReplyError>)
        ensures
            match read {
                Ok(found) => Self::reading(value@) == Ok::<<Self as View>::V, ReplyError>(found@),
                Err(error) => Self::reading(value@) == Err::<<Self as View>::V, ReplyError>(error),
            },
    ;
}

impl FromReply for u32 {
    open spec fn reading(value: ValueModel) -> Result<u32, ReplyError> {
        match integer_reading(value, 0, u32::MAX as int) {
            Ok(number) => Ok(number as u32),
            Err(error) => Err(error),
        }
    }

    fn from_reply(value: &Value) -> (read: Result<u32, ReplyError>) {
        match value {
            Value::Integer(number) => match number_into_u32(*number) {
                Some(converted) => Ok(converted),
                None => Err(ReplyError::OutOfRange),
            },
            Value::OtherNumber => Err(ReplyError::OutOfRange),
            _ => Err(ReplyError::TypeMismatch),
        }
    }
}

impl FromReply for i32 {
    open spec fn reading(value: ValueModel) -> Result<i32, ReplyError> {
        match integer_reading(value, i32::MIN as int, i32::MAX as int) {
            Ok(number) => Ok(number as i32),
            Err(error) => Err(error),
        }
    }

    fn from_reply(value: &Value) -> (read: Result<i32, ReplyError>) {
        match value {
            Value::Integer(number) => match number_into_i32(*number) {
                Some(converted) => Ok(converted),
                None => Err(ReplyError::OutOfRange),
            },
            Value::OtherNumber => Err(ReplyError::OutOfRange),
            _ => Err(ReplyError::TypeMismatch),
        }
    }
}

impl FromReply for bool {
    open spec fn reading(value: ValueModel) -> Result<bool, ReplyError> {
        match value {
            ValueModel::Bool(flag) => Ok(flag),
            _ => Err(ReplyError::TypeMismatch),
        }
    }

    fn from_reply(value: &Value) -> (read: Result<bool, ReplyError>) {
        match value {
            Value::Bool(flag) => Ok(*flag),
            _ => Err(ReplyError::TypeMismatch),
        }
    }
}

impl FromReply for String {
    open spec fn reading(value: ValueModel) -> Result<Seq<char>, ReplyError> {
        match value {
            ValueModel::Text(text) => Ok(text),
            _ => Err(ReplyError::TypeMismatch),
        }
    }

    fn from_reply(value: &Value) -> (read: Result<String, ReplyError>) {
        match value {
            Value::Text(text) => Ok(text.clone()),
            _ => Err(ReplyError::TypeMismatch),
        }
    }
}

impl FromReply for MemoryReference {
    open spec fn reading(value: ValueModel) -> Result<MemoryReference, ReplyError> {
        match value {
            ValueModel::Object(reference) => Ok(MemoryReference { reference }),
            _ => Err(ReplyError::TypeMismatch),
        }
    }

    fn from_reply(value: &Value) -> (read: Result<MemoryReference, ReplyError>) {
        match value {
            Value::Object(reference) => Ok(MemoryReference { reference: *reference }),
            _ => Err(ReplyError::TypeMismatch),
        }
    }
}

impl FromReply for ReturnCode {
    open spec fn reading(value: ValueModel) -> Result<ReturnCode, ReplyError> {
        match i32::reading(value) {
            Ok(code) => match ReturnCode::numbered(code) {
                Some(known) => Ok(known),
                None => Err(ReplyError::UnknownCode),
            },
            Err(error) => Err(error),
        }
    }

    fn from_reply(value: &Value) -> (read: Result<ReturnCode, ReplyError>) {
        match i32::from_reply(value) {
            Ok(code) => match ReturnCode::from_code(code) {
                Some(known) => Ok(known),
                None => Err(ReplyError::UnknownCode),
            },
            Err(error) => Err(error),
        }
    }
}

impl FromReply for Part {
    open spec fn reading(value: ValueModel) -> Result<Part, ReplyError> {
        match u32::reading(value) {
            Ok(code) => match Part::numbered(code) {
                Some(known) => Ok(known),
                None => Err(ReplyError::UnknownCode),
            },
            Err(error) => Err(error),
        }
    }

    fn from_reply(value: &Value) -> (read: Result<Part, ReplyError>) {
        match u32::from_reply(value) {
            Ok(code) => match Part::from_code(code) {
                Some(known) => Ok(known),
                None => Err(ReplyError::UnknownCode),
            },
            Err(error) => Err(error),
        }
    }
}

impl FromReply for ResourceType {
    open spec fn reading(value: ValueModel) -> Result<ResourceType, ReplyError> {
        match u32::reading(value) {
            Ok(code) => match ResourceType::numbered(code) {
                Some(known) => Ok(known),
                None => Err(ReplyError::UnknownCode),
            },
            Err(error) => Err(error),
        }
    }

    fn from_reply(value: &Value) -> (read: Result<ResourceType, ReplyError>) {
        match u32::from_reply(value) {
            Ok(code) => match ResourceType::from_code(code) {
                Some(known) => Ok(known),
                None => Err(ReplyError::UnknownCode),
            },
            Err(error) => Err(error),
        }
    }
}

/// A resource that may be missing: a number names the resource, and any value that is no number
/// says that there is none.
impl FromReply for Option<ResourceType> {
    open spec fn reading(value: ValueModel) -> Result<Option<ResourceType>, ReplyError> {
        if value.is_number() {
            match ResourceType::reading(value) {
                Ok(resource) => Ok(Some(resource)),
                Err(error) => Err(error),
            }
        } else {
            Ok(None)
        }
    }

    fn from_reply(value: &Value) -> (read: Result<Option<ResourceType>, ReplyError>) {
        match value {
            Value::Integer(_) | Value::OtherNumber => match ResourceType::from_reply(value) {
                Ok(resource) => Ok(Some(resource)),
                Err(error) => Err(error),
            },
            _ => Ok(None),
        }
    }
}

} // verus!
