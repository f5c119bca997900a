//! What is asked of JavaScript.
use std::marker::PhantomData;
use vstd::prelude::*;

use crate::move_options::MoveSettings;
use crate::objects::Step;
use crate::reply::{FromReply, ReplyError, Value};

verus! {

/// A handle on an object that lives in JavaScript.
#[derive(Clone, Copy, Debug, PartialEq, Eq, Structural)]
pub struct Reference {
    pub id: i32,
}

/// A handle on an object of the game's `Memory`.
#[derive(Clone, Copy, Debug, PartialEq, Eq, Structural)]
pub struct MemoryReference {
    pub reference: Reference,
}

impl View for MemoryReference {
    type V = MemoryReference;

    open spec fn view(&self) -> MemoryReference {
        *self
    }
}

/// One argument of a call.
pub enum Argument<'a> {
    Number(u32),
    Flag(bool),
    Text(&'a str),
    Object(Reference),
    /// The name of a resource, which JavaScript looks up by its number.
    ResourceName(u32),
    /// The name of a kind of body part, which JavaScript looks up by its number.
    PartName(u32),
    /// A position, which JavaScript makes from one number.
    PackedPosition(u32),
    /// A path, as an array of its steps.
    Steps(&'a [Step]),
    /// The options object of `moveTo`, made of the entries of the settings.
    MoveOptions(MoveSettings),
}

/// What an [`Argument`] says.
pub enum ArgumentModel {
    Number(u32),
    Flag(bool),
    Text(Seq<char>),
    Object(Reference),
    ResourceName(int),
    PartName(int),
    PackedPosition(int),
    Steps(Seq<Step>),
    MoveOptions(MoveSettings),
}

impl<'a> View for Argument<'a> {
    type V = ArgumentModel;

    open spec fn view(&self) -> ArgumentModel {
        match self {
            Argument::Number(number) => ArgumentModel::Number(*number),
            Argument::Flag(flag) => ArgumentModel::Flag(*flag),
            Argument::Text(text) => ArgumentModel::Text(text@),
            Argument::Object(reference) => ArgumentModel::Object(*reference),
            Argument::ResourceName(number) => ArgumentModel::ResourceName(*number as int),
            Argument::PartName(number) => ArgumentModel::PartName(*number as int),
            Argument::PackedPosition(number) => ArgumentModel::PackedPosition(*number as int),
            Argument::Steps(steps) => ArgumentModel::Steps(steps@),
            Argument::MoveOptions(settings) => ArgumentModel::MoveOptions(*settings),
        }
    }
}

impl ArgumentModel {
    /// The name of the function that JavaScript applies to the number given, where it is not
    /// handed the number itself.
    pub open spec fn function(self) -> Option<Seq<char>> {
        match self {
            ArgumentModel::ResourceName(_) => Some("__resource_type_num_to_str"@),
            ArgumentModel::PartName(_) => Some("__part_num_to_str"@),
            ArgumentModel::PackedPosition(_) => Some("pos_from_packed"@),
            _ => None,
        }
    }
}

/// The text of a name that may be missing.
pub open spec fn text_of(name: Option<&'static str>) -> Option<Seq<char>> {
    match name {
        Some(text) => Some(text@),
        None => None,
    }
}

impl<'a> Argument<'a> {
    /// The name of the function that JavaScript applies to the number given, where it is not
    /// handed the number itself.
    pub fn function(&self) -> (name: Option<&'static str>)
        ensures
            text_of(name) == self@.function(),
    {
        match self {
            Argument::ResourceName(_) => Some("__resource_type_num_to_str"),
            Argument::PartName(_) => Some("__part_num_to_str"),
            Argument::PackedPosition(_) => Some("pos_from_packed"),
            _ => None,
        }
    }
}

/// What is asked of one part of a creep's body.
#[derive(Clone, Copy, Debug, PartialEq, Eq, Structural)]
pub enum BodyField {
    /// The number of the resource that boosts the part, `null` where nothing does.
    Boost,
    /// The number of the kind of part.
    Part,
    /// How many hits the part has left.
    Hits,
}

impl BodyField {
    /// The property of the part that is read.
    pub open spec fn property_name(self) -> Seq<char> {
        match self {
            BodyField::Boost => "boost"@,
            BodyField::Part => "type"@,
            BodyField::Hits => "hits"@,
        }
    }

    /// The name of the function that JavaScript applies to what it read, if any.
    pub open spec fn function_name(self) -> Option<Seq<char>> {
        match self {
            BodyField::Boost => Some("__resource_type_str_to_num"@),
            BodyField::Part => Some("__part_str_to_num"@),
            BodyField::Hits => None,
        }
    }

    /// The property of the part that is read.
    pub fn property(self) -> (name: &'static str)
        ensures
            name@ == self.property_name(),
    {
        match self {
            BodyField::Boost => "boost",
            BodyField::Part => "type",
            BodyField::Hits => "hits",
        }
    }

    /// The name of the function that JavaScript applies to what it read, if any.
    pub fn function(self) -> (name: Option<&'static str>)
        ensures
            text_of(name) == self.function_name(),
    {
        match self {
            BodyField::Boost => Some("__resource_type_str_to_num"),
            BodyField::Part => Some("__part_str_to_num"),
            BodyField::Hits => None,
        }
    }

    /// Whether the property may be missing. The answer is then `null`, and no function is
    /// applied.
    pub fn may_be_missing(self) -> (missing: bool)
        ensures
            missing == (self == BodyField::Boost),
    {
        match self {
            BodyField::Boost => true,
            BodyField::Part | BodyField::Hits => false,
        }
    }
}

/// What JavaScript is to evaluate on an object.
pub enum Expression<'a> {
    /// `object.method(arguments)`.
    Call { method: &'static str, arguments: Vec<Argument<'a>> },
    /// `object.name`.
    Property { name: &'static str },
    /// `object.outer.inner`.
    Nested { outer: &'static str, inner: &'static str },
    /// One field of `object.body[index]`.
    BodyPart { index: u32, field: BodyField },
}

/// What an [`Expression`] says.
pub enum ExpressionModel {
    Call { method: Seq<char>, arguments: Seq<ArgumentModel> },
    Property { name: Seq<char> },
    Nested { outer: Seq<char>, inner: Seq<char> },
    BodyPart { index: u32, field: BodyField },
}

impl<'a> View for Expression<'a> {
    type V = ExpressionModel;

    open spec fn view(&self) -> ExpressionModel {
        match self {
            Expression::Call { method, arguments } => ExpressionModel::Call {
                method: method@,
                arguments: arguments@.map_values(|argument: Argument<'a>| argument@),
            },
            Expression::Property { name } => ExpressionModel::Property { name: name@ },
            Expression::Nested { outer, inner } => ExpressionModel::Nested {
                outer: outer@,
                inner: inner@,
            },
            Expression::BodyPart { index, field } => ExpressionModel::BodyPart {
                index: *index,
                field: *field,
            },
        }
    }
}

/// Something to be asked of JavaScript, whose answer is read as an `R`.
pub struct Request<'a, R> {
    pub receiver: Reference,
    pub expression: Expression<'a>,
    pub reply: PhantomData<R>,
}

/// What a [`Request`] says.
pub struct RequestModel {
    pub receiver: Reference,
    pub expression: ExpressionModel,
}

impl<'a, R> View for Request<'a, R> {
    type V = RequestModel;

    open spec fn view(&self) -> RequestModel {
        RequestModel { receiver: self.receiver, expression: self.expression@ }
    }
}

/// The request `receiver.method(arguments)`.
pub open spec fn call(
    receiver: Reference,
    method: Seq<char>,
    arguments: Seq<ArgumentModel>,
) -> RequestModel {
    RequestModel { receiver, expression: ExpressionModel::Call { method, arguments } }
}

/// The request `receiver.name`.
pub open spec fn property(receiver: Reference, name: Seq<char>) -> RequestModel {
    RequestModel { receiver, expression: ExpressionModel::Property { name } }
}

/// The request `receiver.outer.inner`.
pub open spec fn nested(receiver: Reference, outer: Seq<char>, inner: Seq<char>) -> RequestModel {
    RequestModel { receiver, expression: ExpressionModel::Nested { outer, inner } }
}

/// The request for one field of `receiver.body[index]`.
pub open spec fn body_part(receiver: Reference, index: u32, field: BodyField) -> RequestModel {
    RequestModel { receiver, expression: ExpressionModel::BodyPart { index, field } }
}

impl<'a, R> Request<'a, R> {
    pub(crate) fn new(receiver: Reference, expression: Expression<'a>) -> (request: Self)
        ensures
            request@ == (RequestModel { receiver, expression: expression@ }),
    {
        Request { receiver, expression, reply: PhantomData }
    }

    pub(crate) fn call_without_arguments(
        receiver: Reference,
        method: &'static str,
    ) -> (request: Self)
        ensures
            request@ == call(receiver, method@, seq![]),
    {
        let expression = Expression::Call { method, arguments: Vec::new() };
        assert(expression@->arguments =~= seq![]);
        Self::new(receiver, expression)
    }

    pub(crate) fn call_with_one(
        receiver: Reference,
        method: &'static str,
        argument: Argument<'a>,
    ) -> (request: Self)
        ensures
            request@ == call(receiver, method@, seq![argument@]),
    {
        let expression = Expression::Call { method, arguments: vec![argument] };
        assert(expression@->arguments =~= seq![argument@]);
        Self::new(receiver, expression)
    }

    pub(crate) fn call_with_two(
        receiver: Reference,
        method: &'static str,
        first: Argument<'a>,
        second: Argument<'a>,
    ) -> (request: Self)
        ensures
            request@ == call(receiver, method@, seq![first@, second@]),
    {
        let expression = Expression::Call { method, arguments: vec![first, second] };
        assert(expression@->arguments =~= seq![first@, second@]);
        Self::new(receiver, expression)
    }

    pub(crate) fn call_with_three(
        receiver: Reference,
        method: &'static str,
        first: Argument<'a>,
        second: Argument<'a>,
        third: Argument<'a>,
    ) -> (request: Self)
        ensures
            request@ == call(receiver, method@, seq![first@, second@, third@]),
    {
        let expression = Expression::Call { method, arguments: vec![first, second, third] };
        assert(expression@->arguments =~= seq![first@, second@, third@]);
        Self::new(receiver, expression)
    }
}

impl<'a, R: FromReply> Request<'a, R> {
    /// Reads the answer to this request.
    pub fn decode(&self, reply: &Value) -> (read: Result<R, ReplyError>)
        ensures
            match read {
                Ok(found) => R::reading(reply@) == Ok::<<R as View>::V, ReplyError>(found@),
                Err(error) => R::reading(reply@) == Err::<<R as View>::V, ReplyError>(error),
            },
    {
        R::from_reply(reply)
    }
}

} // verus!
