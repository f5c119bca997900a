//! What holds of reading a creep's body.
use vstd::prelude::*;

use crate::constants::{Part, ResourceType};
use crate::creep::{
    body_is_readable, bodypart_reading, BodyEntry, BodyError, BodyRequests, Bodypart, Creep,
};
use crate::laws::{parts_are_told_by_their_numbers, resources_are_told_by_their_numbers};
use crate::reply::{FromReply, ReplyError, Value};
use crate::request::{BodyField, Expression};

verus! {

/// Each part of a body is asked for by its own index, on the creep itself: what boosts it, its
/// kind, and its hits.
pub proof fn parts_are_asked_for_by_their_own_index(
    creep: Creep,
    len: u32,
    requests: Vec<BodyRequests>,
    i: int,
)
    requires
        call_ensures(Creep::body_requests, (&creep, len), requests),
    ensures
        requests@.len() == len,
        0 <= i < len ==> {
            let asked = requests@[i];
            &&& asked.boost.receiver == creep.reference
            &&& asked.part.receiver == creep.reference
            &&& asked.hits.receiver == creep.reference
            &&& asked.boost.expression matches Expression::BodyPart { index, field } && index == i
                && field == BodyField::Boost
            &&& asked.part.expression matches Expression::BodyPart { index, field } && index == i
                && field == BodyField::Part
            &&& asked.hits.expression matches Expression::BodyPart { index, field } && index == i
                && field == BodyField::Hits
        },
{
}

/// Whether a value says what boosts a part: the number of a resource, or anything but a number
/// where nothing does.
pub open spec fn says_boost(value: Value, boost: Option<ResourceType>) -> bool {
    match boost {
        Some(resource) => value matches Value::Integer(number) && number == resource.number(),
        None => value !is Integer && value !is OtherNumber,
    }
}

/// Whether a value is the number of a kind of part.
pub open spec fn says_part(value: Value, part: Part) -> bool {
    value matches Value::Integer(number) && number == part.number()
}

/// Whether a value is a number of hits.
pub open spec fn says_hits(value: Value, hits: u32) -> bool {
    value matches Value::Integer(number) && number == hits
}

/// A body is read part by part: as many parts as there are entries, in their order, each with
/// the boost, the kind and the hits that its own entry says.
pub proof fn bodies_say_what_their_entries_say(
    creep: Creep,
    entries: Vec<BodyEntry>,
    parts: Vec<Bodypart>,
    i: int,
)
    requires
        call_ensures(Creep::body, (&creep, &entries), parts),
    ensures
        parts@.len() == entries@.len(),
        0 <= i < entries@.len() ==> {
            &&& says_boost(entries@[i].boost, parts@[i].boost)
            &&& says_part(entries@[i].part, parts@[i].part)
            &&& says_hits(entries@[i].hits, parts@[i].hits)
        },
{
}

/// Whether an entry tells of a part of a body.
pub open spec fn tells_of_a_part(entry: BodyEntry) -> bool {
    &&& exists|boost: Option<ResourceType>| says_boost(entry.boost, boost)
    &&& exists|part: Part| says_part(entry.part, part)
    &&& exists|hits: u32| says_hits(entry.hits, hits)
}

/// Why a value is no number of anything known: it is no number, or none that fits, or one that
/// stands for nothing.
pub open spec fn reason(value: Value) -> ReplyError {
    match value {
        Value::Integer(number) => if 0 <= number <= 4_294_967_295 {
            ReplyError::UnknownCode
        } else {
            ReplyError::OutOfRange
        },
        Value::OtherNumber => ReplyError::OutOfRange,
        _ => ReplyError::TypeMismatch,
    }
}

proof fn lemma_entry(entry: BodyEntry)
    ensures
        bodypart_reading(entry) is Ok <==> tells_of_a_part(entry),
        bodypart_reading(entry) matches Err((field, error)) ==> match field {
            BodyField::Boost => {
                &&& forall|boost: Option<ResourceType>| !says_boost(entry.boost, boost)
                &&& error == reason(entry.boost)
            },
            BodyField::Part => {
                &&& exists|boost: Option<ResourceType>| says_boost(entry.boost, boost)
                &&& forall|part: Part| !says_part(entry.part, part)
                &&& error == reason(entry.part)
            },
            BodyField::Hits => {
                &&& exists|boost: Option<ResourceType>| says_boost(entry.boost, boost)
                &&& exists|part: Part| says_part(entry.part, part)
                &&& forall|hits: u32| !says_hits(entry.hits, hits)
                &&& error == reason(entry.hits)
            },
        },
{
    let boost_reading = <Option<ResourceType> as FromReply>::reading(entry.boost@);
    let part_reading = Part::reading(entry.part@);
    let hits_reading = u32::reading(entry.hits@);
    if boost_reading is Ok {
        assert(says_boost(entry.boost, boost_reading->Ok_0));
    }
    if part_reading is Ok {
        assert(says_part(entry.part, part_reading->Ok_0));
    }
    if hits_reading is Ok {
        assert(says_hits(entry.hits, hits_reading->Ok_0));
    }
    assert forall|boost: Option<ResourceType>| says_boost(
        entry.boost,
        boost,
    ) implies boost_reading is Ok by {
        if let Some(resource) = boost {
            resources_are_told_by_their_numbers(resource, 0);
        }
    }
    assert forall|part: Part| says_part(entry.part, part) implies part_reading is Ok by {
        parts_are_told_by_their_numbers(part, 0);
    }
}

/// A fault is found if and only if some entry tells of no part, and it is the first: all entries
/// before it tell of parts, and of its own fields all before the one reported can be read. Where
/// no fault is found, the body may be read.
pub proof fn the_first_fault_is_found(
    creep: Creep,
    entries: Vec<BodyEntry>,
    fault: Option<BodyError>,
    i: int,
)
    requires
        call_ensures(Creep::body_fault, (&creep, &entries), fault),
        0 <= i < entries@.len(),
    ensures
        match fault {
            None => {
                &&& tells_of_a_part(entries@[i])
                &&& call_requires(Creep::body, (&creep, &entries))
            },
            Some(error) => {
                let entry = entries@[error.index as int];
                &&& error.index < entries@.len()
                &&& i < error.index ==> tells_of_a_part(entries@[i])
                &&& match error.field {
                    BodyField::Boost => {
                        &&& forall|boost: Option<ResourceType>| !says_boost(entry.boost, boost)
                        &&& error.error == reason(entry.boost)
                    },
                    BodyField::Part => {
                        &&& exists|boost: Option<ResourceType>| says_boost(entry.boost, boost)
                        &&& forall|part: Part| !says_part(entry.part, part)
                        &&& error.error == reason(entry.part)
                    },
                    BodyField::Hits => {
                        &&& exists|boost: Option<ResourceType>| says_boost(entry.boost, boost)
                        &&& exists|part: Part| says_part(entry.part, part)
                        &&& forall|hits: u32| !says_hits(entry.hits, hits)
                        &&& error.error == reason(entry.hits)
                    },
                }
            },
        },
{
    lemma_entry(entries@[i]);
    match fault {
        None => {
            assert(body_is_readable(entries@));
            assert(bodypart_reading(entries@[i]) is Ok);
        },
        Some(error) => {
            lemma_entry(entries@[error.index as int]);
        },
    }
}

} // verus!
