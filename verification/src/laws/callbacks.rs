//! What holds of asking for the costs of a room.
use vstd::prelude::*;

use crate::creep::MoveToRequest;
use crate::find::{CostCallback, CostMatrix, UnchangedCosts};
use crate::laws::places::{rooms_are_told_by_their_usual_names, usual_name};
use crate::laws::room_names_are_unambiguous;
use crate::local::RoomName;
use crate::request::Reference;

verus! {

/// The handle on a matrix given, where one is.
pub open spec fn handle_of(given: Option<CostMatrix>) -> Option<Reference> {
    match given {
        Some(matrix) => Some(matrix.inner),
        None => None,
    }
}

/// A matrix is told by the handle from which it is made.
pub proof fn matrices_keep_their_handles<'a>(handle: Reference, matrix: CostMatrix<'a>)
    requires
        call_ensures(CostMatrix::<'a>::new, (handle,), matrix),
    ensures
        matrix.inner == handle,
{
}

/// The callback is asked for the very room that JavaScript named, with the matrix that was
/// handed over, and what it gives is passed on. Any room may be asked for by its usual name, if
/// the callback may be asked for it.
pub proof fn the_callback_is_asked_for_the_room_named<'a, F>(
    moving: MoveToRequest<'a, F>,
    name: &str,
    room: RoomName,
    matrix: Reference,
    given: Option<Reference>,
) where F: CostCallback<'a>
    requires
        call_ensures(MoveToRequest::<'a, F>::costs, (&moving, name, matrix), given),
        room.is_named(name@) || name@ == usual_name(room),
    ensures
        moving.cost_callback.may_give(room, matrix, given),
        moving.cost_callback.may_ask(room, matrix) ==> call_requires(
            MoveToRequest::<'a, F>::costs,
            (&moving, name, matrix),
        ),
{
    rooms_are_told_by_their_usual_names(room, room);
    let asked = choose|asked: RoomName| #[trigger]
        asked.is_named(name@) && moving.cost_callback.may_give(asked, matrix, given);
    room_names_are_unambiguous(name@, asked, room);
    assert forall|other: RoomName| #[trigger] other.is_named(name@) implies other == room by {
        room_names_are_unambiguous(name@, other, room);
    }
}

/// Without a callback of one's own, all rooms may be asked for and no matrix is given.
pub proof fn costs_stay_as_they_are_by_default(
    callback: UnchangedCosts,
    room: RoomName,
    matrix: Reference,
    given: Option<Reference>,
)
    ensures
        callback.may_ask(room, matrix),
        callback.may_give(room, matrix, given) <==> given is None,
{
}

/// A closure may be asked where it may be called with the matrix handed over, and gives the
/// handle on what it returns.
pub proof fn closures_are_asked_as_they_are<'a, F>(
    closure: F,
    room: RoomName,
    matrix: Reference,
    given: Option<Reference>,
) where F: Fn(RoomName, CostMatrix<'_>) -> Option<CostMatrix<'a>>
    ensures
        closure.may_ask(room, matrix) <==> forall|handed: CostMatrix|
            handed.inner == matrix ==> #[trigger] call_requires(closure, (room, handed)),
        closure.may_give(room, matrix, given) <==> exists|
            handed: CostMatrix,
            result: Option<CostMatrix<'a>>,
        | {
            &&& handed.inner == matrix
            &&& handle_of(result) == given
            &&& #[trigger] call_ensures(closure, (room, handed), result)
        },
{
}

} // verus!
