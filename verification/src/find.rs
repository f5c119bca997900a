//! Options of the search for paths, and the callback that sets the costs of a room's tiles.
use std::marker::PhantomData;
use vstd::prelude::*;

use crate::local::RoomName;
use crate::request::Reference;

verus! {

/// The costs of the tiles of a room, held by JavaScript.
pub struct CostMatrix<'a> {
    pub inner: Reference,
    pub lifetime: PhantomData<&'a ()>,
}

impl<'a> CostMatrix<'a> {
    pub fn new(inner: Reference) -> (matrix: CostMatrix<'a>)
        ensures
            matrix.inner == inner,
    {
        CostMatrix { inner, lifetime: PhantomData }
    }
}

/// The handle on a matrix that may be missing.
pub open spec fn inner_of(matrix: Option<CostMatrix>) -> Option<Reference> {
    match matrix {
        Some(given) => Some(given.inner),
        None => None,
    }
}

/// Something that is asked for the costs of a room's tiles. It is handed the costs that the
/// search would use, and may give others in their place.
pub trait CostCallback<'a> {
    /// Whether it may be asked for the costs of this room.
    spec fn may_ask(&self, room_name: RoomName, matrix: Reference) -> bool;

    /// Whether `given` is an answer that it may give.
    spec fn may_give(
        &self,
        room_name: RoomName,
        matrix: Reference,
        given: Option<Reference>,
    ) -> bool;

    fn costs(&self, room_name: RoomName, matrix: CostMatrix<'_>) -> (given: Option<CostMatrix<'a>>)
        requires
            self.may_ask(room_name, matrix.inner),
        ensures
            self.may_give(room_name, matrix.inner, inner_of(given)),
    ;
}

/// The callback that leaves all costs as they are.
#[derive(Clone, Copy, Debug)]
pub struct UnchangedCosts;

impl CostCallback<'static> for UnchangedCosts {
    open spec fn may_ask(&self, room_name: RoomName, matrix: Reference) -> bool {
        true
    }

    open spec fn may_give(
        &self,
        room_name: RoomName,
        matrix: Reference,
        given: Option<Reference>,
    ) -> bool {
        given is None
    }

    fn costs(&self, _room_name: RoomName, _matrix: CostMatrix<'_>) -> (given: Option<
        CostMatrix<'static>,
    >) {
        None
    }
}

impl<'a, F> CostCallback<'a> for F where
    F: Fn(RoomName, CostMatrix<'_>) -> Option<CostMatrix<'a>>,
 {
    open spec fn may_ask(&self, room_name: RoomName, matrix: Reference) -> bool {
        forall|handed: CostMatrix|
            handed.inner == matrix ==> #[trigger] call_requires(*self, (room_name, handed))
    }

    open spec fn may_give(
        &self,
        room_name: RoomName,
        matrix: Reference,
        given: Option<Reference>,
    ) -> bool {
        exists|handed: CostMatrix, result: Option<CostMatrix<'a>>|
            {
                &&& handed.inner == matrix
                &&& inner_of(result) == given
                &&& #[trigger] call_ensures(*self, (room_name, handed), result)
            }
    }

    fn costs(&self, room_name: RoomName, matrix: CostMatrix<'_>) -> (given: Option<
        CostMatrix<'a>,
    >) {
        let ghost handed = matrix;
        let result = self(room_name, matrix);
        assert(call_ensures(*self, (room_name, handed), result));
        result
    }
}

/// Whether a callback may be asked wherever it may be called as a closure, and gives only what
/// the closure returns.
pub open spec fn answers_as_closure<'b, F>(cost_callback: F) -> bool where
    F: Fn(RoomName, CostMatrix<'_>) -> Option<CostMatrix<'b>>,
 {
    &&& forall|room_name: RoomName, matrix: Reference|
        (forall|handed: CostMatrix|
            handed.inner == matrix ==> #[trigger] call_requires(
                cost_callback,
                (room_name, handed),
            )) ==> #[trigger] cost_callback.may_ask(room_name, matrix)
    &&& forall|room_name: RoomName, matrix: Reference, given: Option<Reference>|
        #[trigger] cost_callback.may_give(room_name, matrix, given) ==> exists|
            handed: CostMatrix,
            result: Option<CostMatrix<'b>>,
        | {
            &&& handed.inner == matrix
            &&& inner_of(result) == given
            &&& #[trigger] call_ensures(cost_callback, (room_name, handed), result)
        }
}

/// Options of the search for a path within and between rooms.
pub struct FindOptions<'a, F> where F: CostCallback<'a> {
    pub ignore_creeps: bool,
    pub ignore_destructible_structures: bool,
    pub cost_callback: F,
    pub max_ops: u32,
    /// The weight, as the bits of a 64-bit IEEE 754 number.
    pub heuristic_weight: u64,
    pub serialize: bool,
    pub max_rooms: u32,
    pub range: u32,
    pub plain_cost: u8,
    pub swamp_cost: u8,
    pub lifetime: PhantomData<&'a ()>,
}

/// The bits of 1.2.
pub const DEFAULT_HEURISTIC_WEIGHT: u64 = 0x3FF3_3333_3333_3333;

impl FindOptions<'static, UnchangedCosts> {
    /// The options of a search for which nothing was asked.
    pub open spec fn initial() -> Self {
        FindOptions {
            ignore_creeps: false,
            ignore_destructible_structures: false,
            cost_callback: UnchangedCosts,
            max_ops: 2000,
            heuristic_weight: DEFAULT_HEURISTIC_WEIGHT,
            serialize: false,
            max_rooms: 16,
            range: 0,
            plain_cost: 1,
            swamp_cost: 5,
            lifetime: PhantomData,
        }
    }
}

impl Default for FindOptions<'static, UnchangedCosts> {
    fn default() -> (options: Self)
        ensures
            options == Self::initial(),
    {
        FindOptions {
            ignore_creeps: false,
            ignore_destructible_structures: false,
            cost_callback: UnchangedCosts,
            max_ops: 2000,
            heuristic_weight: DEFAULT_HEURISTIC_WEIGHT,
            serialize: false,
            max_rooms: 16,
            range: 0,
            plain_cost: 1,
            swamp_cost: 5,
            lifetime: PhantomData,
        }
    }
}

impl<'a, F> FindOptions<'a, F> where F: CostCallback<'a> {
    /// These options, with another callback.
    pub open spec fn with_cost_callback<'b, F2>(self, cost_callback: F2) -> FindOptions<
        'b,
        F2,
    > where F2: CostCallback<'b> {
        FindOptions {
            ignore_creeps: self.ignore_creeps,
            ignore_destructible_structures: self.ignore_destructible_structures,
            cost_callback,
            max_ops: self.max_ops,
            heuristic_weight: self.heuristic_weight,
            serialize: self.serialize,
            max_rooms: self.max_rooms,
            range: self.range,
            plain_cost: self.plain_cost,
            swamp_cost: self.swamp_cost,
            lifetime: PhantomData,
        }
    }

    /// Sets the callback that is asked for costs. Default: costs stay as they are.
    ///
    /// The callback may be asked wherever the closure may be called, and what it gives is what
    /// the closure returns.
    pub fn cost_callback<'b, F2>(self, cost_callback: F2) -> (options: FindOptions<'b, F2>) where
        F2: Fn(RoomName, CostMatrix<'_>) -> Option<CostMatrix<'b>>,

        ensures
            options == self.with_cost_callback::<F2>(cost_callback),
            answers_as_closure(cost_callback),
    {
        FindOptions {
            ignore_creeps: self.ignore_creeps,
            ignore_destructible_structures: self.ignore_destructible_structures,
            cost_callback,
            max_ops: self.max_ops,
            heuristic_weight: self.heuristic_weight,
            serialize: self.serialize,
            max_rooms: self.max_rooms,
            range: self.range,
            plain_cost: self.plain_cost,
            swamp_cost: self.swamp_cost,
            lifetime: PhantomData,
        }
    }
}

} // verus!
