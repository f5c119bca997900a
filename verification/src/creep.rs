//! Creeps: what can be asked of them, and how the answers are read.
use std::marker::PhantomData;
use vstd::prelude::*;

use crate::constants::{Direction, Part, ResourceType, ReturnCode};
use crate::find::{inner_of, CostCallback, CostMatrix, FindOptions};
use crate::local::{Position, PositionModel, RoomName, ROOM_SIZE};
use crate::move_options::{MoveSettings, MoveToOptions};
use crate::objects::{
    Attackable, ConstructionSite, GameObject, Harvestable, HasPosition, Resource, SearchResults,
    Step, StructureController, StructureProperties, Transferable, Withdrawable,
};
use crate::reply::{FromReply, ReplyError, Value};
use crate::request::{
    body_part, call, nested, property, Argument, ArgumentModel, BodyField, Expression,
    MemoryReference, Reference, Request, RequestModel,
};

verus! {

/// A creep, and the tile on which it stands.
#[derive(Clone, Copy, Debug)]
pub struct Creep {
    pub reference: Reference,
    pub pos: Position,
}

impl GameObject for Creep {
    open spec fn object(&self) -> Reference {
        self.reference
    }

    fn reference(&self) -> (reference: Reference) {
        self.reference
    }
}

impl HasPosition for Creep {
    open spec fn position(&self) -> Position {
        self.pos
    }

    fn pos(&self) -> (position: Position) {
        self.pos
    }
}

impl Attackable for Creep {

}

impl Transferable for Creep {

}

/// One part of a creep's body.
#[derive(Clone, Debug)]
#[non_exhaustive]
pub struct Bodypart {
    pub boost: Option<ResourceType>,
    pub part: Part,
    pub hits: u32,
}

/// What JavaScript answered about one part of a body.
pub struct BodyEntry {
    pub boost: Value,
    pub part: Value,
    pub hits: Value,
}

/// What is asked about one part of a body.
pub struct BodyRequests {
    pub boost: Request<'static, Option<ResourceType>>,
    pub part: Request<'static, Part>,
    pub hits: Request<'static, u32>,
}

/// The first answer about a body that could not be read.
#[derive(Clone, Copy, Debug, PartialEq, Eq, Structural)]
pub struct BodyError {
    pub index: usize,
    pub field: BodyField,
    pub error: ReplyError,
}

/// The part of a body that an entry tells of: what boosts it is read first, then its kind, then
/// its hits.
pub open spec fn bodypart_reading(entry: BodyEntry) -> Result<Bodypart, (BodyField, ReplyError)> {
    match <Option<ResourceType> as FromReply>::reading(entry.boost@) {
        Err(error) => Err((BodyField::Boost, error)),
        Ok(boost) => match Part::reading(entry.part@) {
            Err(error) => Err((BodyField::Part, error)),
            Ok(part) => match u32::reading(entry.hits@) {
                Err(error) => Err((BodyField::Hits, error)),
                Ok(hits) => Ok(Bodypart { boost, part, hits }),
            },
        },
    }
}

/// Whether every entry tells of a part of a body.
pub open spec fn body_is_readable(entries: Seq<BodyEntry>) -> bool {
    forall|i: int| 0 <= i < entries.len() ==> bodypart_reading(#[trigger] entries[i]) is Ok
}

fn read_bodypart(entry: &BodyEntry) -> (read: Result<Bodypart, (BodyField, ReplyError)>)
    ensures
        read == bodypart_reading(*entry),
{
    let boost = match <Option<ResourceType> as FromReply>::from_reply(&entry.boost) {
        Ok(boost) => boost,
        Err(error) => { return Err((BodyField::Boost, error)); },
    };
    let part = match Part::from_reply(&entry.part) {
        Ok(part) => part,
        Err(error) => { return Err((BodyField::Part, error)); },
    };
    match u32::from_reply(&entry.hits) {
        Ok(hits) => Ok(Bodypart { boost, part, hits }),
        Err(error) => Err((BodyField::Hits, error)),
    }
}

/// The request to move somewhere, given settings.
pub open spec fn move_with_settings(
    receiver: Reference,
    target: PositionModel,
    settings: MoveSettings,
) -> RequestModel {
    call(
        receiver,
        "moveTo"@,
        seq![
            ArgumentModel::PackedPosition(target.packed()),
            ArgumentModel::MoveOptions(settings),
        ],
    )
}

/// A request to move, and the callback that is to be asked for costs while JavaScript carries
/// it out.
pub struct MoveToRequest<'a, F> where F: CostCallback<'a> {
    pub request: Request<'static, ReturnCode>,
    pub cost_callback: F,
    pub lifetime: PhantomData<&'a ()>,
}

impl<'a, F> MoveToRequest<'a, F> where F: CostCallback<'a> {
    /// Answers JavaScript's question for the costs of a room: names the room to the callback,
    /// hands it the matrix, and passes on the matrix that it gives.
    ///
    /// `room_name` must name a room, which [`RoomName::parse`] tells.
    pub fn costs(&self, room_name: &str, cost_matrix: Reference) -> (given: Option<Reference>)
        requires
            exists|room: RoomName| #[trigger] room.is_named(room_name@),
            forall|room: RoomName| #[trigger]
                room.is_named(room_name@) ==> self.cost_callback.may_ask(room, cost_matrix),
        ensures
            exists|room: RoomName| #[trigger]
                room.is_named(room_name@) && self.cost_callback.may_give(room, cost_matrix, given),
    {
        let room = RoomName::parse(room_name).unwrap();
        let answer = self.cost_callback.costs(room, CostMatrix::new(cost_matrix));
        let ghost handed = inner_of(answer);
        let inner = match answer {
            Some(matrix) => Some(matrix.inner),
            None => None,
        };
        assert(inner == handed);
        inner
    }
}

impl Creep {
    /// Asks how many parts the creep's body has.
    pub fn body_length(&self) -> (request: Request<'static, u32>)
        ensures
            request@ == nested(self.reference, "body"@, "length"@),
    {
        Request::new(self.reference, Expression::Nested { outer: "body", inner: "length" })
    }

    /// Asks about each of the `len` parts of the creep's body, in their order.
    pub fn body_requests(&self, len: u32) -> (requests: Vec<BodyRequests>)
        ensures
            requests@.len() == len,
            forall|i: int|
                0 <= i < len ==> {
                    &&& (#[trigger] requests@[i]).boost@ == body_part(
                        self.reference,
                        i as u32,
                        BodyField::Boost,
                    )
                    &&& requests@[i].part@ == body_part(self.reference, i as u32, BodyField::Part)
                    &&& requests@[i].hits@ == body_part(self.reference, i as u32, BodyField::Hits)
                },
    {
        let mut requests: Vec<BodyRequests> = Vec::with_capacity(len as usize);
        let mut index: u32 = 0;
        while index < len
            invariant
                index <= len,
                requests@.len() == index,
                forall|i: int|
                    0 <= i < index ==> {
                        &&& (#[trigger] requests@[i]).boost@ == body_part(
                            self.reference,
                            i as u32,
                            BodyField::Boost,
                        )
                        &&& requests@[i].part@ == body_part(
                            self.reference,
                            i as u32,
                            BodyField::Part,
                        )
                        &&& requests@[i].hits@ == body_part(
                            self.reference,
                            i as u32,
                            BodyField::Hits,
                        )
                    },
            decreases len - index,
        {
            requests.push(
                BodyRequests {
                    boost: self.body_field(index, BodyField::Boost),
                    part: self.body_field(index, BodyField::Part),
                    hits: self.body_field(index, BodyField::Hits),
                },
            );
            index = index + 1;
        }
        requests
    }

    fn body_field<R>(&self, index: u32, field: BodyField) -> (request: Request<'static, R>)
        ensures
            request@ == body_part(self.reference, index, field),
    {
        Request::new(self.reference, Expression::BodyPart { index, field })
    }

    /// The first answer about the creep's body that cannot be read, if any.
    pub fn body_fault(&self, entries: &Vec<BodyEntry>) -> (fault: Option<BodyError>)
        ensures
            match fault {
                Some(error) => {
                    &&& error.index < entries@.len()
                    &&& forall|i: int|
                        0 <= i < error.index ==> bodypart_reading(#[trigger] entries@[i]) is Ok
                    &&& bodypart_reading(entries@[error.index as int]) == Err::<
                        Bodypart,
                        (BodyField, ReplyError),
                    >((error.field, error.error))
                },
                None => body_is_readable(entries@),
            },
    {
        let mut index: usize = 0;
        while index < entries.len()
            invariant
                index <= entries@.len(),
                forall|i: int| 0 <= i < index ==> bodypart_reading(#[trigger] entries@[i]) is Ok,
            decreases entries@.len() - index,
        {
            match read_bodypart(&entries[index]) {
                Ok(_) => {},
                Err((field, error)) => { return Some(BodyError { index, field, error }); },
            }
            index = index + 1;
        }
        None
    }

    /// Reads the creep's body from what JavaScript answered about its parts.
    ///
    /// All answers must be readable, which [`Creep::body_fault`] tells.
    pub fn body(&self, entries: &Vec<BodyEntry>) -> (parts: Vec<Bodypart>)
        requires
            body_is_readable(entries@),
        ensures
            parts@.len() == entries@.len(),
            forall|i: int|
                0 <= i < entries@.len() ==> bodypart_reading(#[trigger] entries@[i]) == Ok::<
                    Bodypart,
                    (BodyField, ReplyError),
                >(parts@[i]),
    {
        let mut parts: Vec<Bodypart> = Vec::with_capacity(entries.len());
        let mut index: usize = 0;
        while index < entries.len()
            invariant
                index <= entries@.len(),
                body_is_readable(entries@),
                parts@.len() == index,
                forall|i: int|
                    0 <= i < index ==> bodypart_reading(#[trigger] entries@[i]) == Ok::<
                        Bodypart,
                        (BodyField, ReplyError),
                    >(parts@[i]),
            decreases entries@.len() - index,
        {
            assert(bodypart_reading(entries@[index as int]) is Ok);
            if let Ok(part) = read_bodypart(&entries[index]) {
                parts.push(part);
            }
            index = index + 1;
        }
        parts
    }

    /// Drops a resource on the ground: the given amount, or all of it.
    pub fn drop(
        &self,
        ty: ResourceType,
        amount: Option<u32>,
    ) -> (request: Request<'static, ReturnCode>)
        ensures
            request@ == match amount {
                Some(v) => call(
                    self.reference,
                    "drop"@,
                    seq![ArgumentModel::ResourceName(ty.number()), ArgumentModel::Number(v)],
                ),
                None => call(self.reference, "drop"@, seq![ArgumentModel::ResourceName(ty.number())]),
            },
    {
        let resource = Argument::ResourceName(ty.code());
        match amount {
            Some(v) => Request::call_with_two(
                self.reference,
                "drop",
                resource,
                Argument::Number(v),
            ),
            None => Request::call_with_one(self.reference, "drop", resource),
        }
    }

    /// Asks for the name of the player who owns the creep.
    pub fn owner_name(&self) -> (request: Request<'static, String>)
        ensures
            request@ == nested(self.reference, "owner"@, "username"@),
    {
        Request::new(self.reference, Expression::Nested { outer: "owner", inner: "username" })
    }

    /// Cancels an order given earlier in the tick, by the name of its method.
    pub fn cancel_order<'a>(&self, name: &'a str) -> (request: Request<'a, ReturnCode>)
        ensures
            request@ == call(self.reference, "cancelOrder"@, seq![ArgumentModel::Text(name@)]),
    {
        Request::call_with_one(self.reference, "cancelOrder", Argument::Text(name))
    }

    /// Moves one tile.
    pub fn move_direction(&self, dir: Direction) -> (request: Request<'static, ReturnCode>)
        ensures
            request@ == call(
                self.reference,
                "move"@,
                seq![ArgumentModel::Number(dir.number() as u32)],
            ),
    {
        Request::call_with_one(self.reference, "move", Argument::Number(dir.code()))
    }

    /// Moves towards a tile of the creep's room.
    pub fn move_to_xy(&self, x: u32, y: u32) -> (request: Request<'static, ReturnCode>)
        ensures
            request@ == call(
                self.reference,
                "moveTo"@,
                seq![ArgumentModel::Number(x), ArgumentModel::Number(y)],
            ),
    {
        Request::call_with_two(
            self.reference,
            "moveTo",
            Argument::Number(x),
            Argument::Number(y),
        )
    }

    /// Moves towards a tile of the creep's room, with options.
    pub fn move_to_xy_with_options<'a, F>(
        &self,
        x: u32,
        y: u32,
        move_options: MoveToOptions<'a, F>,
    ) -> (moving: MoveToRequest<'a, F>) where F: CostCallback<'a>
        requires
            x < ROOM_SIZE,
            y < ROOM_SIZE,
        ensures
            moving.request@ == move_with_settings(
                self.reference,
                PositionModel { x: x as int, y: y as int, room_name: self.pos@.room_name },
                move_options.settings(),
            ),
            moving.cost_callback == move_options.find_options.cost_callback,
    {
        let pos = Position::new(x, y, self.pos().room_name());
        self.move_to_with_options(&pos, move_options)
    }

    /// Moves towards something.
    pub fn move_to<T: ?Sized + HasPosition>(
        &self,
        target: &T,
    ) -> (request: Request<'static, ReturnCode>)
        ensures
            request@ == call(
                self.reference,
                "moveTo"@,
                seq![ArgumentModel::PackedPosition(target.position()@.packed())],
            ),
    {
        let p = target.pos();
        Request::call_with_one(
            self.reference,
            "moveTo",
            Argument::PackedPosition(p.packed_repr()),
        )
    }

    /// Moves towards something, with options.
    pub fn move_to_with_options<'a, F, T>(
        &self,
        target: &T,
        move_options: MoveToOptions<'a, F>,
    ) -> (moving: MoveToRequest<'a, F>) where T: ?Sized + HasPosition, F: CostCallback<'a>
        ensures
            moving.request@ == move_with_settings(
                self.reference,
                target.position()@,
                move_options.settings(),
            ),
            moving.cost_callback == move_options.find_options.cost_callback,
    {
        let MoveToOptions {
            reuse_path,
            serialize_memory,
            no_path_finding,
            find_options: FindOptions {
                ignore_creeps,
                ignore_destructible_structures,
                cost_callback,
                max_ops,
                heuristic_weight,
                serialize,
                max_rooms,
                range,
                plain_cost,
                swamp_cost,
                lifetime: _,
            },
        } = move_options;
        let rp = target.pos();
        let settings = MoveSettings {
            reuse_path,
            serialize_memory,
            no_path_finding,
            ignore_creeps,
            ignore_destructible_structures,
            max_ops,
            heuristic_weight,
            serialize,
            max_rooms,
            range,
            plain_cost,
            swamp_cost,
        };
        let request = Request::call_with_two(
            self.reference,
            "moveTo",
            Argument::PackedPosition(rp.packed_repr()),
            Argument::MoveOptions(settings),
        );
        MoveToRequest { request, cost_callback, lifetime: PhantomData }
    }

    /// Moves along a path in its serialized form.
    pub fn move_by_path_serialized<'a>(&self, path: &'a str) -> (request: Request<'a, ReturnCode>)
        ensures
            request@ == call(self.reference, "moveByPath"@, seq![ArgumentModel::Text(path@)]),
    {
        Request::call_with_one(self.reference, "moveByPath", Argument::Text(path))
    }

    /// Moves along a path given by its steps.
    pub fn move_by_path_steps<'a>(&self, path: &'a [Step]) -> (request: Request<'a, ReturnCode>)
        ensures
            request@ == call(self.reference, "moveByPath"@, seq![ArgumentModel::Steps(path@)]),
    {
        Request::call_with_one(self.reference, "moveByPath", Argument::Steps(path))
    }

    /// Moves along a path that a search found.
    pub fn move_by_path_search_result(
        &self,
        path: &SearchResults,
    ) -> (request: Request<'static, ReturnCode>)
        ensures
            request@ == call(self.reference, "moveByPath"@, seq![ArgumentModel::Object(path.path)]),
    {
        Request::call_with_one(self.reference, "moveByPath", Argument::Object(path.opaque_path()))
    }

    /// Asks for the creep's part of the game's `Memory`.
    pub fn memory(&self) -> (request: Request<'static, MemoryReference>)
        ensures
            request@ == property(self.reference, "memory"@),
    {
        Request::new(self.reference, Expression::Property { name: "memory" })
    }

    /// Sets whether the player is notified when the creep is attacked.
    pub fn notify_when_attacked(
        &self,
        notify_when_attacked: bool,
    ) -> (request: Request<'static, ReturnCode>)
        ensures
            request@ == call(
                self.reference,
                "notifyWhenAttacked"@,
                seq![ArgumentModel::Flag(notify_when_attacked)],
            ),
    {
        Request::call_with_one(
            self.reference,
            "notifyWhenAttacked",
            Argument::Flag(notify_when_attacked),
        )
    }

    /// Shows a message above the creep, to all players if it is public.
    pub fn say<'a>(&self, msg: &'a str, public: bool) -> (request: Request<'a, ReturnCode>)
        ensures
            request@ == call(
                self.reference,
                "say"@,
                seq![ArgumentModel::Text(msg@), ArgumentModel::Flag(public)],
            ),
    {
        Request::call_with_two(
            self.reference,
            "say",
            Argument::Text(msg),
            Argument::Flag(public),
        )
    }

    /// Signs a controller with a text.
    pub fn sign_controller<'a>(
        &self,
        target: &StructureController,
        text: &'a str,
    ) -> (request: Request<'a, ReturnCode>)
        ensures
            request@ == call(
                self.reference,
                "signController"@,
                seq![ArgumentModel::Object(target.reference), ArgumentModel::Text(text@)],
            ),
    {
        Request::call_with_two(
            self.reference,
            "signController",
            Argument::Object(target.reference()),
            Argument::Text(text),
        )
    }

    /// Kills the creep.
    pub fn suicide(&self) -> (request: Request<'static, ReturnCode>)
        ensures
            request@ == call(self.reference, "suicide"@, seq![]),
    {
        Request::call_without_arguments(self.reference, "suicide")
    }

    /// Asks how many parts of one kind still work.
    pub fn get_active_bodyparts(&self, ty: Part) -> (request: Request<'static, u32>)
        ensures
            request@ == call(
                self.reference,
                "getActiveBodyparts"@,
                seq![ArgumentModel::PartName(ty.number())],
            ),
    {
        Request::call_with_one(self.reference, "getActiveBodyparts", Argument::PartName(ty.code()))
    }

    /// Attacks everything hostile in range.
    pub fn ranged_mass_attack(&self) -> (request: Request<'static, ReturnCode>)
        ensures
            request@ == call(self.reference, "rangedMassAttack"@, seq![]),
    {
        Request::call_without_arguments(self.reference, "rangedMassAttack")
    }

    /// Transfers some of a resource to something.
    pub fn transfer_amount<T>(
        &self,
        target: &T,
        ty: ResourceType,
        amount: u32,
    ) -> (request: Request<'static, ReturnCode>) where
        T: ?Sized + Transferable,

        ensures
            request@ == call(
                self.reference,
                "transfer"@,
                seq![
                    ArgumentModel::Object(target.object()),
                    ArgumentModel::ResourceName(ty.number()),
                    ArgumentModel::Number(amount),
                ],
            ),
    {
        Request::call_with_three(
            self.reference,
            "transfer",
            Argument::Object(target.reference()),
            Argument::ResourceName(ty.code()),
            Argument::Number(amount),
        )
    }

    /// Transfers all of a resource to something.
    pub fn transfer_all<T>(
        &self,
        target: &T,
        ty: ResourceType,
    ) -> (request: Request<'static, ReturnCode>) where
        T: ?Sized + Transferable,

        ensures
            request@ == call(
                self.reference,
                "transfer"@,
                seq![ArgumentModel::Object(target.object()), ArgumentModel::ResourceName(ty.number())],
            ),
    {
        Request::call_with_two(
            self.reference,
            "transfer",
            Argument::Object(target.reference()),
            Argument::ResourceName(ty.code()),
        )
    }

    /// Withdraws some of a resource from something.
    pub fn withdraw_amount<T>(
        &self,
        target: &T,
        ty: ResourceType,
        amount: u32,
    ) -> (request: Request<'static, ReturnCode>) where
        T: ?Sized + Withdrawable,

        ensures
            request@ == call(
                self.reference,
                "withdraw"@,
                seq![
                    ArgumentModel::Object(target.object()),
                    ArgumentModel::ResourceName(ty.number()),
                    ArgumentModel::Number(amount),
                ],
            ),
    {
        Request::call_with_three(
            self.reference,
            "withdraw",
            Argument::Object(target.reference()),
            Argument::ResourceName(ty.code()),
            Argument::Number(amount),
        )
    }

    /// Withdraws all of a resource from something.
    pub fn withdraw_all<T>(
        &self,
        target: &T,
        ty: ResourceType,
    ) -> (request: Request<'static, ReturnCode>) where
        T: ?Sized + Withdrawable,

        ensures
            request@ == call(
                self.reference,
                "withdraw"@,
                seq![ArgumentModel::Object(target.object()), ArgumentModel::ResourceName(ty.number())],
            ),
    {
        Request::call_with_two(
            self.reference,
            "withdraw",
            Argument::Object(target.reference()),
            Argument::ResourceName(ty.code()),
        )
    }

    /// Asks how tired the creep is.
    pub fn fatigue(&self) -> (request: Request<'static, u32>)
        ensures
            request@ == property(self.reference, "fatigue"@),
    {
        Request::new(self.reference, Expression::Property { name: "fatigue" })
    }

    /// Asks for the creep's name.
    pub fn name(&self) -> (request: Request<'static, String>)
        ensures
            request@ == property(self.reference, "name"@),
    {
        Request::new(self.reference, Expression::Property { name: "name" })
    }

    /// Asks whether the creep is the player's own.
    pub fn my(&self) -> (request: Request<'static, bool>)
        ensures
            request@ == property(self.reference, "my"@),
    {
        Request::new(self.reference, Expression::Property { name: "my" })
    }

    /// Asks what the creep is saying.
    pub fn saying(&self) -> (request: Request<'static, String>)
        ensures
            request@ == property(self.reference, "saying"@),
    {
        Request::new(self.reference, Expression::Property { name: "saying" })
    }

    /// Asks whether the creep is still being spawned.
    pub fn spawning(&self) -> (request: Request<'static, bool>)
        ensures
            request@ == property(self.reference, "spawning"@),
    {
        Request::new(self.reference, Expression::Property { name: "spawning" })
    }

    /// Asks after how many ticks the creep will die.
    pub fn ticks_to_live(&self) -> (request: Request<'static, u32>)
        ensures
            request@ == property(self.reference, "ticksToLive"@),
    {
        Request::new(self.reference, Expression::Property { name: "ticksToLive" })
    }

    /// Attacks something nearby.
    pub fn attack<T>(&self, target: &T) -> (request: Request<'static, ReturnCode>) where
        T: ?Sized + Attackable,

        ensures
            request@ == call(
                self.reference,
                "attack"@,
                seq![ArgumentModel::Object(target.object())],
            ),
    {
        Request::call_with_one(self.reference, "attack", Argument::Object(target.reference()))
    }

    /// Dismantles a structure.
    pub fn dismantle<T>(&self, target: &T) -> (request: Request<'static, ReturnCode>) where
        T: ?Sized + StructureProperties,

        ensures
            request@ == call(
                self.reference,
                "dismantle"@,
                seq![ArgumentModel::Object(target.object())],
            ),
    {
        Request::call_with_one(self.reference, "dismantle", Argument::Object(target.reference()))
    }

    /// Harvests something nearby.
    pub fn harvest<T>(&self, target: &T) -> (request: Request<'static, ReturnCode>) where
        T: ?Sized + Harvestable,

        ensures
            request@ == call(
                self.reference,
                "harvest"@,
                seq![ArgumentModel::Object(target.object())],
            ),
    {
        Request::call_with_one(self.reference, "harvest", Argument::Object(target.reference()))
    }

    /// Attacks something from afar.
    pub fn ranged_attack<T>(&self, target: &T) -> (request: Request<'static, ReturnCode>) where
        T: ?Sized + Attackable,

        ensures
            request@ == call(
                self.reference,
                "rangedAttack"@,
                seq![ArgumentModel::Object(target.object())],
            ),
    {
        Request::call_with_one(self.reference, "rangedAttack", Argument::Object(target.reference()))
    }

    /// Repairs a structure.
    pub fn repair<T>(&self, target: &T) -> (request: Request<'static, ReturnCode>) where
        T: ?Sized + StructureProperties,

        ensures
            request@ == call(
                self.reference,
                "repair"@,
                seq![ArgumentModel::Object(target.object())],
            ),
    {
        Request::call_with_one(self.reference, "repair", Argument::Object(target.reference()))
    }

    /// Attacks the controller of a room.
    pub fn attack_controller(
        &self,
        target: &StructureController,
    ) -> (request: Request<'static, ReturnCode>)
        ensures
            request@ == call(
                self.reference,
                "attackController"@,
                seq![ArgumentModel::Object(target.reference)],
            ),
    {
        Request::call_with_one(
            self.reference,
            "attackController",
            Argument::Object(target.reference()),
        )
    }

    /// Builds a structure.
    pub fn build(&self, target: &ConstructionSite) -> (request: Request<'static, ReturnCode>)
        ensures
            request@ == call(
                self.reference,
                "build"@,
                seq![ArgumentModel::Object(target.reference)],
            ),
    {
        Request::call_with_one(self.reference, "build", Argument::Object(target.reference()))
    }

    /// Claims the controller of a room.
    pub fn claim_controller(
        &self,
        target: &StructureController,
    ) -> (request: Request<'static, ReturnCode>)
        ensures
            request@ == call(
                self.reference,
                "claimController"@,
                seq![ArgumentModel::Object(target.reference)],
            ),
    {
        Request::call_with_one(
            self.reference,
            "claimController",
            Argument::Object(target.reference()),
        )
    }

    /// Adds a safe mode to the controller of a room.
    pub fn generate_safe_mode(
        &self,
        target: &StructureController,
    ) -> (request: Request<'static, ReturnCode>)
        ensures
            request@ == call(
                self.reference,
                "generateSafeMode"@,
                seq![ArgumentModel::Object(target.reference)],
            ),
    {
        Request::call_with_one(
            self.reference,
            "generateSafeMode",
            Argument::Object(target.reference()),
        )
    }

    /// Heals a creep nearby.
    pub fn heal(&self, target: &Creep) -> (request: Request<'static, ReturnCode>)
        ensures
            request@ == call(
                self.reference,
                "heal"@,
                seq![ArgumentModel::Object(target.reference)],
            ),
    {
        Request::call_with_one(self.reference, "heal", Argument::Object(target.reference()))
    }

    /// Picks up a dropped resource.
    pub fn pickup(&self, target: &Resource) -> (request: Request<'static, ReturnCode>)
        ensures
            request@ == call(
                self.reference,
                "pickup"@,
                seq![ArgumentModel::Object(target.reference)],
            ),
    {
        Request::call_with_one(self.reference, "pickup", Argument::Object(target.reference()))
    }

    /// Helps another creep to follow this one.
    pub fn pull(&self, target: &Creep) -> (request: Request<'static, ReturnCode>)
        ensures
            request@ == call(
                self.reference,
                "pull"@,
                seq![ArgumentModel::Object(target.reference)],
            ),
    {
        Request::call_with_one(self.reference, "pull", Argument::Object(target.reference()))
    }

    /// Heals a creep from afar.
    pub fn ranged_heal(&self, target: &Creep) -> (request: Request<'static, ReturnCode>)
        ensures
            request@ == call(
                self.reference,
                "rangedHeal"@,
                seq![ArgumentModel::Object(target.reference)],
            ),
    {
        Request::call_with_one(self.reference, "rangedHeal", Argument::Object(target.reference()))
    }

    /// Reserves the controller of a room.
    pub fn reserve_controller(
        &self,
        target: &StructureController,
    ) -> (request: Request<'static, ReturnCode>)
        ensures
            request@ == call(
                self.reference,
                "reserveController"@,
                seq![ArgumentModel::Object(target.reference)],
            ),
    {
        Request::call_with_one(
            self.reference,
            "reserveController",
            Argument::Object(target.reference()),
        )
    }

    /// Upgrades the controller of a room.
    pub fn upgrade_controller(
        &self,
        target: &StructureController,
    ) -> (request: Request<'static, ReturnCode>)
        ensures
            request@ == call(
                self.reference,
                "upgradeController"@,
                seq![ArgumentModel::Object(target.reference)],
            ),
    {
        Request::call_with_one(
            self.reference,
            "upgradeController",
            Argument::Object(target.reference()),
        )
    }
}

} // verus!
