//! What holds of the requests that creeps make.
use vstd::prelude::*;

use crate::constants::{Direction, Part, ResourceType, ReturnCode};
use crate::creep::{Creep, MoveToRequest};
use crate::find::CostCallback;
use crate::local::{Position, RoomName};
use crate::move_options::{MoveSettings, MoveToOptions};
use crate::objects::{
    Attackable, ConstructionSite, GameObject, Harvestable, HasPosition, Resource, SearchResults,
    Source, Step, StructureContainer, StructureController, StructureProperties, Transferable,
    Withdrawable,
};
use crate::request::{
    call, Argument, ArgumentModel, BodyField, Expression, MemoryReference, Reference, Request,
};

verus! {

/// Whether a request is `receiver.name(arguments)`, to the letter.
pub open spec fn calls<'a, R>(
    request: Request<'a, R>,
    receiver: Reference,
    name: Seq<char>,
    arguments: Seq<Argument<'a>>,
) -> bool {
    &&& request.receiver == receiver
    &&& request.expression matches Expression::Call { method, arguments: given }
    &&& method@ == name
    &&& given@ == arguments
}

/// Whether a request is a call of `receiver.name` with `count` arguments.
pub open spec fn calls_with<'a, R>(
    request: Request<'a, R>,
    receiver: Reference,
    name: Seq<char>,
    count: nat,
) -> bool {
    &&& request.receiver == receiver
    &&& request.expression matches Expression::Call { method, arguments: given }
    &&& method@ == name
    &&& given@.len() == count
}

/// One argument of a call.
pub open spec fn argument_of<'a, R>(request: Request<'a, R>, index: int) -> Argument<'a> {
    request.expression->arguments@[index]
}

/// Whether a request is `receiver.name`.
pub open spec fn reads<'a, R>(
    request: Request<'a, R>,
    receiver: Reference,
    name: Seq<char>,
) -> bool {
    &&& request.receiver == receiver
    &&& request.expression matches Expression::Property { name: read }
    &&& read@ == name
}

/// Whether a request is `receiver.outer.inner`.
pub open spec fn reads_within<'a, R>(
    request: Request<'a, R>,
    receiver: Reference,
    outer: Seq<char>,
    inner: Seq<char>,
) -> bool {
    &&& request.receiver == receiver
    &&& request.expression matches Expression::Nested { outer: first, inner: second }
    &&& first@ == outer
    &&& second@ == inner
}

/// What a call is said to be, it is: it goes to that object and method, and each of its
/// arguments is what it is said to be.
proof fn lemma_call<'a, R>(
    request: Request<'a, R>,
    receiver: Reference,
    name: Seq<char>,
    models: Seq<ArgumentModel>,
)
    requires
        request@ == call(receiver, name, models),
    ensures
        calls_with(request, receiver, name, models.len()),
        forall|i: int|
            0 <= i < models.len() ==> (#[trigger] request.expression->arguments@[i])@ == models[i],
{
    let given = request.expression->arguments@;
    let told = request.expression@->arguments;
    assert(told == models);
    assert(told.len() == given.len());
    assert forall|i: int| 0 <= i < models.len() implies (#[trigger] given[i])@ == models[i] by {
        assert(told[i] == given[i]@);
    }
}

proof fn lemma_calls<'a, R>(
    request: Request<'a, R>,
    receiver: Reference,
    name: Seq<char>,
    models: Seq<ArgumentModel>,
    arguments: Seq<Argument<'a>>,
)
    requires
        request@ == call(receiver, name, models),
        models.len() == arguments.len(),
        forall|i: int|
            0 <= i < arguments.len() ==> {
                &&& models[i] == (#[trigger] arguments[i])@
                &&& arguments[i] !is Text
                &&& arguments[i] !is Steps
            },
    ensures
        calls(request, receiver, name, arguments),
{
    lemma_call(request, receiver, name, models);
    let given = request.expression->arguments@;
    assert forall|i: int| 0 <= i < arguments.len() implies given[i] == arguments[i] by {
        assert(given[i]@ == models[i]);
        assert(models[i] == arguments[i]@);
    }
    assert(given =~= arguments);
}

/// An order on a target goes to the creep that gives it, by its own method, and hands over the
/// target itself and nothing else.
pub proof fn orders_hand_over_their_targets<A, S, H>(
    creep: Creep,
    attackable: &A,
    structure: &S,
    harvestable: &H,
    controller: StructureController,
    site: ConstructionSite,
    pile: Resource,
    other: Creep,
    request: Request<'static, ReturnCode>,
) where
    A: ?Sized + Attackable,
    S: ?Sized + StructureProperties,
    H: ?Sized + Harvestable,

    ensures
        call_ensures(Creep::attack::<A>, (&creep, attackable), request) ==> calls(
            request,
            creep.reference,
            "attack"@,
            seq![Argument::Object(attackable.object())],
        ),
        call_ensures(Creep::ranged_attack::<A>, (&creep, attackable), request) ==> calls(
            request,
            creep.reference,
            "rangedAttack"@,
            seq![Argument::Object(attackable.object())],
        ),
        call_ensures(Creep::dismantle::<S>, (&creep, structure), request) ==> calls(
            request,
            creep.reference,
            "dismantle"@,
            seq![Argument::Object(structure.object())],
        ),
        call_ensures(Creep::repair::<S>, (&creep, structure), request) ==> calls(
            request,
            creep.reference,
            "repair"@,
            seq![Argument::Object(structure.object())],
        ),
        call_ensures(Creep::harvest::<H>, (&creep, harvestable), request) ==> calls(
            request,
            creep.reference,
            "harvest"@,
            seq![Argument::Object(harvestable.object())],
        ),
        call_ensures(Creep::attack_controller, (&creep, &controller), request) ==> calls(
            request,
            creep.reference,
            "attackController"@,
            seq![Argument::Object(controller.reference)],
        ),
        call_ensures(Creep::claim_controller, (&creep, &controller), request) ==> calls(
            request,
            creep.reference,
            "claimController"@,
            seq![Argument::Object(controller.reference)],
        ),
        call_ensures(Creep::generate_safe_mode, (&creep, &controller), request) ==> calls(
            request,
            creep.reference,
            "generateSafeMode"@,
            seq![Argument::Object(controller.reference)],
        ),
        call_ensures(Creep::reserve_controller, (&creep, &controller), request) ==> calls(
            request,
            creep.reference,
            "reserveController"@,
            seq![Argument::Object(controller.reference)],
        ),
        call_ensures(Creep::upgrade_controller, (&creep, &controller), request) ==> calls(
            request,
            creep.reference,
            "upgradeController"@,
            seq![Argument::Object(controller.reference)],
        ),
        call_ensures(Creep::build, (&creep, &site), request) ==> calls(
            request,
            creep.reference,
            "build"@,
            seq![Argument::Object(site.reference)],
        ),
        call_ensures(Creep::pickup, (&creep, &pile), request) ==> calls(
            request,
            creep.reference,
            "pickup"@,
            seq![Argument::Object(pile.reference)],
        ),
        call_ensures(Creep::heal, (&creep, &other), request) ==> calls(
            request,
            creep.reference,
            "heal"@,
            seq![Argument::Object(other.reference)],
        ),
        call_ensures(Creep::pull, (&creep, &other), request) ==> calls(
            request,
            creep.reference,
            "pull"@,
            seq![Argument::Object(other.reference)],
        ),
        call_ensures(Creep::ranged_heal, (&creep, &other), request) ==> calls(
            request,
            creep.reference,
            "rangedHeal"@,
            seq![Argument::Object(other.reference)],
        ),
{
    if call_ensures(Creep::attack::<A>, (&creep, attackable), request) {
        lemma_calls(
            request,
            creep.reference,
            "attack"@,
            seq![ArgumentModel::Object(attackable.object())],
            seq![Argument::Object(attackable.object())],
        );
    }
    if call_ensures(Creep::ranged_attack::<A>, (&creep, attackable), request) {
        lemma_calls(
            request,
            creep.reference,
            "rangedAttack"@,
            seq![ArgumentModel::Object(attackable.object())],
            seq![Argument::Object(attackable.object())],
        );
    }
    if call_ensures(Creep::dismantle::<S>, (&creep, structure), request) {
        lemma_calls(
            request,
            creep.reference,
            "dismantle"@,
            seq![ArgumentModel::Object(structure.object())],
            seq![Argument::Object(structure.object())],
        );
    }
    if call_ensures(Creep::repair::<S>, (&creep, structure), request) {
        lemma_calls(
            request,
            creep.reference,
            "repair"@,
            seq![ArgumentModel::Object(structure.object())],
            seq![Argument::Object(structure.object())],
        );
    }
    if call_ensures(Creep::harvest::<H>, (&creep, harvestable), request) {
        lemma_calls(
            request,
            creep.reference,
            "harvest"@,
            seq![ArgumentModel::Object(harvestable.object())],
            seq![Argument::Object(harvestable.object())],
        );
    }
    if call_ensures(Creep::attack_controller, (&creep, &controller), request) {
        lemma_calls(
            request,
            creep.reference,
            "attackController"@,
            seq![ArgumentModel::Object(controller.reference)],
            seq![Argument::Object(controller.reference)],
        );
    }
    if call_ensures(Creep::claim_controller, (&creep, &controller), request) {
        lemma_calls(
            request,
            creep.reference,
            "claimController"@,
            seq![ArgumentModel::Object(controller.reference)],
            seq![Argument::Object(controller.reference)],
        );
    }
    if call_ensures(Creep::generate_safe_mode, (&creep, &controller), request) {
        lemma_calls(
            request,
            creep.reference,
            "generateSafeMode"@,
            seq![ArgumentModel::Object(controller.reference)],
            seq![Argument::Object(controller.reference)],
        );
    }
    if call_ensures(Creep::reserve_controller, (&creep, &controller), request) {
        lemma_calls(
            request,
            creep.reference,
            "reserveController"@,
            seq![ArgumentModel::Object(controller.reference)],
            seq![Argument::Object(controller.reference)],
        );
    }
    if call_ensures(Creep::upgrade_controller, (&creep, &controller), request) {
        lemma_calls(
            request,
            creep.reference,
            "upgradeController"@,
            seq![ArgumentModel::Object(controller.reference)],
            seq![Argument::Object(controller.reference)],
        );
    }
    if call_ensures(Creep::build, (&creep, &site), request) {
        lemma_calls(
            request,
            creep.reference,
            "build"@,
            seq![ArgumentModel::Object(site.reference)],
            seq![Argument::Object(site.reference)],
        );
    }
    if call_ensures(Creep::pickup, (&creep, &pile), request) {
        lemma_calls(
            request,
            creep.reference,
            "pickup"@,
            seq![ArgumentModel::Object(pile.reference)],
            seq![Argument::Object(pile.reference)],
        );
    }
    if call_ensures(Creep::heal, (&creep, &other), request) {
        lemma_calls(
            request,
            creep.reference,
            "heal"@,
            seq![ArgumentModel::Object(other.reference)],
            seq![Argument::Object(other.reference)],
        );
    }
    if call_ensures(Creep::pull, (&creep, &other), request) {
        lemma_calls(
            request,
            creep.reference,
            "pull"@,
            seq![ArgumentModel::Object(other.reference)],
            seq![Argument::Object(other.reference)],
        );
    }
    if call_ensures(Creep::ranged_heal, (&creep, &other), request) {
        lemma_calls(
            request,
            creep.reference,
            "rangedHeal"@,
            seq![ArgumentModel::Object(other.reference)],
            seq![Argument::Object(other.reference)],
        );
    }
}

/// An order about a resource names the resource by its own number and, where an amount is given,
/// that very amount behind it; where none is given it names none.
pub proof fn orders_name_resource_and_amount<T, W>(
    creep: Creep,
    receiving: &T,
    giving: &W,
    ty: ResourceType,
    code: u32,
    amount: u32,
    request: Request<'static, ReturnCode>,
) where T: ?Sized + Transferable, W: ?Sized + Withdrawable
    requires
        call_ensures(ResourceType::code, (ty,), code),
    ensures
        call_ensures(Creep::drop, (&creep, ty, Some(amount)), request) ==> calls(
            request,
            creep.reference,
            "drop"@,
            seq![
                Argument::ResourceName(code),
                Argument::Number(amount),
            ],
        ),
        call_ensures(Creep::drop, (&creep, ty, None::<u32>), request) ==> calls(
            request,
            creep.reference,
            "drop"@,
            seq![
                Argument::ResourceName(code),
            ],
        ),
        call_ensures(Creep::transfer_amount::<T>, (&creep, receiving, ty, amount), request) ==> calls(
            request,
            creep.reference,
            "transfer"@,
            seq![
                Argument::Object(receiving.object()),
                Argument::ResourceName(code),
                Argument::Number(amount),
            ],
        ),
        call_ensures(Creep::transfer_all::<T>, (&creep, receiving, ty), request) ==> calls(
            request,
            creep.reference,
            "transfer"@,
            seq![
                Argument::Object(receiving.object()),
                Argument::ResourceName(code),
            ],
        ),
        call_ensures(Creep::withdraw_amount::<W>, (&creep, giving, ty, amount), request) ==> calls(
            request,
            creep.reference,
            "withdraw"@,
            seq![
                Argument::Object(giving.object()),
                Argument::ResourceName(code),
                Argument::Number(amount),
            ],
        ),
        call_ensures(Creep::withdraw_all::<W>, (&creep, giving, ty), request) ==> calls(
            request,
            creep.reference,
            "withdraw"@,
            seq![
                Argument::Object(giving.object()),
                Argument::ResourceName(code),
            ],
        ),
{
    if call_ensures(Creep::drop, (&creep, ty, Some(amount)), request) {
        lemma_calls(
            request,
            creep.reference,
            "drop"@,
            seq![
                ArgumentModel::ResourceName(code as int),
                ArgumentModel::Number(amount),
            ],
            seq![
                Argument::ResourceName(code),
                Argument::Number(amount),
            ],
        );
    }
    if call_ensures(Creep::drop, (&creep, ty, None::<u32>), request) {
        lemma_calls(
            request,
            creep.reference,
            "drop"@,
            seq![
                ArgumentModel::ResourceName(code as int),
            ],
            seq![
                Argument::ResourceName(code),
            ],
        );
    }
    if call_ensures(Creep::transfer_amount::<T>, (&creep, receiving, ty, amount), request) {
        lemma_calls(
            request,
            creep.reference,
            "transfer"@,
            seq![
                ArgumentModel::Object(receiving.object()),
                ArgumentModel::ResourceName(code as int),
                ArgumentModel::Number(amount),
            ],
            seq![
                Argument::Object(receiving.object()),
                Argument::ResourceName(code),
                Argument::Number(amount),
            ],
        );
    }
    if call_ensures(Creep::transfer_all::<T>, (&creep, receiving, ty), request) {
        lemma_calls(
            request,
            creep.reference,
            "transfer"@,
            seq![
                ArgumentModel::Object(receiving.object()),
                ArgumentModel::ResourceName(code as int),
            ],
            seq![
                Argument::Object(receiving.object()),
                Argument::ResourceName(code),
            ],
        );
    }
    if call_ensures(Creep::withdraw_amount::<W>, (&creep, giving, ty, amount), request) {
        lemma_calls(
            request,
            creep.reference,
            "withdraw"@,
            seq![
                ArgumentModel::Object(giving.object()),
                ArgumentModel::ResourceName(code as int),
                ArgumentModel::Number(amount),
            ],
            seq![
                Argument::Object(giving.object()),
                Argument::ResourceName(code),
                Argument::Number(amount),
            ],
        );
    }
    if call_ensures(Creep::withdraw_all::<W>, (&creep, giving, ty), request) {
        lemma_calls(
            request,
            creep.reference,
            "withdraw"@,
            seq![
                ArgumentModel::Object(giving.object()),
                ArgumentModel::ResourceName(code as int),
            ],
            seq![
                Argument::Object(giving.object()),
                Argument::ResourceName(code),
            ],
        );
    }
}

/// The other orders go to the creep by their own methods with what they were given, whole and in
/// its order.
pub proof fn orders_hand_over_what_they_are_given<'a>(
    creep: Creep,
    text: &'a str,
    flag: bool,
    x: u32,
    y: u32,
    direction: Direction,
    direction_code: u32,
    path: &'a [Step],
    found: SearchResults,
    controller: StructureController,
    request: Request<'a, ReturnCode>,
)
    requires
        call_ensures(Direction::code, (direction,), direction_code),
    ensures
        call_ensures(Creep::suicide, (&creep,), request) ==> calls(
            request,
            creep.reference,
            "suicide"@,
            seq![],
        ),
        call_ensures(Creep::ranged_mass_attack, (&creep,), request) ==> calls(
            request,
            creep.reference,
            "rangedMassAttack"@,
            seq![],
        ),
        call_ensures(Creep::notify_when_attacked, (&creep, flag), request) ==> calls(
            request,
            creep.reference,
            "notifyWhenAttacked"@,
            seq![Argument::Flag(flag)],
        ),
        call_ensures(Creep::move_direction, (&creep, direction), request) ==> calls(
            request,
            creep.reference,
            "move"@,
            seq![Argument::Number(direction_code)],
        ),
        call_ensures(Creep::move_to_xy, (&creep, x, y), request) ==> calls(
            request,
            creep.reference,
            "moveTo"@,
            seq![Argument::Number(x), Argument::Number(y)],
        ),
        call_ensures(Creep::move_by_path_search_result, (&creep, &found), request) ==> calls(
            request,
            creep.reference,
            "moveByPath"@,
            seq![Argument::Object(found.path)],
        ),
        call_ensures(Creep::cancel_order, (&creep, text), request) ==> {
            &&& calls_with(request, creep.reference, "cancelOrder"@, 1)
            &&& argument_of(request, 0) matches Argument::Text(given) && given@ == text@
        },
        call_ensures(Creep::move_by_path_serialized, (&creep, text), request) ==> {
            &&& calls_with(request, creep.reference, "moveByPath"@, 1)
            &&& argument_of(request, 0) matches Argument::Text(given) && given@ == text@
        },
        call_ensures(Creep::move_by_path_steps, (&creep, path), request) ==> {
            &&& calls_with(request, creep.reference, "moveByPath"@, 1)
            &&& argument_of(request, 0) matches Argument::Steps(given) && given@ == path@
        },
        call_ensures(Creep::say, (&creep, text, flag), request) ==> {
            &&& calls_with(request, creep.reference, "say"@, 2)
            &&& argument_of(request, 0) matches Argument::Text(given) && given@ == text@
            &&& argument_of(request, 1) == Argument::Flag(flag)
        },
        call_ensures(Creep::sign_controller, (&creep, &controller, text), request) ==> {
            &&& calls_with(request, creep.reference, "signController"@, 2)
            &&& argument_of(request, 0) == Argument::Object(controller.reference)
            &&& argument_of(request, 1) matches Argument::Text(given) && given@ == text@
        },
{
    if call_ensures(Creep::suicide, (&creep,), request) {
        lemma_calls(
            request,
            creep.reference,
            "suicide"@,
            seq![],
            seq![],
        );
    }
    if call_ensures(Creep::ranged_mass_attack, (&creep,), request) {
        lemma_calls(
            request,
            creep.reference,
            "rangedMassAttack"@,
            seq![],
            seq![],
        );
    }
    if call_ensures(Creep::notify_when_attacked, (&creep, flag), request) {
        lemma_calls(
            request,
            creep.reference,
            "notifyWhenAttacked"@,
            seq![ArgumentModel::Flag(flag)],
            seq![Argument::Flag(flag)],
        );
    }
    if call_ensures(Creep::move_direction, (&creep, direction), request) {
        lemma_calls(
            request,
            creep.reference,
            "move"@,
            seq![ArgumentModel::Number(direction_code)],
            seq![Argument::Number(direction_code)],
        );
    }
    if call_ensures(Creep::move_to_xy, (&creep, x, y), request) {
        lemma_calls(
            request,
            creep.reference,
            "moveTo"@,
            seq![ArgumentModel::Number(x), ArgumentModel::Number(y)],
            seq![Argument::Number(x), Argument::Number(y)],
        );
    }
    if call_ensures(Creep::move_by_path_search_result, (&creep, &found), request) {
        lemma_calls(
            request,
            creep.reference,
            "moveByPath"@,
            seq![ArgumentModel::Object(found.path)],
            seq![Argument::Object(found.path)],
        );
    }
    if call_ensures(Creep::cancel_order, (&creep, text), request) {
        lemma_call(
            request,
            creep.reference,
            "cancelOrder"@,
            seq![ArgumentModel::Text(text@)],
        );
        assert(request.expression->arguments@[0]@ == ArgumentModel::Text(text@));
    }
    if call_ensures(Creep::move_by_path_serialized, (&creep, text), request) {
        lemma_call(
            request,
            creep.reference,
            "moveByPath"@,
            seq![ArgumentModel::Text(text@)],
        );
        assert(request.expression->arguments@[0]@ == ArgumentModel::Text(text@));
    }
    if call_ensures(Creep::move_by_path_steps, (&creep, path), request) {
        lemma_call(
            request,
            creep.reference,
            "moveByPath"@,
            seq![ArgumentModel::Steps(path@)],
        );
        assert(request.expression->arguments@[0]@ == ArgumentModel::Steps(path@));
    }
    if call_ensures(Creep::say, (&creep, text, flag), request) {
        lemma_call(
            request,
            creep.reference,
            "say"@,
            seq![ArgumentModel::Text(text@), ArgumentModel::Flag(flag)],
        );
        assert(request.expression->arguments@[0]@ == ArgumentModel::Text(text@));
        assert(request.expression->arguments@[1]@ == ArgumentModel::Flag(flag));
    }
    if call_ensures(Creep::sign_controller, (&creep, &controller, text), request) {
        lemma_call(
            request,
            creep.reference,
            "signController"@,
            seq![ArgumentModel::Object(controller.reference), ArgumentModel::Text(text@)],
        );
        assert(request.expression->arguments@[0]@ == ArgumentModel::Object(controller.reference));
        assert(request.expression->arguments@[1]@ == ArgumentModel::Text(text@));
    }
}

/// The question for working parts names the kind of part by its own number.
pub proof fn working_parts_are_asked_for_by_kind(
    creep: Creep,
    kind: Part,
    code: u32,
    request: Request<'static, u32>,
)
    requires
        call_ensures(Part::code, (kind,), code),
        call_ensures(Creep::get_active_bodyparts, (&creep, kind), request),
    ensures
        calls(request, creep.reference, "getActiveBodyparts"@, seq![Argument::PartName(code)]),
{
    lemma_calls(
        request,
        creep.reference,
        "getActiveBodyparts"@,
        seq![ArgumentModel::PartName(code as int)],
        seq![Argument::PartName(code)],
    );
}

/// A property is asked of the creep itself, under its own name.
pub proof fn properties_are_asked_by_their_names(
    creep: Creep,
    number: Request<'static, u32>,
    text: Request<'static, String>,
    flag: Request<'static, bool>,
    memory: Request<'static, MemoryReference>,
)
    ensures
        call_ensures(Creep::fatigue, (&creep,), number) ==> reads(
            number,
            creep.reference,
            "fatigue"@,
        ),
        call_ensures(Creep::ticks_to_live, (&creep,), number) ==> reads(
            number,
            creep.reference,
            "ticksToLive"@,
        ),
        call_ensures(Creep::body_length, (&creep,), number) ==> reads_within(
            number,
            creep.reference,
            "body"@,
            "length"@,
        ),
        call_ensures(Creep::name, (&creep,), text) ==> reads(text, creep.reference, "name"@),
        call_ensures(Creep::saying, (&creep,), text) ==> reads(text, creep.reference, "saying"@),
        call_ensures(Creep::owner_name, (&creep,), text) ==> reads_within(
            text,
            creep.reference,
            "owner"@,
            "username"@,
        ),
        call_ensures(Creep::my, (&creep,), flag) ==> reads(flag, creep.reference, "my"@),
        call_ensures(Creep::spawning, (&creep,), flag) ==> reads(
            flag,
            creep.reference,
            "spawning"@,
        ),
        call_ensures(Creep::memory, (&creep,), memory) ==> reads(
            memory,
            creep.reference,
            "memory"@,
        ),
{
}

/// Whether settings are those of options, one by one.
pub open spec fn settings_of<'a, F>(
    settings: MoveSettings,
    options: MoveToOptions<'a, F>,
) -> bool where F: CostCallback<'a> {
    &&& settings.reuse_path == options.reuse_path
    &&& settings.serialize_memory == options.serialize_memory
    &&& settings.no_path_finding == options.no_path_finding
    &&& settings.ignore_creeps == options.find_options.ignore_creeps
    &&& settings.ignore_destructible_structures
        == options.find_options.ignore_destructible_structures
    &&& settings.max_ops == options.find_options.max_ops
    &&& settings.heuristic_weight == options.find_options.heuristic_weight
    &&& settings.serialize == options.find_options.serialize
    &&& settings.max_rooms == options.find_options.max_rooms
    &&& settings.range == options.find_options.range
    &&& settings.plain_cost == options.find_options.plain_cost
    &&& settings.swamp_cost == options.find_options.swamp_cost
}

/// A move goes to the tile of its target: the number handed over is the target's packed number.
pub proof fn moves_go_to_their_targets<T>(
    creep: Creep,
    target: &T,
    position: Position,
    packed: u32,
    request: Request<'static, ReturnCode>,
) where T: ?Sized + HasPosition
    requires
        call_ensures(T::pos, (target,), position),
        call_ensures(Position::packed_repr, (position,), packed),
        call_ensures(Creep::move_to::<T>, (&creep, target), request),
    ensures
        calls(request, creep.reference, "moveTo"@, seq![Argument::PackedPosition(packed)]),
{
    lemma_calls(
        request,
        creep.reference,
        "moveTo"@,
        seq![ArgumentModel::PackedPosition(packed as int)],
        seq![Argument::PackedPosition(packed)],
    );
}

/// A move with options goes to the tile of its target, tells each option as it was given, and
/// keeps the callback that was given.
pub proof fn moves_tell_target_and_options<'a, F, T>(
    creep: Creep,
    target: &T,
    position: Position,
    packed: u32,
    options: MoveToOptions<'a, F>,
    moving: MoveToRequest<'a, F>,
) where T: ?Sized + HasPosition, F: CostCallback<'a>
    requires
        call_ensures(T::pos, (target,), position),
        call_ensures(Position::packed_repr, (position,), packed),
        call_ensures(Creep::move_to_with_options::<F, T>, (&creep, target, options), moving),
    ensures
        calls_with(moving.request, creep.reference, "moveTo"@, 2),
        argument_of(moving.request, 0) == Argument::PackedPosition(packed),
        argument_of(moving.request, 1) matches Argument::MoveOptions(settings) && settings_of(
            settings,
            options,
        ),
        moving.cost_callback == options.find_options.cost_callback,
{
    let models = seq![
        ArgumentModel::PackedPosition(packed as int),
        ArgumentModel::MoveOptions(options.settings()),
    ];
    lemma_call(moving.request, creep.reference, "moveTo"@, models);
    assert(moving.request.expression->arguments@[0]@ == models[0]);
    assert(moving.request.expression->arguments@[1]@ == models[1]);
}

/// A move to a column and a row goes to that tile of the creep's own room, and tells options and
/// callback like any other; every tile of the room may be moved to.
pub proof fn moves_within_the_room_stay_in_the_room<'a, F>(
    creep: Creep,
    x: u32,
    y: u32,
    own_room: RoomName,
    options: MoveToOptions<'a, F>,
    moving: MoveToRequest<'a, F>,
) where F: CostCallback<'a>
    requires
        call_ensures(Position::room_name, (creep.pos,), own_room),
        call_ensures(Creep::move_to_xy_with_options::<F>, (&creep, x, y, options), moving),
    ensures
        x < 50 && y < 50 ==> call_requires(
            Creep::move_to_xy_with_options::<F>,
            (&creep, x, y, options),
        ),
        calls_with(moving.request, creep.reference, "moveTo"@, 2),
        argument_of(moving.request, 0) matches Argument::PackedPosition(packed) && packed
            == own_room.packed * 65536 + x * 256 + y,
        argument_of(moving.request, 1) matches Argument::MoveOptions(settings) && settings_of(
            settings,
            options,
        ),
        moving.cost_callback == options.find_options.cost_callback,
{
    let models = seq![
        ArgumentModel::PackedPosition(own_room.packed * 65536 + x * 256 + y),
        ArgumentModel::MoveOptions(options.settings()),
    ];
    lemma_call(moving.request, creep.reference, "moveTo"@, models);
    assert(moving.request.expression->arguments@[0]@ == models[0]);
    assert(moving.request.expression->arguments@[1]@ == models[1]);
}

/// The functions that JavaScript applies make names from numbers of resources, names from
/// numbers of parts, and positions from packed numbers. To any other argument none is applied.
pub proof fn functions_are_applied_to_numbers_that_stand_for_something<'a>(
    argument: Argument<'a>,
    function: Option<&'static str>,
)
    requires
        call_ensures(Argument::<'a>::function, (&argument,), function),
    ensures
        function is Some <==> (argument is ResourceName || argument is PartName
            || argument is PackedPosition),
        argument is ResourceName ==> (function matches Some(name) && name@
            == "__resource_type_num_to_str"@),
        argument is PartName ==> (function matches Some(name) && name@ == "__part_num_to_str"@),
        argument is PackedPosition ==> (function matches Some(name) && name@
            == "pos_from_packed"@),
{
}

/// Of a part, `boost` is read and made a number of a resource, `type` is read and made a number
/// of a kind, and `hits` is read as it is. Only what boosts a part may be missing.
pub proof fn body_fields_are_read_from_their_properties(
    field: BodyField,
    property: &'static str,
    function: Option<&'static str>,
    missing: bool,
)
    requires
        call_ensures(BodyField::property, (field,), property),
        call_ensures(BodyField::function, (field,), function),
        call_ensures(BodyField::may_be_missing, (field,), missing),
    ensures
        field == BodyField::Boost ==> property@ == "boost"@ && missing && (function matches Some(
            name,
        ) && name@ == "__resource_type_str_to_num"@),
        field == BodyField::Part ==> property@ == "type"@ && !missing && (function matches Some(
            name,
        ) && name@ == "__part_str_to_num"@),
        field == BodyField::Hits ==> property@ == "hits"@ && !missing && function is None,
{
}

/// The handle on an object and the tile on which it stands are those that it holds.
pub proof fn objects_are_told_by_their_own_handles(
    creep: Creep,
    controller: StructureController,
    container: StructureContainer,
    site: ConstructionSite,
    pile: Resource,
    source: Source,
    found: SearchResults,
    tile: Position,
    reference: Reference,
    position: Position,
)
    ensures
        call_ensures(Creep::reference, (&creep,), reference) ==> reference == creep.reference,
        call_ensures(Creep::pos, (&creep,), position) ==> position == creep.pos,
        creep.object() == creep.reference,
        creep.position() == creep.pos,
        call_ensures(StructureController::reference, (&controller,), reference) ==> reference == controller.reference,
        call_ensures(StructureController::pos, (&controller,), position) ==> position == controller.pos,
        controller.object() == controller.reference,
        controller.position() == controller.pos,
        call_ensures(StructureContainer::reference, (&container,), reference) ==> reference == container.reference,
        call_ensures(StructureContainer::pos, (&container,), position) ==> position == container.pos,
        container.object() == container.reference,
        container.position() == container.pos,
        call_ensures(ConstructionSite::reference, (&site,), reference) ==> reference == site.reference,
        call_ensures(ConstructionSite::pos, (&site,), position) ==> position == site.pos,
        site.object() == site.reference,
        site.position() == site.pos,
        call_ensures(Resource::reference, (&pile,), reference) ==> reference == pile.reference,
        call_ensures(Resource::pos, (&pile,), position) ==> position == pile.pos,
        pile.object() == pile.reference,
        pile.position() == pile.pos,
        call_ensures(Source::reference, (&source,), reference) ==> reference == source.reference,
        call_ensures(Source::pos, (&source,), position) ==> position == source.pos,
        source.object() == source.reference,
        source.position() == source.pos,
        call_ensures(SearchResults::opaque_path, (&found,), reference) ==> reference == found.path,
        call_ensures(Position::pos, (&tile,), position) ==> position == tile,
        tile.position() == tile,
{
}

} // verus!
