//! What holds of the library as a whole.
pub mod bodies;
pub mod callbacks;
pub mod options;
pub mod orders;
pub mod places;
pub mod replies;

use vstd::prelude::*;

use crate::constants::{Direction, Part, ResourceType, ReturnCode};
use crate::creep::{bodypart_reading, move_with_settings, BodyEntry, Bodypart};
use crate::find::{CostCallback, FindOptions};
use crate::local::{is_digit, PositionModel, RoomName};
use crate::move_options::{MoveSettings, MoveToOptions, Setting};
use crate::reply::{FromReply, ReplyError, ValueModel};
use crate::request::{BodyField, Reference};

verus! {

/// Every answer of the game is read back from its number, and no number is read as another
/// answer than its own.
pub proof fn return_codes_are_told_by_their_numbers(known: ReturnCode, number: i32)
    ensures
        ReturnCode::numbered(known.number() as i32) == Some(known),
        ReturnCode::numbered(number) == Some(known) <==> known.number() == number,
        ReturnCode::reading(ValueModel::Integer(known.number())) == Ok::<ReturnCode, ReplyError>(
            known,
        ),
{
}

/// Every kind of part is read back from its number, and no number is read as another kind than
/// its own.
pub proof fn parts_are_told_by_their_numbers(known: Part, number: u32)
    ensures
        Part::numbered(known.number() as u32) == Some(known),
        Part::numbered(number) == Some(known) <==> known.number() == number,
        Part::reading(ValueModel::Integer(known.number())) == Ok::<Part, ReplyError>(known),
{
}

/// Every resource is read back from its number, and no number is read as another resource than
/// its own.
pub proof fn resources_are_told_by_their_numbers(known: ResourceType, number: u32)
    ensures
        ResourceType::numbered(known.number() as u32) == Some(known),
        ResourceType::numbered(number) == Some(known) <==> known.number() == number,
        ResourceType::reading(ValueModel::Integer(known.number())) == Ok::<
            ResourceType,
            ReplyError,
        >(known),
{
}

/// No two directions share a number, and their numbers go from 1 to 8.
pub proof fn directions_are_told_by_their_numbers(first: Direction, second: Direction)
    ensures
        1 <= first.number() <= 8,
        first.number() == second.number() ==> first == second,
{
}

/// A name names one room at most.
pub proof fn room_names_are_unambiguous(name: Seq<char>, first: RoomName, second: RoomName)
    requires
        first.is_named(name),
        second.is_named(name),
    ensures
        first == second,
{
    let one = choose|middle: int| #[trigger] first.is_named_at(name, middle);
    let other = choose|middle: int| #[trigger] second.is_named_at(name, middle);
    if one < other {
        assert(is_digit(name.subrange(1, other)[one - 1]));
    }
    if other < one {
        assert(is_digit(name.subrange(1, one)[other - 1]));
    }
    assert(first.column() == second.column() && first.row() == second.row());
}

/// The number into which a position is packed gives its room and its tile back, so no two
/// positions share one.
pub proof fn positions_are_told_by_their_packed_numbers(
    first: PositionModel,
    second: PositionModel,
)
    requires
        first.in_room(),
        second.in_room(),
    ensures
        0 <= first.packed() <= u32::MAX,
        first.packed() / 65536 == first.room_name.packed,
        first.packed() / 256 % 256 == first.x,
        first.packed() % 256 == first.y,
        first.packed() == second.packed() ==> first == second,
{
    lemma_unpack(first.room_name.packed as int, first.x, first.y);
    lemma_unpack(second.room_name.packed as int, second.x, second.y);
}

proof fn lemma_unpack(room: int, x: int, y: int)
    requires
        0 <= room < 65536,
        0 <= x < 256,
        0 <= y < 256,
    ensures
        (room * 65536 + x * 256 + y) / 65536 == room,
        (room * 65536 + x * 256 + y) / 256 % 256 == x,
        (room * 65536 + x * 256 + y) % 256 == y,
{
    let upper = room * 256 + x;
    assert((upper * 256 + y) / 256 == upper);
    assert(upper % 256 == x);
}

/// Setting an option has JavaScript told the value set, changes nothing else of what it is told,
/// and leaves the callback alone.
pub proof fn a_setting_reaches_javascript<'a, F>(
    options: MoveToOptions<'a, F>,
    setting: Setting,
    other: Setting,
) where F: CostCallback<'a>
    ensures
        options.changed(setting).settings() == options.settings().changed(setting),
        options.changed(setting).settings().holds(setting),
        !setting.same_option(other) ==> (options.changed(setting).settings().holds(other)
            <==> options.settings().holds(other)),
        options.changed(setting).find_options.cost_callback == options.find_options.cost_callback,
{
}

/// Of two settings of one option, the later one counts.
pub proof fn the_last_setting_counts<'a, F>(
    options: MoveToOptions<'a, F>,
    first: Setting,
    second: Setting,
) where F: CostCallback<'a>
    requires
        first.same_option(second),
    ensures
        options.changed(first).changed(second) == options.changed(second),
{
}

/// Two different options may be set in either order.
pub proof fn settings_may_be_made_in_any_order<'a, F>(
    options: MoveToOptions<'a, F>,
    first: Setting,
    second: Setting,
) where F: CostCallback<'a>
    requires
        !first.same_option(second),
    ensures
        options.changed(first).changed(second) == options.changed(second).changed(first),
{
}

/// Another callback changes nothing of what JavaScript is told, and may be given before or
/// after any setting.
pub proof fn a_callback_changes_no_setting<'a, 'b, F, F2>(
    options: MoveToOptions<'a, F>,
    cost_callback: F2,
    setting: Setting,
) where F: CostCallback<'a>, F2: CostCallback<'b>
    ensures
        ({
            let replaced = options.with_find_options::<F2>(
                options.find_options.with_cost_callback::<F2>(cost_callback),
            );
            let changed = options.changed(setting);
            &&& replaced.settings() == options.settings()
            &&& replaced.find_options.cost_callback == cost_callback
            &&& replaced.changed(setting) == changed.with_find_options::<F2>(
                changed.find_options.with_cost_callback::<F2>(cost_callback),
            )
        }),
{
}

/// Other options of the search take the place of all that were set before, and of nothing else.
pub proof fn find_options_replace_the_search_alone<'a, 'b, F, F2>(
    options: MoveToOptions<'a, F>,
    find_options: FindOptions<'b, F2>,
) where F: CostCallback<'a>, F2: CostCallback<'b>
    ensures
        ({
            let replaced = options.with_find_options::<F2>(find_options);
            &&& replaced.find_options == find_options
            &&& replaced.reuse_path == options.reuse_path
            &&& replaced.serialize_memory == options.serialize_memory
            &&& replaced.no_path_finding == options.no_path_finding
        }),
{
}

/// A request to move tells who is to move, where to, and all settings: two moves that differ in
/// any of these are asked for differently.
pub proof fn moves_are_told_by_their_requests(
    receiver: Reference,
    target: PositionModel,
    settings: MoveSettings,
    other_receiver: Reference,
    other_target: PositionModel,
    other_settings: MoveSettings,
)
    requires
        target.in_room(),
        other_target.in_room(),
        move_with_settings(receiver, target, settings) == move_with_settings(
            other_receiver,
            other_target,
            other_settings,
        ),
    ensures
        receiver == other_receiver,
        target == other_target,
        settings == other_settings,
{
    let arguments = move_with_settings(receiver, target, settings).expression->arguments;
    let others = move_with_settings(
        other_receiver,
        other_target,
        other_settings,
    ).expression->arguments;
    assert(arguments[0] == others[0]);
    assert(arguments[1] == others[1]);
    positions_are_told_by_their_packed_numbers(target, other_target);
}

/// No key of the options object of a move stands in it twice, and the object tells all settings.
pub proof fn settings_are_told_by_their_object(first: MoveSettings, second: MoveSettings)
    ensures
        forall|i: int, j: int|
            0 <= i < j < first.object().len() ==> (#[trigger] first.object()[i]).0 != (
            #[trigger] first.object()[j]).0,
        first.object() == second.object() ==> first == second,
{
    reveal_strlit("reusePath");
    reveal_strlit("serializeMemory");
    reveal_strlit("noPathFinding");
    reveal_strlit("visualizePathStyle");
    reveal_strlit("ignoreCreeps");
    reveal_strlit("ignoreDestructibleStructures");
    reveal_strlit("costCallback");
    reveal_strlit("maxOps");
    reveal_strlit("heuristicWeight");
    reveal_strlit("serialize");
    reveal_strlit("maxRooms");
    reveal_strlit("range");
    reveal_strlit("plainCost");
    reveal_strlit("swampCost");
    let object = first.object();
    // Keys of one length differ in their first or third letter.
    assert forall|i: int, j: int| 0 <= i < j < object.len() implies (#[trigger] object[i]).0 != (
    #[trigger] object[j]).0 by {
        let one = object[i].0;
        let other = object[j].0;
        assert(one.len() != other.len() || one[0] != other[0] || one[2] != other[2]);
    }
    if first.object() == second.object() {
        assert(first.object()[0] == second.object()[0]);
        assert(first.object()[1] == second.object()[1]);
        assert(first.object()[2] == second.object()[2]);
        assert(first.object()[4] == second.object()[4]);
        assert(first.object()[5] == second.object()[5]);
        assert(first.object()[7] == second.object()[7]);
        assert(first.object()[8] == second.object()[8]);
        assert(first.object()[9] == second.object()[9]);
        assert(first.object()[10] == second.object()[10]);
        assert(first.object()[11] == second.object()[11]);
        assert(first.object()[12] == second.object()[12]);
        assert(first.object()[13] == second.object()[13]);
    }
}

/// A part of a body is read back from the numbers of what boosts it and of its kind, and from
/// its hits; where nothing boosts it, from `null`.
pub proof fn bodyparts_are_told_by_their_numbers(
    entry: BodyEntry,
    boost: Option<ResourceType>,
    part: Part,
    hits: u32,
)
    requires
        entry.boost@ == (match boost {
            Some(resource) => ValueModel::Integer(resource.number()),
            None => ValueModel::Null,
        }),
        entry.part@ == ValueModel::Integer(part.number()),
        entry.hits@ == ValueModel::Integer(hits as int),
    ensures
        bodypart_reading(entry) == Ok::<Bodypart, (BodyField, ReplyError)>(
            Bodypart { boost, part, hits },
        ),
{
}

} // verus!
