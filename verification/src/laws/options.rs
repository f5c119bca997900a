//! What holds of the options of a move.
use vstd::prelude::*;

use crate::find::{CostCallback, CostMatrix, FindOptions, UnchangedCosts};
use crate::local::RoomName;
use crate::move_options::{MoveSettings, MoveToOptions, OptionValue};

verus! {

/// Whether `value` stands under `key`.
pub open spec fn holds_under(
    entries: Seq<(&'static str, OptionValue)>,
    key: Seq<char>,
    value: OptionValue,
) -> bool {
    exists|i: int| 0 <= i < entries.len() && (#[trigger] entries[i]).0@ == key && entries[i].1 == value
}

/// The options object of a move holds each option under the option's own key, no key twice, and
/// nothing else but an undefined style and the callback.
pub proof fn each_option_stands_under_its_own_key(
    settings: MoveSettings,
    entries: Vec<(&'static str, OptionValue)>,
)
    requires
        call_ensures(MoveSettings::entries, (&settings,), entries),
    ensures
        holds_under(entries@, "reusePath"@, OptionValue::Number(settings.reuse_path)),
        holds_under(entries@, "serializeMemory"@, OptionValue::Flag(settings.serialize_memory)),
        holds_under(entries@, "noPathFinding"@, OptionValue::Flag(settings.no_path_finding)),
        holds_under(entries@, "ignoreCreeps"@, OptionValue::Flag(settings.ignore_creeps)),
        holds_under(entries@, "ignoreDestructibleStructures"@, OptionValue::Flag(settings.ignore_destructible_structures)),
        holds_under(entries@, "maxOps"@, OptionValue::Number(settings.max_ops)),
        holds_under(entries@, "heuristicWeight"@, OptionValue::Weight(settings.heuristic_weight)),
        holds_under(entries@, "serialize"@, OptionValue::Flag(settings.serialize)),
        holds_under(entries@, "maxRooms"@, OptionValue::Number(settings.max_rooms)),
        holds_under(entries@, "range"@, OptionValue::Number(settings.range)),
        holds_under(entries@, "plainCost"@, OptionValue::Number(settings.plain_cost as u32)),
        holds_under(entries@, "swampCost"@, OptionValue::Number(settings.swamp_cost as u32)),
        holds_under(entries@, "visualizePathStyle"@, OptionValue::Undefined),
        holds_under(entries@, "costCallback"@, OptionValue::CostCallback),
        entries@.len() == 14,
        forall|i: int, j: int|
            0 <= i < j < entries@.len() ==> (#[trigger] entries@[i]).0@ != (
            #[trigger] entries@[j]).0@,
{
    let object = settings.object();
    assert(entries@[0].0@ == object[0].0);
    assert(entries@[1].0@ == object[1].0);
    assert(entries@[2].0@ == object[2].0);
    assert(entries@[3].0@ == object[3].0);
    assert(entries@[4].0@ == object[4].0);
    assert(entries@[5].0@ == object[5].0);
    assert(entries@[6].0@ == object[6].0);
    assert(entries@[7].0@ == object[7].0);
    assert(entries@[8].0@ == object[8].0);
    assert(entries@[9].0@ == object[9].0);
    assert(entries@[10].0@ == object[10].0);
    assert(entries@[11].0@ == object[11].0);
    assert(entries@[12].0@ == object[12].0);
    assert(entries@[13].0@ == object[13].0);
    crate::laws::settings_are_told_by_their_object(settings, settings);
    assert forall|i: int, j: int| 0 <= i < j < entries@.len() implies (#[trigger] entries@[i]).0@ != (
    #[trigger] entries@[j]).0@ by {
        assert(object[i].0 != object[j].0);
    }
}

/// A setter gives its own option the value that it is handed, and changes no other option and
/// not the callback.
pub proof fn a_setter_changes_its_own_option_alone<'a, F>(
    options: MoveToOptions<'a, F>,
    flag: bool,
    number: u32,
    weight: u64,
    cost: u8,
    result: MoveToOptions<'a, F>,
) where F: CostCallback<'a>
    ensures
        call_ensures(MoveToOptions::<'a, F>::reuse_path, (options, number), result) ==> result
            == (MoveToOptions { reuse_path: number, ..options }),
        call_ensures(MoveToOptions::<'a, F>::serialize_memory, (options, flag), result) ==> result
            == (MoveToOptions { serialize_memory: flag, ..options }),
        call_ensures(MoveToOptions::<'a, F>::no_path_finding, (options, flag), result) ==> result
            == (MoveToOptions { no_path_finding: flag, ..options }),
        call_ensures(MoveToOptions::<'a, F>::ignore_creeps, (options, flag), result) ==> result
            == (MoveToOptions {
            find_options: FindOptions { ignore_creeps: flag, ..options.find_options },
            ..options
        }),
        call_ensures(MoveToOptions::<'a, F>::ignore_destructible_structures, (options, flag), result) ==> result
            == (MoveToOptions {
            find_options: FindOptions { ignore_destructible_structures: flag, ..options.find_options },
            ..options
        }),
        call_ensures(MoveToOptions::<'a, F>::max_ops, (options, number), result) ==> result
            == (MoveToOptions {
            find_options: FindOptions { max_ops: number, ..options.find_options },
            ..options
        }),
        call_ensures(MoveToOptions::<'a, F>::heuristic_weight, (options, weight), result) ==> result
            == (MoveToOptions {
            find_options: FindOptions { heuristic_weight: weight, ..options.find_options },
            ..options
        }),
        call_ensures(MoveToOptions::<'a, F>::serialize, (options, flag), result) ==> result
            == (MoveToOptions {
            find_options: FindOptions { serialize: flag, ..options.find_options },
            ..options
        }),
        call_ensures(MoveToOptions::<'a, F>::max_rooms, (options, number), result) ==> result
            == (MoveToOptions {
            find_options: FindOptions { max_rooms: number, ..options.find_options },
            ..options
        }),
        call_ensures(MoveToOptions::<'a, F>::range, (options, number), result) ==> result
            == (MoveToOptions {
            find_options: FindOptions { range: number, ..options.find_options },
            ..options
        }),
        call_ensures(MoveToOptions::<'a, F>::plain_cost, (options, cost), result) ==> result
            == (MoveToOptions {
            find_options: FindOptions { plain_cost: cost, ..options.find_options },
            ..options
        }),
        call_ensures(MoveToOptions::<'a, F>::swamp_cost, (options, cost), result) ==> result
            == (MoveToOptions {
            find_options: FindOptions { swamp_cost: cost, ..options.find_options },
            ..options
        }),
{
}

/// New options are the documented ones.
pub proof fn new_options_are_the_documented_ones(
    options: MoveToOptions<'static, UnchangedCosts>,
    search: FindOptions<'static, UnchangedCosts>,
)
    requires
        call_ensures(MoveToOptions::<'static, UnchangedCosts>::new, (), options),
        call_ensures(FindOptions::<'static, UnchangedCosts>::default, (), search),
    ensures
        options.reuse_path == 5,
        options.serialize_memory,
        !options.no_path_finding,
        options.find_options == search,
        !search.ignore_creeps,
        !search.ignore_destructible_structures,
        search.max_ops == 2000,
        search.heuristic_weight == 0x3FF3_3333_3333_3333,
        !search.serialize,
        search.max_rooms == 16,
        search.range == 0,
        search.plain_cost == 1,
        search.swamp_cost == 5,
{
}

/// Whether two searches differ in nothing but their callbacks.
pub open spec fn search_alike<'a, 'b, F, F2>(
    first: FindOptions<'a, F>,
    second: FindOptions<'b, F2>,
) -> bool where F: CostCallback<'a>, F2: CostCallback<'b> {
    &&& first.ignore_creeps == second.ignore_creeps
    &&& first.ignore_destructible_structures == second.ignore_destructible_structures
    &&& first.max_ops == second.max_ops
    &&& first.heuristic_weight == second.heuristic_weight
    &&& first.serialize == second.serialize
    &&& first.max_rooms == second.max_rooms
    &&& first.range == second.range
    &&& first.plain_cost == second.plain_cost
    &&& first.swamp_cost == second.swamp_cost
}

/// Giving a callback changes the callback alone.
pub proof fn giving_a_callback_changes_the_callback_alone<'a, 'b, F, F2>(
    options: MoveToOptions<'a, F>,
    cost_callback: F2,
    result: MoveToOptions<'b, F2>,
    search: FindOptions<'b, F2>,
) where F: CostCallback<'a>, F2: Fn(RoomName, CostMatrix<'_>) -> Option<CostMatrix<'b>>
    ensures
        call_ensures(
            FindOptions::<'a, F>::cost_callback::<F2>,
            (options.find_options, cost_callback),
            search,
        ) ==> {
            &&& search.cost_callback == cost_callback
            &&& search_alike(options.find_options, search)
        },
        call_ensures(
            MoveToOptions::<'a, F>::cost_callback::<F2>,
            (options, cost_callback),
            result,
        ) ==> {
            &&& result.find_options.cost_callback == cost_callback
            &&& search_alike(options.find_options, result.find_options)
            &&& result.reuse_path == options.reuse_path
            &&& result.serialize_memory == options.serialize_memory
            &&& result.no_path_finding == options.no_path_finding
        },
{
}

/// Giving options of the search replaces the search alone.
pub proof fn giving_a_search_replaces_the_search_alone<'a, 'b, F, F2>(
    options: MoveToOptions<'a, F>,
    find_options: FindOptions<'b, F2>,
    result: MoveToOptions<'b, F2>,
) where F: CostCallback<'a>, F2: CostCallback<'b>
    requires
        call_ensures(
            MoveToOptions::<'a, F>::find_options::<F2>,
            (options, find_options),
            result,
        ),
    ensures
        result.find_options == find_options,
        result.reuse_path == options.reuse_path,
        result.serialize_memory == options.serialize_memory,
        result.no_path_finding == options.no_path_finding,
{
}

} // verus!
