//! Options of `moveTo`.
use vstd::prelude::*;

use crate::find::{answers_as_closure, CostCallback, CostMatrix, FindOptions, UnchangedCosts};
use crate::local::RoomName;

verus! {

/// The options of `moveTo`, as they are handed to JavaScript.
#[derive(Clone, Copy, Debug, PartialEq, Eq, Structural)]
pub struct MoveSettings {
    pub reuse_path: u32,
    pub serialize_memory: bool,
    pub no_path_finding: bool,
    pub ignore_creeps: bool,
    pub ignore_destructible_structures: bool,
    pub max_ops: u32,
    /// The weight, as the bits of a 64-bit IEEE 754 number.
    pub heuristic_weight: u64,
    pub serialize: bool,
    pub max_rooms: u32,
    pub range: u32,
    pub plain_cost: u8,
    pub swamp_cost: u8,
}

/// What one entry of the options object of `moveTo` holds.
#[derive(Clone, Copy, Debug, PartialEq, Eq, Structural)]
pub enum OptionValue {
    Number(u32),
    Flag(bool),
    /// A floating-point number, given by the bits of its 64-bit IEEE 754 form.
    Weight(u64),
    Undefined,
    /// The function that JavaScript calls to ask for the costs of a room.
    CostCallback,
}

/// One option, with the value that it is given.
pub enum Setting {
    ReusePath(u32),
    SerializeMemory(bool),
    NoPathFinding(bool),
    IgnoreCreeps(bool),
    IgnoreDestructibleStructures(bool),
    MaxOps(u32),
    HeuristicWeight(u64),
    Serialize(bool),
    MaxRooms(u32),
    Range(u32),
    PlainCost(u8),
    SwampCost(u8),
}

impl Setting {
    /// Whether two settings are of one option.
    pub open spec fn same_option(self, other: Setting) -> bool {
        match self {
            Setting::ReusePath(_) => other is ReusePath,
            Setting::SerializeMemory(_) => other is SerializeMemory,
            Setting::NoPathFinding(_) => other is NoPathFinding,
            Setting::IgnoreCreeps(_) => other is IgnoreCreeps,
            Setting::IgnoreDestructibleStructures(_) => other is IgnoreDestructibleStructures,
            Setting::MaxOps(_) => other is MaxOps,
            Setting::HeuristicWeight(_) => other is HeuristicWeight,
            Setting::Serialize(_) => other is Serialize,
            Setting::MaxRooms(_) => other is MaxRooms,
            Setting::Range(_) => other is Range,
            Setting::PlainCost(_) => other is PlainCost,
            Setting::SwampCost(_) => other is SwampCost,
        }
    }
}

impl MoveSettings {
    /// The options object of `moveTo`: its keys, each with what it holds.
    pub open spec fn object(self) -> Seq<(Seq<char>, OptionValue)> {
        seq![
            ("reusePath"@, OptionValue::Number(self.reuse_path)),
            ("serializeMemory"@, OptionValue::Flag(self.serialize_memory)),
            ("noPathFinding"@, OptionValue::Flag(self.no_path_finding)),
            ("visualizePathStyle"@, OptionValue::Undefined),
            ("ignoreCreeps"@, OptionValue::Flag(self.ignore_creeps)),
            ("ignoreDestructibleStructures"@, OptionValue::Flag(self.ignore_destructible_structures)),
            ("costCallback"@, OptionValue::CostCallback),
            ("maxOps"@, OptionValue::Number(self.max_ops)),
            ("heuristicWeight"@, OptionValue::Weight(self.heuristic_weight)),
            ("serialize"@, OptionValue::Flag(self.serialize)),
            ("maxRooms"@, OptionValue::Number(self.max_rooms)),
            ("range"@, OptionValue::Number(self.range)),
            ("plainCost"@, OptionValue::Number(self.plain_cost as u32)),
            ("swampCost"@, OptionValue::Number(self.swamp_cost as u32)),
        ]
    }

    /// The entries of the options object of `moveTo`, in their order.
    pub fn entries(&self) -> (entries: Vec<(&'static str, OptionValue)>)
        ensures
            entries@.map_values(|entry: (&'static str, OptionValue)| (entry.0@, entry.1))
                == self.object(),
            entries@.len() == self.object().len(),
            forall|i: int|
                0 <= i < entries@.len() ==> {
                    &&& (#[trigger] entries@[i]).0@ == self.object()[i].0
                    &&& entries@[i].1 == self.object()[i].1
                },
    {
        let entries: Vec<(&'static str, OptionValue)> = vec![
            ("reusePath", OptionValue::Number(self.reuse_path)),
            ("serializeMemory", OptionValue::Flag(self.serialize_memory)),
            ("noPathFinding", OptionValue::Flag(self.no_path_finding)),
            ("visualizePathStyle", OptionValue::Undefined),
            ("ignoreCreeps", OptionValue::Flag(self.ignore_creeps)),
            ("ignoreDestructibleStructures", OptionValue::Flag(self.ignore_destructible_structures)),
            ("costCallback", OptionValue::CostCallback),
            ("maxOps", OptionValue::Number(self.max_ops)),
            ("heuristicWeight", OptionValue::Weight(self.heuristic_weight)),
            ("serialize", OptionValue::Flag(self.serialize)),
            ("maxRooms", OptionValue::Number(self.max_rooms)),
            ("range", OptionValue::Number(self.range)),
            ("plainCost", OptionValue::Number(self.plain_cost as u32)),
            ("swampCost", OptionValue::Number(self.swamp_cost as u32)),
        ];
        assert(entries@.map_values(|entry: (&'static str, OptionValue)| (entry.0@, entry.1))
            =~= self.object());
        proof {
            let told = entries@.map_values(
                |entry: (&'static str, OptionValue)| (entry.0@, entry.1),
            );
            assert forall|i: int| 0 <= i < entries@.len() implies {
                &&& (#[trigger] entries@[i]).0@ == self.object()[i].0
                &&& entries@[i].1 == self.object()[i].1
            } by {
                assert(told[i] == (entries@[i].0@, entries@[i].1));
                assert(told == self.object());
            }
        }
        entries
    }

    /// These settings, with one option changed.
    pub open spec fn changed(self, setting: Setting) -> MoveSettings {
        match setting {
            Setting::ReusePath(value) => MoveSettings { reuse_path: value, ..self },
            Setting::SerializeMemory(value) => MoveSettings { serialize_memory: value, ..self },
            Setting::NoPathFinding(value) => MoveSettings { no_path_finding: value, ..self },
            Setting::IgnoreCreeps(value) => MoveSettings { ignore_creeps: value, ..self },
            Setting::IgnoreDestructibleStructures(value) => MoveSettings {
                ignore_destructible_structures: value,
                ..self
            },
            Setting::MaxOps(value) => MoveSettings { max_ops: value, ..self },
            Setting::HeuristicWeight(value) => MoveSettings { heuristic_weight: value, ..self },
            Setting::Serialize(value) => MoveSettings { serialize: value, ..self },
            Setting::MaxRooms(value) => MoveSettings { max_rooms: value, ..self },
            Setting::Range(value) => MoveSettings { range: value, ..self },
            Setting::PlainCost(value) => MoveSettings { plain_cost: value, ..self },
            Setting::SwampCost(value) => MoveSettings { swamp_cost: value, ..self },
        }
    }

    /// Whether the settings give the option of `setting` its value.
    pub open spec fn holds(self, setting: Setting) -> bool {
        match setting {
            Setting::ReusePath(value) => self.reuse_path == value,
            Setting::SerializeMemory(value) => self.serialize_memory == value,
            Setting::NoPathFinding(value) => self.no_path_finding == value,
            Setting::IgnoreCreeps(value) => self.ignore_creeps == value,
            Setting::IgnoreDestructibleStructures(value) => self.ignore_destructible_structures == value,
            Setting::MaxOps(value) => self.max_ops == value,
            Setting::HeuristicWeight(value) => self.heuristic_weight == value,
            Setting::Serialize(value) => self.serialize == value,
            Setting::MaxRooms(value) => self.max_rooms == value,
            Setting::Range(value) => self.range == value,
            Setting::PlainCost(value) => self.plain_cost == value,
            Setting::SwampCost(value) => self.swamp_cost == value,
        }
    }
}

/// Options of [`Creep::move_to_with_options`](crate::creep::Creep::move_to_with_options).
pub struct MoveToOptions<'a, F> where F: CostCallback<'a> {
    pub reuse_path: u32,
    pub serialize_memory: bool,
    pub no_path_finding: bool,
    pub find_options: FindOptions<'a, F>,
}

impl MoveToOptions<'static, UnchangedCosts> {
    /// The options of a move for which nothing was asked.
    pub open spec fn initial() -> Self {
        MoveToOptions {
            reuse_path: 5,
            serialize_memory: true,
            no_path_finding: false,
            find_options: FindOptions::<'static, UnchangedCosts>::initial(),
        }
    }

    /// Creates default options.
    pub fn new() -> (options: Self)
        ensures
            options == Self::initial(),
    {
        Self::default()
    }
}

impl Default for MoveToOptions<'static, UnchangedCosts> {
    fn default() -> (options: Self)
        ensures
            options == Self::initial(),
    {
        MoveToOptions {
            reuse_path: 5,
            serialize_memory: true,
            no_path_finding: false,
            find_options: FindOptions::default(),
        }
    }
}

impl<'a, F> MoveToOptions<'a, F> where F: CostCallback<'a> {
    /// The options that JavaScript is told, which are all but the callback.
    pub open spec fn settings(self) -> MoveSettings {
        MoveSettings {
            reuse_path: self.reuse_path,
            serialize_memory: self.serialize_memory,
            no_path_finding: self.no_path_finding,
            ignore_creeps: self.find_options.ignore_creeps,
            ignore_destructible_structures: self.find_options.ignore_destructible_structures,
            max_ops: self.find_options.max_ops,
            heuristic_weight: self.find_options.heuristic_weight,
            serialize: self.find_options.serialize,
            max_rooms: self.find_options.max_rooms,
            range: self.find_options.range,
            plain_cost: self.find_options.plain_cost,
            swamp_cost: self.find_options.swamp_cost,
        }
    }

    /// These options, with one of them changed.
    pub open spec fn changed(self, setting: Setting) -> Self {
        match setting {
            Setting::ReusePath(value) => MoveToOptions { reuse_path: value, ..self },
            Setting::SerializeMemory(value) => MoveToOptions { serialize_memory: value, ..self },
            Setting::NoPathFinding(value) => MoveToOptions { no_path_finding: value, ..self },
            Setting::IgnoreCreeps(value) => MoveToOptions {
                find_options: FindOptions { ignore_creeps: value, ..self.find_options },
                ..self
            },
            Setting::IgnoreDestructibleStructures(value) => MoveToOptions {
                find_options: FindOptions { ignore_destructible_structures: value, ..self.find_options },
                ..self
            },
            Setting::MaxOps(value) => MoveToOptions {
                find_options: FindOptions { max_ops: value, ..self.find_options },
                ..self
            },
            Setting::HeuristicWeight(value) => MoveToOptions {
                find_options: FindOptions { heuristic_weight: value, ..self.find_options },
                ..self
            },
            Setting::Serialize(value) => MoveToOptions {
                find_options: FindOptions { serialize: value, ..self.find_options },
                ..self
            },
            Setting::MaxRooms(value) => MoveToOptions {
                find_options: FindOptions { max_rooms: value, ..self.find_options },
                ..self
            },
            Setting::Range(value) => MoveToOptions {
                find_options: FindOptions { range: value, ..self.find_options },
                ..self
            },
            Setting::PlainCost(value) => MoveToOptions {
                find_options: FindOptions { plain_cost: value, ..self.find_options },
                ..self
            },
            Setting::SwampCost(value) => MoveToOptions {
                find_options: FindOptions { swamp_cost: value, ..self.find_options },
                ..self
            },
        }
    }

    /// These options, with other options of the search.
    pub open spec fn with_find_options<'b, F2>(
        self,
        find_options: FindOptions<'b, F2>,
    ) -> MoveToOptions<'b, F2> where F2: CostCallback<'b> {
        MoveToOptions {
            reuse_path: self.reuse_path,
            serialize_memory: self.serialize_memory,
            no_path_finding: self.no_path_finding,
            find_options,
        }
    }

    /// Enables caching of the calculated path. Default: 5 ticks.
    pub fn reuse_path(self, n_ticks: u32) -> (options: Self)
        ensures
            options == self.changed(Setting::ReusePath(n_ticks)),
    {
        MoveToOptions { reuse_path: n_ticks, ..self }
    }

    /// Whether to use the short serialized form. Default: true.
    pub fn serialize_memory(self, serialize: bool) -> (options: Self)
        ensures
            options == self.changed(Setting::SerializeMemory(serialize)),
    {
        MoveToOptions { serialize_memory: serialize, ..self }
    }

    /// Whether to answer [`ReturnCode::NotFound`](crate::constants::ReturnCode) if no path is
    /// already cached. Default: false.
    pub fn no_path_finding(self, no_finding: bool) -> (options: Self)
        ensures
            options == self.changed(Setting::NoPathFinding(no_finding)),
    {
        MoveToOptions { no_path_finding: no_finding, ..self }
    }

    /// Sets whether the algorithm considers creeps as walkable. Default: false.
    pub fn ignore_creeps(self, ignore: bool) -> (options: Self)
        ensures
            options == self.changed(Setting::IgnoreCreeps(ignore)),
    {
        MoveToOptions {
            find_options: FindOptions { ignore_creeps: ignore, ..self.find_options },
            ..self
        }
    }

    /// Sets whether the algorithm considers destructible structures as walkable. Default: false.
    pub fn ignore_destructible_structures(self, ignore: bool) -> (options: Self)
        ensures
            options == self.changed(Setting::IgnoreDestructibleStructures(ignore)),
    {
        MoveToOptions {
            find_options: FindOptions { ignore_destructible_structures: ignore, ..self.find_options },
            ..self
        }
    }

    /// Sets cost callback. Default: costs stay as they are.
    ///
    /// The callback may be asked wherever the closure may be called, and what it gives is what
    /// the closure returns.
    pub fn cost_callback<'b, F2>(self, cost_callback: F2) -> (options: MoveToOptions<'b, F2>) where
        F2: Fn(RoomName, CostMatrix<'_>) -> Option<CostMatrix<'b>>,

        ensures
            options == self.with_find_options::<F2>(
                self.find_options.with_cost_callback::<F2>(cost_callback),
            ),
            answers_as_closure(cost_callback),
    {
        MoveToOptions {
            reuse_path: self.reuse_path,
            serialize_memory: self.serialize_memory,
            no_path_finding: self.no_path_finding,
            find_options: self.find_options.cost_callback(cost_callback),
        }
    }

    /// Sets maximum ops. Default: 2000.
    pub fn max_ops(self, ops: u32) -> (options: Self)
        ensures
            options == self.changed(Setting::MaxOps(ops)),
    {
        MoveToOptions {
            find_options: FindOptions { max_ops: ops, ..self.find_options },
            ..self
        }
    }

    /// Sets heuristic weight, given as the bits of a 64-bit IEEE 754 number. Default: the bits of
    /// 1.2.
    pub fn heuristic_weight(self, weight: u64) -> (options: Self)
        ensures
            options == self.changed(Setting::HeuristicWeight(weight)),
    {
        MoveToOptions {
            find_options: FindOptions { heuristic_weight: weight, ..self.find_options },
            ..self
        }
    }

    /// Sets whether the returned path should be passed to `Room.serializePath`. Default: false.
    pub fn serialize(self, s: bool) -> (options: Self)
        ensures
            options == self.changed(Setting::Serialize(s)),
    {
        MoveToOptions {
            find_options: FindOptions { serialize: s, ..self.find_options },
            ..self
        }
    }

    /// Sets maximum rooms. Default: 16, which is also the most that the game allows.
    pub fn max_rooms(self, rooms: u32) -> (options: Self)
        ensures
            options == self.changed(Setting::MaxRooms(rooms)),
    {
        MoveToOptions {
            find_options: FindOptions { max_rooms: rooms, ..self.find_options },
            ..self
        }
    }

    /// Sets how far from the target the path may end. Default: 0.
    pub fn range(self, k: u32) -> (options: Self)
        ensures
            options == self.changed(Setting::Range(k)),
    {
        MoveToOptions {
            find_options: FindOptions { range: k, ..self.find_options },
            ..self
        }
    }

    /// Sets plain cost. Default: 1.
    pub fn plain_cost(self, cost: u8) -> (options: Self)
        ensures
            options == self.changed(Setting::PlainCost(cost)),
    {
        MoveToOptions {
            find_options: FindOptions { plain_cost: cost, ..self.find_options },
            ..self
        }
    }

    /// Sets swamp cost. Default: 5.
    pub fn swamp_cost(self, cost: u8) -> (options: Self)
        ensures
            options == self.changed(Setting::SwampCost(cost)),
    {
        MoveToOptions {
            find_options: FindOptions { swamp_cost: cost, ..self.find_options },
            ..self
        }
    }

    /// Sets the options of the search. Default: those of [`FindOptions`].
    pub fn find_options<'b, F2>(self, find_options: FindOptions<'b, F2>) -> (options: MoveToOptions<
        'b,
        F2,
    >) where F2: CostCallback<'b>
        ensures
            options == self.with_find_options::<F2>(find_options),
    {
        MoveToOptions {
            reuse_path: self.reuse_path,
            serialize_memory: self.serialize_memory,
            no_path_finding: self.no_path_finding,
            find_options,
        }
    }
}

} // verus!
