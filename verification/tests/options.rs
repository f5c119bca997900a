use screeps_creep::creep::Creep;
use screeps_creep::find::{CostCallback, CostMatrix, FindOptions};
use screeps_creep::local::{Position, RoomName};
use screeps_creep::move_options::{MoveSettings, MoveToOptions, OptionValue};
use screeps_creep::request::{Argument, Expression, Reference};

const HOME: RoomName = RoomName { packed: 0x8080 };

fn creep() -> Creep {
    Creep { reference: Reference { id: 11 }, pos: Position::new(10, 20, HOME) }
}

fn told<'a, F: CostCallback<'a>>(options: MoveToOptions<'a, F>) -> MoveSettings {
    let moving = creep().move_to_with_options(&Position::new(1, 2, HOME), options);
    match moving.request.expression {
        Expression::Call { method, arguments } => {
            assert_eq!(method, "moveTo");
            assert_eq!(arguments.len(), 2);
            assert!(matches!(arguments[0], Argument::PackedPosition(0x8080_0102)));
            match &arguments[1] {
                Argument::MoveOptions(settings) => *settings,
                _ => panic!("no options"),
            }
        }
        _ => panic!("no call"),
    }
}

fn defaults() -> MoveSettings {
    MoveSettings {
        reuse_path: 5,
        serialize_memory: true,
        no_path_finding: false,
        ignore_creeps: false,
        ignore_destructible_structures: false,
        max_ops: 2000,
        heuristic_weight: 1.2f64.to_bits(),
        serialize: false,
        max_rooms: 16,
        range: 0,
        plain_cost: 1,
        swamp_cost: 5,
    }
}

#[test]
fn new_options_are_the_documented_defaults() {
    assert_eq!(told(MoveToOptions::new()), defaults());
    assert_eq!(told(MoveToOptions::default()), defaults());
}

#[test]
fn each_setter_changes_its_own_option() {
    let d = defaults();
    assert_eq!(told(MoveToOptions::new().reuse_path(9)), MoveSettings { reuse_path: 9, ..d });
    assert_eq!(
        told(MoveToOptions::new().serialize_memory(false)),
        MoveSettings { serialize_memory: false, ..d }
    );
    assert_eq!(
        told(MoveToOptions::new().no_path_finding(true)),
        MoveSettings { no_path_finding: true, ..d }
    );
    assert_eq!(
        told(MoveToOptions::new().ignore_creeps(true)),
        MoveSettings { ignore_creeps: true, ..d }
    );
    assert_eq!(
        told(MoveToOptions::new().ignore_destructible_structures(true)),
        MoveSettings { ignore_destructible_structures: true, ..d }
    );
    assert_eq!(told(MoveToOptions::new().max_ops(1)), MoveSettings { max_ops: 1, ..d });
    assert_eq!(
        told(MoveToOptions::new().heuristic_weight(2.5f64.to_bits())),
        MoveSettings { heuristic_weight: 2.5f64.to_bits(), ..d }
    );
    assert_eq!(told(MoveToOptions::new().serialize(true)), MoveSettings { serialize: true, ..d });
    assert_eq!(told(MoveToOptions::new().max_rooms(3)), MoveSettings { max_rooms: 3, ..d });
    assert_eq!(told(MoveToOptions::new().range(4)), MoveSettings { range: 4, ..d });
    assert_eq!(told(MoveToOptions::new().plain_cost(2)), MoveSettings { plain_cost: 2, ..d });
    assert_eq!(told(MoveToOptions::new().swamp_cost(255)), MoveSettings { swamp_cost: 255, ..d });
}

#[test]
fn the_last_of_two_settings_counts() {
    assert_eq!(
        told(MoveToOptions::new().range(4).range(1)),
        MoveSettings { range: 1, ..defaults() }
    );
}

#[test]
fn settings_may_come_in_any_order() {
    assert_eq!(
        told(MoveToOptions::new().plain_cost(7).reuse_path(0)),
        told(MoveToOptions::new().reuse_path(0).plain_cost(7))
    );
}

#[test]
fn a_callback_leaves_all_settings_alone() {
    let options = MoveToOptions::new()
        .reuse_path(1)
        .max_ops(77)
        .cost_callback(|_room, _matrix| None)
        .swamp_cost(8);
    assert_eq!(
        told(options),
        MoveSettings { reuse_path: 1, max_ops: 77, swamp_cost: 8, ..defaults() }
    );
}

#[test]
fn find_options_replace_the_search_and_keep_the_rest() {
    let search = FindOptions { max_ops: 9, plain_cost: 3, ..FindOptions::default() };
    let options = MoveToOptions::new().reuse_path(8).range(6).find_options(search);
    assert_eq!(
        told(options),
        MoveSettings { reuse_path: 8, max_ops: 9, plain_cost: 3, ..defaults() }
    );
}

#[test]
fn find_options_take_a_callback_and_keep_the_rest() {
    let search = FindOptions { range: 2, ..FindOptions::default() }
        .cost_callback(|_room, _matrix| Some(CostMatrix::new(Reference { id: 1 })));
    let options = MoveToOptions::new().find_options(search);
    let moving = creep().move_to_with_options(&creep(), options);
    assert_eq!(moving.costs("E1S1", Reference { id: 5 }), Some(Reference { id: 1 }));
}

#[test]
fn the_options_object_has_all_keys_with_their_values() {
    let options = MoveToOptions::new()
        .reuse_path(1)
        .no_path_finding(true)
        .ignore_destructible_structures(true)
        .max_ops(2)
        .max_rooms(3)
        .range(4)
        .plain_cost(6)
        .swamp_cost(255);
    assert_eq!(
        told(options).entries(),
        [
            ("reusePath", OptionValue::Number(1)),
            ("serializeMemory", OptionValue::Flag(true)),
            ("noPathFinding", OptionValue::Flag(true)),
            ("visualizePathStyle", OptionValue::Undefined),
            ("ignoreCreeps", OptionValue::Flag(false)),
            ("ignoreDestructibleStructures", OptionValue::Flag(true)),
            ("costCallback", OptionValue::CostCallback),
            ("maxOps", OptionValue::Number(2)),
            ("heuristicWeight", OptionValue::Weight(1.2f64.to_bits())),
            ("serialize", OptionValue::Flag(false)),
            ("maxRooms", OptionValue::Number(3)),
            ("range", OptionValue::Number(4)),
            ("plainCost", OptionValue::Number(6)),
            ("swampCost", OptionValue::Number(255)),
        ]
    );
}
