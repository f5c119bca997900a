use screeps_creep::constants::{Direction, Part, ResourceType, ReturnCode};
use screeps_creep::creep::{BodyEntry, BodyError, Creep};
use screeps_creep::find::CostMatrix;
use screeps_creep::local::{Position, RoomName};
use screeps_creep::move_options::MoveToOptions;
use screeps_creep::objects::{
    ConstructionSite, Resource, SearchResults, Source, Step, StructureContainer,
    StructureController,
};
use screeps_creep::reply::{ReplyError, Value};
use screeps_creep::request::{Argument, BodyField, Expression, Reference, Request};

const HOME: RoomName = RoomName { packed: 0x8081 };

fn at(x: u32, y: u32) -> Position {
    Position::new(x, y, HOME)
}

fn creep() -> Creep {
    Creep { reference: Reference { id: 11 }, pos: at(10, 20) }
}

fn controller() -> StructureController {
    StructureController { reference: Reference { id: 12 }, pos: at(1, 2) }
}

fn container() -> StructureContainer {
    StructureContainer { reference: Reference { id: 13 }, pos: at(3, 4) }
}

fn shown_argument(argument: &Argument) -> String {
    match argument {
        Argument::Number(n) => format!("{}", n),
        Argument::Flag(b) => format!("{}", b),
        Argument::Text(t) => format!("{:?}", t),
        Argument::Object(r) => format!("#{}", r.id),
        Argument::ResourceName(n) => format!("resource {}", n),
        Argument::PartName(n) => format!("part {}", n),
        Argument::PackedPosition(n) => format!("pos {:x}", n),
        Argument::Steps(steps) => format!("{} steps", steps.len()),
        Argument::MoveOptions(settings) => format!("range {}", settings.range),
    }
}

fn shown<R>(request: Request<R>) -> String {
    let what = match &request.expression {
        Expression::Call { method, arguments } => {
            let all: Vec<String> = arguments.iter().map(shown_argument).collect();
            format!("{}({})", method, all.join(", "))
        }
        Expression::Property { name } => format!("{}", name),
        Expression::Nested { outer, inner } => format!("{}.{}", outer, inner),
        Expression::BodyPart { index, field } => format!("body[{}].{:?}", index, field),
    };
    format!("#{}.{}", request.receiver.id, what)
}

#[test]
fn drop_names_the_amount_only_if_there_is_one() {
    assert_eq!(shown(creep().drop(ResourceType::Energy, Some(50))), "#11.drop(resource 1, 50)");
    assert_eq!(shown(creep().drop(ResourceType::Power, None)), "#11.drop(resource 2)");
}

#[test]
fn transfers_and_withdrawals_name_the_amount_only_if_there_is_one() {
    let c = creep();
    assert_eq!(
        shown(c.transfer_amount(&container(), ResourceType::Oxygen, 3)),
        "#11.transfer(#13, resource 4, 3)"
    );
    assert_eq!(
        shown(c.transfer_all(&container(), ResourceType::Oxygen)),
        "#11.transfer(#13, resource 4)"
    );
    assert_eq!(
        shown(c.withdraw_amount(&container(), ResourceType::Ops, 1)),
        "#11.withdraw(#13, resource 44, 1)"
    );
    assert_eq!(
        shown(c.withdraw_all(&container(), ResourceType::Ops)),
        "#11.withdraw(#13, resource 44)"
    );
    assert_eq!(
        shown(c.transfer_all(&creep(), ResourceType::Energy)),
        "#11.transfer(#11, resource 1)"
    );
}

#[test]
fn properties_are_asked_by_their_javascript_names() {
    let c = creep();
    assert_eq!(shown(c.owner_name()), "#11.owner.username");
    assert_eq!(shown(c.memory()), "#11.memory");
    assert_eq!(shown(c.fatigue()), "#11.fatigue");
    assert_eq!(shown(c.name()), "#11.name");
    assert_eq!(shown(c.my()), "#11.my");
    assert_eq!(shown(c.saying()), "#11.saying");
    assert_eq!(shown(c.spawning()), "#11.spawning");
    assert_eq!(shown(c.ticks_to_live()), "#11.ticksToLive");
}

#[test]
fn moves_are_asked_with_their_targets() {
    let c = creep();
    assert_eq!(shown(c.move_direction(Direction::Left)), "#11.move(7)");
    assert_eq!(shown(c.move_to_xy(70, 4_000_000_000)), "#11.moveTo(70, 4000000000)");
    assert_eq!(shown(c.move_to(&controller())), "#11.moveTo(pos 80810102)");
    assert_eq!(shown(c.move_to(&at(49, 0))), "#11.moveTo(pos 80813100)");
    assert_eq!(
        shown(c.move_to_with_options(&container(), MoveToOptions::new().range(3)).request),
        "#11.moveTo(pos 80810304, range 3)"
    );
}

#[test]
fn a_tile_of_the_own_room_is_moved_to_with_options() {
    let there = creep().move_to_xy_with_options(5, 49, MoveToOptions::new().range(1));
    assert_eq!(shown(there.request), "#11.moveTo(pos 80810531, range 1)");
}

#[test]
fn paths_are_handed_over_in_three_forms() {
    let c = creep();
    assert_eq!(shown(c.move_by_path_serialized("1234")), "#11.moveByPath(\"1234\")");
    let step = Step { x: 1, y: 2, dx: 0, dy: -1, direction: Direction::Top };
    assert_eq!(shown(c.move_by_path_steps(&[step, step])), "#11.moveByPath(2 steps)");
    let found = SearchResults { path: Reference { id: 99 } };
    assert_eq!(shown(c.move_by_path_search_result(&found)), "#11.moveByPath(#99)");
}

#[test]
fn plain_orders_are_asked_by_their_javascript_names() {
    let c = creep();
    assert_eq!(shown(c.cancel_order("move")), "#11.cancelOrder(\"move\")");
    assert_eq!(shown(c.notify_when_attacked(false)), "#11.notifyWhenAttacked(false)");
    assert_eq!(shown(c.say("hi", true)), "#11.say(\"hi\", true)");
    assert_eq!(shown(c.sign_controller(&controller(), "mine")), "#11.signController(#12, \"mine\")");
    assert_eq!(shown(c.suicide()), "#11.suicide()");
    assert_eq!(shown(c.ranged_mass_attack()), "#11.rangedMassAttack()");
    assert_eq!(shown(c.get_active_bodyparts(Part::Tough)), "#11.getActiveBodyparts(part 5)");
}

#[test]
fn orders_on_a_target_hand_over_the_target() {
    let c = creep();
    let other = Creep { reference: Reference { id: 21 }, pos: at(0, 0) };
    let source = Source { reference: Reference { id: 22 }, pos: at(0, 0) };
    let site = ConstructionSite { reference: Reference { id: 23 }, pos: at(0, 0) };
    let pile = Resource { reference: Reference { id: 24 }, pos: at(0, 0) };
    assert_eq!(shown(c.attack(&other)), "#11.attack(#21)");
    assert_eq!(shown(c.dismantle(&container())), "#11.dismantle(#13)");
    assert_eq!(shown(c.harvest(&source)), "#11.harvest(#22)");
    assert_eq!(shown(c.ranged_attack(&container())), "#11.rangedAttack(#13)");
    assert_eq!(shown(c.repair(&controller())), "#11.repair(#12)");
    assert_eq!(shown(c.attack_controller(&controller())), "#11.attackController(#12)");
    assert_eq!(shown(c.build(&site)), "#11.build(#23)");
    assert_eq!(shown(c.claim_controller(&controller())), "#11.claimController(#12)");
    assert_eq!(shown(c.generate_safe_mode(&controller())), "#11.generateSafeMode(#12)");
    assert_eq!(shown(c.heal(&other)), "#11.heal(#21)");
    assert_eq!(shown(c.pickup(&pile)), "#11.pickup(#24)");
    assert_eq!(shown(c.pull(&other)), "#11.pull(#21)");
    assert_eq!(shown(c.ranged_heal(&other)), "#11.rangedHeal(#21)");
    assert_eq!(shown(c.reserve_controller(&controller())), "#11.reserveController(#12)");
    assert_eq!(shown(c.upgrade_controller(&controller())), "#11.upgradeController(#12)");
}

#[test]
fn answers_are_read_as_the_request_promises() {
    let c = creep();
    assert_eq!(c.suicide().decode(&Value::Integer(0)), Ok(ReturnCode::Success));
    assert_eq!(c.suicide().decode(&Value::Integer(-4)), Ok(ReturnCode::Busy));
    assert_eq!(c.suicide().decode(&Value::Integer(5)), Err(ReplyError::UnknownCode));
    assert_eq!(c.get_active_bodyparts(Part::Move).decode(&Value::Integer(3)), Ok(3));
    assert_eq!(c.my().decode(&Value::Bool(true)), Ok(true));
    assert_eq!(c.name().decode(&Value::Text(String::from("Bob"))), Ok(String::from("Bob")));
    assert_eq!(c.ticks_to_live().decode(&Value::Undefined), Err(ReplyError::TypeMismatch));
}

#[test]
fn a_body_is_asked_for_part_by_part() {
    assert_eq!(shown(creep().body_length()), "#11.body.length");
    let mut all: Vec<String> = Vec::new();
    for requests in creep().body_requests(2) {
        all.push(shown(requests.boost));
        all.push(shown(requests.part));
        all.push(shown(requests.hits));
    }
    assert_eq!(
        all,
        [
            "#11.body[0].Boost",
            "#11.body[0].Part",
            "#11.body[0].Hits",
            "#11.body[1].Boost",
            "#11.body[1].Part",
            "#11.body[1].Hits",
        ]
    );
    assert!(creep().body_requests(0).is_empty());
}

fn entry(boost: Value, part: Value, hits: Value) -> BodyEntry {
    BodyEntry { boost, part, hits }
}

#[test]
fn a_body_is_read_in_order() {
    let entries = vec![
        entry(Value::Null, Value::Integer(5), Value::Integer(100)),
        entry(Value::Integer(34), Value::Integer(3), Value::Integer(0)),
    ];
    assert_eq!(creep().body_fault(&entries), None);
    let body = creep().body(&entries);
    assert_eq!(body.len(), 2);
    assert_eq!((body[0].boost, body[0].part, body[0].hits), (None, Part::Tough, 100));
    assert_eq!(
        (body[1].boost, body[1].part, body[1].hits),
        (Some(ResourceType::CatalyzedUtriumAcid), Part::Attack, 0)
    );
    assert_eq!(creep().body_fault(&Vec::new()), None);
    assert!(creep().body(&Vec::new()).is_empty());
}

#[test]
fn the_first_fault_in_a_body_is_reported() {
    let fault = |entries: Vec<BodyEntry>| creep().body_fault(&entries).unwrap();
    assert_eq!(
        fault(vec![entry(Value::Integer(999), Value::Integer(99), Value::Null)]),
        BodyError { index: 0, field: BodyField::Boost, error: ReplyError::UnknownCode }
    );
    assert_eq!(
        fault(vec![entry(Value::OtherNumber, Value::Integer(0), Value::Integer(1))]),
        BodyError { index: 0, field: BodyField::Boost, error: ReplyError::OutOfRange }
    );
    assert_eq!(
        fault(vec![
            entry(Value::Null, Value::Integer(0), Value::Integer(1)),
            entry(Value::Null, Value::Integer(99), Value::Null),
        ]),
        BodyError { index: 1, field: BodyField::Part, error: ReplyError::UnknownCode }
    );
    assert_eq!(
        fault(vec![entry(Value::Null, Value::Integer(0), Value::OtherNumber)]),
        BodyError { index: 0, field: BodyField::Hits, error: ReplyError::OutOfRange }
    );
}

#[test]
fn body_fields_name_their_properties_and_functions() {
    assert_eq!(BodyField::Boost.property(), "boost");
    assert_eq!(BodyField::Boost.function(), Some("__resource_type_str_to_num"));
    assert!(BodyField::Boost.may_be_missing());
    assert_eq!(BodyField::Part.property(), "type");
    assert_eq!(BodyField::Part.function(), Some("__part_str_to_num"));
    assert!(!BodyField::Part.may_be_missing());
    assert_eq!(BodyField::Hits.property(), "hits");
    assert_eq!(BodyField::Hits.function(), None);
    assert!(!BodyField::Hits.may_be_missing());
}

#[test]
fn arguments_name_the_functions_applied_to_them() {
    assert_eq!(Argument::ResourceName(1).function(), Some("__resource_type_num_to_str"));
    assert_eq!(Argument::PartName(1).function(), Some("__part_num_to_str"));
    assert_eq!(Argument::PackedPosition(1).function(), Some("pos_from_packed"));
    assert_eq!(Argument::Number(1).function(), None);
    assert_eq!(Argument::Text("pos_from_packed").function(), None);
}

#[test]
fn costs_stay_as_they_are_without_a_callback() {
    let moving = creep().move_to_with_options(&creep(), MoveToOptions::new());
    assert_eq!(moving.costs("W3N4", Reference { id: 5 }), None);
}

#[test]
fn a_callback_is_told_the_room_and_the_matrix() {
    let options = MoveToOptions::new().cost_callback(|room: RoomName, matrix| {
        if room.packed == 0x8080 {
            Some(CostMatrix::new(Reference { id: matrix.inner.id + 1 }))
        } else {
            None
        }
    });
    let moving = creep().move_to_with_options(&creep(), options);
    assert_eq!(moving.costs("E0S0", Reference { id: 5 }), Some(Reference { id: 6 }));
    assert_eq!(moving.costs("E0S1", Reference { id: 5 }), None);
}

#[test]
fn different_moves_are_asked_for_differently() {
    let c = creep();
    let other = Creep { reference: Reference { id: 21 }, pos: at(10, 20) };
    let base = shown(c.move_to_with_options(&at(1, 2), MoveToOptions::new()).request);
    assert_ne!(base, shown(other.move_to_with_options(&at(1, 2), MoveToOptions::new()).request));
    assert_ne!(base, shown(c.move_to_with_options(&at(2, 1), MoveToOptions::new()).request));
    assert_ne!(
        base,
        shown(c.move_to_with_options(&at(1, 2), MoveToOptions::new().range(1)).request)
    );
}
