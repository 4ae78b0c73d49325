use building_rendering::building::{
    destruction_tint, on_add, on_destroy, Building, Event3d, InstanceColor, LifecycleAction,
    UILayer, PICK_RADIUS, PICK_Z_INDEX,
};
use building_rendering::group::BuildingGeometry;
use building_rendering::ids::{BuildingID, HouseholdID, RawID, RendererID};

fn building_raw(instance_id: u32, type_id: u16) -> RawID {
    RawID { instance_id, type_id, machine: 0, version: 1 }
}

fn home(n: u32) -> BuildingID {
    BuildingID { raw: building_raw(n, 11) }
}

fn occupant(n: u32) -> HouseholdID {
    HouseholdID { raw: building_raw(n, 21) }
}

#[test]
fn creation_registers_the_pick_region_then_files_geometry() {
    assert_eq!(
        on_add(home(3)),
        vec![
            LifecycleAction::AddPickRegion {
                layer: UILayer::Info,
                building: home(3),
                radius: 5,
                z_index: 10,
            },
            LifecycleAction::AddGeometry { building: home(3) },
        ]
    );
    assert_eq!(PICK_RADIUS, 5);
    assert_eq!(PICK_Z_INDEX, 10);
}

#[test]
fn removal_takes_the_pick_region_then_the_geometry_away() {
    assert_eq!(
        on_destroy(home(3)),
        vec![
            LifecycleAction::RemovePickRegion { layer: UILayer::Info, building: home(3) },
            LifecycleAction::RemoveGeometry { building: home(3) },
        ]
    );
}

#[test]
fn finished_drag_asks_for_inspection_with_all_households() {
    let building = Building { id: home(1), households: vec![occupant(4), occupant(5)] };
    let request = building.on_event(Event3d::DragFinished).expect("a finished drag selects");
    assert_eq!(request.building, home(1));
    assert_eq!(request.households, vec![occupant(4), occupant(5)]);
}

#[test]
fn other_events_ask_for_nothing() {
    let building = Building { id: home(1), households: vec![occupant(4)] };
    assert!(building.on_event(Event3d::Other).is_none());
}

#[test]
fn destroyed_look_merges_roofs_first_and_is_red_and_static() {
    let building = Building { id: home(2), households: Vec::new() };
    let renderer = RendererID { raw: building_raw(0, 41) };
    let update = building.render_as_destroyed(
        renderer,
        0,
        BuildingGeometry { wall: "wall", flat_roof: "flat", brick_roof: "brick", field: "field" },
    );
    assert_eq!(update.renderer, renderer);
    assert_eq!(update.slot, 37_000);
    assert_eq!(update.building, home(2));
    assert_eq!(update.parts, vec!["brick", "flat", "wall", "field"]);
    assert_eq!(update.color, InstanceColor { red: 255, green: 0, blue: 0 });
    assert_eq!(update.color, destruction_tint());
    assert!(update.is_static);
}

#[test]
fn destroyed_slot_follows_the_position() {
    let building = Building { id: home(2), households: Vec::new() };
    let renderer = RendererID { raw: building_raw(0, 41) };
    let update = building.render_as_destroyed(
        renderer,
        2,
        BuildingGeometry { wall: 1u8, flat_roof: 2u8, brick_roof: 3u8, field: 4u8 },
    );
    assert_eq!(update.slot, 37_002);
    let last = building.render_as_destroyed(
        renderer,
        28_535,
        BuildingGeometry { wall: 1u8, flat_roof: 2u8, brick_roof: 3u8, field: 4u8 },
    );
    assert_eq!(last.slot, 65_535);
}
