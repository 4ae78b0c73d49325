use building_rendering::group::{AddFrozen, BuildingGeometry, GroupCategory, Remove};
use building_rendering::ids::{
    BuildingID, BuildingRendererID, GrouperID, GrouperIndividualID, RawID, RendererID,
};
use building_rendering::renderer::{
    destroyed_slot, grouper_setup, BuildingPlanResultDelta, BuildingRenderer, GrouperSetup,
    SceneCommand, SlotCommand, DESTROYED_SLOT_BASE, MAX_DESTROYED_INSTANCES,
};

fn renderer_raw(instance_id: u32, type_id: u16) -> RawID {
    RawID { instance_id, type_id, machine: 0, version: 0 }
}

fn grouper(n: u32) -> GrouperID {
    GrouperID { raw: renderer_raw(n, 40) }
}

fn scene(n: u32) -> RendererID {
    RendererID { raw: renderer_raw(n, 41) }
}

fn demolished(n: u32) -> BuildingID {
    BuildingID { raw: renderer_raw(n, 11) }
}

fn fresh_renderer() -> BuildingRenderer {
    BuildingRenderer::spawn(
        BuildingRendererID { raw: renderer_raw(0, 42) },
        grouper(0),
        grouper(1),
        grouper(2),
        grouper(3),
    )
}

fn delta(buildings: &[u32]) -> BuildingPlanResultDelta {
    BuildingPlanResultDelta {
        buildings_to_destroy: buildings.iter().map(|n| demolished(*n)).collect(),
    }
}

fn clear(renderer: RendererID, slot: u16) -> SlotCommand {
    SlotCommand::Clear { renderer, slot }
}

fn show(renderer: RendererID, building: u32, building_index: usize) -> SlotCommand {
    SlotCommand::RenderAsDestroyed { building: demolished(building), renderer, building_index }
}

#[test]
fn slot_range_starts_at_37000_and_ends_with_the_last_slot() {
    assert_eq!(DESTROYED_SLOT_BASE, 37_000);
    assert_eq!(destroyed_slot(0), 37_000);
    assert_eq!(destroyed_slot(1), 37_001);
    assert_eq!(destroyed_slot(MAX_DESTROYED_INSTANCES - 1), u16::MAX);
}

#[test]
fn add_geometry_addresses_each_part_to_its_group() {
    let renderer = fresh_renderer();
    let commands = renderer.add_geometry(
        demolished(5),
        BuildingGeometry { wall: "w", flat_roof: "fr", brick_roof: "br", field: "f" },
    );
    let member = GrouperIndividualID { raw: renderer_raw(5, 11) };
    let told: Vec<(GrouperID, GrouperIndividualID, &str)> =
        commands.iter().map(|c: &AddFrozen<&str>| (c.grouper, c.member, c.geometry)).collect();
    assert_eq!(
        told,
        vec![
            (grouper(0), member, "w"),
            (grouper(1), member, "fr"),
            (grouper(2), member, "br"),
            (grouper(3), member, "f"),
        ]
    );
}

#[test]
fn remove_geometry_addresses_all_four_groups() {
    let renderer = fresh_renderer();
    let member = GrouperIndividualID { raw: renderer_raw(5, 11) };
    assert_eq!(
        renderer.remove_geometry(demolished(5)),
        vec![
            Remove { grouper: grouper(0), member },
            Remove { grouper: grouper(1), member },
            Remove { grouper: grouper(2), member },
            Remove { grouper: grouper(3), member },
        ]
    );
}

#[test]
fn unseen_renderer_has_no_slots_in_use() {
    let renderer = fresh_renderer();
    assert_eq!(renderer.destroyed_count(scene(0)), 0);
}

#[test]
fn first_update_only_shows() {
    let mut renderer = fresh_renderer();
    let commands = renderer.update_buildings_to_be_destroyed(scene(0), &delta(&[8, 9]));
    assert_eq!(commands, vec![show(scene(0), 8, 0), show(scene(0), 9, 1)]);
    assert_eq!(renderer.destroyed_count(scene(0)), 2);
}

#[test]
fn shrinking_list_clears_the_trailing_slots() {
    let mut renderer = fresh_renderer();
    renderer.update_buildings_to_be_destroyed(scene(0), &delta(&[1, 2, 3, 4, 5]));
    let commands = renderer.update_buildings_to_be_destroyed(scene(0), &delta(&[4, 2]));
    assert_eq!(
        commands,
        vec![
            clear(scene(0), 37_002),
            clear(scene(0), 37_003),
            clear(scene(0), 37_004),
            show(scene(0), 4, 0),
            show(scene(0), 2, 1),
        ]
    );
    assert_eq!(renderer.destroyed_count(scene(0)), 2);
}

#[test]
fn growing_list_clears_nothing() {
    let mut renderer = fresh_renderer();
    renderer.update_buildings_to_be_destroyed(scene(0), &delta(&[1, 2]));
    let commands = renderer.update_buildings_to_be_destroyed(scene(0), &delta(&[1, 2, 3, 4, 5]));
    assert_eq!(
        commands,
        vec![
            show(scene(0), 1, 0),
            show(scene(0), 2, 1),
            show(scene(0), 3, 2),
            show(scene(0), 4, 3),
            show(scene(0), 5, 4),
        ]
    );
    assert_eq!(renderer.destroyed_count(scene(0)), 5);
}

#[test]
fn list_of_equal_length_clears_nothing() {
    let mut renderer = fresh_renderer();
    renderer.update_buildings_to_be_destroyed(scene(0), &delta(&[1, 2]));
    let commands = renderer.update_buildings_to_be_destroyed(scene(0), &delta(&[2, 1]));
    assert_eq!(commands, vec![show(scene(0), 2, 0), show(scene(0), 1, 1)]);
    assert_eq!(renderer.destroyed_count(scene(0)), 2);
}

#[test]
fn empty_list_clears_every_slot_in_use() {
    let mut renderer = fresh_renderer();
    renderer.update_buildings_to_be_destroyed(scene(0), &delta(&[1, 2, 3]));
    let commands = renderer.update_buildings_to_be_destroyed(scene(0), &delta(&[]));
    assert_eq!(
        commands,
        vec![clear(scene(0), 37_000), clear(scene(0), 37_001), clear(scene(0), 37_002)]
    );
    assert_eq!(renderer.destroyed_count(scene(0)), 0);
    // Nothing is left to clear the next time.
    assert_eq!(renderer.update_buildings_to_be_destroyed(scene(0), &delta(&[])), vec![]);
}

#[test]
fn three_buildings_then_one_clears_two_slots_and_rewrites_the_first() {
    let mut renderer = fresh_renderer();
    renderer.update_buildings_to_be_destroyed(scene(0), &delta(&[1, 2, 3]));
    assert_eq!(renderer.destroyed_count(scene(0)), 3);
    let commands = renderer.update_buildings_to_be_destroyed(scene(0), &delta(&[2]));
    assert_eq!(
        commands,
        vec![clear(scene(0), 37_001), clear(scene(0), 37_002), show(scene(0), 2, 0)]
    );
    assert_eq!(renderer.destroyed_count(scene(0)), 1);
}

#[test]
fn scene_renderers_are_counted_apart() {
    let mut renderer = fresh_renderer();
    renderer.update_buildings_to_be_destroyed(scene(0), &delta(&[1, 2, 3]));
    let commands = renderer.update_buildings_to_be_destroyed(scene(1), &delta(&[7]));
    assert_eq!(commands, vec![show(scene(1), 7, 0)]);
    assert_eq!(renderer.destroyed_count(scene(0)), 3);
    assert_eq!(renderer.destroyed_count(scene(1)), 1);
    let commands = renderer.update_buildings_to_be_destroyed(scene(0), &delta(&[]));
    assert_eq!(commands.len(), 3);
    assert_eq!(renderer.destroyed_count(scene(1)), 1);
}

#[test]
fn full_slot_range_can_be_filled_and_cleared() {
    let mut renderer = fresh_renderer();
    let all: Vec<u32> = (0..MAX_DESTROYED_INSTANCES as u32).collect();
    let commands = renderer.update_buildings_to_be_destroyed(scene(0), &delta(&all));
    assert_eq!(commands.len(), MAX_DESTROYED_INSTANCES);
    assert_eq!(commands[MAX_DESTROYED_INSTANCES - 1], show(scene(0), 28_535, 28_535));
    let commands = renderer.update_buildings_to_be_destroyed(scene(0), &delta(&[]));
    assert_eq!(commands.len(), MAX_DESTROYED_INSTANCES);
    assert_eq!(commands[0], clear(scene(0), 37_000));
    assert_eq!(commands[MAX_DESTROYED_INSTANCES - 1], clear(scene(0), u16::MAX));
}

#[test]
fn scene_setup_goes_to_the_four_groups_in_order() {
    let renderer = fresh_renderer();
    assert_eq!(
        renderer.setup_in_scene(scene(2)),
        vec![
            SceneCommand::SetupInScene { grouper: grouper(0), renderer: scene(2) },
            SceneCommand::SetupInScene { grouper: grouper(1), renderer: scene(2) },
            SceneCommand::SetupInScene { grouper: grouper(2), renderer: scene(2) },
            SceneCommand::SetupInScene { grouper: grouper(3), renderer: scene(2) },
        ]
    );
}

#[test]
fn rendering_goes_to_the_four_groups_in_order() {
    let renderer = fresh_renderer();
    assert_eq!(
        renderer.render_to_scene(scene(2), 17),
        vec![
            SceneCommand::RenderToScene { grouper: grouper(0), renderer: scene(2), frame: 17 },
            SceneCommand::RenderToScene { grouper: grouper(1), renderer: scene(2), frame: 17 },
            SceneCommand::RenderToScene { grouper: grouper(2), renderer: scene(2), frame: 17 },
            SceneCommand::RenderToScene { grouper: grouper(3), renderer: scene(2), frame: 17 },
        ]
    );
}

#[test]
fn draw_groups_start_below_the_demolition_slots() {
    let wall = grouper_setup(GroupCategory::Wall);
    assert_eq!(
        wall,
        GrouperSetup { category: GroupCategory::Wall, base_individual_id: 5_000, is_decal: false }
    );
    assert_eq!(grouper_setup(GroupCategory::FlatRoof).base_individual_id, 5_100);
    assert_eq!(grouper_setup(GroupCategory::BrickRoof).base_individual_id, 5_200);
    assert_eq!(grouper_setup(GroupCategory::Field).base_individual_id, 5_300);
    assert!(!grouper_setup(GroupCategory::Field).is_decal);
    assert!(grouper_setup(GroupCategory::Field).base_individual_id < DESTROYED_SLOT_BASE);
}
