use building_rendering::group::{AddFrozen, BuildingGeometry, Group, Remove};
use building_rendering::ids::{
    BuildingID, BuildingRendererID, GrouperID, GrouperIndividualID, RawID,
};
use building_rendering::renderer::BuildingRenderer;

fn group_raw(instance_id: u32, type_id: u16) -> RawID {
    RawID { instance_id, type_id, machine: 1, version: 2 }
}

fn handle(n: u32) -> GrouperID {
    GrouperID { raw: group_raw(n, 40) }
}

fn house(n: u32) -> BuildingID {
    BuildingID { raw: group_raw(n, 11) }
}

fn member(n: u32) -> GrouperIndividualID {
    GrouperIndividualID { raw: group_raw(n, 11) }
}

fn bundle(tag: u32) -> BuildingGeometry<u32> {
    BuildingGeometry { wall: tag, flat_roof: tag + 1, brick_roof: tag + 2, field: tag + 3 }
}

fn four_groups() -> Vec<Group<u32>> {
    vec![Group::new(handle(0)), Group::new(handle(1)), Group::new(handle(2)), Group::new(handle(3))]
}

fn manager() -> BuildingRenderer {
    BuildingRenderer::spawn(
        BuildingRendererID { raw: group_raw(0, 42) },
        handle(0),
        handle(1),
        handle(2),
        handle(3),
    )
}

fn deliver_adds(groups: &mut Vec<Group<u32>>, commands: Vec<AddFrozen<u32>>) {
    for command in commands {
        for group in groups.iter_mut() {
            group.receive_add(AddFrozen {
                grouper: command.grouper,
                member: command.member,
                geometry: command.geometry,
            });
        }
    }
}

fn deliver_removes(groups: &mut Vec<Group<u32>>, commands: Vec<Remove>) {
    for command in commands {
        for group in groups.iter_mut() {
            group.receive_remove(command);
        }
    }
}

#[test]
fn member_identity_is_the_buildings_raw_identity() {
    let id = house(77);
    assert_eq!(GrouperIndividualID::from(id).raw, id.raw);
    assert_eq!(id.as_raw(), group_raw(77, 11));
    assert_ne!(GrouperIndividualID::from(house(1)), GrouperIndividualID::from(house(2)));
}

#[test]
fn new_group_is_empty() {
    let group: Group<u32> = Group::new(handle(9));
    assert_eq!(group.grouper(), handle(9));
    assert_eq!(group.len(), 0);
    assert!(!group.contains(member(1)));
    assert_eq!(group.get(member(1)), None);
}

#[test]
fn group_add_replaces_and_remove_of_absent_member_does_nothing() {
    let mut group: Group<u32> = Group::new(handle(9));
    group.add_frozen(member(1), 10);
    group.add_frozen(member(2), 20);
    group.add_frozen(member(1), 11);
    assert_eq!(group.len(), 2);
    assert_eq!(group.get(member(1)), Some(&11));
    assert_eq!(group.get(member(2)), Some(&20));
    group.remove(member(3));
    assert_eq!(group.len(), 2);
    group.remove(member(1));
    assert_eq!(group.len(), 1);
    assert!(!group.contains(member(1)));
    assert!(group.contains(member(2)));
}

#[test]
fn group_ignores_messages_for_other_groups() {
    let mut group: Group<u32> = Group::new(handle(9));
    group.receive_add(AddFrozen { grouper: handle(8), member: member(1), geometry: 5 });
    assert_eq!(group.len(), 0);
    group.receive_add(AddFrozen { grouper: handle(9), member: member(1), geometry: 5 });
    assert_eq!(group.get(member(1)), Some(&5));
    group.receive_remove(Remove { grouper: handle(8), member: member(1) });
    assert!(group.contains(member(1)));
    group.receive_remove(Remove { grouper: handle(9), member: member(1) });
    assert!(!group.contains(member(1)));
}

#[test]
fn add_geometry_files_each_part_in_its_group() {
    let renderer = manager();
    let mut groups = four_groups();
    deliver_adds(&mut groups, renderer.add_geometry(house(3), bundle(100)));
    assert_eq!(groups[0].get(member(3)), Some(&100));
    assert_eq!(groups[1].get(member(3)), Some(&101));
    assert_eq!(groups[2].get(member(3)), Some(&102));
    assert_eq!(groups[3].get(member(3)), Some(&103));
}

#[test]
fn add_then_remove_leaves_no_entry_in_any_group() {
    let renderer = manager();
    let mut groups = four_groups();
    deliver_adds(&mut groups, renderer.add_geometry(house(1), bundle(10)));
    deliver_adds(&mut groups, renderer.add_geometry(house(2), bundle(20)));
    deliver_removes(&mut groups, renderer.remove_geometry(house(2)));
    for group in groups.iter() {
        assert!(!group.contains(member(2)));
        assert!(group.contains(member(1)));
        assert_eq!(group.len(), 1);
    }
}

#[test]
fn removing_a_building_that_was_never_added_changes_nothing() {
    let renderer = manager();
    let mut groups = four_groups();
    deliver_adds(&mut groups, renderer.add_geometry(house(1), bundle(10)));
    deliver_removes(&mut groups, renderer.remove_geometry(house(5)));
    assert_eq!(groups[0].get(member(1)), Some(&10));
    assert_eq!(groups[3].get(member(1)), Some(&13));
    for group in groups.iter() {
        assert_eq!(group.len(), 1);
    }
}

#[test]
fn adding_twice_replaces_and_keeps_the_group_size() {
    let renderer = manager();
    let mut groups = four_groups();
    deliver_adds(&mut groups, renderer.add_geometry(house(1), bundle(10)));
    deliver_adds(&mut groups, renderer.add_geometry(house(2), bundle(20)));
    let sizes_after_one: Vec<usize> = groups.iter().map(|g| g.len()).collect();
    deliver_adds(&mut groups, renderer.add_geometry(house(2), bundle(30)));
    let sizes_after_two: Vec<usize> = groups.iter().map(|g| g.len()).collect();
    assert_eq!(sizes_after_one, vec![2, 2, 2, 2]);
    assert_eq!(sizes_after_two, sizes_after_one);
    assert_eq!(groups[0].get(member(2)), Some(&30));
    assert_eq!(groups[1].get(member(2)), Some(&31));
    assert_eq!(groups[2].get(member(2)), Some(&32));
    assert_eq!(groups[3].get(member(2)), Some(&33));
    assert_eq!(groups[0].get(member(1)), Some(&10));
}
