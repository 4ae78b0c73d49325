//! What a building itself contributes: the messages at its creation and
//! removal, its answer to a finished drag, and its look while it awaits
//! demolition.

use vstd::prelude::*;
use crate::group::BuildingGeometry;
use crate::ids::{BuildingID, HouseholdID, RendererID};
use crate::renderer::{destroyed_slot, DESTROYED_SLOT_BASE, MAX_DESTROYED_INSTANCES};

verus! {

/// Radius of the circle around the centre of a lot in which a building can
/// be picked.
pub const PICK_RADIUS: u32 = 5;

/// Drawing order of a building's pick region among the pick regions of its
/// layer.
pub const PICK_Z_INDEX: usize = 10;

/// Layer of the user interface on which pick regions are registered.
#[derive(Clone, Copy, PartialEq, Eq, Structural, Debug)]
pub enum UILayer {
    /// The layer on which things can be looked at.
    Info,
}

/// What a pointer did to a building's pick region, as far as a building
/// cares.
#[derive(Clone, Copy, PartialEq, Eq, Structural, Debug)]
pub enum Event3d {
    /// A drag over the pick region has ended.
    DragFinished,
    /// Anything else.
    Other,
}

/// Message that a building's creation or removal sets off.
#[derive(Clone, Copy, PartialEq, Eq, Structural, Debug)]
pub enum LifecycleAction {
    /// Register a circle of `radius` around the centre of the building's
    /// lot as the region in which `building` can be picked.
    AddPickRegion { layer: UILayer, building: BuildingID, radius: u32, z_index: usize },
    /// Build the geometry of `building` from its lot and style, seeded by
    /// its identity, and file it with the building renderer.
    AddGeometry { building: BuildingID },
    /// Take the pick region of `building` away.
    RemovePickRegion { layer: UILayer, building: BuildingID },
    /// Have the building renderer take `building` out of its groups.
    RemoveGeometry { building: BuildingID },
}

/// Colour of an instance, one byte per channel.
#[derive(Clone, Copy, PartialEq, Eq, Structural, Debug)]
pub struct InstanceColor {
    pub red: u8,
    pub green: u8,
    pub blue: u8,
}

/// The tint of everything that is marked for demolition: pure red.
pub open spec fn marked_for_destruction() -> InstanceColor {
    InstanceColor { red: 255, green: 0, blue: 0 }
}

/// The tint of everything that is marked for demolition.
pub fn destruction_tint() -> (color: InstanceColor)
    ensures
        color == marked_for_destruction(),
{
    InstanceColor { red: 255, green: 0, blue: 0 }
}

/// One instance to be written into one slot of a scene renderer.
#[derive(Debug)]
pub struct IndividualUpdate<G> {
    /// The scene renderer that owns the slot.
    pub renderer: RendererID,
    /// The slot to write.
    pub slot: u16,
    /// The building the instance shows.
    pub building: BuildingID,
    /// The pieces of geometry that make up the instance, to be merged into
    /// one mesh in this order.
    pub parts: Vec<G>,
    /// The colour of the instance.
    pub color: InstanceColor,
    /// Whether the instance stays as it is from frame to frame.
    pub is_static: bool,
}

/// Request to the inspector to select a building.
#[derive(Debug)]
pub struct InspectionRequest {
    /// The building to select.
    pub building: BuildingID,
    /// All its occupants at this moment.
    pub households: Vec<HouseholdID>,
}

/// A building, as far as its presentation goes.
#[derive(Debug)]
pub struct Building {
    /// The building's identity.
    pub id: BuildingID,
    /// The households that occupy it.
    pub households: Vec<HouseholdID>,
}

/// The messages that go out when the building `id` has been created: its
/// pick region is registered, then its geometry is built and filed.
pub open spec fn add_actions(id: BuildingID) -> Seq<LifecycleAction> {
    seq![
        LifecycleAction::AddPickRegion {
            layer: UILayer::Info,
            building: id,
            radius: PICK_RADIUS,
            z_index: PICK_Z_INDEX,
        },
        LifecycleAction::AddGeometry { building: id },
    ]
}

/// The messages that go out when the building `building_id` has been
/// removed: its pick region goes, then its geometry.
pub open spec fn destroy_actions(building_id: BuildingID) -> Seq<LifecycleAction> {
    seq![
        LifecycleAction::RemovePickRegion { layer: UILayer::Info, building: building_id },
        LifecycleAction::RemoveGeometry { building: building_id },
    ]
}

/// A building has been created.
pub fn on_add(id: BuildingID) -> (actions: Vec<LifecycleAction>)
    ensures
        actions@ == add_actions(id),
{
    let mut actions: Vec<LifecycleAction> = Vec::new();
    actions.push(
        LifecycleAction::AddPickRegion {
            layer: UILayer::Info,
            building: id,
            radius: PICK_RADIUS,
            z_index: PICK_Z_INDEX,
        },
    );
    actions.push(LifecycleAction::AddGeometry { building: id });
    proof {
        assert(actions@ =~= add_actions(id));
    }
    actions
}

/// A building has been removed.
pub fn on_destroy(building_id: BuildingID) -> (actions: Vec<LifecycleAction>)
    ensures
        actions@ == destroy_actions(building_id),
{
    let mut actions: Vec<LifecycleAction> = Vec::new();
    actions.push(LifecycleAction::RemovePickRegion { layer: UILayer::Info, building: building_id });
    actions.push(LifecycleAction::RemoveGeometry { building: building_id });
    proof {
        assert(actions@ =~= destroy_actions(building_id));
    }
    actions
}

impl Building {
    /// A pointer event on the building's pick region. A finished drag asks
    /// the inspector to select this building with all its occupants; any
    /// other event asks for nothing.
    pub fn on_event(&self, event: Event3d) -> (request: Option<InspectionRequest>)
        ensures
            event == Event3d::DragFinished <==> request is Some,
            request matches Some(selection) ==> selection.building == self.id
                && selection.households@ == self.households@,
    {
        match event {
            Event3d::DragFinished => Some(
                InspectionRequest { building: self.id, households: self.households.clone() },
            ),
            Event3d::Other => None,
        }
    }

    /// The building as it looks while it awaits demolition, for the slot of
    /// position `building_index`: the four parts of its geometry, brick
    /// roof first, then flat roof, walls and field cover, to be merged into
    /// one mesh, tinted as marked for demolition and static.
    pub fn render_as_destroyed<G>(
        &self,
        renderer_id: RendererID,
        building_index: usize,
        geometries: BuildingGeometry<G>,
    ) -> (update: IndividualUpdate<G>)
        requires
            building_index < MAX_DESTROYED_INSTANCES,
        ensures
            update.renderer == renderer_id,
            update.slot == DESTROYED_SLOT_BASE + building_index,
            update.building == self.id,
            update.parts@ == seq![
                geometries.brick_roof,
                geometries.flat_roof,
                geometries.wall,
                geometries.field,
            ],
            update.color == marked_for_destruction(),
            update.is_static,
    {
        let mut parts: Vec<G> = Vec::new();
        parts.push(geometries.brick_roof);
        parts.push(geometries.flat_roof);
        parts.push(geometries.wall);
        parts.push(geometries.field);
        proof {
            assert(parts@ =~= seq![
                geometries.brick_roof,
                geometries.flat_roof,
                geometries.wall,
                geometries.field,
            ]);
        }
        IndividualUpdate {
            renderer: renderer_id,
            slot: destroyed_slot(building_index),
            building: self.id,
            parts,
            color: destruction_tint(),
            is_static: true,
        }
    }
}

} // verus!
