//! The building renderer: which building's geometry goes into which draw
//! group, and which slots show the buildings that await demolition.
//!
//! The renderer owns four handles, one per material, and one number per
//! scene renderer: how many demolition slots it filled there last time.
//! Every event is answered with the messages that have to go out; nothing
//! is sent from here.

use vstd::prelude::*;
use crate::dict::IdDict;
use crate::group::{
    after_adds,
    after_removes,
    lemma_after_four_adds,
    lemma_after_four_removes,
    AddFrozen,
    BuildingGeometry,
    GroupCategory,
    Remove,
};
use crate::ids::{
    group_member,
    BuildingID,
    BuildingRendererID,
    GrouperID,
    GrouperIndividualID,
    RawID,
    RendererID,
};

verus! {

/// First slot of the range that shows buildings awaiting demolition.
pub const DESTROYED_SLOT_BASE: u16 = 37_000;

/// Width of that range: the slots from the base up to the last one a
/// renderer can address.
pub const MAX_DESTROYED_INSTANCES: usize = 28_536;

/// The slot that shows the building at `position` of a demolition list.
pub open spec fn destroyed_slot_of(position: int) -> u16 {
    (DESTROYED_SLOT_BASE + position) as u16
}

/// The slot that shows the building at `position` of a demolition list.
pub fn destroyed_slot(position: usize) -> (slot: u16)
    requires
        position < MAX_DESTROYED_INSTANCES,
    ensures
        slot == destroyed_slot_of(position as int),
        slot == DESTROYED_SLOT_BASE + position,
{
    DESTROYED_SLOT_BASE + (position as u16)
}

/// How the draw group of one material is created.
#[derive(Clone, Copy, PartialEq, Eq, Structural, Debug)]
pub struct GrouperSetup {
    /// The material of the group.
    pub category: GroupCategory,
    /// First slot of the range in which the group draws its batches.
    pub base_individual_id: u16,
    /// Whether the group is drawn as a decal on top of what lies below.
    pub is_decal: bool,
}

/// How the draw group of the material `category` is created.
pub open spec fn grouper_setup_of(category: GroupCategory) -> GrouperSetup {
    GrouperSetup {
        category,
        base_individual_id: match category {
            GroupCategory::Wall => 5_000,
            GroupCategory::FlatRoof => 5_100,
            GroupCategory::BrickRoof => 5_200,
            GroupCategory::Field => 5_300,
        },
        is_decal: false,
    }
}

/// How the draw group of the material `category` is to be created, before
/// its handle can be given to [`BuildingRenderer::spawn`].
pub fn grouper_setup(category: GroupCategory) -> (setup: GrouperSetup)
    ensures
        setup == grouper_setup_of(category),
{
    let base_individual_id: u16 = match category {
        GroupCategory::Wall => 5_000,
        GroupCategory::FlatRoof => 5_100,
        GroupCategory::BrickRoof => 5_200,
        GroupCategory::Field => 5_300,
    };
    GrouperSetup { category, base_individual_id, is_decal: false }
}

/// Message about one demolition slot of one scene renderer.
#[derive(Clone, Copy, PartialEq, Eq, Structural, Debug)]
pub enum SlotCommand {
    /// Empty `slot`: write an instance without geometry into it.
    Clear { renderer: RendererID, slot: u16 },
    /// Ask `building` to show itself as awaiting demolition in the slot
    /// that belongs to position `building_index`.
    RenderAsDestroyed { building: BuildingID, renderer: RendererID, building_index: usize },
}

/// Message that forwards a scene event to one draw group.
#[derive(Clone, Copy, PartialEq, Eq, Structural, Debug)]
pub enum SceneCommand {
    /// The group is to set itself up in the scene of `renderer`.
    SetupInScene { grouper: GrouperID, renderer: RendererID },
    /// The group is to render itself for `frame` in the scene of `renderer`.
    RenderToScene { grouper: GrouperID, renderer: RendererID, frame: usize },
}

/// What a planning step reports to the renderer.
#[derive(Debug)]
pub struct BuildingPlanResultDelta {
    /// The buildings that now await demolition, in the order to show them.
    pub buildings_to_destroy: Vec<BuildingID>,
}

/// The building renderer as a mathematical value.
pub struct RendererState {
    /// The renderer's own identity.
    pub id: BuildingRendererID,
    /// The draw group of walls.
    pub wall_grouper: GrouperID,
    /// The draw group of flat roofs.
    pub flat_roof_grouper: GrouperID,
    /// The draw group of brick roofs.
    pub brick_roof_grouper: GrouperID,
    /// The draw group of field covers.
    pub field_grouper: GrouperID,
    /// For every scene renderer served so far, the number of demolition
    /// slots written for it by the last update.
    pub destroyed_counts: Map<RendererID, usize>,
}

impl RendererState {
    /// The handle of the draw group for `category`.
    pub open spec fn grouper(self, category: GroupCategory) -> GrouperID {
        match category {
            GroupCategory::Wall => self.wall_grouper,
            GroupCategory::FlatRoof => self.flat_roof_grouper,
            GroupCategory::BrickRoof => self.brick_roof_grouper,
            GroupCategory::Field => self.field_grouper,
        }
    }

    /// `grouper` is one of the four draw groups of this renderer.
    pub open spec fn owns(self, grouper: GrouperID) -> bool {
        ||| grouper == self.wall_grouper
        ||| grouper == self.flat_roof_grouper
        ||| grouper == self.brick_roof_grouper
        ||| grouper == self.field_grouper
    }

    /// The four draw groups are four different groups.
    pub open spec fn groupers_differ(self) -> bool {
        &&& self.wall_grouper != self.flat_roof_grouper
        &&& self.wall_grouper != self.brick_roof_grouper
        &&& self.wall_grouper != self.field_grouper
        &&& self.flat_roof_grouper != self.brick_roof_grouper
        &&& self.flat_roof_grouper != self.field_grouper
        &&& self.brick_roof_grouper != self.field_grouper
    }

    /// The messages that file the four parts of `geometry` under
    /// `building`: walls, flat roofs, brick roofs, field covers, each to
    /// its own group.
    pub open spec fn add_commands<G>(
        self,
        building: BuildingID,
        geometry: BuildingGeometry<G>,
    ) -> Seq<AddFrozen<G>> {
        seq![
            AddFrozen {
                grouper: self.wall_grouper,
                member: group_member(building),
                geometry: geometry.wall,
            },
            AddFrozen {
                grouper: self.flat_roof_grouper,
                member: group_member(building),
                geometry: geometry.flat_roof,
            },
            AddFrozen {
                grouper: self.brick_roof_grouper,
                member: group_member(building),
                geometry: geometry.brick_roof,
            },
            AddFrozen {
                grouper: self.field_grouper,
                member: group_member(building),
                geometry: geometry.field,
            },
        ]
    }

    /// The messages that take `building` out of the four groups, in the
    /// same order.
    pub open spec fn remove_commands(self, building: BuildingID) -> Seq<Remove> {
        seq![
            Remove { grouper: self.wall_grouper, member: group_member(building) },
            Remove { grouper: self.flat_roof_grouper, member: group_member(building) },
            Remove { grouper: self.brick_roof_grouper, member: group_member(building) },
            Remove { grouper: self.field_grouper, member: group_member(building) },
        ]
    }

    /// The messages that set the four groups up in the scene of
    /// `renderer`, in the same order.
    pub open spec fn setup_commands(self, renderer: RendererID) -> Seq<SceneCommand> {
        seq![
            SceneCommand::SetupInScene { grouper: self.wall_grouper, renderer },
            SceneCommand::SetupInScene { grouper: self.flat_roof_grouper, renderer },
            SceneCommand::SetupInScene { grouper: self.brick_roof_grouper, renderer },
            SceneCommand::SetupInScene { grouper: self.field_grouper, renderer },
        ]
    }

    /// The messages that have the four groups render `frame` in the scene
    /// of `renderer`, in the same order.
    pub open spec fn render_commands(self, renderer: RendererID, frame: usize) -> Seq<
        SceneCommand,
    > {
        seq![
            SceneCommand::RenderToScene { grouper: self.wall_grouper, renderer, frame },
            SceneCommand::RenderToScene { grouper: self.flat_roof_grouper, renderer, frame },
            SceneCommand::RenderToScene { grouper: self.brick_roof_grouper, renderer, frame },
            SceneCommand::RenderToScene { grouper: self.field_grouper, renderer, frame },
        ]
    }

    /// How many demolition slots the last update wrote for `renderer`;
    /// none for a renderer not served yet.
    pub open spec fn destroyed_count(self, renderer: RendererID) -> nat {
        if self.destroyed_counts.contains_key(renderer) {
            self.destroyed_counts[renderer] as nat
        } else {
            0
        }
    }

    /// The state after a demolition list of `shown` buildings was
    /// processed for `renderer`.
    pub open spec fn record(self, renderer: RendererID, shown: usize) -> Self {
        RendererState { destroyed_counts: self.destroyed_counts.insert(renderer, shown), ..self }
    }
}

/// The messages that empty the slots of the positions from `from` up to,
/// but not including, `until`, lowest first.
pub open spec fn clear_commands(renderer: RendererID, from: nat, until: nat) -> Seq<SlotCommand> {
    Seq::new(
        if until > from {
            (until - from) as nat
        } else {
            0
        },
        |k: int| SlotCommand::Clear { renderer, slot: destroyed_slot_of(from + k) },
    )
}

/// The messages that have every building of `buildings` show itself at its
/// position, first position first.
pub open spec fn show_commands(renderer: RendererID, buildings: Seq<BuildingID>) -> Seq<
    SlotCommand,
> {
    Seq::new(
        buildings.len(),
        |i: int|
            SlotCommand::RenderAsDestroyed {
                building: buildings[i],
                renderer,
                building_index: i as usize,
            },
    )
}

/// The messages for a new demolition list, where `previous` slots were in
/// use: first the slots that fall out of use are emptied, then every
/// building of the list is shown at its position.
pub open spec fn slot_commands(
    renderer: RendererID,
    previous: nat,
    buildings: Seq<BuildingID>,
) -> Seq<SlotCommand> {
    clear_commands(renderer, buildings.len(), previous) + show_commands(renderer, buildings)
}

/// Keeps the books of building geometry for the scene renderers.
pub struct BuildingRenderer {
    id: BuildingRendererID,
    wall_grouper: GrouperID,
    flat_roof_grouper: GrouperID,
    brick_roof_grouper: GrouperID,
    field_grouper: GrouperID,
    current_n_buildings_to_be_destroyed: IdDict<usize>,
}

/// The counts per scene renderer that a dictionary keyed by raw identities
/// stands for.
pub closed spec fn counts_of(filed: Map<RawID, usize>) -> Map<RendererID, usize> {
    Map::new(
        |renderer: RendererID| filed.contains_key(renderer.raw),
        |renderer: RendererID| filed[renderer.raw],
    )
}

impl View for BuildingRenderer {
    type V = RendererState;

    closed spec fn view(&self) -> RendererState {
        RendererState {
            id: self.id,
            wall_grouper: self.wall_grouper,
            flat_roof_grouper: self.flat_roof_grouper,
            brick_roof_grouper: self.brick_roof_grouper,
            field_grouper: self.field_grouper,
            destroyed_counts: counts_of(self.current_n_buildings_to_be_destroyed@),
        }
    }
}

impl BuildingRenderer {
    #[verifier::type_invariant]
    spec fn counts_fit_the_slot_range(self) -> bool {
        forall|raw: RawID| #[trigger]
            self.current_n_buildings_to_be_destroyed@.contains_key(raw)
                ==> self.current_n_buildings_to_be_destroyed@[raw] <= MAX_DESTROYED_INSTANCES
    }

    /// A renderer over the four given draw groups that has served no scene
    /// renderer yet.
    pub fn spawn(
        id: BuildingRendererID,
        wall_grouper: GrouperID,
        flat_roof_grouper: GrouperID,
        brick_roof_grouper: GrouperID,
        field_grouper: GrouperID,
    ) -> (renderer: BuildingRenderer)
        ensures
            renderer@ == (RendererState {
                id,
                wall_grouper,
                flat_roof_grouper,
                brick_roof_grouper,
                field_grouper,
                destroyed_counts: Map::empty(),
            }),
    {
        let renderer = BuildingRenderer {
            id,
            wall_grouper,
            flat_roof_grouper,
            brick_roof_grouper,
            field_grouper,
            current_n_buildings_to_be_destroyed: IdDict::new(),
        };
        proof {
            assert(renderer@.destroyed_counts =~= Map::<RendererID, usize>::empty());
        }
        renderer
    }

    /// Files the four parts of `geometry` under `id`, each in the group of
    /// its material. Filing again for the same building replaces what was
    /// filed before.
    pub fn add_geometry<G>(&self, id: BuildingID, geometry: BuildingGeometry<G>) -> (commands: Vec<
        AddFrozen<G>,
    >)
        ensures
            commands@ == self@.add_commands(id, geometry),
    {
        let mut commands: Vec<AddFrozen<G>> = Vec::new();
        commands.push(
            AddFrozen {
                grouper: self.wall_grouper,
                member: GrouperIndividualID::from(id),
                geometry: geometry.wall,
            },
        );
        commands.push(
            AddFrozen {
                grouper: self.flat_roof_grouper,
                member: GrouperIndividualID::from(id),
                geometry: geometry.flat_roof,
            },
        );
        commands.push(
            AddFrozen {
                grouper: self.brick_roof_grouper,
                member: GrouperIndividualID::from(id),
                geometry: geometry.brick_roof,
            },
        );
        commands.push(
            AddFrozen {
                grouper: self.field_grouper,
                member: GrouperIndividualID::from(id),
                geometry: geometry.field,
            },
        );
        proof {
            assert(commands@ =~= self@.add_commands(id, geometry));
        }
        commands
    }

    /// Takes `building_id` out of all four groups. A group that holds
    /// nothing for the building is left as it is.
    pub fn remove_geometry(&self, building_id: BuildingID) -> (commands: Vec<Remove>)
        ensures
            commands@ == self@.remove_commands(building_id),
    {
        let mut commands: Vec<Remove> = Vec::new();
        commands.push(
            Remove { grouper: self.wall_grouper, member: GrouperIndividualID::from(building_id) },
        );
        commands.push(
            Remove {
                grouper: self.flat_roof_grouper,
                member: GrouperIndividualID::from(building_id),
            },
        );
        commands.push(
            Remove {
                grouper: self.brick_roof_grouper,
                member: GrouperIndividualID::from(building_id),
            },
        );
        commands.push(
            Remove { grouper: self.field_grouper, member: GrouperIndividualID::from(building_id) },
        );
        proof {
            assert(commands@ =~= self@.remove_commands(building_id));
        }
        commands
    }

    /// How many demolition slots the last update wrote for `renderer_id`.
    pub fn destroyed_count(&self, renderer_id: RendererID) -> (count: usize)
        ensures
            count == self@.destroyed_count(renderer_id),
            count <= MAX_DESTROYED_INSTANCES,
    {
        proof {
            use_type_invariant(&*self);
        }
        match self.current_n_buildings_to_be_destroyed.get(renderer_id.raw) {
            Some(count) => *count,
            None => 0,
        }
    }

    /// Brings the demolition slots of `renderer_id` in line with the new
    /// list: the slots beyond the end of the list that were in use are
    /// emptied, every building of the list is shown at its position, and
    /// the length of the list is kept for the next time. The list has to fit
    /// the slot range, whose last slot is the last one a renderer can
    /// address.
    pub fn update_buildings_to_be_destroyed(
        &mut self,
        renderer_id: RendererID,
        building_plan_result_delta: &BuildingPlanResultDelta,
    ) -> (commands: Vec<SlotCommand>)
        requires
            building_plan_result_delta.buildings_to_destroy@.len() <= MAX_DESTROYED_INSTANCES,
        ensures
            commands@ == slot_commands(
                renderer_id,
                old(self)@.destroyed_count(renderer_id),
                building_plan_result_delta.buildings_to_destroy@,
            ),
            final(self)@ == old(self)@.record(
                renderer_id,
                building_plan_result_delta.buildings_to_destroy.len(),
            ),
    {
        let new_buildings_to_be_destroyed = &building_plan_result_delta.buildings_to_destroy;
        let new_n = new_buildings_to_be_destroyed.len();
        let existing_n_to_be_destroyed = self.destroyed_count(renderer_id);
        let mut commands: Vec<SlotCommand> = Vec::new();

        let mut i = new_n;
        while i < existing_n_to_be_destroyed
            invariant
                existing_n_to_be_destroyed <= MAX_DESTROYED_INSTANCES,
                new_n <= i,
                i == new_n || i <= existing_n_to_be_destroyed,
                commands@ == clear_commands(renderer_id, new_n as nat, i as nat),
            decreases existing_n_to_be_destroyed - i,
        {
            let slot = destroyed_slot(i);
            commands.push(SlotCommand::Clear { renderer: renderer_id, slot });
            i += 1;
        }
        assert(commands@ =~= clear_commands(
            renderer_id,
            new_n as nat,
            existing_n_to_be_destroyed as nat,
        ));

        let ghost cleared = commands@;
        let mut j: usize = 0;
        while j < new_n
            invariant
                j <= new_n,
                new_n == new_buildings_to_be_destroyed@.len(),
                commands@ == cleared + show_commands(
                    renderer_id,
                    new_buildings_to_be_destroyed@.take(j as int),
                ),
            decreases new_n - j,
        {
            commands.push(
                SlotCommand::RenderAsDestroyed {
                    building: new_buildings_to_be_destroyed[j],
                    renderer: renderer_id,
                    building_index: j,
                },
            );
            j += 1;
        }
        assert(new_buildings_to_be_destroyed@.take(new_n as int)
            =~= new_buildings_to_be_destroyed@);

        self.record_count(renderer_id, new_n);
        commands
    }

    /// Keeps `shown` as the number of slots in use for `renderer_id`.
    fn record_count(&mut self, renderer_id: RendererID, shown: usize)
        requires
            shown <= MAX_DESTROYED_INSTANCES,
        ensures
            final(self)@ == old(self)@.record(renderer_id, shown),
    {
        proof {
            use_type_invariant(&*self);
        }
        let mut counts: IdDict<usize> = IdDict::new();
        std::mem::swap(&mut counts, &mut self.current_n_buildings_to_be_destroyed);
        let _ = counts.insert(renderer_id.raw, shown);
        self.current_n_buildings_to_be_destroyed = counts;
        proof {
            assert(final(self)@.destroyed_counts =~= old(self)@.destroyed_counts.insert(
                renderer_id,
                shown,
            ));
        }
    }

    /// Forwards the scene set-up to the four groups: walls, flat roofs,
    /// brick roofs, field covers.
    pub fn setup_in_scene(&self, renderer_id: RendererID) -> (commands: Vec<SceneCommand>)
        ensures
            commands@ == self@.setup_commands(renderer_id),
    {
        let mut commands: Vec<SceneCommand> = Vec::new();
        commands.push(
            SceneCommand::SetupInScene { grouper: self.wall_grouper, renderer: renderer_id },
        );
        commands.push(
            SceneCommand::SetupInScene { grouper: self.flat_roof_grouper, renderer: renderer_id },
        );
        commands.push(
            SceneCommand::SetupInScene { grouper: self.brick_roof_grouper, renderer: renderer_id },
        );
        commands.push(
            SceneCommand::SetupInScene { grouper: self.field_grouper, renderer: renderer_id },
        );
        proof {
            assert(commands@ =~= self@.setup_commands(renderer_id));
        }
        commands
    }

    /// Forwards the rendering of `frame` to the four groups, in the same
    /// order.
    pub fn render_to_scene(&self, renderer_id: RendererID, frame: usize) -> (commands: Vec<
        SceneCommand,
    >)
        ensures
            commands@ == self@.render_commands(renderer_id, frame),
    {
        let mut commands: Vec<SceneCommand> = Vec::new();
        commands.push(
            SceneCommand::RenderToScene {
                grouper: self.wall_grouper,
                renderer: renderer_id,
                frame,
            },
        );
        commands.push(
            SceneCommand::RenderToScene {
                grouper: self.flat_roof_grouper,
                renderer: renderer_id,
                frame,
            },
        );
        commands.push(
            SceneCommand::RenderToScene {
                grouper: self.brick_roof_grouper,
                renderer: renderer_id,
                frame,
            },
        );
        commands.push(
            SceneCommand::RenderToScene {
                grouper: self.field_grouper,
                renderer: renderer_id,
                frame,
            },
        );
        proof {
            assert(commands@ =~= self@.render_commands(renderer_id, frame));
        }
        commands
    }
}

/// The slots of the demolition range keep clear of where the draw groups
/// start: the four groups start at four different slots, all of them below
/// the range, and every position of a demolition list that fits the range
/// lands in it.
pub proof fn lemma_slot_ranges_keep_apart(
    one: GroupCategory,
    other: GroupCategory,
    position: int,
)
    requires
        0 <= position < MAX_DESTROYED_INSTANCES,
    ensures
        one != other ==> grouper_setup_of(one).base_individual_id != grouper_setup_of(
            other,
        ).base_individual_id,
        grouper_setup_of(one).base_individual_id < DESTROYED_SLOT_BASE,
        destroyed_slot_of(position) == DESTROYED_SLOT_BASE + position,
        DESTROYED_SLOT_BASE <= destroyed_slot_of(position) <= u16::MAX,
{
}

/// Filing a building's geometry and at once taking the building out again
/// leaves none of the renderer's four groups with an entry for it. Whatever
/// else a group held it still holds, so a group that held nothing for the
/// building before is back as it was; a group of another owner is not
/// touched at all.
pub proof fn lemma_add_then_remove_leaves_no_entry<G>(
    renderer: RendererState,
    building: BuildingID,
    geometry: BuildingGeometry<G>,
    grouper: GrouperID,
    members: Map<GrouperIndividualID, G>,
)
    ensures
        ({
            let added = after_adds(renderer.add_commands(building, geometry), grouper, members);
            let removed = after_removes(renderer.remove_commands(building), grouper, added);
            &&& renderer.owns(grouper) ==> !removed.contains_key(group_member(building))
            &&& renderer.owns(grouper) ==> removed == members.remove(group_member(building))
            &&& !renderer.owns(grouper) ==> removed == members
            &&& !members.contains_key(group_member(building)) ==> removed == members
        }),
{
    let adds = renderer.add_commands(building, geometry);
    let removes = renderer.remove_commands(building);
    lemma_after_four_adds(adds[0], adds[1], adds[2], adds[3], grouper, members);
    assert(adds =~= seq![adds[0], adds[1], adds[2], adds[3]]);
    let added = after_adds(adds, grouper, members);
    lemma_after_four_removes(removes[0], removes[1], removes[2], removes[3], grouper, added);
    assert(removes =~= seq![removes[0], removes[1], removes[2], removes[3]]);
    let removed = after_removes(removes, grouper, added);
    if renderer.owns(grouper) {
        assert(removed =~= members.remove(group_member(building)));
    } else {
        assert(removed =~= members);
    }
    if !members.contains_key(group_member(building)) {
        assert(members.remove(group_member(building)) =~= members);
    }
}

/// Filing geometry for a building a second time replaces what the first
/// time filed and adds nothing beside it: every group has the same members
/// after two additions as after one, hence the same size, the entries of
/// all other members are untouched, and the group is as if only the second
/// addition had happened. Where the four groups are four different groups,
/// the building's entry in each is the part of the second geometry that is
/// made of the group's material.
pub proof fn lemma_adding_again_replaces<G>(
    renderer: RendererState,
    building: BuildingID,
    first: BuildingGeometry<G>,
    second: BuildingGeometry<G>,
    grouper: GrouperID,
    members: Map<GrouperIndividualID, G>,
)
    ensures
        ({
            let once = after_adds(renderer.add_commands(building, first), grouper, members);
            let twice = after_adds(renderer.add_commands(building, second), grouper, once);
            &&& twice.dom() == once.dom()
            &&& twice.len() == once.len()
            &&& twice == after_adds(renderer.add_commands(building, second), grouper, members)
            &&& forall|other: GrouperIndividualID|
                other != group_member(building) && #[trigger] once.contains_key(other)
                    ==> twice[other] == once[other]
            &&& forall|category: GroupCategory|
                renderer.groupers_differ() && grouper == #[trigger] renderer.grouper(category)
                    ==> twice.contains_key(group_member(building)) && twice[group_member(
                    building,
                )] == second.part(category)
        }),
{
    let adds1 = renderer.add_commands(building, first);
    let adds2 = renderer.add_commands(building, second);
    assert(adds1 =~= seq![adds1[0], adds1[1], adds1[2], adds1[3]]);
    assert(adds2 =~= seq![adds2[0], adds2[1], adds2[2], adds2[3]]);
    lemma_after_four_adds(adds1[0], adds1[1], adds1[2], adds1[3], grouper, members);
    let once = after_adds(adds1, grouper, members);
    lemma_after_four_adds(adds2[0], adds2[1], adds2[2], adds2[3], grouper, once);
    lemma_after_four_adds(adds2[0], adds2[1], adds2[2], adds2[3], grouper, members);
    let twice = after_adds(adds2, grouper, once);
    assert(twice.dom() =~= once.dom());
    assert(twice =~= after_adds(adds2, grouper, members));
}

/// Two updates in a row for one scene renderer, the first with a list of
/// length `a`, the second with a list of length `b`. After the first the
/// stored count is `a`. The second update sends `a - b` clearing messages
/// where `b < a`, and none otherwise: they come first and empty the slots of
/// the positions `b`, `b + 1`, up to `a - 1`. Then follow `b` messages that
/// show the buildings of the second list at the positions `0` to `b - 1`,
/// and the stored count becomes `b`.
pub proof fn lemma_second_update_clears_the_difference(
    renderer: RendererState,
    scene: RendererID,
    first: Seq<BuildingID>,
    second: Seq<BuildingID>,
)
    requires
        first.len() <= MAX_DESTROYED_INSTANCES,
        second.len() <= MAX_DESTROYED_INSTANCES,
    ensures
        ({
            let a = first.len();
            let b = second.len();
            let after_first = renderer.record(scene, a as usize);
            let commands = slot_commands(scene, after_first.destroyed_count(scene), second);
            let cleared = if b < a {
                a - b
            } else {
                0
            };
            &&& after_first.destroyed_count(scene) == a
            &&& commands.len() == cleared + b
            &&& forall|k: int|
                0 <= k < cleared ==> #[trigger] commands[k] == (SlotCommand::Clear {
                    renderer: scene,
                    slot: (DESTROYED_SLOT_BASE + b + k) as u16,
                }) && DESTROYED_SLOT_BASE + b + k <= u16::MAX
            &&& forall|i: int|
                0 <= i < b ==> #[trigger] commands[cleared + i] == (
                SlotCommand::RenderAsDestroyed {
                    building: second[i],
                    renderer: scene,
                    building_index: i as usize,
                })
            &&& after_first.record(scene, b as usize).destroyed_count(scene) == b
        }),
{
}

/// An update with an empty list empties every slot that was in use, from
/// the first of the range on, shows nothing, and stores the count 0.
pub proof fn lemma_empty_list_clears_every_slot(renderer: RendererState, scene: RendererID)
    requires
        renderer.destroyed_count(scene) <= MAX_DESTROYED_INSTANCES,
    ensures
        ({
            let previous = renderer.destroyed_count(scene);
            let commands = slot_commands(scene, previous, Seq::empty());
            &&& commands.len() == previous
            &&& forall|k: int|
                0 <= k < previous ==> #[trigger] commands[k] == (SlotCommand::Clear {
                    renderer: scene,
                    slot: (DESTROYED_SLOT_BASE + k) as u16,
                }) && DESTROYED_SLOT_BASE + k <= u16::MAX
            &&& renderer.record(scene, 0).destroyed_count(scene) == 0
        }),
{
}

} // verus!
