//! The inspection sequencer: one selected building at a time, whose
//! households are shown one per user-interface callback.
//!
//! The inspector never draws. Each of its three events updates the state
//! and answers with the one message that has to go out next; whoever owns
//! the user interface sends it and comes back with the following event.

use vstd::prelude::*;
use crate::ids::{BuildingID, BuildingInspectorID, HouseholdID, UserInterfaceID};

verus! {

/// The one message the inspector wants sent after an event.
#[derive(Clone, Copy, PartialEq, Eq, Structural, Debug)]
pub enum UiAction {
    /// Ask `user_interface` to attach the 2-D panel of `inspector`.
    AttachPanel { user_interface: UserInterfaceID, inspector: BuildingInspectorID },
    /// Tell `inspector` itself that its panel is drawn, which starts the
    /// walk through the households.
    ContinueDrawing { inspector: BuildingInspectorID },
    /// Ask `household` to draw its detail view and then to report back to
    /// `inspector`.
    InspectHousehold { household: HouseholdID, inspector: BuildingInspectorID },
    /// Hand the frame back to the user interface `to`.
    ReturnUi { to: UserInterfaceID },
}

/// Where the inspector stands between selection and hand-back.
#[derive(Clone, Copy, PartialEq, Eq, Structural, Debug)]
pub enum Phase {
    /// No building is selected and no household waits to be shown.
    Idle,
    /// A building is selected and no household waits to be shown.
    Selected,
    /// Households wait to be shown, one per drawn-callback.
    Draining,
}

/// What the summary panel of the selected building shows.
#[derive(Clone, Copy, PartialEq, Eq, Structural, Debug)]
pub struct PanelSummary {
    /// The selected building.
    pub building: BuildingID,
    /// How many households occupy it.
    pub household_count: usize,
}

/// The inspector as a mathematical value.
pub struct InspectorState {
    /// The inspector's own identity.
    pub id: BuildingInspectorID,
    /// The user interface that shows the inspector's panel.
    pub user_interface: UserInterfaceID,
    /// The building under inspection, if any.
    pub current_building: Option<BuildingID>,
    /// The occupants of that building, as they were when it was selected.
    pub current_households: Seq<HouseholdID>,
    /// The occupants still to be shown, next one first.
    pub households_todo: Seq<HouseholdID>,
    /// Who gets the frame back once every household is shown.
    pub return_ui_to: Option<UserInterfaceID>,
}

impl InspectorState {
    /// The state of a fresh inspector: nothing selected, nothing to show,
    /// nobody to return to.
    pub open spec fn idle(id: BuildingInspectorID, user_interface: UserInterfaceID) -> Self {
        InspectorState {
            id,
            user_interface,
            current_building: None,
            current_households: Seq::empty(),
            households_todo: Seq::empty(),
            return_ui_to: None,
        }
    }

    /// The households still to be shown are a tail of the occupant snapshot.
    pub open spec fn wf(self) -> bool {
        &&& self.households_todo.len() <= self.current_households.len()
        &&& self.households_todo =~= self.current_households.skip(
            self.current_households.len() - self.households_todo.len(),
        )
    }

    /// Where the inspector stands in this state.
    pub open spec fn phase(self) -> Phase {
        if self.households_todo.len() > 0 {
            Phase::Draining
        } else if self.current_building is Some {
            Phase::Selected
        } else {
            Phase::Idle
        }
    }

    /// The state after `building` with occupants `households` is selected.
    pub open spec fn select(self, building: BuildingID, households: Seq<HouseholdID>) -> Self {
        InspectorState {
            current_building: Some(building),
            current_households: households,
            households_todo: Seq::empty(),
            ..self
        }
    }

    /// The message that goes out when a building is selected.
    pub open spec fn select_action(self) -> UiAction {
        UiAction::AttachPanel { user_interface: self.user_interface, inspector: self.id }
    }

    /// What the summary panel has to show in this state.
    pub open spec fn panel(self) -> Option<PanelSummary> {
        match self.current_building {
            Some(building) => Some(
                PanelSummary {
                    building,
                    household_count: self.current_households.len() as usize,
                },
            ),
            None => None,
        }
    }

    /// The state after a draw callback that names `return_to` as the one to
    /// hand the frame back to; `opened` is what the panel reported, and is
    /// read only where a building is selected.
    pub open spec fn draw(self, return_to: UserInterfaceID, opened: bool) -> Self {
        match self.current_building {
            Some(building) => InspectorState {
                current_building: if opened {
                    Some(building)
                } else {
                    None
                },
                households_todo: self.current_households,
                return_ui_to: Some(return_to),
                ..self
            },
            None => InspectorState { return_ui_to: Some(return_to), ..self },
        }
    }

    /// The message that goes out after that draw callback.
    pub open spec fn draw_action(self, return_to: UserInterfaceID) -> UiAction {
        match self.current_building {
            Some(_) => UiAction::ContinueDrawing { inspector: self.id },
            None => UiAction::ReturnUi { to: return_to },
        }
    }

    /// A drawn-callback can be answered: either a household is waiting, or
    /// it is known who gets the frame back.
    pub open spec fn can_step(self) -> bool {
        self.households_todo.len() == 0 ==> self.return_ui_to is Some
    }

    /// The state after one drawn-callback: the next household, if there is
    /// one, has left the queue.
    pub open spec fn step(self) -> Self {
        if self.households_todo.len() > 0 {
            InspectorState { households_todo: self.households_todo.drop_first(), ..self }
        } else {
            self
        }
    }

    /// The message that goes out after one drawn-callback.
    pub open spec fn step_action(self) -> UiAction {
        if self.households_todo.len() > 0 {
            UiAction::InspectHousehold { household: self.households_todo[0], inspector: self.id }
        } else {
            UiAction::ReturnUi { to: self.return_ui_to->0 }
        }
    }

    /// The state after `steps` drawn-callbacks in a row.
    pub open spec fn after(self, steps: nat) -> Self
        decreases steps,
    {
        if steps == 0 {
            self
        } else {
            self.step().after((steps - 1) as nat)
        }
    }

    /// The messages that go out during `steps` drawn-callbacks in a row.
    pub open spec fn trace(self, steps: nat) -> Seq<UiAction>
        decreases steps,
    {
        if steps == 0 {
            Seq::empty()
        } else {
            seq![self.step_action()] + self.step().trace((steps - 1) as nat)
        }
    }

    /// What draining `households` for `inspector` and then yielding to
    /// `return_to` looks like from outside: one delegation per household,
    /// in order, then the hand-back.
    pub open spec fn full_drain(
        inspector: BuildingInspectorID,
        households: Seq<HouseholdID>,
        return_to: UserInterfaceID,
    ) -> Seq<UiAction> {
        Seq::new(
            households.len(),
            |i: int| UiAction::InspectHousehold { household: households[i], inspector },
        ).push(UiAction::ReturnUi { to: return_to })
    }
}

/// Inspector of one building at a time.
pub struct BuildingInspector {
    id: BuildingInspectorID,
    user_interface: UserInterfaceID,
    current_building: Option<BuildingID>,
    current_households: Vec<HouseholdID>,
    households_todo: Vec<HouseholdID>,
    return_ui_to: Option<UserInterfaceID>,
}

impl View for BuildingInspector {
    type V = InspectorState;

    closed spec fn view(&self) -> InspectorState {
        InspectorState {
            id: self.id,
            user_interface: self.user_interface,
            current_building: self.current_building,
            current_households: self.current_households@,
            households_todo: self.households_todo@,
            return_ui_to: self.return_ui_to,
        }
    }
}

impl BuildingInspector {
    /// A fresh inspector for `user_interface`, with nothing selected.
    pub fn spawn(id: BuildingInspectorID, user_interface: UserInterfaceID) -> (inspector:
        BuildingInspector)
        ensures
            inspector@ == InspectorState::idle(id, user_interface),
            inspector@.wf(),
            inspector@.phase() == Phase::Idle,
    {
        BuildingInspector {
            id,
            user_interface,
            current_building: None,
            current_households: Vec::new(),
            households_todo: Vec::new(),
            return_ui_to: None,
        }
    }

    /// Selects `building`, whatever was selected before: its occupants
    /// replace the snapshot, nothing is queued yet, and the user interface
    /// is to attach the panel.
    pub fn set_inspected_building(
        &mut self,
        building: BuildingID,
        households: &Vec<HouseholdID>,
    ) -> (action: UiAction)
        ensures
            final(self)@ == old(self)@.select(building, households@),
            action == old(self)@.select_action(),
            final(self)@.wf(),
            final(self)@.phase() == Phase::Selected,
    {
        self.current_building = Some(building);
        self.current_households = households.clone();
        self.households_todo.clear();
        UiAction::AttachPanel { user_interface: self.user_interface, inspector: self.id }
    }

    /// Where the inspector stands right now.
    pub fn phase(&self) -> (phase: Phase)
        ensures
            phase == self@.phase(),
    {
        if self.households_todo.len() > 0 {
            Phase::Draining
        } else if self.current_building.is_some() {
            Phase::Selected
        } else {
            Phase::Idle
        }
    }

    /// Whether a drawn-callback can be answered in this state: a household
    /// is waiting, or it is known who gets the frame back.
    pub fn can_step(&self) -> (ready: bool)
        ensures
            ready == self@.can_step(),
    {
        self.households_todo.len() > 0 || self.return_ui_to.is_some()
    }

    /// The building under inspection, if any.
    pub fn current_building(&self) -> (building: Option<BuildingID>)
        ensures
            building == self@.current_building,
    {
        self.current_building
    }

    /// What the summary panel has to show right now; `None` where no
    /// building is selected and no panel is drawn.
    pub fn panel(&self) -> (summary: Option<PanelSummary>)
        ensures
            summary == self@.panel(),
    {
        match self.current_building {
            Some(building) => Some(
                PanelSummary { building, household_count: self.current_households.len() },
            ),
            None => None,
        }
    }

    /// The draw callback. Records `return_to`. With a building selected,
    /// every occupant is queued again and the inspector is to be told that
    /// its panel is drawn; the building stays selected only if the panel
    /// reported `opened`. With none selected the frame goes straight back.
    pub fn draw_ui_2d(&mut self, return_to: UserInterfaceID, opened: bool) -> (action: UiAction)
        ensures
            final(self)@ == old(self)@.draw(return_to, opened),
            action == old(self)@.draw_action(return_to),
            old(self)@.wf() ==> final(self)@.wf(),
    {
        self.return_ui_to = Some(return_to);
        let new_building = match self.current_building {
            Some(building) => {
                self.households_todo = self.current_households.clone();
                if opened {
                    Some(building)
                } else {
                    None
                }
            },
            None => None,
        };
        let action = match self.current_building {
            Some(_) => UiAction::ContinueDrawing { inspector: self.id },
            None => UiAction::ReturnUi { to: return_to },
        };
        self.current_building = new_building;
        action
    }

    /// The drawn-callback. Takes the next household off the queue and has it
    /// draw itself; with the queue empty, hands the frame back to whoever
    /// the last draw callback named.
    pub fn ui_drawn(&mut self) -> (action: UiAction)
        requires
            old(self)@.can_step(),
        ensures
            final(self)@ == old(self)@.step(),
            action == old(self)@.step_action(),
            old(self)@.wf() ==> final(self)@.wf(),
    {
        if self.households_todo.len() > 0 {
            let household = self.households_todo.remove(0);
            UiAction::InspectHousehold { household, inspector: self.id }
        } else {
            UiAction::ReturnUi { to: self.return_ui_to.unwrap() }
        }
    }
}

/// Every event of the inspector keeps the queue a tail of the snapshot.
pub proof fn lemma_events_preserve_wf(
    s: InspectorState,
    building: BuildingID,
    households: Seq<HouseholdID>,
    return_to: UserInterfaceID,
    opened: bool,
)
    requires
        s.wf(),
    ensures
        s.select(building, households).wf(),
        s.draw(return_to, opened).wf(),
        s.step().wf(),
{
}

/// Draining a queue of `n` households takes `n + 1` drawn-callbacks: each
/// of them can be answered, the first `n` delegate to the households in
/// queue order, and the last one hands the frame back to the recorded
/// user interface. Afterwards the queue is empty and nothing else has
/// changed, so the inspector is back at `Selected` if a building is still
/// selected and at `Idle` if not. With `n == 0` the only callback hands
/// back at once.
pub proof fn lemma_drain_delegates_each_household_then_yields(
    s: InspectorState,
    return_to: UserInterfaceID,
)
    requires
        s.return_ui_to == Some(return_to),
    ensures
        forall|k: nat| k <= s.households_todo.len() ==> (#[trigger] s.after(k)).can_step(),
        s.trace(s.households_todo.len() + 1) == InspectorState::full_drain(
            s.id,
            s.households_todo,
            return_to,
        ),
        s.after(s.households_todo.len() + 1) == (InspectorState {
            households_todo: Seq::empty(),
            ..s
        }),
        s.after(s.households_todo.len() + 1).phase() == if s.current_building is Some {
            Phase::Selected
        } else {
            Phase::Idle
        },
    decreases s.households_todo.len(),
{
    let n = s.households_todo.len();
    if n == 0 {
        assert(s.households_todo =~= Seq::empty());
        assert(s.step().trace(0) =~= Seq::empty());
        assert(s.trace(1) =~= InspectorState::full_drain(s.id, s.households_todo, return_to));
        assert(s.step().after(0) == s);
        assert forall|k: nat| k <= n implies (#[trigger] s.after(k)).can_step() by {
            assert(s.after(0) == s);
        }
    } else {
        let t = s.step();
        lemma_drain_delegates_each_household_then_yields(t, return_to);
        assert(t.households_todo.len() == n - 1);
        assert(s.trace(n + 1) == seq![s.step_action()] + t.trace(n as nat));
        assert(s.trace(n + 1) =~= InspectorState::full_drain(s.id, s.households_todo, return_to));
        assert(s.after(n + 1) == t.after(n as nat));
        assert forall|k: nat| k <= n implies (#[trigger] s.after(k)).can_step() by {
            if k == 0 {
                assert(s.after(0) == s);
            } else {
                assert(s.after(k) == t.after((k - 1) as nat));
            }
        }
    }
}

/// Selecting building `a` and then building `b`, with no drawn-callback in
/// between, leaves nothing of `a`: the state is the one that selecting `b`
/// alone would have given, and this also holds where a draw callback came
/// between the two selections, apart from the recorded return target. After
/// the next draw callback the households that get drained are exactly those
/// of `b`, in order.
pub proof fn lemma_reselecting_discards_previous_occupants(
    s: InspectorState,
    a: BuildingID,
    a_households: Seq<HouseholdID>,
    b: BuildingID,
    b_households: Seq<HouseholdID>,
    drawn_between: bool,
    earlier_return_to: UserInterfaceID,
    earlier_opened: bool,
    return_to: UserInterfaceID,
    opened: bool,
)
    ensures
        ({
            let with_a = s.select(a, a_households);
            let before_b = if drawn_between {
                with_a.draw(earlier_return_to, earlier_opened)
            } else {
                with_a
            };
            let with_b = before_b.select(b, b_households);
            let drawn = with_b.draw(return_to, opened);
            &&& with_b == (InspectorState {
                return_ui_to: before_b.return_ui_to,
                ..s.select(b, b_households)
            })
            &&& with_b.current_building == Some(b)
            &&& with_b.current_households == b_households
            &&& with_b.households_todo.len() == 0
            &&& drawn.households_todo == b_households
            &&& drawn.trace(b_households.len() + 1) == InspectorState::full_drain(
                s.id,
                b_households,
                return_to,
            )
        }),
{
    let with_a = s.select(a, a_households);
    let before_b = if drawn_between {
        with_a.draw(earlier_return_to, earlier_opened)
    } else {
        with_a
    };
    let drawn = before_b.select(b, b_households).draw(return_to, opened);
    lemma_drain_delegates_each_household_then_yields(drawn, return_to);
}

} // verus!
