//! Identities of the actors this library keeps books about.
//!
//! Every identity wraps the same untyped token, a [`RawID`]. The typed
//! wrappers only say what kind of actor the token refers to, so that a
//! household can never be handed in where a renderer is expected.

use vstd::prelude::*;

verus! {

/// Untyped identity of one actor instance: four plain integers.
#[derive(Clone, Copy, PartialEq, Eq, Structural, Debug, Hash)]
pub struct RawID {
    /// Number of the instance within its class.
    pub instance_id: u32,
    /// Class of the instance.
    pub type_id: u16,
    /// Machine the instance lives on.
    pub machine: u8,
    /// Generation of the instance number, so that numbers can be reused.
    pub version: u8,
}

/// Identity of one building.
#[derive(Clone, Copy, PartialEq, Eq, Structural, Debug, Hash)]
pub struct BuildingID {
    pub raw: RawID,
}

/// Identity of one household living or working in a building.
#[derive(Clone, Copy, PartialEq, Eq, Structural, Debug, Hash)]
pub struct HouseholdID {
    pub raw: RawID,
}

/// Identity of one renderer.
#[derive(Clone, Copy, PartialEq, Eq, Structural, Debug, Hash)]
pub struct RendererID {
    pub raw: RawID,
}

/// Handle of one draw group of the grouping backend.
#[derive(Clone, Copy, PartialEq, Eq, Structural, Debug, Hash)]
pub struct GrouperID {
    pub raw: RawID,
}

/// Identity under which a draw group files one member's geometry.
#[derive(Clone, Copy, PartialEq, Eq, Structural, Debug, Hash)]
pub struct GrouperIndividualID {
    pub raw: RawID,
}

/// Identity of a user interface that hands out draw turns.
#[derive(Clone, Copy, PartialEq, Eq, Structural, Debug, Hash)]
pub struct UserInterfaceID {
    pub raw: RawID,
}

/// Identity of the building inspector.
#[derive(Clone, Copy, PartialEq, Eq, Structural, Debug, Hash)]
pub struct BuildingInspectorID {
    pub raw: RawID,
}

/// Identity of the building renderer.
#[derive(Clone, Copy, PartialEq, Eq, Structural, Debug, Hash)]
pub struct BuildingRendererID {
    pub raw: RawID,
}

impl BuildingID {
    /// The untyped token behind this identity.
    pub fn as_raw(&self) -> (raw: RawID)
        ensures
            raw == self.raw,
    {
        self.raw
    }
}

/// The member identity under which `building` is filed in a draw group:
/// the same raw token, retyped.
pub open spec fn group_member(building: BuildingID) -> GrouperIndividualID {
    GrouperIndividualID { raw: building.raw }
}

impl From<BuildingID> for GrouperIndividualID {
    /// A building takes part in a draw group under its own token: the
    /// member identity carries exactly the building's raw identity.
    fn from(building: BuildingID) -> (member: GrouperIndividualID) {
        GrouperIndividualID { raw: building.as_raw() }
    }
}

impl vstd::std_specs::convert::FromSpecImpl<BuildingID> for GrouperIndividualID {
    open spec fn obeys_from_spec() -> bool {
        true
    }

    open spec fn from_spec(building: BuildingID) -> GrouperIndividualID {
        group_member(building)
    }
}

/// The conversion from buildings to group members loses nothing: two
/// buildings share a member identity only if they are the same building.
pub proof fn lemma_member_identity_is_injective(a: BuildingID, b: BuildingID)
    requires
        group_member(a) == group_member(b),
    ensures
        a == b,
{
}

} // verus!
