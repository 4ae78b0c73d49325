//! Draw groups: which member has which frozen geometry.
//!
//! A draw group batches the geometry of many members under one material.
//! The groups themselves live with the renderer; this module holds the
//! messages that change them, what each message does to a group's
//! membership, and a membership table to file them in.
//!
//! The geometry is never looked into, so its type `G` is left open.

use vstd::prelude::*;
use crate::dict::IdDict;
use crate::ids::{GrouperID, GrouperIndividualID, RawID};

verus! {

/// The four materials a building's geometry is split into.
#[derive(Clone, Copy, PartialEq, Eq, Structural, Debug, Hash)]
pub enum GroupCategory {
    Wall,
    FlatRoof,
    BrickRoof,
    Field,
}

/// The geometry of one building, one part per material.
#[derive(Debug)]
pub struct BuildingGeometry<G> {
    pub wall: G,
    pub flat_roof: G,
    pub brick_roof: G,
    pub field: G,
}

/// Message to a draw group: file `geometry` under `member`, in place of
/// whatever is filed there.
#[derive(Debug)]
pub struct AddFrozen<G> {
    pub grouper: GrouperID,
    pub member: GrouperIndividualID,
    pub geometry: G,
}

/// Message to a draw group: drop what is filed under `member`, if anything.
#[derive(Clone, Copy, PartialEq, Eq, Structural, Debug)]
pub struct Remove {
    pub grouper: GrouperID,
    pub member: GrouperIndividualID,
}

impl<G> BuildingGeometry<G> {
    /// The part made of the material `category`.
    pub open spec fn part(self, category: GroupCategory) -> G {
        match category {
            GroupCategory::Wall => self.wall,
            GroupCategory::FlatRoof => self.flat_roof,
            GroupCategory::BrickRoof => self.brick_roof,
            GroupCategory::Field => self.field,
        }
    }
}

impl<G> AddFrozen<G> {
    /// The membership of the group `grouper` once this message has gone
    /// out, given that it was `members` before. Only the group the message
    /// is addressed to changes.
    pub open spec fn effect(
        self,
        grouper: GrouperID,
        members: Map<GrouperIndividualID, G>,
    ) -> Map<GrouperIndividualID, G> {
        if self.grouper == grouper {
            members.insert(self.member, self.geometry)
        } else {
            members
        }
    }
}

impl Remove {
    /// The membership of the group `grouper` once this message has gone
    /// out, given that it was `members` before. Only the group the message
    /// is addressed to changes.
    pub open spec fn effect<G>(
        self,
        grouper: GrouperID,
        members: Map<GrouperIndividualID, G>,
    ) -> Map<GrouperIndividualID, G> {
        if self.grouper == grouper {
            members.remove(self.member)
        } else {
            members
        }
    }
}

/// The membership of the group `grouper` after `commands` have gone out in
/// order, given that it was `members` before.
pub open spec fn after_adds<G>(
    commands: Seq<AddFrozen<G>>,
    grouper: GrouperID,
    members: Map<GrouperIndividualID, G>,
) -> Map<GrouperIndividualID, G>
    decreases commands.len(),
{
    if commands.len() == 0 {
        members
    } else {
        commands.last().effect(grouper, after_adds(commands.drop_last(), grouper, members))
    }
}

/// The membership of the group `grouper` after `commands` have gone out in
/// order, given that it was `members` before.
pub open spec fn after_removes<G>(
    commands: Seq<Remove>,
    grouper: GrouperID,
    members: Map<GrouperIndividualID, G>,
) -> Map<GrouperIndividualID, G>
    decreases commands.len(),
{
    if commands.len() == 0 {
        members
    } else {
        commands.last().effect(grouper, after_removes(commands.drop_last(), grouper, members))
    }
}

/// Four additions in a row, written out.
pub proof fn lemma_after_four_adds<G>(
    a: AddFrozen<G>,
    b: AddFrozen<G>,
    c: AddFrozen<G>,
    d: AddFrozen<G>,
    grouper: GrouperID,
    members: Map<GrouperIndividualID, G>,
)
    ensures
        after_adds(seq![a, b, c, d], grouper, members) == d.effect(
            grouper,
            c.effect(grouper, b.effect(grouper, a.effect(grouper, members))),
        ),
{
    let s4 = seq![a, b, c, d];
    let s3 = seq![a, b, c];
    let s2 = seq![a, b];
    let s1 = seq![a];
    assert(s4.drop_last() =~= s3);
    assert(s3.drop_last() =~= s2);
    assert(s2.drop_last() =~= s1);
    assert(s1.drop_last() =~= Seq::<AddFrozen<G>>::empty());
    assert(after_adds(s1.drop_last(), grouper, members) == members);
    assert(after_adds(s1, grouper, members) == a.effect(grouper, members));
    assert(after_adds(s2, grouper, members) == b.effect(grouper, a.effect(grouper, members)));
    assert(after_adds(s3, grouper, members) == c.effect(
        grouper,
        b.effect(grouper, a.effect(grouper, members)),
    ));
}

/// Four removals in a row, written out.
pub proof fn lemma_after_four_removes<G>(
    a: Remove,
    b: Remove,
    c: Remove,
    d: Remove,
    grouper: GrouperID,
    members: Map<GrouperIndividualID, G>,
)
    ensures
        after_removes(seq![a, b, c, d], grouper, members) == d.effect(
            grouper,
            c.effect(grouper, b.effect(grouper, a.effect(grouper, members))),
        ),
{
    let s4 = seq![a, b, c, d];
    let s3 = seq![a, b, c];
    let s2 = seq![a, b];
    let s1 = seq![a];
    assert(s4.drop_last() =~= s3);
    assert(s3.drop_last() =~= s2);
    assert(s2.drop_last() =~= s1);
    assert(s1.drop_last() =~= Seq::<Remove>::empty());
    assert(after_removes(s1.drop_last(), grouper, members) == members);
    assert(after_removes(s1, grouper, members) == a.effect(grouper, members));
    assert(after_removes(s2, grouper, members) == b.effect(grouper, a.effect(grouper, members)));
    assert(after_removes(s3, grouper, members) == c.effect(
        grouper,
        b.effect(grouper, a.effect(grouper, members)),
    ));
}

/// The membership of one draw group: at most one geometry per member.
pub struct Group<G> {
    grouper: GrouperID,
    members: IdDict<G>,
}

/// The membership that a dictionary keyed by raw identities stands for.
pub closed spec fn members_of<G>(filed: Map<RawID, G>) -> Map<GrouperIndividualID, G> {
    Map::new(
        |member: GrouperIndividualID| filed.contains_key(member.raw),
        |member: GrouperIndividualID| filed[member.raw],
    )
}

proof fn lemma_members_of_insert<G>(filed: Map<RawID, G>, member: GrouperIndividualID, geometry: G)
    ensures
        members_of(filed.insert(member.raw, geometry)) == members_of(filed).insert(
            member,
            geometry,
        ),
{
    assert(members_of(filed.insert(member.raw, geometry)) =~= members_of(filed).insert(
        member,
        geometry,
    ));
}

proof fn lemma_members_of_remove<G>(filed: Map<RawID, G>, member: GrouperIndividualID)
    ensures
        members_of(filed.remove(member.raw)) == members_of(filed).remove(member),
{
    assert(members_of(filed.remove(member.raw)) =~= members_of(filed).remove(member));
}

proof fn lemma_members_of_len<G>(filed: Map<RawID, G>)
    requires
        filed.dom().finite(),
    ensures
        members_of(filed).dom().finite(),
        members_of(filed).len() == filed.len(),
    decreases filed.len(),
{
    if filed.len() == 0 {
        assert(filed.dom() =~= Set::<RawID>::empty());
        assert(members_of(filed).dom() =~= Set::<GrouperIndividualID>::empty());
    } else {
        let raw = filed.dom().choose();
        let member = GrouperIndividualID { raw };
        lemma_members_of_remove(filed, member);
        lemma_members_of_len(filed.remove(raw));
        assert(members_of(filed).dom() =~= members_of(filed.remove(raw)).dom().insert(member));
    }
}

impl<G> View for Group<G> {
    type V = Map<GrouperIndividualID, G>;

    closed spec fn view(&self) -> Map<GrouperIndividualID, G> {
        members_of(self.members@)
    }
}

impl<G> Group<G> {
    /// The handle under which this group is addressed.
    pub closed spec fn handle(&self) -> GrouperID {
        self.grouper
    }

    /// An empty group addressed as `grouper`.
    pub fn new(grouper: GrouperID) -> (group: Self)
        ensures
            group.handle() == grouper,
            group@ == Map::<GrouperIndividualID, G>::empty(),
    {
        let group = Group { grouper, members: IdDict::new() };
        proof {
            assert(group@ =~= Map::<GrouperIndividualID, G>::empty());
        }
        group
    }

    /// The handle under which this group is addressed.
    pub fn grouper(&self) -> (grouper: GrouperID)
        ensures
            grouper == self.handle(),
    {
        self.grouper
    }

    /// Files `geometry` under `member`; what was filed there before is
    /// replaced, never kept beside it.
    pub fn add_frozen(&mut self, member: GrouperIndividualID, geometry: G)
        ensures
            final(self).handle() == old(self).handle(),
            final(self)@ == old(self)@.insert(member, geometry),
    {
        proof {
            lemma_members_of_insert(self.members@, member, geometry);
        }
        let _ = self.members.insert(member.raw, geometry);
    }

    /// Drops what is filed under `member`; does nothing where nothing is.
    pub fn remove(&mut self, member: GrouperIndividualID)
        ensures
            final(self).handle() == old(self).handle(),
            final(self)@ == old(self)@.remove(member),
    {
        proof {
            lemma_members_of_remove(self.members@, member);
        }
        let _ = self.members.remove(member.raw);
    }

    /// Takes in an addition: carries it out if it is addressed to this
    /// group and lets it pass otherwise.
    pub fn receive_add(&mut self, command: AddFrozen<G>)
        ensures
            final(self).handle() == old(self).handle(),
            final(self)@ == command.effect(old(self).handle(), old(self)@),
    {
        if command.grouper == self.grouper {
            self.add_frozen(command.member, command.geometry);
        }
    }

    /// Takes in a removal: carries it out if it is addressed to this group
    /// and lets it pass otherwise.
    pub fn receive_remove(&mut self, command: Remove)
        ensures
            final(self).handle() == old(self).handle(),
            final(self)@ == command.effect(old(self).handle(), old(self)@),
    {
        if command.grouper == self.grouper {
            self.remove(command.member);
        }
    }

    /// Whether anything is filed under `member`.
    pub fn contains(&self, member: GrouperIndividualID) -> (found: bool)
        ensures
            found == self@.contains_key(member),
    {
        self.members.contains_key(member.raw)
    }

    /// What is filed under `member`, if anything is.
    pub fn get(&self, member: GrouperIndividualID) -> (found: Option<&G>)
        ensures
            match found {
                Some(geometry) => self@.contains_key(member) && *geometry == self@[member],
                None => !self@.contains_key(member),
            },
    {
        self.members.get(member.raw)
    }

    /// How many members have geometry filed in this group.
    pub fn len(&self) -> (count: usize)
        ensures
            self@.dom().finite(),
            count == self@.len(),
    {
        let count = self.members.len();
        proof {
            lemma_members_of_len(self.members@);
        }
        count
    }
}

} // verus!
