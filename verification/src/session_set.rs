//! Sets of exec sessions.

use std::collections::BTreeSet;

use vstd::prelude::*;

verus! {

/// `ids` rises strictly.
pub open spec fn ascending(ids: Seq<i32>) -> bool {
    forall|i: int, j: int| 0 <= i < j < ids.len() ==> ids[i] < ids[j]
}

/// A set of session identities.
pub struct SessionSet {
    ids: BTreeSet<i32>,
}

impl View for SessionSet {
    type V = Set<i32>;

    closed spec fn view(&self) -> Set<i32> {
        self.ids@
    }
}

impl SessionSet {
    /// The empty set.
    pub fn new() -> (set: SessionSet)
        ensures
            set@ == Set::<i32>::empty(),
    {
        SessionSet { ids: BTreeSet::new() }
    }

    /// Whether the set has no member.
    pub fn is_empty(&self) -> (empty: bool)
        ensures
            empty == (self@ == Set::<i32>::empty()),
    {
        let empty: bool = self.ids.is_empty();
        assert(empty ==> self@ =~= Set::<i32>::empty());
        empty
    }

    /// Adds `session_id`.
    pub fn insert(&mut self, session_id: i32)
        ensures
            final(self)@ == old(self)@.insert(session_id),
    {
        broadcast use vstd::laws_cmp::group_laws_cmp;

        self.ids.insert(session_id);
    }

    /// Takes `session_id` out.
    pub fn remove(&mut self, session_id: i32)
        ensures
            final(self)@ == old(self)@.remove(session_id),
    {
        broadcast use vstd::laws_cmp::group_laws_cmp;

        self.ids.remove(&session_id);
    }

    /// The members in ascending order.
    pub fn to_vec(&self) -> (ids: Vec<i32>)
        ensures
            ascending(ids@),
            ids@.to_set() == self@,
    {
        broadcast use vstd::laws_cmp::group_laws_cmp;

        let mut ids: Vec<i32> = Vec::new();
        let ghost members = vstd::std_specs::iter::IteratorSpec::remaining(&self.ids.iter());
        proof {
            assert(vstd::laws_cmp::obeys_cmp::<&i32>());
            assert(vstd::std_specs::btree::increasing_seq(members));
            assert forall|i: int, j: int| 0 <= i < j < members.len() implies *members[i]
                < *members[j] by {
                assert(vstd::std_specs::cmp::OrdSpec::cmp_spec(&members[i], &members[j]) is Less);
            }
        }
        for session_id in it: self.ids.iter()
            invariant
                it.seq() == members,
                ids@ == members.unref().take(it.index()),
        {
            ids.push(*session_id);
        }
        assert(ids@ =~= members.unref());
        ids
    }
}

} // verus!
