//! The log of the accesses that an execution made. The log is a set: an
//! access recorded twice is held once.

use vstd::prelude::*;
use dashmap::DashSet;
use crate::data_access::{Access, AccessView, access_views};

verus! {

/// The accesses that the set holds, by their views.
pub uninterp spec fn recorded(set: &DashSet<Access>) -> Set<AccessView>;

/// The set that holds no access.
pub open spec fn no_accesses() -> Set<AccessView> {
    Set::empty()
}

/// `DashSet::new`: an empty set.
#[verifier::external_body]
fn access_set_new() -> (r: DashSet<Access>)
    ensures
        recorded(&r) == no_accesses(),
{
    DashSet::new()
}

/// `DashSet::insert`: the set then holds the access; `true` where it did
/// not hold it before.
#[verifier::external_body]
fn access_set_insert(set: &mut DashSet<Access>, access: Access) -> (fresh: bool)
    ensures
        recorded(final(set)) == recorded(old(set)).insert(access@),
        fresh == !recorded(old(set)).contains(access@),
{
    set.insert(access)
}

/// `DashSet::contains`: whether the set holds the access.
#[verifier::external_body]
fn access_set_contains(set: &DashSet<Access>, access: &Access) -> (r: bool)
    ensures
        r == recorded(set).contains(access@),
{
    set.contains(access)
}

/// `DashSet::iter`: a copy of each access that the set holds, once each, in
/// the order in which the set is walked, which is not fixed.
#[verifier::external_body]
fn access_set_items(set: &DashSet<Access>) -> (r: Vec<Access>)
    ensures
        access_views(r@).no_duplicates(),
        access_views(r@).to_set() == recorded(set),
{
    set.iter().map(|access| access.key().clone()).collect()
}

/// `DashSet::clear`: the set then holds nothing.
#[verifier::external_body]
fn access_set_clear(set: &mut DashSet<Access>)
    ensures
        recorded(final(set)) == no_accesses(),
{
    set.clear()
}

/// Recording an access that is already held changes nothing, so an access
/// recorded twice is held once.
pub proof fn law_record_twice_is_once(held: Set<AccessView>, access: AccessView)
    ensures
        held.insert(access).insert(access) == held.insert(access),
        no_accesses().insert(access).insert(access).len() == 1,
{
    assert(held.insert(access).insert(access) =~= held.insert(access));
    assert(no_accesses().insert(access).insert(access) =~= set![access]);
}

/// The accesses observed during one execution session.
pub struct AccessRecorder {
    accesses: DashSet<Access>,
}

impl View for AccessRecorder {
    type V = Set<AccessView>;

    closed spec fn view(&self) -> Set<AccessView> {
        recorded(&self.accesses)
    }
}

impl AccessRecorder {
    /// A recorder that holds nothing.
    pub fn new() -> (recorder: AccessRecorder)
        ensures
            recorder@ == no_accesses(),
    {
        AccessRecorder { accesses: access_set_new() }
    }

    /// Records the access. `true` where it was not held before.
    pub fn record(&mut self, access: Access) -> (fresh: bool)
        ensures
            final(self)@ == old(self)@.insert(access@),
            fresh == !old(self)@.contains(access@),
    {
        access_set_insert(&mut self.accesses, access)
    }

    /// Whether the access is held.
    pub fn contains(&self, access: &Access) -> (r: bool)
        ensures
            r == self@.contains(access@),
    {
        access_set_contains(&self.accesses, access)
    }

    /// A copy of the accesses held, each once, in no fixed order.
    pub fn get_accesses(&self) -> (r: Vec<Access>)
        ensures
            access_views(r@).no_duplicates(),
            access_views(r@).to_set() == self@,
            self@.finite(),
            r.len() == self@.len(),
    {
        let items = access_set_items(&self.accesses);
        proof {
            access_views(items@).unique_seq_to_set();
            vstd::seq_lib::seq_to_set_is_finite(access_views(items@));
        }
        items
    }

    /// Removes and returns all accesses held, each once, in no fixed order.
    pub fn drain(&mut self) -> (r: Vec<Access>)
        ensures
            final(self)@ == no_accesses(),
            access_views(r@).no_duplicates(),
            access_views(r@).to_set() == old(self)@,
            old(self)@.finite(),
            r.len() == old(self)@.len(),
    {
        let items = self.get_accesses();
        access_set_clear(&mut self.accesses);
        items
    }
}

impl Default for AccessRecorder {
    fn default() -> (recorder: Self)
        ensures
            recorder@ == no_accesses(),
    {
        AccessRecorder::new()
    }
}

} // verus!
