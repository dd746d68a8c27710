//! The table of open host resources. Each resource is reached through an
//! integer handle (a rid) that is issued once, from a counter, and never
//! handed out again, so a stale handle can only fail to resolve.
use std::collections::HashMap;
use vstd::prelude::*;

use crate::error::OpError;

verus! {

broadcast use vstd::std_specs::hash::group_hash_axioms;

/// The kinds of resource that the table holds.
pub enum Resource<F> {
    /// An open file, owned by the table until it is closed.
    FsFile(F),
}

/// What a table holds, seen mathematically: the live resources by handle, and
/// the handle that the next insertion receives.
pub struct TableModel<R> {
    pub entries: Map<u32, R>,
    pub next_rid: nat,
}

impl<R> TableModel<R> {
    /// Every live handle was issued before the counter reached its value.
    pub open spec fn wf(self) -> bool {
        forall|k: u32| #[trigger] self.entries.contains_key(k) ==> (k as nat) < self.next_rid
    }

    /// The model after inserting `r`: it is stored under the counter's value,
    /// and the counter moves on.
    pub open spec fn added(self, r: R) -> TableModel<R> {
        TableModel { entries: self.entries.insert(self.next_rid as u32, r), next_rid: self.next_rid + 1 }
    }

    /// The model after closing `rid`: the entry is gone; the counter stays.
    pub open spec fn closed(self, rid: u32) -> TableModel<R> {
        TableModel { entries: self.entries.remove(rid), next_rid: self.next_rid }
    }
}

/// Open resources, addressed by handle.
pub struct ResourceTable<R> {
    entries: HashMap<u32, R>,
    next_rid: u32,
}

impl<R> View for ResourceTable<R> {
    type V = TableModel<R>;

    closed spec fn view(&self) -> TableModel<R> {
        TableModel { entries: self.entries@, next_rid: self.next_rid as nat }
    }
}

impl<R> ResourceTable<R> {
    /// The table is consistent: no live handle is at or above the counter.
    pub open spec fn wf(&self) -> bool {
        self@.wf()
    }

    /// An empty table whose first handle is 0.
    pub fn new() -> (t: Self)
        ensures
            t.wf(),
            t@.entries == Map::<u32, R>::empty(),
            t@.next_rid == 0,
    {
        ResourceTable { entries: HashMap::new(), next_rid: 0 }
    }

    /// Whether the handle counter has run out, so that `add` cannot issue a
    /// fresh handle.
    pub fn is_exhausted(&self) -> (b: bool)
        ensures
            b == (self@.next_rid >= u32::MAX as nat),
    {
        self.next_rid == u32::MAX
    }

    /// The number of live resources.
    pub fn len(&self) -> (n: usize)
        ensures
            n == self@.entries.len(),
    {
        self.entries.len()
    }

    /// Whether `rid` names a live resource.
    pub fn contains(&self, rid: u32) -> (b: bool)
        ensures
            b == self@.entries.contains_key(rid),
    {
        self.entries.contains_key(&rid)
    }

    /// Takes ownership of `r` and returns the fresh handle it is stored under.
    pub fn add(&mut self, r: R) -> (rid: u32)
        requires
            old(self).wf(),
            old(self)@.next_rid < u32::MAX as nat,
        ensures
            final(self).wf(),
            rid as nat == old(self)@.next_rid,
            !old(self)@.entries.contains_key(rid),
            final(self)@ == old(self)@.added(r),
    {
        let rid = self.next_rid;
        self.entries.insert(rid, r);
        self.next_rid = rid + 1;
        assert forall|k: u32| #[trigger] self@.entries.contains_key(k) implies (k as nat)
            < self@.next_rid by {
            if k != rid {
                assert(old(self)@.entries.contains_key(k));
            }
        }
        rid
    }

    /// The resource stored under `rid`, left in place; `BadResource` when the
    /// handle is unknown or already closed.
    pub fn get(&self, rid: u32) -> (res: Result<&R, OpError>)
        ensures
            self@.entries.contains_key(rid) <==> res is Ok,
            res matches Ok(r) ==> *r == self@.entries[rid],
            res matches Err(e) ==> e == OpError::BadResource,
    {
        match self.entries.get(&rid) {
            Some(r) => Ok(r),
            None => Err(OpError::BadResource),
        }
    }

    /// Removes the resource stored under `rid` and drops it, which releases
    /// what it holds; `BadResource`, with the table unchanged, when the handle
    /// is unknown or already closed.
    pub fn close(&mut self, rid: u32) -> (res: Result<(), OpError>)
        requires
            old(self).wf(),
        ensures
            final(self).wf(),
            old(self)@.entries.contains_key(rid) <==> res is Ok,
            final(self)@ == old(self)@.closed(rid),
            res matches Err(e) ==> e == OpError::BadResource,
    {
        match self.entries.remove(&rid) {
            Some(_) => Ok(()),
            None => {
                assert(self@.entries =~= old(self)@.entries.remove(rid));
                Err(OpError::BadResource)
            },
        }
    }
}

/// Inserting keeps the table consistent.
pub proof fn lemma_added_wf<R>(t: TableModel<R>, r: R)
    requires
        t.wf(),
        t.next_rid < u32::MAX as nat,
    ensures
        t.added(r).wf(),
{
    assert forall|k: u32| #[trigger] t.added(r).entries.contains_key(k) implies (k as nat)
        < t.added(r).next_rid by {
        if k != t.next_rid as u32 {
            assert(t.entries.contains_key(k));
        }
    }
}

/// The life of a handle: the handle an insertion issues was not live before;
/// right after the insertion it resolves to the inserted resource; once it is
/// closed it no longer resolves, so looking it up or closing it again fails.
pub proof fn lemma_handle_lifecycle<R>(t: TableModel<R>, r: R)
    requires
        t.wf(),
        t.next_rid < u32::MAX as nat,
    ensures
        !t.entries.contains_key(t.next_rid as u32),
        t.added(r).entries.contains_key(t.next_rid as u32),
        t.added(r).entries[t.next_rid as u32] == r,
        !t.added(r).closed(t.next_rid as u32).entries.contains_key(t.next_rid as u32),
{
}

/// A closed handle is never issued again: no later insertion makes it live.
pub proof fn lemma_closed_handle_stays_closed<R>(t: TableModel<R>, rid: u32, r: R)
    requires
        t.wf(),
        t.next_rid < u32::MAX as nat,
        (rid as nat) < t.next_rid,
        !t.entries.contains_key(rid),
    ensures
        !t.added(r).entries.contains_key(rid),
{
}

/// Opening a resource and closing its handle again leaves the table holding
/// exactly what it held before; only the counter has moved on.
pub proof fn lemma_open_close_round_trip<R>(t: TableModel<R>, r: R)
    requires
        t.wf(),
        t.next_rid < u32::MAX as nat,
    ensures
        t.added(r).closed(t.next_rid as u32).entries == t.entries,
        t.added(r).closed(t.next_rid as u32).next_rid == t.next_rid + 1,
{
    assert(t.added(r).closed(t.next_rid as u32).entries =~= t.entries);
}

/// Two insertions, whatever their order, receive distinct handles, and both
/// stay live side by side.
pub proof fn lemma_successive_handles_distinct<R>(t: TableModel<R>, r1: R, r2: R)
    requires
        t.wf(),
        t.next_rid + 1 < u32::MAX as nat,
    ensures
        t.next_rid as u32 != t.added(r1).next_rid as u32,
        t.added(r1).added(r2).entries.contains_key(t.next_rid as u32),
        t.added(r1).added(r2).entries.contains_key(t.added(r1).next_rid as u32),
        t.added(r1).added(r2).entries[t.next_rid as u32] == r1,
        t.added(r1).added(r2).entries[t.added(r1).next_rid as u32] == r2,
{
}

} // verus!
