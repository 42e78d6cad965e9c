//! The clonable handle that marshals work onto the UI thread, and the ids that
//! tell the hosts owning such handles apart.
use vstd::prelude::*;
use crate::dispatcher::{DispatchPriority, SendDispatcher};

verus! {

/// The source of marshaller ids: the first id handed out is 1, and each
/// following id is the one before plus one, wrapping around at `u64::MAX`.
pub struct MarshallerIds {
    next: u64,
}

/// The id handed out after `id`.
pub open spec fn id_after(id: u64) -> u64 {
    if id == u64::MAX {
        0
    } else {
        (id + 1) as u64
    }
}

impl MarshallerIds {
    /// The id that the next marshaller gets.
    pub closed spec fn next_id(&self) -> u64 {
        self.next
    }

    /// The id a source that has handed out none gives first.
    pub open spec fn fresh_next_id() -> u64 {
        1
    }

    /// A source that has handed out no id yet.
    pub fn new() -> (ids: Self)
        ensures
            ids.next_id() == Self::fresh_next_id(),
    {
        MarshallerIds { next: 1 }
    }

    /// Hands out the next id.
    pub fn allocate(&mut self) -> (id: u64)
        ensures
            id == old(self).next_id(),
            final(self).next_id() == id_after(id),
    {
        let id = self.next;
        self.next = self.next.wrapping_add(1);
        id
    }
}

/// The id handed out `i` allocations after the one that handed out `first`.
pub open spec fn nth_id(first: u64, i: nat) -> u64
    decreases i,
{
    if i == 0 {
        first
    } else {
        id_after(nth_id(first, (i - 1) as nat))
    }
}

/// The `i`-th id handed out after `first` is `first + i` wrapped to 64 bits.
pub proof fn lemma_nth_id_wraps(first: u64, i: nat)
    ensures
        nth_id(first, i) == (first + i) % 0x1_0000_0000_0000_0000,
    decreases i,
{
    if i > 0 {
        lemma_nth_id_wraps(first, (i - 1) as nat);
    }
}

/// Ids handed out one after another never repeat before 2^64 of them have
/// been handed out.
pub proof fn lemma_ids_distinct(first: u64, i: nat, j: nat)
    requires
        i < j < 0x1_0000_0000_0000_0000,
    ensures
        nth_id(first, i) != nth_id(first, j),
{
    lemma_nth_id_wraps(first, i);
    lemma_nth_id_wraps(first, j);
}

/// Marshallers created one after another from a fresh source get ids 1, 2,
/// 3, ...: while fewer than `u64::MAX` have been created, each id is at least
/// 1 and greater than every id handed out before it.
pub proof fn lemma_ids_increase_from_fresh(i: nat, j: nat)
    requires
        i < j < u64::MAX,
    ensures
        1 <= nth_id(MarshallerIds::fresh_next_id(), i),
        nth_id(MarshallerIds::fresh_next_id(), i) < nth_id(MarshallerIds::fresh_next_id(), j),
{
    lemma_nth_id_wraps(1, i);
    lemma_nth_id_wraps(1, j);
}

/// Of two marshallers created one after the other from the same source, the
/// second gets the id after the first's ([`UiMarshaller::new`]); unless the
/// first got `u64::MAX`, that id is greater, and never 0.
pub proof fn lemma_next_marshaller_id_greater(first: u64)
    requires
        first < u64::MAX,
    ensures
        id_after(first) == first + 1,
        id_after(first) > first,
        id_after(first) >= 1,
{
}

/// A clonable handle to the UI thread's dispatcher, tagged with the id of the
/// host that owns it.
pub struct UiMarshaller<D> {
    inner: D,
    id: u64,
}

impl<D: Clone> Clone for UiMarshaller<D> {
    /// A clone shares the owning host's id and holds a clone of the dispatcher.
    fn clone(&self) -> (c: Self)
        ensures
            c.spec_id() == self.spec_id(),
            cloned(self.dispatcher(), c.dispatcher()),
    {
        UiMarshaller { inner: self.inner.clone(), id: self.id }
    }
}

impl<D> UiMarshaller<D> {
    /// The dispatcher that work is handed to.
    pub closed spec fn dispatcher(&self) -> D {
        self.inner
    }

    /// The owning host's id.
    pub closed spec fn spec_id(&self) -> u64 {
        self.id
    }

    /// A marshaller over `inner` that takes the next id of `ids`.
    pub fn new(inner: D, ids: &mut MarshallerIds) -> (m: Self)
        ensures
            m.dispatcher() == inner,
            m.spec_id() == old(ids).next_id(),
            final(ids).next_id() == id_after(old(ids).next_id()),
    {
        let id = ids.allocate();
        UiMarshaller { inner, id }
    }

    /// The dispatcher that work is handed to.
    pub fn target(&self) -> (d: &D)
        ensures
            *d == self.dispatcher(),
    {
        &self.inner
    }

    /// The owning host's id.
    pub fn id(&self) -> (id: u64)
        ensures
            id == self.spec_id(),
    {
        self.id
    }

    /// Schedules `f` on the UI thread at normal priority; `true` when the
    /// dispatcher takes it.
    pub fn dispatch<J>(&mut self, f: J) -> (accepted: bool) where D: SendDispatcher<J>
        ensures
            accepted == old(self).dispatcher().accepts(DispatchPriority::Normal),
            final(self).spec_id() == old(self).spec_id(),
            accepted ==> final(self).dispatcher().queued(DispatchPriority::Normal) == old(
                self,
            ).dispatcher().queued(DispatchPriority::Normal).push(f),
            !accepted ==> final(self).dispatcher().queued(DispatchPriority::Normal) == old(
                self,
            ).dispatcher().queued(DispatchPriority::Normal),
            final(self).dispatcher().queued(DispatchPriority::Low) == old(
                self,
            ).dispatcher().queued(DispatchPriority::Low),
    {
        self.inner.enqueue_send(DispatchPriority::Normal, f)
    }

    /// Schedules `f` on the UI thread at low priority; `true` when the
    /// dispatcher takes it.
    pub fn dispatch_low<J>(&mut self, f: J) -> (accepted: bool) where D: SendDispatcher<J>
        ensures
            accepted == old(self).dispatcher().accepts(DispatchPriority::Low),
            final(self).spec_id() == old(self).spec_id(),
            accepted ==> final(self).dispatcher().queued(DispatchPriority::Low) == old(
                self,
            ).dispatcher().queued(DispatchPriority::Low).push(f),
            !accepted ==> final(self).dispatcher().queued(DispatchPriority::Low) == old(
                self,
            ).dispatcher().queued(DispatchPriority::Low),
            final(self).dispatcher().queued(DispatchPriority::Normal) == old(
                self,
            ).dispatcher().queued(DispatchPriority::Normal),
    {
        self.inner.enqueue_send(DispatchPriority::Low, f)
    }
}

} // verus!
