//! Handles: opaque keys under which pipelines are kept on this side of the
//! boundary.
//!
//! A [`HandleTable`] owns every pipeline that was created and not yet
//! destroyed. The caller holds only the key. Zero is the null handle; a key
//! is issued once and never again, so a handle that was destroyed stays dead
//! and a second release of it is told apart from the first.
//!
//! [`Registry`] is the table seen from outside: how many handles were issued
//! and which are live. The laws at the end of the module speak of every
//! sequence of create and destroy calls.

use vstd::prelude::*;

verus! {

/// The null handle.
pub const NULL_HANDLE: usize = 0;

/// A create or destroy call, as far as the pairing of handles depends on it.
pub enum Call {
    /// A create call; `built` says whether the pipeline was constructed.
    Create { built: bool },
    /// A destroy call on `handle`.
    Destroy { handle: usize },
}

/// The handles of a table: how many were issued, and which are live.
pub struct Registry {
    pub issued: nat,
    pub live: Set<usize>,
}

impl Registry {
    /// The registry of a table on which nothing was called yet.
    pub open spec fn empty() -> Registry {
        Registry { issued: 0, live: Set::empty() }
    }

    /// Whether a create call with this outcome of the construction issues a
    /// handle: the pipeline was built and a key is left.
    pub open spec fn issues(self, built: bool) -> bool {
        built && self.issued < usize::MAX
    }

    /// Whether a call releases a pipeline: it destroys a live handle.
    pub open spec fn releases(self, call: Call) -> bool {
        match call {
            Call::Create { .. } => false,
            Call::Destroy { handle } => self.live.contains(handle),
        }
    }

    /// The handle that a create call returns.
    pub open spec fn next_handle(self, built: bool) -> usize {
        if self.issues(built) {
            (self.issued + 1) as usize
        } else {
            NULL_HANDLE
        }
    }

    /// The registry after a call.
    pub open spec fn step(self, call: Call) -> Registry {
        match call {
            Call::Create { built } => if self.issues(built) {
                Registry {
                    issued: self.issued + 1,
                    live: self.live.insert(self.next_handle(built)),
                }
            } else {
                self
            },
            Call::Destroy { handle } => Registry {
                issued: self.issued,
                live: self.live.remove(handle),
            },
        }
    }

    /// What holds of every registry that calls can reach: the live handles
    /// are among the issued ones, and null is not one of them.
    pub open spec fn consistent(self) -> bool {
        &&& self.issued <= usize::MAX
        &&& self.live.finite()
        &&& forall|handle: usize| self.live.contains(handle) ==> 0 < handle <= self.issued
    }
}

/// The registry after a sequence of calls on a new table.
pub open spec fn run(calls: Seq<Call>) -> Registry
    decreases calls.len(),
{
    if calls.len() == 0 {
        Registry::empty()
    } else {
        run(calls.drop_last()).step(calls.last())
    }
}

/// The number of create calls in the sequence that issued a handle.
pub open spec fn creations(calls: Seq<Call>) -> nat
    decreases calls.len(),
{
    if calls.len() == 0 {
        0
    } else {
        let before = run(calls.drop_last());
        let issued: nat = match calls.last() {
            Call::Create { built } => if before.issues(built) {
                1
            } else {
                0
            },
            Call::Destroy { .. } => 0,
        };
        creations(calls.drop_last()) + issued
    }
}

/// The number of destroy calls in the sequence that released a pipeline.
pub open spec fn releases(calls: Seq<Call>) -> nat
    decreases calls.len(),
{
    if calls.len() == 0 {
        0
    } else {
        let released: nat = if run(calls.drop_last()).releases(calls.last()) {
            1
        } else {
            0
        };
        releases(calls.drop_last()) + released
    }
}

/// The number of destroy calls in the sequence that released the pipeline
/// behind `handle`.
pub open spec fn releases_of(calls: Seq<Call>, handle: usize) -> nat
    decreases calls.len(),
{
    if calls.len() == 0 {
        0
    } else {
        let released: nat = if calls.last() == (Call::Destroy { handle }) && run(
            calls.drop_last(),
        ).live.contains(handle) {
            1
        } else {
            0
        };
        releases_of(calls.drop_last(), handle) + released
    }
}

/// A table of pipelines behind handles.
#[derive(Debug)]
pub struct HandleTable<P> {
    slots: Vec<Option<P>>,
}

/// The keys of the occupied slots: slot `i` is behind handle `i + 1`.
spec fn occupied_keys<P>(slots: Seq<Option<P>>) -> Set<usize> {
    Set::new(|handle: usize| 0 < handle <= slots.len() && slots[handle - 1] is Some)
}

/// The number of occupied slots.
spec fn occupied<P>(slots: Seq<Option<P>>) -> nat
    decreases slots.len(),
{
    if slots.len() == 0 {
        0
    } else {
        occupied(slots.drop_last()) + if slots.last() is Some {
            1nat
        } else {
            0nat
        }
    }
}

proof fn lemma_occupied_keys<P>(slots: Seq<Option<P>>)
    requires
        slots.len() <= usize::MAX,
    ensures
        occupied_keys(slots).finite(),
        occupied_keys(slots).len() == occupied(slots),
    decreases slots.len(),
{
    if slots.len() == 0 {
        assert(occupied_keys(slots) =~= Set::<usize>::empty());
    } else {
        let front = slots.drop_last();
        let key = slots.len() as usize;
        lemma_occupied_keys(front);
        if slots.last() is Some {
            assert(occupied_keys(slots) =~= occupied_keys(front).insert(key));
        } else {
            assert(occupied_keys(slots) =~= occupied_keys(front));
        }
    }
}

impl<P> View for HandleTable<P> {
    type V = Map<usize, P>;

    /// The live handles and the pipeline behind each.
    closed spec fn view(&self) -> Map<usize, P> {
        Map::new(
            |handle: usize| occupied_keys(self.slots@).contains(handle),
            |handle: usize| self.slots@[handle - 1]->0,
        )
    }
}

impl<P> HandleTable<P> {
    /// The number of handles issued so far.
    pub closed spec fn issued(&self) -> nat {
        self.slots@.len()
    }

    /// The table as a registry of handles.
    pub open spec fn registry(&self) -> Registry {
        Registry { issued: self.issued(), live: self@.dom() }
    }

    /// The registry of a table is one that calls can reach.
    pub proof fn lemma_consistent(&self)
        ensures
            self.registry().consistent(),
            !self@.contains_key(NULL_HANDLE),
    {
        assert(self.slots@.len() == self.slots.len());
        lemma_occupied_keys(self.slots@);
        assert(self@.dom() =~= occupied_keys(self.slots@));
    }

    /// A table without handles.
    pub fn new() -> (table: HandleTable<P>)
        ensures
            table.registry() == Registry::empty(),
            table@ == Map::<usize, P>::empty(),
    {
        HandleTable { slots: Vec::new() }
    }

    /// What a create call does to the table and what it returns, `built`
    /// being the pipeline where its construction succeeded. A pipeline that
    /// was built is behind the handle returned, which is new; without one, and
    /// in a table that has no key left, the table stays as it was and null is
    /// returned.
    pub open spec fn created(&self, after: &Self, built: Option<P>, handle: usize) -> bool {
        &&& handle == self.registry().next_handle(built is Some)
        &&& after.registry() == self.registry().step(Call::Create { built: built is Some })
        &&& handle != NULL_HANDLE ==> after@ == self@.insert(handle, built->0)
        &&& handle == NULL_HANDLE ==> after@ == self@
    }

    /// What a destroy call does to the table and what it returns: the
    /// pipeline behind a live handle leaves the table, and any other handle
    /// changes nothing.
    pub open spec fn destroyed(&self, after: &Self, handle: usize, released: bool) -> bool {
        &&& released == self.registry().releases(Call::Destroy { handle })
        &&& after.registry() == self.registry().step(Call::Destroy { handle })
        &&& after@ == self@.remove(handle)
    }

    /// Takes the outcome of a construction. A pipeline that was built moves
    /// into the table and its new handle is returned; a failed construction
    /// leaves the table as it was and returns null, and so does a table that
    /// has no key left.
    pub fn create(&mut self, built: Option<P>) -> (handle: usize)
        ensures
            old(self).created(final(self), built, handle),
    {
        match built {
            None => NULL_HANDLE,
            Some(pipeline) => {
                if self.slots.len() == usize::MAX {
                    return NULL_HANDLE;
                }
                self.slots.push(Some(pipeline));
                let handle: usize = self.slots.len();
                proof {
                    assert(self@ =~= old(self)@.insert(handle, pipeline));
                }
                handle
            },
        }
    }

    /// Destroys the pipeline behind a handle and says whether there was one.
    /// Null, a handle that was never issued and a handle that was destroyed
    /// before release nothing.
    pub fn destroy(&mut self, handle: usize) -> (released: bool)
        ensures
            old(self).destroyed(final(self), handle, released),
    {
        if handle == NULL_HANDLE || handle > self.slots.len() {
            proof {
                assert(self@ =~= old(self)@.remove(handle));
            }
            return false;
        }
        let released = self.slots[handle - 1].is_some();
        self.slots.set(handle - 1, None);
        proof {
            assert(self@ =~= old(self)@.remove(handle));
        }
        released
    }

    /// The pipeline behind a handle, for the duration of one call.
    pub fn get(&self, handle: usize) -> (pipeline: Option<&P>)
        ensures
            pipeline is Some <==> self@.contains_key(handle),
            pipeline is Some ==> *pipeline->0 == self@[handle],
    {
        if handle == NULL_HANDLE || handle > self.slots.len() {
            return None;
        }
        self.slots[handle - 1].as_ref()
    }

    /// Runs `operation` on the pipeline behind a handle. A handle that is not
    /// live gives `None` and the operation is not run.
    pub fn with<R, F: FnOnce(&P) -> R>(&self, handle: usize, operation: F) -> (outcome: Option<R>)
        requires
            forall|pipeline: &P| call_requires(operation, (pipeline,)),
        ensures
            outcome is Some <==> self@.contains_key(handle),
            outcome is Some ==> call_ensures(operation, (&self@[handle],), outcome->0),
    {
        match self.get(handle) {
            None => None,
            Some(pipeline) => Some(operation(pipeline)),
        }
    }

    /// Whether a handle is live.
    pub fn is_live(&self, handle: usize) -> (live: bool)
        ensures
            live == self@.contains_key(handle),
    {
        self.get(handle).is_some()
    }

    /// The number of handles issued so far.
    pub fn issued_count(&self) -> (issued: usize)
        ensures
            issued == self.issued(),
    {
        self.slots.len()
    }

    /// The number of live handles.
    pub fn live_count(&self) -> (live: usize)
        ensures
            live == self@.dom().len(),
            self@.dom().finite(),
    {
        let mut live: usize = 0;
        let mut i: usize = 0;
        while i < self.slots.len()
            invariant
                i <= self.slots.len(),
                live == occupied(self.slots@.take(i as int)),
                live <= i,
            decreases self.slots.len() - i,
        {
            proof {
                assert(self.slots@.take(i + 1).drop_last() =~= self.slots@.take(i as int));
            }
            if self.slots[i].is_some() {
                live += 1;
            }
            i += 1;
        }
        proof {
            assert(self.slots@.take(i as int) =~= self.slots@);
            lemma_occupied_keys(self.slots@);
            assert(self@.dom() =~= occupied_keys(self.slots@));
        }
        live
    }
}

/// Every registry that a sequence of calls reaches is consistent, and it has
/// issued one handle for each creation.
pub proof fn lemma_run_consistent(calls: Seq<Call>)
    ensures
        run(calls).consistent(),
        run(calls).issued == creations(calls),
    decreases calls.len(),
{
    if calls.len() > 0 {
        lemma_run_consistent(calls.drop_last());
    }
}

/// Pairing of handles: after any sequence of calls, the creations that issued
/// a handle are the releases and the live handles together. So there are
/// never more releases than creations, and no handle is live exactly when
/// every creation has met its release.
pub proof fn lemma_pairing(calls: Seq<Call>)
    ensures
        run(calls).live.finite(),
        releases(calls) + run(calls).live.len() == creations(calls),
        releases(calls) <= creations(calls),
        run(calls).live.len() == 0 <==> releases(calls) == creations(calls),
    decreases calls.len(),
{
    if calls.len() > 0 {
        let front = calls.drop_last();
        let before = run(front);
        lemma_pairing(front);
        lemma_run_consistent(front);
        if let Call::Create { built } = calls.last() {
            if before.issues(built) {
                assert(!before.live.contains(before.next_handle(built)));
            }
        }
    }
}

/// A handle is released at most once: exactly once if it was issued and is
/// no longer live, and never otherwise.
pub proof fn lemma_released_at_most_once(calls: Seq<Call>, handle: usize)
    ensures
        releases_of(calls, handle) <= 1,
        releases_of(calls, handle) == 1 <==> 0 < handle <= run(calls).issued && !run(
            calls,
        ).live.contains(handle),
    decreases calls.len(),
{
    if calls.len() > 0 {
        let front = calls.drop_last();
        lemma_released_at_most_once(front, handle);
        lemma_run_consistent(front);
    }
}

/// A caller that releases every handle it was issued leaves no pipeline
/// behind.
pub proof fn lemma_all_released_none_live(calls: Seq<Call>)
    requires
        forall|handle: usize|
            0 < handle <= run(calls).issued ==> releases_of(calls, handle) == 1,
    ensures
        run(calls).live == Set::<usize>::empty(),
        releases(calls) == creations(calls),
{
    lemma_run_consistent(calls);
    lemma_pairing(calls);
    assert forall|handle: usize| !run(calls).live.contains(handle) by {
        lemma_released_at_most_once(calls, handle);
    }
    assert(run(calls).live =~= Set::<usize>::empty());
}

} // verus!
