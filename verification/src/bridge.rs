//! The handle lifecycle manager.
//!
//! A [`Bridge`] is a registry of fact stores. [`Bridge::open`] allocates a
//! slot and returns a [`Handle`] — the slot's index paired with the slot's
//! current generation. Every operation validates the handle's generation
//! before acting, so a call on a handle that was never issued, was already
//! closed, or belongs to a recycled slot is answered with
//! [`BridgeError::InvalidHandle`] instead of being undefined behavior.
//!
//! Distinct handles own disjoint fact stores: recording on one handle
//! never changes what another observes, which the frame clauses of each
//! operation state.

use crate::atoms::{Point, Variable};
use crate::engine::{run_solver, ResultSet};
use crate::facts::{
    apply_fact, definitions_of, empty_model, lemma_store_exact, uses_of, FactStore, StoreModel,
    SubmittedFact,
};
use vstd::prelude::*;

verus! {

/// The error reported on a call that violates the handle protocol.
#[derive(Clone, Copy, Debug, PartialEq, Eq, Structural)]
pub enum BridgeError {
    /// The handle was never issued by this registry, or its store was
    /// already closed.
    InvalidHandle,
}

/// An opaque handle naming one fact store of a registry: a slot index
/// paired with the generation at which the slot was opened.
#[derive(Clone, Copy, Debug, PartialEq, Eq, Structural)]
pub struct Handle {
    index: usize,
    generation: u64,
}

/// One registry slot. The generation counts how often the slot has been
/// handed out; a handle is checked against it, so handles to earlier
/// occupancies of a recycled slot are recognized as stale.
struct Slot {
    generation: u64,
    live: bool,
    store: FactStore,
}

/// The registry of fact stores behind the opaque handles.
pub struct Bridge {
    slots: Vec<Slot>,
}

impl Bridge {
    /// True when `h` currently names an open fact store of this registry.
    pub closed spec fn valid(self, h: Handle) -> bool {
        &&& (h.index as int) < self.slots@.len()
        &&& self.slots@[h.index as int].generation == h.generation
        &&& self.slots@[h.index as int].live
    }

    /// The fact store owned by `h`.
    pub closed spec fn store_of(self, h: Handle) -> FactStore {
        self.slots@[h.index as int].store
    }

    /// The submission log of `h`'s store.
    pub open spec fn log_of(self, h: Handle) -> Seq<SubmittedFact> {
        self.store_of(h).log()
    }

    /// The relations of `h`'s store.
    pub open spec fn model_of(self, h: Handle) -> StoreModel {
        self.store_of(h).model()
    }

    /// Well-formed: every open store is itself well-formed. Established by
    /// [`Bridge::new`] and preserved by every operation.
    pub open spec fn wf(self) -> bool {
        forall|h: Handle| self.valid(h) ==> (#[trigger] self.store_of(h)).wf()
    }

    /// Creates a registry with no slots: no handle is valid for it.
    pub fn new() -> (b: Bridge)
        ensures
            b.wf(),
            forall|h: Handle| !b.valid(h),
    {
        Bridge { slots: Vec::new() }
    }

    /// Reports whether `h` currently names an open fact store of this
    /// registry.
    pub fn is_open(&self, h: Handle) -> (b: bool)
        ensures
            b == self.valid(h),
    {
        h.index < self.slots.len() && self.slots[h.index].generation == h.generation
            && self.slots[h.index].live
    }

    /// Finds a closed slot whose generation can still grow, if any.
    fn find_reusable(&self) -> (r: Option<usize>)
        ensures
            match r {
                Some(i) => (i as int) < self.slots@.len() && !self.slots@[i as int].live
                    && self.slots@[i as int].generation < u64::MAX,
                None => true,
            },
    {
        let mut i: usize = 0;
        while i < self.slots.len()
            invariant
                i <= self.slots@.len(),
            decreases self.slots@.len() - i,
        {
            if !self.slots[i].live && self.slots[i].generation < u64::MAX {
                return Some(i);
            }
            i = i + 1;
        }
        None
    }

    /// Opens a fresh, empty fact store and returns the handle that owns
    /// it. The handle is fresh — it was not valid before the call — and
    /// every previously open handle is left untouched.
    pub fn open(&mut self) -> (h: Handle)
        ensures
            final(self).valid(h),
            !old(self).valid(h),
            final(self).log_of(h) == Seq::<SubmittedFact>::empty(),
            final(self).model_of(h) == empty_model(),
            forall|g: Handle| g != h ==> final(self).valid(g) == old(self).valid(g),
            forall|g: Handle|
                old(self).valid(g) ==> final(self).store_of(g) == old(self).store_of(g),
            old(self).wf() ==> final(self).wf(),
    {
        let h = match self.find_reusable() {
            Some(i) => {
                let generation = self.slots[i].generation + 1;
                self.slots[i] = Slot { generation, live: true, store: FactStore::new() };
                Handle { index: i, generation }
            },
            None => {
                let index = self.slots.len();
                self.slots.push(Slot { generation: 0, live: true, store: FactStore::new() });
                Handle { index, generation: 0 }
            },
        };
        proof {
            if old(self).wf() {
                lemma_wf_after_update(*old(self), *self, h);
            }
        }
        h
    }

    /// Appends a used-at tuple to `h`'s store. Facts recorded on `h` are
    /// invisible to every other handle.
    pub fn record_use(&mut self, h: Handle, variable: Variable, point: Point) -> (r: Result<
        (),
        BridgeError,
    >)
        ensures
            old(self).valid(h) ==> {
                &&& r is Ok
                &&& final(self).valid(h)
                &&& final(self).log_of(h) == old(self).log_of(h).push(
                    SubmittedFact::Use(variable, point),
                )
                &&& final(self).model_of(h) == apply_fact(
                    old(self).model_of(h),
                    SubmittedFact::Use(variable, point),
                )
            },
            !old(self).valid(h) ==> r == Err::<(), BridgeError>(BridgeError::InvalidHandle)
                && *final(self) == *old(self),
            forall|g: Handle| g != h ==> final(self).valid(g) == old(self).valid(g),
            forall|g: Handle|
                g != h && old(self).valid(g) ==> final(self).store_of(g) == old(self).store_of(
                    g,
                ),
            old(self).wf() ==> final(self).wf(),
    {
        if !self.is_open(h) {
            return Err(BridgeError::InvalidHandle);
        }
        self.slots[h.index].store.record_use(variable, point);
        proof {
            if old(self).wf() {
                assert(old(self).store_of(h).wf());
                lemma_wf_after_update(*old(self), *self, h);
            }
        }
        Ok(())
    }

    /// Appends a defined-at tuple to `h`'s store, under the same
    /// discipline as [`Bridge::record_use`].
    pub fn record_definition(&mut self, h: Handle, variable: Variable, point: Point) -> (r:
        Result<(), BridgeError>)
        ensures
            old(self).valid(h) ==> {
                &&& r is Ok
                &&& final(self).valid(h)
                &&& final(self).log_of(h) == old(self).log_of(h).push(
                    SubmittedFact::Definition(variable, point),
                )
                &&& final(self).model_of(h) == apply_fact(
                    old(self).model_of(h),
                    SubmittedFact::Definition(variable, point),
                )
            },
            !old(self).valid(h) ==> r == Err::<(), BridgeError>(BridgeError::InvalidHandle)
                && *final(self) == *old(self),
            forall|g: Handle| g != h ==> final(self).valid(g) == old(self).valid(g),
            forall|g: Handle|
                g != h && old(self).valid(g) ==> final(self).store_of(g) == old(self).store_of(
                    g,
                ),
            old(self).wf() ==> final(self).wf(),
    {
        if !self.is_open(h) {
            return Err(BridgeError::InvalidHandle);
        }
        self.slots[h.index].store.record_definition(variable, point);
        proof {
            if old(self).wf() {
                assert(old(self).store_of(h).wf());
                lemma_wf_after_update(*old(self), *self, h);
            }
        }
        Ok(())
    }

    /// Declared extension point for loan-introduction facts. The call is
    /// validated like any other, but no durable fact is recorded yet: the
    /// registry is left exactly as it was.
    pub fn record_borrow(&mut self, h: Handle) -> (r: Result<(), BridgeError>)
        ensures
            *final(self) == *old(self),
            old(self).valid(h) ==> r is Ok,
            !old(self).valid(h) ==> r == Err::<(), BridgeError>(BridgeError::InvalidHandle),
    {
        if !self.is_open(h) {
            return Err(BridgeError::InvalidHandle);
        }
        Ok(())
    }

    /// Takes an immutable snapshot of `h`'s relations and hands it to the
    /// external solver, requesting the naive fixpoint variant with
    /// exhaustive error collection. The result set is owned by the caller,
    /// independent of the handle.
    ///
    /// `compute` may be invoked any number of times; it never changes the
    /// accumulated facts. With only the use and definition relations
    /// wired, the solver derives no errors, so the returned result set is
    /// pinned empty.
    pub fn compute(&self, h: Handle) -> (r: Result<ResultSet, BridgeError>)
        ensures
            r is Ok <==> self.valid(h),
            self.valid(h) ==> (r matches Ok(out) && out.spec_is_empty()),
            !self.valid(h) ==> r == Err::<ResultSet, BridgeError>(BridgeError::InvalidHandle),
    {
        if !self.is_open(h) {
            return Err(BridgeError::InvalidHandle);
        }
        let store = &self.slots[h.index].store;
        Ok(run_solver(store.used_at(), store.defined_at()))
    }

    /// Closes `h`: the owned fact store is dropped and the handle becomes
    /// invalid. Exactly-once: a second close of the same handle — like any
    /// later call on it — is answered with an error, and every other
    /// handle is left untouched.
    pub fn close(&mut self, h: Handle) -> (r: Result<(), BridgeError>)
        ensures
            !final(self).valid(h),
            old(self).valid(h) ==> r is Ok,
            !old(self).valid(h) ==> r == Err::<(), BridgeError>(BridgeError::InvalidHandle)
                && *final(self) == *old(self),
            forall|g: Handle| g != h ==> final(self).valid(g) == old(self).valid(g),
            forall|g: Handle|
                g != h && old(self).valid(g) ==> final(self).store_of(g) == old(self).store_of(
                    g,
                ),
            old(self).wf() ==> final(self).wf(),
    {
        if !self.is_open(h) {
            return Err(BridgeError::InvalidHandle);
        }
        self.slots[h.index] = Slot {
            generation: h.generation,
            live: false,
            store: FactStore::new(),
        };
        proof {
            if old(self).wf() {
                lemma_wf_after_update(*old(self), *self, h);
            }
        }
        Ok(())
    }

    /// The used-at relation of `h`'s store, in submission order.
    pub fn used_at(&self, h: Handle) -> (r: Result<&Vec<(Variable, Point)>, BridgeError>)
        ensures
            self.valid(h) ==> (r matches Ok(v) && v@ == self.model_of(h).used),
            !self.valid(h) ==> (r matches Err(e) && e == BridgeError::InvalidHandle),
    {
        if !self.is_open(h) {
            return Err(BridgeError::InvalidHandle);
        }
        Ok(self.slots[h.index].store.used_at())
    }

    /// The defined-at relation of `h`'s store, in submission order.
    pub fn defined_at(&self, h: Handle) -> (r: Result<&Vec<(Variable, Point)>, BridgeError>)
        ensures
            self.valid(h) ==> (r matches Ok(v) && v@ == self.model_of(h).defined),
            !self.valid(h) ==> (r matches Err(e) && e == BridgeError::InvalidHandle),
    {
        if !self.is_open(h) {
            return Err(BridgeError::InvalidHandle);
        }
        Ok(self.slots[h.index].store.defined_at())
    }
}

/// A registry stays well-formed when at most the slot of one handle `h`
/// changed, `h`'s store (if open) is itself well-formed, and every other
/// handle kept its validity and store.
proof fn lemma_wf_after_update(pre: Bridge, post: Bridge, h: Handle)
    requires
        pre.wf(),
        post.valid(h) ==> post.store_of(h).wf(),
        forall|g: Handle| g != h ==> post.valid(g) == pre.valid(g),
        forall|g: Handle| g != h && pre.valid(g) ==> post.store_of(g) == pre.store_of(g),
    ensures
        post.wf(),
{
    assert forall|g: Handle| post.valid(g) implies (#[trigger] post.store_of(g)).wf() by {
        if g != h {
            assert(pre.store_of(g).wf());
        }
    }
}

/// Law: on a well-formed registry, an open handle's relations hold exactly
/// the tuples submitted on that handle — the used-at relation those of the
/// `record_use` calls and the defined-at relation those of the
/// `record_definition` calls, each in submission order, with no
/// deduplication and no reordering.
pub proof fn lemma_handle_relations_exact(b: Bridge, h: Handle)
    requires
        b.wf(),
        b.valid(h),
    ensures
        b.model_of(h).used == uses_of(b.log_of(h)),
        b.model_of(h).defined == definitions_of(b.log_of(h)),
{
    lemma_store_exact(b.store_of(h));
}

} // verus!
