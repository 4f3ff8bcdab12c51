//! The fact schema and accumulator.
//!
//! A [`FactStore`] owns the typed relations that form the input of one
//! analysis run. Relations are append-only: tuples are kept in submission
//! order, duplicates included — deduplication is the solver's business, not
//! the collector's. The store carries a ghost log of every submission, and
//! its well-formedness predicate pins the relations to be exactly the
//! replay of that log.

use crate::atoms::{Point, Variable};
use vstd::prelude::*;

verus! {

/// One fact submission, as reported by the frontend.
#[derive(Clone, Copy, Debug, PartialEq, Eq, Structural)]
pub enum SubmittedFact {
    /// The variable is used (other than by a drop) at the point.
    Use(Variable, Point),
    /// The variable is overwritten at the point.
    Definition(Variable, Point),
}

/// The mathematical content of a fact store: one sequence per relation,
/// in submission order.
#[verifier::ext_equal]
pub struct StoreModel {
    /// The used-at relation.
    pub used: Seq<(Variable, Point)>,
    /// The defined-at relation.
    pub defined: Seq<(Variable, Point)>,
}

/// The content of a freshly opened store: every relation empty.
pub open spec fn empty_model() -> StoreModel {
    StoreModel { used: Seq::empty(), defined: Seq::empty() }
}

/// How one submission extends the relations: a tuple is appended to the
/// relation of its kind, and nothing else changes.
pub open spec fn apply_fact(m: StoreModel, f: SubmittedFact) -> StoreModel {
    match f {
        SubmittedFact::Use(v, p) => StoreModel { used: m.used.push((v, p)), defined: m.defined },
        SubmittedFact::Definition(v, p) => StoreModel {
            used: m.used,
            defined: m.defined.push((v, p)),
        },
    }
}

/// The relations obtained by replaying a whole submission log on an empty
/// store.
pub open spec fn store_after(log: Seq<SubmittedFact>) -> StoreModel
    decreases log.len(),
{
    if log.len() == 0 {
        empty_model()
    } else {
        apply_fact(store_after(log.drop_last()), log.last())
    }
}

/// The tuple carried by a submission, whatever its kind.
pub open spec fn fact_tuple(f: SubmittedFact) -> (Variable, Point) {
    match f {
        SubmittedFact::Use(v, p) => (v, p),
        SubmittedFact::Definition(v, p) => (v, p),
    }
}

/// The tuples of the `Use` submissions of a log, in log order.
pub open spec fn uses_of(log: Seq<SubmittedFact>) -> Seq<(Variable, Point)>
    decreases log.len(),
{
    if log.len() == 0 {
        Seq::empty()
    } else if log.last() is Use {
        uses_of(log.drop_last()).push(fact_tuple(log.last()))
    } else {
        uses_of(log.drop_last())
    }
}

/// The tuples of the `Definition` submissions of a log, in log order.
pub open spec fn definitions_of(log: Seq<SubmittedFact>) -> Seq<(Variable, Point)>
    decreases log.len(),
{
    if log.len() == 0 {
        Seq::empty()
    } else if log.last() is Definition {
        definitions_of(log.drop_last()).push(fact_tuple(log.last()))
    } else {
        definitions_of(log.drop_last())
    }
}

/// Law: replaying any submission log on an empty store yields relations
/// that hold exactly the submitted tuples — the used-at relation those of
/// the `Use` submissions and the defined-at relation those of the
/// `Definition` submissions, each in submission order, with no
/// deduplication and no reordering.
pub proof fn lemma_store_after_exact(log: Seq<SubmittedFact>)
    ensures
        store_after(log).used == uses_of(log),
        store_after(log).defined == definitions_of(log),
    decreases log.len(),
{
    if log.len() > 0 {
        lemma_store_after_exact(log.drop_last());
    }
}

/// The accumulator for one analysis unit. Only the two wired relations are
/// populated so far; the remaining relations of the solver's schema are an
/// extension point and stay empty until a reporting entry point exists for
/// them.
pub struct FactStore {
    var_used_at: Vec<(Variable, Point)>,
    var_defined_at: Vec<(Variable, Point)>,
    log: Ghost<Seq<SubmittedFact>>,
}

impl FactStore {
    /// The log of every submission accepted by this store, in call order.
    pub closed spec fn log(self) -> Seq<SubmittedFact> {
        self.log@
    }

    /// The relations this store holds.
    pub closed spec fn model(self) -> StoreModel {
        StoreModel { used: self.var_used_at@, defined: self.var_defined_at@ }
    }

    /// Well-formed: the relations are exactly the replay of the submission
    /// log. Established by [`FactStore::new`] and preserved by every
    /// operation.
    pub open spec fn wf(self) -> bool {
        self.model() == store_after(self.log())
    }

    /// Opens an empty store: no submissions, every relation empty.
    pub fn new() -> (s: FactStore)
        ensures
            s.log() == Seq::<SubmittedFact>::empty(),
            s.model() == empty_model(),
            s.wf(),
    {
        let s = FactStore {
            var_used_at: Vec::new(),
            var_defined_at: Vec::new(),
            log: Ghost(Seq::empty()),
        };
        proof {
            assert(s.model() =~= store_after(s.log()));
            assert(s.model() =~= empty_model());
        }
        s
    }

    /// Appends a used-at tuple. Unknown atoms are accepted silently: the
    /// schema has no referential-integrity check.
    pub fn record_use(&mut self, variable: Variable, point: Point)
        ensures
            final(self).log() == old(self).log().push(SubmittedFact::Use(variable, point)),
            final(self).model() == apply_fact(
                old(self).model(),
                SubmittedFact::Use(variable, point),
            ),
            old(self).wf() ==> final(self).wf(),
    {
        self.var_used_at.push((variable, point));
        proof {
            self.log@ = self.log@.push(SubmittedFact::Use(variable, point));
            lemma_store_after_push(old(self).log(), SubmittedFact::Use(variable, point));
        }
    }

    /// Appends a defined-at tuple, under the same discipline as
    /// [`FactStore::record_use`].
    pub fn record_definition(&mut self, variable: Variable, point: Point)
        ensures
            final(self).log() == old(self).log().push(
                SubmittedFact::Definition(variable, point),
            ),
            final(self).model() == apply_fact(
                old(self).model(),
                SubmittedFact::Definition(variable, point),
            ),
            old(self).wf() ==> final(self).wf(),
    {
        self.var_defined_at.push((variable, point));
        proof {
            self.log@ = self.log@.push(SubmittedFact::Definition(variable, point));
            lemma_store_after_push(old(self).log(), SubmittedFact::Definition(variable, point));
        }
    }

    /// The used-at relation, in submission order.
    pub fn used_at(&self) -> (r: &Vec<(Variable, Point)>)
        ensures
            r@ == self.model().used,
    {
        &self.var_used_at
    }

    /// The defined-at relation, in submission order.
    pub fn defined_at(&self) -> (r: &Vec<(Variable, Point)>)
        ensures
            r@ == self.model().defined,
    {
        &self.var_defined_at
    }
}

/// Law: a well-formed store holds exactly the submitted tuples — the
/// used-at relation those of the `Use` submissions and the defined-at
/// relation those of the `Definition` submissions, each in submission
/// order, with no deduplication and no reordering.
pub proof fn lemma_store_exact(s: FactStore)
    requires
        s.wf(),
    ensures
        s.model().used == uses_of(s.log()),
        s.model().defined == definitions_of(s.log()),
{
    lemma_store_after_exact(s.log());
}

/// Replaying a log extended by one submission applies that submission to
/// the replay of the log.
proof fn lemma_store_after_push(log: Seq<SubmittedFact>, f: SubmittedFact)
    ensures
        store_after(log.push(f)) == apply_fact(store_after(log), f),
{
    assert(log.push(f).drop_last() =~= log);
    assert(log.push(f).last() == f);
}

} // verus!
