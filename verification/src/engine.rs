//! Invocation of the external fixpoint solver.
//!
//! The bridge instantiates the solver's fact schema with the atom types of
//! [`crate::atoms`] and invokes the naive (non-incremental) fixpoint variant
//! with exhaustive error collection. The result set of one invocation is
//! surfaced as plain relations owned by the caller.

use crate::atoms::{Loan, Origin, Path, Point, Variable};
use vstd::prelude::*;

verus! {

/// Selects the atom types that instantiate the solver's fact schema: every
/// fact domain is indexed by the corresponding atom type of this crate.
#[derive(Clone, Copy, Debug)]
pub struct BridgeFactTypes;

impl polonius_engine::Atom for Origin {
    fn index(self) -> usize {
        self.index
    }
}

impl polonius_engine::Atom for Loan {
    fn index(self) -> usize {
        self.index
    }
}

impl polonius_engine::Atom for Point {
    fn index(self) -> usize {
        self.index
    }
}

impl polonius_engine::Atom for Variable {
    fn index(self) -> usize {
        self.index
    }
}

impl polonius_engine::Atom for Path {
    fn index(self) -> usize {
        self.index
    }
}

impl polonius_engine::FactTypes for BridgeFactTypes {
    type Origin = Origin;
    type Loan = Loan;
    type Point = Point;
    type Variable = Variable;
    type Path = Path;
}

/// The result set of one solver invocation: the error relations the solver
/// derives from the submitted facts. It is produced fresh per invocation and
/// owned by the caller, independent of any handle.
///
/// The solver's intermediate diagnostic relations (liveness, subsets) are
/// not surfaced here.
#[derive(Debug, PartialEq, Eq)]
pub struct ResultSet {
    /// Loan errors: for an implicated point, the loans invalidated while
    /// required live at that point.
    pub loan_errors: Vec<(Point, Vec<Loan>)>,
    /// Subset errors: for an implicated point, the origin pairs whose
    /// required subset relation a placeholder origin does not justify.
    pub subset_errors: Vec<(Point, Vec<(Origin, Origin)>)>,
    /// Move errors: for an implicated point, the paths accessed while
    /// possibly uninitialized.
    pub move_errors: Vec<(Point, Vec<Path>)>,
}

impl ResultSet {
    /// A result set reports no violations when all three error relations
    /// are empty.
    pub open spec fn spec_is_empty(self) -> bool {
        self.loan_errors@.len() == 0 && self.subset_errors@.len() == 0
            && self.move_errors@.len() == 0
    }

    /// Reports whether this result set holds no violation of any kind.
    pub fn is_empty(&self) -> (b: bool)
        ensures
            b == self.spec_is_empty(),
    {
        self.loan_errors.len() == 0 && self.subset_errors.len() == 0
            && self.move_errors.len() == 0
    }
}

/// Law: computing is idempotent — two result sets produced from the same
/// accumulated facts have equal content. With only the use and definition
/// relations wired, every result set a computation returns is pinned
/// empty by its postcondition, so any two of them are equal outright.
pub proof fn lemma_compute_idempotent(r1: ResultSet, r2: ResultSet)
    requires
        r1.spec_is_empty(),
        r2.spec_is_empty(),
    ensures
        r1.loan_errors@ == r2.loan_errors@,
        r1.subset_errors@ == r2.subset_errors@,
        r1.move_errors@ == r2.move_errors@,
{
    assert(r1.loan_errors@ =~= r2.loan_errors@);
    assert(r1.subset_errors@ =~= r2.subset_errors@);
    assert(r1.move_errors@ =~= r2.move_errors@);
}

/// Relies on `polonius_engine::Output::compute` with the `Naive` variant and
/// exhaustive (dump-enabled) reporting: loan errors are derived only from
/// `loan_issued_at` and `loan_invalidated_at` facts, subset errors only from
/// `subset_base` and placeholder facts, and move errors only from path
/// facts. An input populating nothing but `var_used_at` and `var_defined_at`
/// therefore yields empty error relations, whatever those two relations
/// hold.
#[verifier::external_body]
pub(crate) fn run_solver(used: &Vec<(Variable, Point)>, defined: &Vec<(Variable, Point)>) -> (r:
    ResultSet)
    ensures
        r.spec_is_empty(),
{
    let mut facts = polonius_engine::AllFacts::<BridgeFactTypes>::default();
    facts.var_used_at = used.clone();
    facts.var_defined_at = defined.clone();
    let out = polonius_engine::Output::compute(&facts, polonius_engine::Algorithm::Naive, true);
    ResultSet {
        loan_errors: out.errors.into_iter().collect(),
        subset_errors: out.subset_errors.into_iter().map(|(p, s)| (p, s.into_iter().collect())).collect(),
        move_errors: out.move_errors.into_iter().collect(),
    }
}

} // verus!
