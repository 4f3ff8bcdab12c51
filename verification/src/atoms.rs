//! Domain-tagged atom identifiers.
//!
//! The frontend names every program entity by a raw non-negative index in a
//! frontend-controlled index space. Each of the five fact domains tags such
//! an index with its own type, so that a variable id can never be confused
//! with a program point id at the interface level, even though all five
//! share the plain `usize` representation underneath. Tagging performs no
//! range or uniqueness validation: the frontend is trusted to supply stable,
//! distinct indices per domain.

use vstd::prelude::*;

verus! {

/// An origin (lifetime/region) atom.
#[derive(Clone, Copy, Debug, PartialEq, Eq, PartialOrd, Ord, Hash, Structural)]
pub struct Origin {
    pub index: usize,
}

/// A loan (borrow) atom.
#[derive(Clone, Copy, Debug, PartialEq, Eq, PartialOrd, Ord, Hash, Structural)]
pub struct Loan {
    pub index: usize,
}

/// A control-flow point atom.
#[derive(Clone, Copy, Debug, PartialEq, Eq, PartialOrd, Ord, Hash, Structural)]
pub struct Point {
    pub index: usize,
}

/// A variable atom.
#[derive(Clone, Copy, Debug, PartialEq, Eq, PartialOrd, Ord, Hash, Structural)]
pub struct Variable {
    pub index: usize,
}

/// A path (place) atom.
#[derive(Clone, Copy, Debug, PartialEq, Eq, PartialOrd, Ord, Hash, Structural)]
pub struct Path {
    pub index: usize,
}

impl Origin {
    /// Tags a raw frontend index as an origin atom.
    pub fn new(index: usize) -> (a: Origin)
        ensures
            a.index == index,
    {
        Origin { index }
    }

    /// Returns the raw index behind this atom.
    pub fn index(self) -> (i: usize)
        ensures
            i == self.index,
    {
        self.index
    }
}

impl Loan {
    /// Tags a raw frontend index as a loan atom.
    pub fn new(index: usize) -> (a: Loan)
        ensures
            a.index == index,
    {
        Loan { index }
    }

    /// Returns the raw index behind this atom.
    pub fn index(self) -> (i: usize)
        ensures
            i == self.index,
    {
        self.index
    }
}

impl Point {
    /// Tags a raw frontend index as a point atom.
    pub fn new(index: usize) -> (a: Point)
        ensures
            a.index == index,
    {
        Point { index }
    }

    /// Returns the raw index behind this atom.
    pub fn index(self) -> (i: usize)
        ensures
            i == self.index,
    {
        self.index
    }
}

impl Variable {
    /// Tags a raw frontend index as a variable atom.
    pub fn new(index: usize) -> (a: Variable)
        ensures
            a.index == index,
    {
        Variable { index }
    }

    /// Returns the raw index behind this atom.
    pub fn index(self) -> (i: usize)
        ensures
            i == self.index,
    {
        self.index
    }
}

impl Path {
    /// Tags a raw frontend index as a path atom.
    pub fn new(index: usize) -> (a: Path)
        ensures
            a.index == index,
    {
        Path { index }
    }

    /// Returns the raw index behind this atom.
    pub fn index(self) -> (i: usize)
        ensures
            i == self.index,
    {
        self.index
    }
}

impl From<usize> for Origin {
    fn from(index: usize) -> (a: Origin) {
        Origin { index }
    }
}

impl vstd::std_specs::convert::FromSpecImpl<usize> for Origin {
    open spec fn obeys_from_spec() -> bool {
        true
    }

    open spec fn from_spec(v: usize) -> Origin {
        Origin { index: v }
    }
}

impl From<Origin> for usize {
    fn from(a: Origin) -> (i: usize) {
        a.index
    }
}

impl vstd::std_specs::convert::FromSpecImpl<Origin> for usize {
    open spec fn obeys_from_spec() -> bool {
        true
    }

    open spec fn from_spec(a: Origin) -> usize {
        a.index
    }
}

impl From<usize> for Loan {
    fn from(index: usize) -> (a: Loan) {
        Loan { index }
    }
}

impl vstd::std_specs::convert::FromSpecImpl<usize> for Loan {
    open spec fn obeys_from_spec() -> bool {
        true
    }

    open spec fn from_spec(v: usize) -> Loan {
        Loan { index: v }
    }
}

impl From<Loan> for usize {
    fn from(a: Loan) -> (i: usize) {
        a.index
    }
}

impl vstd::std_specs::convert::FromSpecImpl<Loan> for usize {
    open spec fn obeys_from_spec() -> bool {
        true
    }

    open spec fn from_spec(a: Loan) -> usize {
        a.index
    }
}

impl From<usize> for Point {
    fn from(index: usize) -> (a: Point) {
        Point { index }
    }
}

impl vstd::std_specs::convert::FromSpecImpl<usize> for Point {
    open spec fn obeys_from_spec() -> bool {
        true
    }

    open spec fn from_spec(v: usize) -> Point {
        Point { index: v }
    }
}

impl From<Point> for usize {
    fn from(a: Point) -> (i: usize) {
        a.index
    }
}

impl vstd::std_specs::convert::FromSpecImpl<Point> for usize {
    open spec fn obeys_from_spec() -> bool {
        true
    }

    open spec fn from_spec(a: Point) -> usize {
        a.index
    }
}

impl From<usize> for Variable {
    fn from(index: usize) -> (a: Variable) {
        Variable { index }
    }
}

impl vstd::std_specs::convert::FromSpecImpl<usize> for Variable {
    open spec fn obeys_from_spec() -> bool {
        true
    }

    open spec fn from_spec(v: usize) -> Variable {
        Variable { index: v }
    }
}

impl From<Variable> for usize {
    fn from(a: Variable) -> (i: usize) {
        a.index
    }
}

impl vstd::std_specs::convert::FromSpecImpl<Variable> for usize {
    open spec fn obeys_from_spec() -> bool {
        true
    }

    open spec fn from_spec(a: Variable) -> usize {
        a.index
    }
}

impl From<usize> for Path {
    fn from(index: usize) -> (a: Path) {
        Path { index }
    }
}

impl vstd::std_specs::convert::FromSpecImpl<usize> for Path {
    open spec fn obeys_from_spec() -> bool {
        true
    }

    open spec fn from_spec(v: usize) -> Path {
        Path { index: v }
    }
}

impl From<Path> for usize {
    fn from(a: Path) -> (i: usize) {
        a.index
    }
}

impl vstd::std_specs::convert::FromSpecImpl<Path> for usize {
    open spec fn obeys_from_spec() -> bool {
        true
    }

    open spec fn from_spec(a: Path) -> usize {
        a.index
    }
}

} // verus!
