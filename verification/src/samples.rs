//! Borrow patterns that motivate the analysis.
//!
//! Small compiled specimens of the borrow shapes the fact schema is meant
//! to describe: a borrow whose validity depends on the control-flow path,
//! and a doubly nested reference threaded through a function boundary.

use vstd::prelude::*;

verus! {

/// Returns a mutable borrow of `*x` whose origin depends on the branch
/// taken: a reborrow when `cond` holds, otherwise the original reference
/// itself, after writing zero through it. Each branch takes its borrow at
/// the position where it is returned, which is what lets a borrow checker
/// accept the function.
pub fn position_dependent_outlives(x: &mut i32, cond: bool) -> (r: &mut i32)
    ensures
        *r == if cond {
            *old(x)
        } else {
            0i32
        },
        *final(x) == *final(r),
{
    if cond {
        let y = &mut *x;
        return y;
    } else {
        *x = 0;
        return x;
    }
}

/// Passes a shared reference to a mutable reference straight through: the
/// shape of a well-formedness obligation on nested function inputs.
pub fn foo<'a, 'b>(p: &'b &'a mut usize) -> (r: &'b &'a mut usize)
    ensures
        r == p,
{
    p
}

/// Threads a doubly nested reference through [`foo`] and reads the
/// borrowed value back through the whole chain.
pub fn well_formed_function_inputs() -> (v: usize)
    ensures
        v == 1,
{
    let mut val: usize = 1;
    let s = &mut val;
    let r = &mut *s;
    let arg = &r;
    let tmp = foo(arg);
    **tmp
}

} // verus!
