use polonius_bridge::samples::{foo, position_dependent_outlives, well_formed_function_inputs};

#[test]
fn position_dependent_outlives_keeps_value_on_reborrow_branch() {
    let mut a = 5i32;
    {
        let r = position_dependent_outlives(&mut a, true);
        assert_eq!(*r, 5);
        *r = 9;
    }
    assert_eq!(a, 9);
}

#[test]
fn position_dependent_outlives_zeroes_on_other_branch() {
    let mut a = 5i32;
    {
        let r = position_dependent_outlives(&mut a, false);
        assert_eq!(*r, 0);
    }
    assert_eq!(a, 0);
}

#[test]
fn foo_passes_nested_reference_through() {
    let mut v = 3usize;
    let r = &mut v;
    let arg = &r;
    assert_eq!(**foo(arg), 3);
}

#[test]
fn nested_reference_chain_reads_back() {
    assert_eq!(well_formed_function_inputs(), 1);
}
