use polonius_bridge::atoms::{Point, Variable};
use polonius_bridge::bridge::{Bridge, BridgeError};

#[test]
fn scenario_record_then_compute() {
    let mut bridge = Bridge::new();
    let h = bridge.open();
    bridge.record_use(h, Variable::new(1), Point::new(10)).unwrap();
    bridge.record_definition(h, Variable::new(1), Point::new(5)).unwrap();
    let out = bridge.compute(h).unwrap();
    assert!(out.is_empty());
    assert_eq!(bridge.used_at(h).unwrap(), &vec![(Variable::new(1), Point::new(10))]);
    assert_eq!(bridge.defined_at(h).unwrap(), &vec![(Variable::new(1), Point::new(5))]);
}

#[test]
fn scenario_compute_without_facts() {
    let mut bridge = Bridge::new();
    let h = bridge.open();
    let out = bridge.compute(h).unwrap();
    assert!(out.is_empty());
    assert_eq!(out.loan_errors, Vec::new());
    assert_eq!(out.subset_errors, Vec::new());
    assert_eq!(out.move_errors, Vec::new());
}

#[test]
fn compute_twice_yields_equal_result_sets() {
    let mut bridge = Bridge::new();
    let h = bridge.open();
    bridge.record_use(h, Variable::new(1), Point::new(10)).unwrap();
    bridge.record_definition(h, Variable::new(2), Point::new(3)).unwrap();
    let first = bridge.compute(h).unwrap();
    let second = bridge.compute(h).unwrap();
    assert_eq!(first, second);
}

#[test]
fn scenario_two_handles_compute_independently() {
    let mut bridge = Bridge::new();
    let h1 = bridge.open();
    let h2 = bridge.open();
    bridge.record_use(h1, Variable::new(1), Point::new(10)).unwrap();
    bridge.record_use(h2, Variable::new(2), Point::new(20)).unwrap();
    bridge.record_definition(h2, Variable::new(2), Point::new(21)).unwrap();
    let out1 = bridge.compute(h1).unwrap();
    let out2 = bridge.compute(h2).unwrap();
    assert!(out1.is_empty());
    assert!(out2.is_empty());
    assert_eq!(bridge.used_at(h1).unwrap(), &vec![(Variable::new(1), Point::new(10))]);
    assert_eq!(bridge.used_at(h2).unwrap(), &vec![(Variable::new(2), Point::new(20))]);
    assert_eq!(bridge.defined_at(h1).unwrap(), &Vec::new());
    assert_eq!(bridge.defined_at(h2).unwrap(), &vec![(Variable::new(2), Point::new(21))]);
}

#[test]
fn compute_on_closed_handle_is_rejected() {
    let mut bridge = Bridge::new();
    let h = bridge.open();
    bridge.close(h).unwrap();
    assert_eq!(bridge.compute(h), Err(BridgeError::InvalidHandle));
}
