use polonius_bridge::atoms::{Loan, Origin, Path, Point, Variable};
use polonius_bridge::bridge::{Bridge, BridgeError};

#[test]
fn atom_round_trip() {
    assert_eq!(Origin::new(0).index(), 0);
    assert_eq!(Loan::new(1).index(), 1);
    assert_eq!(Point::new(2).index(), 2);
    assert_eq!(Variable::new(3).index(), 3);
    assert_eq!(Path::new(4).index(), 4);
    assert_eq!(usize::from(Origin::from(11usize)), 11);
    assert_eq!(usize::from(Loan::from(12usize)), 12);
    assert_eq!(usize::from(Point::from(13usize)), 13);
    assert_eq!(usize::from(Variable::from(14usize)), 14);
    assert_eq!(usize::from(Path::from(15usize)), 15);
}

#[test]
fn accumulation_keeps_submission_order_and_duplicates() {
    let mut bridge = Bridge::new();
    let h = bridge.open();
    bridge.record_use(h, Variable::new(1), Point::new(10)).unwrap();
    bridge.record_use(h, Variable::new(1), Point::new(10)).unwrap();
    bridge.record_definition(h, Variable::new(2), Point::new(4)).unwrap();
    bridge.record_use(h, Variable::new(3), Point::new(5)).unwrap();
    bridge.record_definition(h, Variable::new(2), Point::new(4)).unwrap();
    assert_eq!(
        bridge.used_at(h).unwrap(),
        &vec![
            (Variable::new(1), Point::new(10)),
            (Variable::new(1), Point::new(10)),
            (Variable::new(3), Point::new(5)),
        ]
    );
    assert_eq!(
        bridge.defined_at(h).unwrap(),
        &vec![
            (Variable::new(2), Point::new(4)),
            (Variable::new(2), Point::new(4)),
        ]
    );
}

#[test]
fn handles_are_isolated() {
    let mut bridge = Bridge::new();
    let h1 = bridge.open();
    let h2 = bridge.open();
    assert_ne!(h1, h2);
    bridge.record_use(h1, Variable::new(1), Point::new(2)).unwrap();
    bridge.record_definition(h2, Variable::new(3), Point::new(4)).unwrap();
    assert_eq!(bridge.used_at(h1).unwrap(), &vec![(Variable::new(1), Point::new(2))]);
    assert_eq!(bridge.used_at(h2).unwrap(), &Vec::new());
    assert_eq!(bridge.defined_at(h1).unwrap(), &Vec::new());
    assert_eq!(bridge.defined_at(h2).unwrap(), &vec![(Variable::new(3), Point::new(4))]);
}

#[test]
fn close_invalidates_handle() {
    let mut bridge = Bridge::new();
    let h = bridge.open();
    bridge.record_use(h, Variable::new(1), Point::new(2)).unwrap();
    assert!(bridge.is_open(h));
    bridge.close(h).unwrap();
    assert!(!bridge.is_open(h));
    assert_eq!(bridge.close(h), Err(BridgeError::InvalidHandle));
    assert_eq!(
        bridge.record_use(h, Variable::new(1), Point::new(2)),
        Err(BridgeError::InvalidHandle)
    );
    assert_eq!(
        bridge.record_definition(h, Variable::new(1), Point::new(2)),
        Err(BridgeError::InvalidHandle)
    );
    assert_eq!(bridge.record_borrow(h), Err(BridgeError::InvalidHandle));
    assert_eq!(bridge.used_at(h), Err(BridgeError::InvalidHandle));
    assert_eq!(bridge.defined_at(h), Err(BridgeError::InvalidHandle));
}

#[test]
fn foreign_handle_is_rejected() {
    let mut issuing = Bridge::new();
    let h = issuing.open();
    let mut other = Bridge::new();
    assert_eq!(
        other.record_use(h, Variable::new(1), Point::new(2)),
        Err(BridgeError::InvalidHandle)
    );
    assert_eq!(other.close(h), Err(BridgeError::InvalidHandle));
}

#[test]
fn reopened_slot_yields_fresh_handle_and_empty_store() {
    let mut bridge = Bridge::new();
    let h1 = bridge.open();
    bridge.record_use(h1, Variable::new(9), Point::new(9)).unwrap();
    bridge.close(h1).unwrap();
    let h2 = bridge.open();
    assert_ne!(h1, h2);
    assert!(!bridge.is_open(h1));
    assert_eq!(bridge.used_at(h2).unwrap(), &Vec::new());
    assert_eq!(bridge.defined_at(h2).unwrap(), &Vec::new());
    assert_eq!(
        bridge.record_use(h1, Variable::new(1), Point::new(1)),
        Err(BridgeError::InvalidHandle)
    );
}

#[test]
fn record_borrow_accepts_call_without_durable_effect() {
    let mut bridge = Bridge::new();
    let h = bridge.open();
    bridge.record_use(h, Variable::new(1), Point::new(2)).unwrap();
    bridge.record_borrow(h).unwrap();
    assert_eq!(bridge.used_at(h).unwrap(), &vec![(Variable::new(1), Point::new(2))]);
    assert_eq!(bridge.defined_at(h).unwrap(), &Vec::new());
}
