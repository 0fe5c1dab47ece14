use dht22::cleanup::WithCleanup;
use dht22::region::with;
use std::cell::RefCell;

#[test]
fn cleanup_runs_the_action_on_the_value() {
    let seen = RefCell::new(Vec::new());
    let wrapped = WithCleanup::new(41, |value: i32| seen.borrow_mut().push(value));
    assert!(seen.borrow().is_empty());
    wrapped.cleanup();
    assert_eq!(*seen.borrow(), vec![41]);
}

#[test]
fn the_value_is_used_through_the_wrapper() {
    let seen = RefCell::new(Vec::new());
    let mut wrapped = WithCleanup::new(vec![1, 2], |value: Vec<i32>| {
        seen.borrow_mut().push(value)
    });
    assert_eq!(wrapped.len(), 2);
    wrapped.push(3);
    *wrapped.first_mut().unwrap() = 7;
    assert_eq!(*wrapped, vec![7, 2, 3]);
    wrapped.cleanup();
    assert_eq!(*seen.borrow(), vec![vec![7, 2, 3]]);
}

#[test]
fn into_inner_runs_nothing() {
    let seen = RefCell::new(Vec::new());
    let wrapped = WithCleanup::new("pin", |value: &str| seen.borrow_mut().push(value));
    let (value, action) = wrapped.into_inner();
    assert_eq!(value, "pin");
    assert!(seen.borrow().is_empty());
    action("other");
    assert_eq!(*seen.borrow(), vec!["other"]);
}

#[test]
fn with_runs_the_closure_once_and_returns_its_result() {
    let mut calls = 0;
    let result = with(|()| {
        calls += 1;
        "done"
    });
    assert_eq!(result, "done");
    assert_eq!(calls, 1);
}
