use phper::errors::Error;
use phper::state::{StateBox, StateDefault};

const LISTENER_STATE: u64 = 11;
const COUNTER_STATE: u64 = 12;

#[test]
fn get_after_bind_returns_the_bound_value() {
    let mut b: StateBox<i64> = StateBox::new(Some(COUNTER_STATE));
    b.bind(COUNTER_STATE, 99).unwrap();
    assert_eq!(*b.get(COUNTER_STATE).unwrap(), 99);
}

#[test]
fn get_under_another_tag_fails_with_state_type_error() {
    let mut b: StateBox<i64> = StateBox::new(Some(COUNTER_STATE));
    b.bind(COUNTER_STATE, 99).unwrap();
    assert!(matches!(b.get(LISTENER_STATE), Err(Error::StateType(_))));
}

#[test]
fn bind_fails_on_a_stateless_class() {
    let mut b: StateBox<i64> = StateBox::new(None);
    assert!(matches!(b.bind(COUNTER_STATE, 1), Err(Error::StateType(_))));
    assert!(matches!(b.get(COUNTER_STATE), Err(Error::StateType(_))));
}

#[test]
fn bind_fails_when_called_twice() {
    let mut b: StateBox<i64> = StateBox::new(Some(COUNTER_STATE));
    b.bind(COUNTER_STATE, 1).unwrap();
    assert!(matches!(b.bind(COUNTER_STATE, 2), Err(Error::StateType(_))));
    assert_eq!(*b.get(COUNTER_STATE).unwrap(), 1);
}

#[test]
fn take_returns_the_value_and_leaves_the_default() {
    let mut b: StateBox<String> = StateBox::new(Some(LISTENER_STATE));
    b.bind(LISTENER_STATE, String::from("tcp-listener")).unwrap();
    let moved_out = b.take(LISTENER_STATE).unwrap();
    assert_eq!(moved_out, "tcp-listener");
    assert_eq!(*b.get(LISTENER_STATE).unwrap(), String::default());
}

#[test]
fn take_then_get_returns_the_default_for_integers() {
    let mut b: StateBox<i64> = StateBox::new(Some(COUNTER_STATE));
    b.bind(COUNTER_STATE, 31).unwrap();
    assert_eq!(b.take(COUNTER_STATE).unwrap(), 31);
    assert_eq!(*b.get(COUNTER_STATE).unwrap(), i64::default());
}

#[test]
fn take_under_another_tag_fails() {
    let mut b: StateBox<i64> = StateBox::new(Some(COUNTER_STATE));
    b.bind(COUNTER_STATE, 31).unwrap();
    assert!(matches!(b.take(LISTENER_STATE), Err(Error::StateType(_))));
    assert_eq!(*b.get(COUNTER_STATE).unwrap(), 31);
}

#[test]
fn get_mut_writes_through_to_the_box() {
    let mut b: StateBox<i64> = StateBox::new(Some(COUNTER_STATE));
    b.bind(COUNTER_STATE, 5).unwrap();
    {
        let p = b.get_mut(COUNTER_STATE).unwrap();
        *p += 1;
    }
    assert_eq!(*b.get(COUNTER_STATE).unwrap(), 6);
    assert!(matches!(b.get_mut(LISTENER_STATE), Err(Error::StateType(_))));
    assert_eq!(*b.get(COUNTER_STATE).unwrap(), 6);
}

#[test]
fn replace_swaps_and_returns_the_previous_value() {
    let mut b: StateBox<i64> = StateBox::new(Some(COUNTER_STATE));
    b.bind(COUNTER_STATE, 1).unwrap();
    assert_eq!(b.replace(COUNTER_STATE, 2).unwrap(), 1);
    assert_eq!(*b.get(COUNTER_STATE).unwrap(), 2);
    assert!(matches!(b.replace(LISTENER_STATE, 3), Err(Error::StateType(_))));
    assert_eq!(*b.get(COUNTER_STATE).unwrap(), 2);
}

#[test]
fn default_state_values() {
    assert_eq!(<i64 as StateDefault>::default_state(), 0);
    assert_eq!(<u64 as StateDefault>::default_state(), 0);
    assert!(!<bool as StateDefault>::default_state());
    assert_eq!(<String as StateDefault>::default_state(), "");
    assert_eq!(<Vec<u8> as StateDefault>::default_state(), Vec::<u8>::new());
}
