use level_frontend::alert::{alert_timer, AlertDuration, GlobalAlert, GlobalAlertStatus, UseAlert};
use level_frontend::async_state::{PreviousUseAsyncState, UseAsyncState, UseCommandState, UseDemoHandle};
use level_frontend::runtime::{Runtime, ValueId};
use level_frontend::subview::SubviewStack;

#[test]
fn subview_stack_operations() {
    let mut stack = SubviewStack::<u32>::default();
    stack.set(1);
    assert_eq!(stack.iter().copied().collect::<Vec<_>>(), vec![1]);
    stack.push(2);
    stack.push(3);
    stack.set(4);
    assert_eq!(stack.iter().copied().collect::<Vec<_>>(), vec![1, 2, 4]);
    stack.pop();
    assert_eq!(stack.len(), 2);
    stack.clear();
    assert_eq!(stack.len(), 0);
    stack.pop();
    assert_eq!(stack.len(), 0);
}

#[test]
fn runtime_values() {
    let mut rt = Runtime::<String>::new();
    let a = rt.new_value_id();
    let b = rt.new_value_id();
    assert_eq!(a, ValueId(0));
    assert_eq!(b, ValueId(1));
    rt.create_value(a, "x".to_string());
    rt.create_value(b, "y".to_string());
    rt.set_value(a, "z".to_string());
    assert_eq!(rt.get_value(a), "z");
    assert_eq!(rt.get_value(b), "y");
    rt.create_value(b, "w".to_string());
    assert_eq!(rt.get_value(b), "w");
    rt.remove_value(a);
    assert!(!rt.has_value(a));
    assert!(rt.has_value(b));
}

#[test]
fn async_state_transitions() {
    let s: UseAsyncState<u32, String> = UseAsyncState::Init;
    let s = s.start();
    assert_eq!(s, UseAsyncState::Loading(PreviousUseAsyncState::NoOutcome));
    assert!(s.loading());
    let s: UseAsyncState<u32, String> = UseAsyncState::resolve(Ok(5));
    assert!(s.succeeded());
    let s = s.start();
    assert_eq!(s, UseAsyncState::Loading(PreviousUseAsyncState::Success(5)));
    assert_eq!(s.clone().start(), s);
    let f: UseAsyncState<u32, String> = UseAsyncState::resolve(Err("bad".to_string()));
    assert!(f.failed());
    assert_eq!(UseAsyncState::<u32, String>::update(9), UseAsyncState::Success(9));
    let c: UseCommandState<u32> = UseCommandState::Resolved(3);
    assert_eq!(c.value(), Some(&3));
    assert_eq!(UseCommandState::<u32>::Loading.value(), None);
    assert_eq!(UseDemoHandle::Resolved(true).resolved(), Some(true));
    assert_eq!(UseDemoHandle::Unresolved.resolved(), None);
}

#[test]
fn alerts() {
    assert!(AlertDuration::Infinite.is_infinite());
    assert!(!AlertDuration::Finite(3).is_infinite());
    assert_eq!(alert_timer(true, AlertDuration::Finite(3), false), Some(3000));
    assert_eq!(alert_timer(true, AlertDuration::Finite(3), true), None);
    assert_eq!(alert_timer(false, AlertDuration::Finite(3), false), None);
    assert_eq!(alert_timer(true, AlertDuration::Infinite, false), None);
    assert_eq!(GlobalAlertStatus::Opening.advance(), (GlobalAlertStatus::Open, Some(true)));
    assert_eq!(GlobalAlertStatus::Closing.advance(), (GlobalAlertStatus::Closed, Some(false)));
    assert_eq!(GlobalAlertStatus::Open.advance(), (GlobalAlertStatus::Open, None));
    let mut alert = GlobalAlert::closed(String::new());
    alert.open(UseAlert::new(String::new()).title("Oops").close_after(4).html("body".to_string()));
    assert_eq!(alert.status, GlobalAlertStatus::Opening);
    assert_eq!(alert.title, "Oops");
    assert_eq!(alert.duration, AlertDuration::Finite(4));
    assert_eq!(alert.content, "body");
    alert.close();
    assert_eq!(alert.status, GlobalAlertStatus::Closing);
    let cfg = UseAlert::new(0u8).duration(AlertDuration::Finite(1)).duration(AlertDuration::Infinite);
    let mut a2 = GlobalAlert::closed(1u8);
    a2.open(cfg);
    assert_eq!(a2.duration, AlertDuration::Infinite);
    assert_eq!(a2.content, 0);
}

#[test]
fn runtime_values_are_held_between_create_and_remove() {
    let mut rt = Runtime::<u32>::new();
    let id = rt.new_value_id();
    assert_eq!(rt.try_get_value(id), None);
    rt.create_value(id, 5);
    assert_eq!(rt.try_get_value(id), Some(&5));
    rt.set_value(id, 6);
    assert_eq!(rt.try_get_value(id), Some(&6));
    rt.remove_value(id);
    assert_eq!(rt.try_get_value(id), None);
    assert_eq!(rt.try_get_value(ValueId(9)), None);
}
