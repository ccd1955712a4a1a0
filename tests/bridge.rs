use monitor_bridge::bridge::{Channel, DispatchError};

fn dispatch_and_collect(n: u32) -> Vec<u32> {
    let mut c: Channel<u32> = Channel::new();
    for i in 0..n {
        assert_eq!(c.dispatch(i), Ok(()));
    }
    assert_eq!(c.pending_len(), n as usize);
    let mut got = Vec::new();
    while let Some(p) = c.deliver_next() {
        got.push(p);
    }
    got
}

#[test]
fn dispatch_order_kept_for_none() {
    assert_eq!(dispatch_and_collect(0), Vec::<u32>::new());
}

#[test]
fn dispatch_order_kept_for_one() {
    assert_eq!(dispatch_and_collect(1), vec![0]);
}

#[test]
fn dispatch_order_kept_for_hundred() {
    let expected: Vec<u32> = (0..100).collect();
    assert_eq!(dispatch_and_collect(100), expected);
}

#[test]
fn deliver_all_hands_over_in_order() {
    let mut c: Channel<String> = Channel::new();
    assert_eq!(c.dispatch("a".to_string()), Ok(()));
    assert_eq!(c.dispatch("b".to_string()), Ok(()));
    assert_eq!(c.dispatch("c".to_string()), Ok(()));
    assert_eq!(c.deliver_all(), vec!["a".to_string(), "b".to_string(), "c".to_string()]);
    assert_eq!(c.pending_len(), 0);
    assert!(c.is_open());
    assert_eq!(c.deliver_next(), None);
}

#[test]
fn dispatch_after_teardown_is_refused() {
    let mut c: Channel<u32> = Channel::new();
    assert_eq!(c.dispatch(1), Ok(()));
    c.tear_down();
    assert!(!c.is_open());
    assert_eq!(c.dispatch(2), Err(DispatchError::RuntimeShuttingDown));
    assert_eq!(c.dispatch(3), Err(DispatchError::RuntimeShuttingDown));
    assert_eq!(c.pending_len(), 1);
    assert_eq!(c.deliver_next(), Some(1));
    assert_eq!(c.deliver_next(), None);
}
