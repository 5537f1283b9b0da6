use rong_core::scheduler::{InvokeQueueState, JsInvokePriority};

fn drain(q: &mut InvokeQueueState<u32>) -> Vec<u32> {
    let mut out = Vec::new();
    while let Some(item) = q.take_next() {
        out.push(item.payload);
    }
    out
}

#[test]
fn high_runs_before_normal_before_event() {
    let mut q = InvokeQueueState::new();
    q.enqueue_item(JsInvokePriority::Event, None, 1);
    q.enqueue_item(JsInvokePriority::Normal, None, 2);
    q.enqueue_item(JsInvokePriority::High, None, 3);
    q.enqueue_item(JsInvokePriority::Normal, None, 4);
    q.enqueue_item(JsInvokePriority::High, None, 5);
    assert_eq!(drain(&mut q), vec![3, 5, 2, 4, 1]);
    assert!(q.is_empty());
}

#[test]
fn last_event_with_a_key_wins() {
    let mut q = InvokeQueueState::new();
    q.enqueue_item(JsInvokePriority::Event, Some("resize".to_string()), 1);
    q.enqueue_item(JsInvokePriority::Event, Some("scroll".to_string()), 2);
    q.enqueue_item(JsInvokePriority::Event, Some("resize".to_string()), 3);
    q.enqueue_item(JsInvokePriority::Event, None, 4);
    q.enqueue_item(JsInvokePriority::Event, Some("resize".to_string()), 5);
    assert_eq!(drain(&mut q), vec![2, 4, 5]);
}

#[test]
fn generations_are_stamped_on_keyed_events_only() {
    let mut q = InvokeQueueState::new();
    q.enqueue_item(JsInvokePriority::Event, Some("a".to_string()), 10);
    q.enqueue_item(JsInvokePriority::High, Some("a".to_string()), 11);
    q.enqueue_item(JsInvokePriority::Event, None, 12);
    let first = q.take_next().unwrap();
    assert_eq!(first.payload, 11);
    assert_eq!(first.generation, 0);
    let second = q.take_next().unwrap();
    assert_eq!(second.payload, 10);
    assert_eq!(second.generation, 1);
    let third = q.take_next().unwrap();
    assert_eq!(third.generation, 0);
    assert!(q.take_next().is_none());
}

#[test]
fn key_is_retired_after_delivery() {
    let mut q = InvokeQueueState::new();
    q.enqueue_item(JsInvokePriority::Event, Some("k".to_string()), 1);
    assert_eq!(q.take_next().unwrap().payload, 1);
    q.enqueue_item(JsInvokePriority::Event, Some("k".to_string()), 2);
    let item = q.take_next().unwrap();
    assert_eq!(item.payload, 2);
    assert_eq!(item.generation, 2);
    assert!(q.take_next().is_none());
}

#[test]
fn empty_queue_gives_nothing() {
    let mut q: InvokeQueueState<u32> = InvokeQueueState::new();
    assert!(q.is_empty());
    assert!(q.take_next().is_none());
}
