use rong_core::array::last_index;
use rong_core::error::{HostError, RongJSError, E_IO};
use rong_core::iterator::{async_iter_step, iter_step, AsyncIterEvent, StreamState};
use rong_core::rong::{MessageAction, WorkerLoopState};
use rong_core::thrown_store::ThrownValueStore;

#[test]
fn host_error_display_text() {
    let h = HostError::new(E_IO, "disk full");
    assert_eq!(h.display_text(), "E_IO: disk full");
    let e = RongJSError::from(HostError::new(E_IO, "disk full"));
    assert_eq!(e.display_text(), "E_IO: disk full");
}

#[test]
fn store_reuses_freed_slot_with_new_generation() {
    let mut s: ThrownValueStore<&str> = ThrownValueStore::new();
    let h1 = s.insert(7, "a");
    assert_eq!(s.take(7, h1), Some("a"));
    let h2 = s.insert(7, "b");
    assert_eq!(s.get(7, h1), None);
    assert_eq!(s.take(7, h1), None);
    assert_eq!(s.get(7, h2), Some(&"b"));
    assert_eq!(s.take(7, h2), Some("b"));
    assert_eq!(s.take(7, h2), None);
}

#[test]
fn sync_iterator_steps() {
    let s = iter_step(Some(5));
    assert!(!s.done);
    assert_eq!(s.value, Some(5));
    let e = iter_step::<i32>(None);
    assert!(e.done);
    assert_eq!(e.value, None);
}

#[test]
fn async_iterator_steps() {
    let s = async_iter_step(AsyncIterEvent::Item("x"));
    assert!(!s.done && s.value == Some("x") && !s.close_stream);
    for ev in [AsyncIterEvent::End, AsyncIterEvent::Failed, AsyncIterEvent::NoPromise] {
        let s = async_iter_step::<&str>(ev);
        assert!(s.done && s.value.is_none() && !s.close_stream);
    }
    let r = async_iter_step::<&str>(AsyncIterEvent::ReturnCalled);
    assert!(r.done && r.value.is_none() && r.close_stream);
}

#[test]
fn closed_stream_answers_done() {
    let mut st = StreamState::new();
    assert!(st.reads());
    let s = st.apply(AsyncIterEvent::Item(1));
    assert_eq!(s.value, Some(1));
    let s = st.apply::<i32>(AsyncIterEvent::ReturnCalled);
    assert!(s.done && s.close_stream);
    assert!(!st.reads());
    let s = st.apply(AsyncIterEvent::Item(2));
    assert!(s.done && s.value.is_none());
}

#[test]
fn idle_worker_drops_messages() {
    let mut w = WorkerLoopState::new();
    assert_eq!(w.on_message(), MessageAction::Drop);
    w.on_task_started();
    assert_eq!(w.on_message(), MessageAction::Deliver);
    w.on_task_finished();
    assert_eq!(w.on_message(), MessageAction::Drop);
}

#[test]
fn last_index_of_array() {
    assert_eq!(last_index(0), None);
    assert_eq!(last_index(1), Some(0));
    assert_eq!(last_index(10), Some(9));
}
