use rong_core::array::{length_after_push, ArrayCursor};
use rong_core::array_buffer::{byte_range, elements_in};
use rong_core::error::{E_OUT_OF_RANGE};
use rong_core::object::{read_outcome, ReadOutcome};
use rong_core::rong::{WorkerLoopState, WorkerState};

#[test]
fn push_length_grows_by_one() {
    assert_eq!(length_after_push(0).ok(), Some(1));
    assert_eq!(length_after_push(41).ok(), Some(42));
    assert_eq!(length_after_push(u32::MAX - 1).ok(), Some(u32::MAX));
}

#[test]
fn push_past_largest_length_is_range_error() {
    let e = length_after_push(u32::MAX).err().expect("error");
    let h = e.as_host_error().expect("host error");
    assert_eq!(h.name, "RangeError");
    assert_eq!(h.code, E_OUT_OF_RANGE);
    assert_eq!(h.message, "Invalid array length");
}

#[test]
fn cursor_walks_each_index_once() {
    let mut c = ArrayCursor::new(3);
    assert_eq!(c.remaining(), 3);
    assert_eq!(c.next_index(), Some(0));
    assert_eq!(c.next_index(), Some(1));
    assert_eq!(c.remaining(), 1);
    assert_eq!(c.next_index(), Some(2));
    assert_eq!(c.next_index(), None);
    assert_eq!(c.next_index(), None);
    assert_eq!(c.remaining(), 0);
    let mut empty = ArrayCursor::new(0);
    assert_eq!(empty.next_index(), None);
}

#[test]
fn elements_fill_exactly_or_fail() {
    assert_eq!(elements_in(16, 4).ok(), Some(4));
    assert_eq!(elements_in(0, 8).ok(), Some(0));
    let e = elements_in(10, 4).err().expect("error");
    let h = e.as_host_error().expect("host error");
    assert_eq!(h.name, "RangeError");
    assert_eq!(h.message, "Invalid TypedArray alignment: byte_offset must be a multiple of element size");
}

#[test]
fn byte_range_inside_and_outside() {
    let data = [1u8, 2, 3, 4, 5];
    assert_eq!(byte_range(&data, 1, 4), &[2u8, 3, 4][..]);
    assert_eq!(byte_range(&data, 0, 5), &data[..]);
    assert_eq!(byte_range(&data, 2, 2).len(), 0);
    assert_eq!(byte_range(&data, 4, 2).len(), 0);
    assert_eq!(byte_range(&data, 3, 9).len(), 0);
}

#[test]
fn read_outcomes() {
    assert!(matches!(read_outcome(true, false), ReadOutcome::Value));
    assert!(matches!(read_outcome(true, true), ReadOutcome::Value));
    assert!(matches!(read_outcome(false, true), ReadOutcome::Undefined));
    assert!(matches!(read_outcome(false, false), ReadOutcome::Missing));
}

#[test]
fn worker_loop_runs_one_task_at_a_time() {
    let mut w = WorkerLoopState::new();
    assert_eq!(w.state(), WorkerState::Free);
    assert!(w.keeps_running());
    assert!(w.accepts_task());
    assert!(!w.accepts_message());
    w.on_task_started();
    assert_eq!(w.state(), WorkerState::Busy);
    assert!(!w.accepts_task());
    assert!(w.accepts_message());
    w.on_task_finished();
    assert_eq!(w.state(), WorkerState::Free);
    assert!(w.accepts_task());
}

#[test]
fn worker_terminate_aborts_running_task() {
    let mut w = WorkerLoopState::new();
    w.on_task_started();
    assert!(w.on_terminate());
    assert!(!w.keeps_running());
    assert!(!w.accepts_task());
    w.on_exit();
    assert_eq!(w.state(), WorkerState::Free);
    let mut idle = WorkerLoopState::new();
    assert!(!idle.on_terminate());
    let mut closed = WorkerLoopState::new();
    closed.on_queue_closed();
    assert!(!closed.keeps_running());
}
