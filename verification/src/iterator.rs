//! The iterator protocol: what `next()` and `return()` of an iterator or an
//! async iterator answer, from what the Rust side produced. A result is an
//! object with `done` and `value`; an async iterator answers with a promise
//! of one, and `return()` ends the stream behind it.

use vstd::prelude::*;
use crate::context::JSContext;
use crate::engine::JSObjectOps;
use crate::error::{JSResult, RongJSError};
use crate::object::JSObject;
use crate::value::JSValue;

verus! {

/// What a `next()` or `return()` call of an async iterator met.
pub enum AsyncIterEvent<T> {
    /// The stream produced an item.
    Item(T),
    /// The stream ended.
    End,
    /// Reading the stream failed.
    Failed,
    /// No promise could be made for the answer.
    NoPromise,
    /// `return()` was called: iteration stops early.
    ReturnCalled,
}

/// An iterator result, and whether the stream behind it is to be closed.
pub struct IterStep<T> {
    pub done: bool,
    pub value: Option<T>,
    pub close_stream: bool,
}

/// The answer of a synchronous iterator's `next()`: the item, not done; or
/// done, with no value, once the Rust iterator is exhausted.
pub fn iter_step<T>(item: Option<T>) -> (r: IterStep<T>)
    ensures
        item is Some ==> !r.done && r.value == item,
        item is None ==> r.done && r.value is None,
        !r.close_stream,
{
    match item {
        Some(v) => IterStep { done: false, value: Some(v), close_stream: false },
        None => IterStep { done: true, value: None, close_stream: false },
    }
}

/// The answer of an async iterator: an item is handed out, not done; the end
/// of the stream, a failed read, or a promise that cannot be made all answer
/// done with no value; `return()` answers done and closes the stream, so that
/// every later `next()` answers done.
pub fn async_iter_step<T>(e: AsyncIterEvent<T>) -> (r: IterStep<T>)
    ensures
        e matches AsyncIterEvent::Item(v) ==> !r.done && r.value == Some(v) && !r.close_stream,
        (e is End || e is Failed || e is NoPromise) ==> r.done && r.value is None && !r.close_stream,
        e is ReturnCalled ==> r.done && r.value is None && r.close_stream,
{
    match e {
        AsyncIterEvent::Item(v) => IterStep { done: false, value: Some(v), close_stream: false },
        AsyncIterEvent::End => IterStep { done: true, value: None, close_stream: false },
        AsyncIterEvent::Failed => IterStep { done: true, value: None, close_stream: false },
        AsyncIterEvent::NoPromise => IterStep { done: true, value: None, close_stream: false },
        AsyncIterEvent::ReturnCalled => IterStep { done: true, value: None, close_stream: true },
    }
}

/// Whether a stream is still read: once `return()` closed it, it is not.
pub struct StreamState {
    closed: bool,
}

impl StreamState {
    pub closed spec fn spec_closed(&self) -> bool {
        self.closed
    }

    /// A stream not yet closed.
    pub fn new() -> (r: Self)
        ensures
            !r.spec_closed(),
    {
        StreamState { closed: false }
    }

    /// Whether the next `next()` reads the stream.
    pub fn reads(&self) -> (r: bool)
        ensures
            r == !self.spec_closed(),
    {
        !self.closed
    }

    /// Takes the answer to an event: a step that closes the stream closes it
    /// for good. A closed stream answers every `next()` with done.
    pub fn apply<T>(&mut self, e: AsyncIterEvent<T>) -> (r: IterStep<T>)
        ensures
            old(self).spec_closed() ==> r.done && r.value is None,
            !old(self).spec_closed() ==> r == async_iter_step_spec(e),
            final(self).spec_closed() == (old(self).spec_closed() || e is ReturnCalled),
    {
        let closes = match e {
            AsyncIterEvent::ReturnCalled => true,
            _ => false,
        };
        if self.closed {
            IterStep { done: true, value: None, close_stream: closes }
        } else {
            let r = async_iter_step(e);
            if closes {
                self.closed = true;
            }
            r
        }
    }
}

/// The answer [`async_iter_step`] gives, as a spec function.
pub open spec fn async_iter_step_spec<T>(e: AsyncIterEvent<T>) -> IterStep<T> {
    match e {
        AsyncIterEvent::Item(v) => IterStep { done: false, value: Some(v), close_stream: false },
        AsyncIterEvent::ReturnCalled => IterStep { done: true, value: None, close_stream: true },
        _ => IterStep { done: true, value: None, close_stream: false },
    }
}

/// The `done` and `value` an iterator result holds for a step: the item, or
/// `undefined` when there is none.
pub fn iter_result_fields<V: JSObjectOps>(ctx: &JSContext<V::Context>, step: IterStep<JSValue<V>>)
    -> (r: (bool, JSValue<V>))
    ensures
        r.0 == step.done,
        step.value matches Some(v) ==> r.1 == v,
        step.value is None ==> r.1.raw().spec_is_undefined() && r.1.spec_ctx() == *ctx,
{
    let value = match step.value {
        Some(v) => v,
        None => JSValue::undefined(ctx),
    };
    (step.done, value)
}

/// Writes an iterator result's `done` and `value` on `result`; an error
/// carries what the engine threw.
pub fn write_iter_result<V: JSObjectOps>(result: &JSObject<V>, fields: (bool, JSValue<V>)) -> (r: JSResult<()>)
    ensures
        r matches Err(e) ==> e.thrown_handle() is Some,
        exists|first: JSResult<&JSObject<V>>|
            #[trigger] call_ensures(JSObject::<V>::set::<&str, bool>, (result, "done", fields.0), first)
            && (first matches Err(e) ==> r == Err::<(), RongJSError>(e))
            && (first is Ok ==> exists|second: JSResult<&JSObject<V>>|
                #[trigger] call_ensures(JSObject::<V>::set::<&str, JSValue<V>>, (result, "value", fields.1), second)
                && (second matches Err(e) ==> r == Err::<(), RongJSError>(e))
                && (second is Ok ==> r is Ok)),
{
    let (done, value) = fields;
    let first = result.set("done", done);
    assert(call_ensures(JSObject::<V>::set::<&str, bool>, (result, "done", fields.0), first));
    match first {
        Ok(_) => {},
        Err(e) => { return Err(e); },
    }
    let second = result.set("value", value);
    assert(call_ensures(JSObject::<V>::set::<&str, JSValue<V>>, (result, "value", fields.1), second));
    match second {
        Ok(_) => Ok(()),
        Err(e) => Err(e),
    }
}

} // verus!
