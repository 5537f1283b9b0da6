//! Promises: creation with their resolving functions, settlement from Rust
//! results, and the state a Rust waiter keeps of a promise.

use vstd::prelude::*;
use crate::context::JSContext;
use crate::engine::{JSArrayOps, JSContextImpl, JSErrorFactory, JSObjectOps, JSTypeOf, JSValueImpl};
use crate::error::{JSResult, RongJSError};
use crate::function::JSFunc;
use crate::object::{is_missing_property, property_get_gives, JSObject};
use crate::parameter::JSParameterType;
use crate::value::{conversion_can_give, FromJSValue, IntoJSValue, JSValue};
use crate::property::PropertyKey;

verus! {

/// A JavaScript promise.
pub struct Promise<V: JSValueImpl> {
    obj: JSObject<V>,
}

impl<V: JSValueImpl> Clone for Promise<V> {
    fn clone(&self) -> (r: Self)
        ensures
            r == *self,
    {
        Promise { obj: self.obj.clone() }
    }
}

impl<V: JSValueImpl> Promise<V> {
    pub closed spec fn raw(&self) -> V {
        self.obj.raw()
    }

    /// The promise as an object.
    pub closed spec fn spec_object(&self) -> JSObject<V> {
        self.obj
    }

    /// The promise as an object.
    pub fn as_object(&self) -> (r: &JSObject<V>)
        ensures
            r.raw() == self.raw(),
    {
        &self.obj
    }

    /// The promise as an object, consuming it.
    pub fn into_object(self) -> (r: JSObject<V>)
        ensures
            r.raw() == self.raw(),
    {
        self.obj
    }
}

impl<V: JSValueImpl> IntoJSValue<V> for Promise<V> {
    fn into_js_value(self, _ctx: &JSContext<V::Context>) -> (r: JSValue<V>)
        ensures
            JSValue::<V>::raw(&r) == self.raw(),
    {
        self.obj.into_js_value()
    }
}

impl<V: JSTypeOf> FromJSValue<V> for Promise<V> {
    /// Any object; other values are the `NotObject` error.
    fn from_js_value(ctx: &JSContext<V::Context>, value: JSValue<V>) -> (r: JSResult<Self>)
        ensures
            value.raw().spec_is_object() <==> r is Ok,
    {
        match JSObject::from_js_value(ctx, value) {
            Ok(obj) => Ok(Promise { obj }),
            Err(e) => Err(e),
        }
    }
}

impl<V: JSValueImpl> JSParameterType for Promise<V> {}

impl<C: JSContextImpl> JSContext<C> where C::Value: JSTypeOf<Context = C> {
    /// A new pending promise with its resolve and reject functions.
    pub fn promise(&self) -> (r: JSResult<(Promise<C::Value>, JSFunc<C::Value>, JSFunc<C::Value>)>)
        ensures
            r matches Ok((p, res, rej)) ==> p.raw().spec_is_object() && res.raw().spec_is_function()
                && rej.raw().spec_is_function(),
            r matches Err(e) ==> conversion_can_give::<C::Value, JSObject<C::Value>>(Err(e)) || conversion_can_give::<C::Value,
                JSFunc<C::Value>>(Err(e)),
    {
        let (promise, resolve, reject) = self.as_ref().promise();
        let obj = match JSObject::from_js_value(self, JSValue::from_raw(self, promise)) {
            Ok(o) => o,
            Err(e) => { return Err(e); },
        };
        let resolve = match JSFunc::from_js_value(self, JSValue::from_raw(self, resolve)) {
            Ok(f) => f,
            Err(e) => { return Err(e); },
        };
        let reject = match JSFunc::from_js_value(self, JSValue::from_raw(self, reject)) {
            Ok(f) => f,
            Err(e) => { return Err(e); },
        };
        Ok((Promise { obj }, resolve, reject))
    }
}

impl<V: JSObjectOps> Promise<V> {
    /// A new pending promise with its resolve and reject functions.
    pub fn new(ctx: &JSContext<V::Context>) -> (r: JSResult<(Promise<V>, JSFunc<V>, JSFunc<V>)>)
        ensures
            r matches Ok((p, res, rej)) ==> p.raw().spec_is_object() && res.raw().spec_is_function()
                && rej.raw().spec_is_function(),
            r matches Err(e) ==> conversion_can_give::<V, JSObject<V>>(Err(e)) || conversion_can_give::<V, JSFunc<V>>(Err(e)),
    {
        ctx.promise()
    }

    /// The promise's `then` method.
    pub fn then_fn(&self) -> (r: JSResult<JSFunc<V>>)
        ensures
            r is Ok ==> conversion_can_give::<V, JSFunc<V>>(r),
            r matches Err(e) ==> e.thrown_handle() is Some || is_missing_property(e, PropertyKey::<V>::Str("then"))
                || conversion_can_give::<V, JSFunc<V>>(Err(e)),
            property_get_gives(self.spec_object(), PropertyKey::<V>::Str("then"), r),
    {
        self.obj.get::<&str, JSFunc<V>>("then")
    }

    /// The promise's `catch` method.
    pub fn catch(&self) -> (r: JSResult<JSFunc<V>>)
        ensures
            r is Ok ==> conversion_can_give::<V, JSFunc<V>>(r),
            r matches Err(e) ==> e.thrown_handle() is Some || is_missing_property(e, PropertyKey::<V>::Str("catch"))
                || conversion_can_give::<V, JSFunc<V>>(Err(e)),
            property_get_gives(self.spec_object(), PropertyKey::<V>::Str("catch"), r),
    {
        self.obj.get::<&str, JSFunc<V>>("catch")
    }

    /// Calls `promise.then(resolve, reject)`.
    pub fn attach_handlers(&self, resolve: &JSFunc<V>, reject: &JSFunc<V>) -> (r: JSResult<()>)
        ensures
            r matches Err(e) ==> e.thrown_handle() is Some || is_missing_property(e, PropertyKey::<V>::Str("then"))
                || conversion_can_give::<V, JSFunc<V>>(Err(e)),
            exists|got: JSResult<JSFunc<V>>|
                #[trigger] property_get_gives(self.spec_object(), PropertyKey::<V>::Str("then"), got)
                && (got matches Err(e) ==> r == Err::<(), RongJSError>(e))
                && (got matches Ok(f) ==> exists|argv: Vec<V>, result: V|
                    #[trigger] call_ensures(<V::Context as JSContextImpl>::call, (&f.spec_ctx().spec_engine(), &f.raw(),
                        self.raw(), argv), result)
                    && argv@ == seq![resolve.raw(), reject.raw()]
                    && (r is Ok <==> !result.spec_is_exception())),
    {
        let got = self.then_fn();
        assert(property_get_gives(self.spec_object(), PropertyKey::<V>::Str("then"), got));
        let then_f = match got {
            Ok(f) => f,
            Err(e) => { return Err(e); },
        };
        let mut argv: Vec<V> = Vec::new();
        let resolve_value = resolve.as_object().as_value().clone();
        let reject_value = reject.as_object().as_value().clone();
        proof {
            V::lemma_clone_same(resolve.raw(), resolve_value);
            V::lemma_clone_same(reject.raw(), reject_value);
        }
        argv.push(resolve_value);
        argv.push(reject_value);
        assert(argv@ == seq![resolve.raw(), reject.raw()]);
        let ghost argv_g = argv;
        let ctx = self.obj.context();
        let result = then_f.call_with_argv(Some(self.obj.clone()), argv);
        assert(call_ensures(<V::Context as JSContextImpl>::call, (&then_f.spec_ctx().spec_engine(), &then_f.raw(),
            self.raw(), argv_g), result));
        match JSValue::from_raw(&ctx, result).check_exception() {
            Ok(_) => Ok(()),
            Err(e) => Err(e),
        }
    }
}

/// Runs the jobs the engine has pending, so that settled promises call back.
pub fn drain_microtasks<C: JSContextImpl>(ctx: &JSContext<C>) {
    let _ = ctx.runtime().run_pending_jobs();
}

/// How a Rust result settles a promise.
pub trait PromiseResolver<V: JSValueImpl> {
    fn resolve_promise(self, resolve: JSFunc<V>, reject: JSFunc<V>);
}

impl<V: JSObjectOps + JSArrayOps> PromiseResolver<V> for RongJSError where V::Context: JSErrorFactory {
    /// An error rejects the promise with its catch value.
    fn resolve_promise(self, _resolve: JSFunc<V>, reject: JSFunc<V>) {
        let ctx = reject.context();
        let reason = self.into_catch_value(&ctx);
        let mut argv: Vec<V> = Vec::new();
        argv.push(reason.into_value());
        let _ = reject.call_with_argv(None, argv);
        drain_microtasks(&ctx);
    }
}

impl<V: JSObjectOps + JSArrayOps, T: IntoJSValue<V>> PromiseResolver<V> for JSResult<T> where V::Context: JSErrorFactory {
    /// `Ok` resolves the promise with the value; `Err` rejects it with the
    /// error's catch value.
    fn resolve_promise(self, resolve: JSFunc<V>, reject: JSFunc<V>) {
        match self {
            Ok(value) => {
                let ctx = resolve.context();
                let mut argv: Vec<V> = Vec::new();
                argv.push(value.into_js_value(&ctx).into_value());
                let _ = resolve.call_with_argv(None, argv);
                drain_microtasks(&ctx);
            },
            Err(err) => {
                let ctx = reject.context();
                let mut argv: Vec<V> = Vec::new();
                argv.push(err.into_catch_value(&ctx).into_value());
                let _ = reject.call_with_argv(None, argv);
                drain_microtasks(&ctx);
            },
        }
    }
}

/// Where the engine lets a waiter's handlers be registered on a promise.
#[derive(Clone, Copy, Debug, PartialEq, Eq, Structural)]
pub enum PromiseHandlerRegistration {
    /// Only through JavaScript's `then`.
    JavaScriptOnly,
    /// The engine registered them natively.
    NativeOnly,
    /// The engine registered them natively, but `then` is still needed when
    /// the promise is pending after the jobs ran.
    NativeWithJavaScriptFallbackIfPending,
}

/// Whether `then` must be called right after registration.
pub fn attach_now(reg: PromiseHandlerRegistration) -> (r: bool)
    ensures
        r == (reg == PromiseHandlerRegistration::JavaScriptOnly),
{
    match reg {
        PromiseHandlerRegistration::JavaScriptOnly => true,
        _ => false,
    }
}

/// Whether `then` must be called after the pending jobs ran, given whether
/// the waiter is still pending then.
pub fn attach_after_drain(reg: PromiseHandlerRegistration, still_pending: bool) -> (r: bool)
    ensures
        r == (reg == PromiseHandlerRegistration::NativeWithJavaScriptFallbackIfPending && still_pending),
{
    match reg {
        PromiseHandlerRegistration::NativeWithJavaScriptFallbackIfPending => still_pending,
        _ => false,
    }
}

/// What a Rust waiter knows of a promise: still pending, with the waker to
/// call when it settles, or settled with its result.
pub enum PromiseState<W, T> {
    Pending(W),
    Resolved(JSResult<T>),
}

/// The state after a settlement, and the waker to wake: a pending waiter
/// takes the result; a settled one keeps its own.
pub open spec fn settle_spec<W, T>(s: PromiseState<W, T>, result: JSResult<T>) -> (PromiseState<W, T>, Option<W>) {
    match s {
        PromiseState::Pending(w) => (PromiseState::Resolved(result), Some(w)),
        PromiseState::Resolved(_) => (s, None),
    }
}

/// The state after a poll with `waker`, and the result handed out.
pub open spec fn poll_spec<W, T>(s: PromiseState<W, T>, waker: W) -> (PromiseState<W, T>, Option<JSResult<T>>) {
    match s {
        PromiseState::Resolved(res) => (PromiseState::Pending(waker), Some(res)),
        PromiseState::Pending(_) => (PromiseState::Pending(waker), None),
    }
}

/// The state of a Rust waiter on a promise. The first settlement wins, and a
/// poll hands out a settled result once.
pub struct PromiseSettlement<W, T> {
    state: PromiseState<W, T>,
}

impl<W, T> PromiseSettlement<W, T> {
    pub closed spec fn spec_state(&self) -> PromiseState<W, T> {
        self.state
    }

    /// A pending waiter that will wake `waker`.
    pub fn new(waker: W) -> (r: Self)
        ensures
            r.spec_state() == PromiseState::<W, T>::Pending(waker),
    {
        PromiseSettlement { state: PromiseState::Pending(waker) }
    }

    /// Whether the waiter is still pending.
    pub fn is_pending(&self) -> (r: bool)
        ensures
            r == (self.spec_state() is Pending),
    {
        match self.state {
            PromiseState::Pending(_) => true,
            PromiseState::Resolved(_) => false,
        }
    }

    /// The promise settled with `result`. A pending waiter records it and
    /// hands back its waker to wake; a settled one ignores it.
    pub fn settle(&mut self, result: JSResult<T>) -> (r: Option<W>)
        ensures
            (final(self).spec_state(), r) == settle_spec(old(self).spec_state(), result),
    {
        match self.state {
            PromiseState::Pending(_) => {
                let mut previous = PromiseState::Resolved(result);
                std::mem::swap(&mut self.state, &mut previous);
                match previous {
                    PromiseState::Pending(w) => Some(w),
                    PromiseState::Resolved(_) => None,
                }
            },
            PromiseState::Resolved(_) => None,
        }
    }

    /// A poll with the current waker: a settled result is handed out, and the
    /// waiter keeps the waker either way.
    pub fn poll(&mut self, waker: W) -> (r: Option<JSResult<T>>)
        ensures
            (final(self).spec_state(), r) == poll_spec(old(self).spec_state(), waker),
    {
        let mut previous = PromiseState::Pending(waker);
        std::mem::swap(&mut self.state, &mut previous);
        match previous {
            PromiseState::Resolved(res) => Some(res),
            PromiseState::Pending(_) => None,
        }
    }
}

/// The first settlement wins: a second one changes nothing and wakes no one.
pub proof fn law_first_settlement_wins<W, T>(w: W, first: JSResult<T>, second: JSResult<T>)
    ensures
        settle_spec(PromiseState::Pending(w), first) == (PromiseState::<W, T>::Resolved(first), Some(w)),
        settle_spec(settle_spec(PromiseState::<W, T>::Pending(w), first).0, second)
            == (PromiseState::<W, T>::Resolved(first), None::<W>),
{
}

/// A settled result is handed out by the next poll, and only once.
pub proof fn law_result_handed_out_once<W, T>(w: W, result: JSResult<T>, w1: W, w2: W)
    ensures
        ({
            let settled = settle_spec(PromiseState::<W, T>::Pending(w), result).0;
            let (after, out) = poll_spec(settled, w1);
            &&& out == Some(result)
            &&& poll_spec(after, w2) == (PromiseState::<W, T>::Pending(w2), None::<JSResult<T>>)
        }),
{
}

} // verus!
