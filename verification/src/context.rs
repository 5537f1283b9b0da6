//! Contexts: the engine context together with its runtime, the `Rong` object
//! and the store of thrown values.

use vstd::prelude::*;
use vstd::cell::invcell::InvCell;
use vstd::predicate::Predicate;
use std::rc::Rc;
use crate::engine::{JSContextImpl, JSObjectOps, JSTypeOf, JSValueImpl};
use crate::error::{JSResult, RongJSError};
use crate::object::JSObject;
use crate::runtime::JSRuntime;
use crate::source::{Source, SourceKind};
use crate::thrown_store::{ThrownValueHandle, ThrownValueStore};
use crate::value::{FromJSValue, JSValue};

verus! {

/// The invariant of a context's thrown-value store: it is well formed.
pub struct StoreInv;

impl<V> Predicate<ThrownValueStore<V>> for StoreInv {
    open spec fn predicate(&self, store: ThrownValueStore<V>) -> bool {
        store.wf()
    }
}

pub(crate) struct JSContextInner<C: JSContextImpl> {
    pub(crate) inner: C,
    pub(crate) runtime: JSRuntime<C::Runtime>,
    pub(crate) rong: C::Value,
    pub(crate) thrown: InvCell<ThrownValueStore<C::Value>, StoreInv>,
}

/// A JavaScript context. Cloning gives another handle to the same context.
pub struct JSContext<C: JSContextImpl> {
    pub(crate) rc: Rc<JSContextInner<C>>,
}

impl<C: JSContextImpl> Clone for JSContext<C> {
    fn clone(&self) -> (r: Self)
        ensures
            r == *self,
    {
        JSContext { rc: Rc::clone(&self.rc) }
    }
}

impl<C: JSContextImpl> JSContext<C> {
    /// The engine context.
    pub closed spec fn spec_engine(&self) -> C {
        self.rc.inner
    }

    /// The engine context.
    pub fn as_ref(&self) -> (r: &C)
        ensures
            *r == self.spec_engine(),
    {
        &self.rc.inner
    }

    /// The runtime this context belongs to.
    pub fn runtime(&self) -> &JSRuntime<C::Runtime> {
        &self.rc.runtime
    }

    /// The identifier of this context.
    pub closed spec fn spec_id(&self) -> usize {
        C::spec_context_id(self.rc.inner.spec_raw())
    }

    /// The `Rong` object of this context.
    pub closed spec fn spec_rong(&self) -> C::Value {
        self.rc.rong
    }

    /// A context made of its parts.
    pub(crate) fn assemble(inner: C, runtime: JSRuntime<C::Runtime>, rong: C::Value,
        thrown: InvCell<ThrownValueStore<C::Value>, StoreInv>) -> (r: Self)
        ensures
            r.spec_rong() == rong,
    {
        JSContext { rc: Rc::new(JSContextInner { inner, runtime, rong, thrown }) }
    }

    /// The identifier of this context.
    pub fn context_id(&self) -> (r: usize)
        ensures
            r == self.spec_id(),
    {
        C::context_id(self.rc.inner.as_raw())
    }

    /// Stores a thrown payload and returns its handle. When the store is out
    /// of slot ids, the handle returned resolves to nothing.
    pub(crate) fn capture_thrown(&self, value: C::Value) -> (h: ThrownValueHandle)
        ensures
            h.spec_context_id() == self.spec_id(),
    {
        let context_id = self.context_id();
        let mut store = self.rc.thrown.replace(ThrownValueStore::new());
        let handle = if store.has_room() {
            store.insert(context_id, value)
        } else {
            ThrownValueHandle::dangling(context_id)
        };
        self.rc.thrown.replace(store);
        handle
    }

    /// The payload of a handle of this context, while it is stored.
    pub(crate) fn resolve_thrown(&self, handle: ThrownValueHandle) -> (r: Option<C::Value>)
        where C::Value: Clone,
        ensures
            handle.spec_context_id() != self.spec_id() ==> r is None,
    {
        let context_id = self.context_id();
        let store = self.rc.thrown.replace(ThrownValueStore::new());
        let r = match store.get(context_id, handle) {
            Some(v) => Some(v.clone()),
            None => None,
        };
        self.rc.thrown.replace(store);
        r
    }

    /// Removes and returns the payload of a handle of this context.
    pub(crate) fn take_thrown(&self, handle: ThrownValueHandle) -> (r: Option<C::Value>)
        ensures
            handle.spec_context_id() != self.spec_id() ==> r is None,
    {
        let context_id = self.context_id();
        let mut store = self.rc.thrown.replace(ThrownValueStore::new());
        let r = store.take(context_id, handle);
        self.rc.thrown.replace(store);
        r
    }
}

impl<C: JSContextImpl> JSContext<C> where C::Value: JSValueImpl<Context = C> {
    /// The global `Rong` object of this context.
    pub fn rong(&self) -> (r: JSObject<C::Value>)
        ensures
            cloned::<C::Value>(self.spec_rong(), r.raw()),
            r.spec_ctx() == *self,
    {
        JSObject::from_raw(self, self.rc.rong.clone())
    }

    /// The global object.
    pub fn global(&self) -> (r: JSObject<C::Value>)
        ensures
            r.spec_ctx() == *self,
            call_ensures(C::global, (&self.spec_engine(),), r.raw()),
    {
        let raw = self.rc.inner.global();
        assert(call_ensures(C::global, (&self.spec_engine(),), raw));
        JSObject::from_raw(self, raw)
    }

    /// Evaluates a source, running bytecode or JavaScript as its kind says,
    /// and converts the result; an exception becomes the error that carries it.
    pub fn eval<T: FromJSValue<C::Value>>(&self, source: Source) -> (r: JSResult<T>)
        where C::Value: JSTypeOf,
        ensures
            r is Ok ==> crate::value::conversion_can_give::<C::Value, T>(r),
            r matches Err(e) ==> e.thrown_handle() is Some || crate::value::conversion_can_give::<C::Value, T>(Err(e)),
            exists|result: C::Value| {
                &&& source.spec_kind() matches SourceKind::ByteCode(code) ==> exists|bytes: &[u8]|
                    #[trigger] call_ensures(C::run_bytecode, (&self.spec_engine(), bytes), result) && bytes@ == code@
                &&& source.spec_kind() matches SourceKind::JavaScript(code) ==> exists|script: Source|
                    #[trigger] call_ensures(C::eval, (&self.spec_engine(), script), result)
                    && (script.spec_kind() matches SourceKind::JavaScript(c) && c@ == code@)
                &&& result.spec_is_exception() ==> (r matches Err(e) && e.thrown_handle() is Some)
                &&& !result.spec_is_exception() ==> exists|v: JSValue<C::Value>|
                    #[trigger] call_ensures(T::from_js_value, (self, v), r) && v.raw() == result
            },
    {
        let ghost engine = self.spec_engine();
        let result = match source.kind() {
            SourceKind::ByteCode(code) => {
                let bytes = code.as_slice();
                let result = self.rc.inner.run_bytecode(bytes);
                assert(call_ensures(C::run_bytecode, (&engine, bytes), result));
                result
            },
            SourceKind::JavaScript(code) => {
                let script = Source::from_bytes(code.as_slice());
                let ghost script_g = script;
                let result = self.rc.inner.eval(script);
                assert(call_ensures(C::eval, (&engine, script_g), result));
                result
            },
        };
        let value = JSValue::from_raw(self, result);
        let ghost value_g = value;
        let r = value.try_convert::<T>();
        proof {
            if !result.spec_is_exception() {
                assert(call_ensures(T::from_js_value, (self, value_g), r));
            }
        }
        r
    }

    /// Compiles JavaScript code to a bytecode source.
    pub fn compile_to_bytecode(&self, code: &[u8]) -> (r: JSResult<Source>)
        ensures
            r matches Ok(s) ==> s.spec_kind() is ByteCode && s.spec_name() is None,
            r matches Err(e) ==> crate::error::is_bytecode_failure(e),
            exists|script: Source, answer: Result<Vec<u8>, RongJSError>|
                #[trigger] call_ensures(C::compile_to_bytecode, (&self.spec_engine(), script), answer)
                && (script.spec_kind() matches SourceKind::JavaScript(c) && c@ == code@)
                && (answer matches Err(e) ==> r == Err::<Source, RongJSError>(e))
                && (answer matches Ok(bytes) ==> r matches Ok(s) && s.spec_kind() == SourceKind::ByteCode(bytes)),
    {
        let script = Source::from_bytes(code);
        let ghost script_g = script;
        let answer = self.rc.inner.compile_to_bytecode(script);
        assert(call_ensures(C::compile_to_bytecode, (&self.spec_engine(), script_g), answer));
        match answer {
            Ok(bytes) => Ok(Source::from_bytecode(bytes)),
            Err(e) => Err(e),
        }
    }
}

impl RongJSError {
    /// An error carrying a value that JavaScript threw or rejected with; the
    /// value is stored in its context.
    pub fn from_thrown_value<V: JSValueImpl>(value: JSValue<V>) -> (r: Self)
        ensures
            r.thrown_handle() is Some,
            r.thrown_handle()->0.spec_context_id() == value.spec_ctx().spec_id(),
    {
        let ctx = value.context();
        RongJSError::from_handle(ctx.capture_thrown(value.into_value()))
    }

    /// Same as [`RongJSError::from_thrown_value`].
    pub fn from_jsvalue<V: JSValueImpl>(value: JSValue<V>) -> (r: Self)
        ensures
            r.thrown_handle() is Some,
            r.thrown_handle()->0.spec_context_id() == value.spec_ctx().spec_id(),
    {
        Self::from_thrown_value(value)
    }

    /// The thrown payload, while the context still holds it.
    pub fn thrown_value<C: JSContextImpl>(&self, ctx: &JSContext<C>) -> (r: Option<JSValue<C::Value>>)
        where C::Value: JSValueImpl<Context = C>,
        ensures
            self.thrown_handle() is None ==> r is None,
            self.thrown_handle() matches Some(h) && h.spec_context_id() != ctx.spec_id() ==> r is None,
            r matches Some(v) ==> v.spec_ctx() == *ctx,
    {
        match self.thrown_handle_exec() {
            Some(handle) => match ctx.resolve_thrown(handle) {
                Some(v) => Some(JSValue::from_raw(ctx, v)),
                None => None,
            },
            None => None,
        }
    }
}

} // verus!
