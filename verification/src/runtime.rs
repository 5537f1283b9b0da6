//! Runtimes and engines.

use vstd::prelude::*;
use vstd::cell::invcell::InvCell;
use std::rc::Rc;
use crate::context::{JSContext, StoreInv};
use crate::engine::{JSContextImpl, JSObjectOps, JSRuntimeImpl, JSTypeOf, JSValueImpl};
use crate::thrown_store::ThrownValueStore;

verus! {

/// A JavaScript runtime of some engine. Cloning gives another handle to it.
pub struct JSRuntime<R: JSRuntimeImpl> {
    pub(crate) inner: Rc<R>,
    pub(crate) engine: &'static str,
}

impl<R: JSRuntimeImpl> Clone for JSRuntime<R> {
    fn clone(&self) -> Self {
        JSRuntime { inner: Rc::clone(&self.inner), engine: self.engine }
    }
}

impl<R: JSRuntimeImpl> JSRuntime<R> {
    /// The name of the engine running this runtime.
    pub closed spec fn spec_engine(&self) -> &'static str {
        self.engine
    }

    /// The engine runtime.
    pub closed spec fn spec_runtime(&self) -> R {
        *self.inner
    }

    /// A runtime of the engine with the given name.
    pub fn with_engine(engine: &'static str) -> (r: Self)
        ensures
            r.spec_engine() == engine,
    {
        JSRuntime { inner: Rc::new(R::new()), engine }
    }

    /// The name of the engine running this runtime.
    pub fn engine(&self) -> (r: &'static str)
        ensures
            r == self.spec_engine(),
    {
        self.engine
    }

    /// Runs pending jobs (testing only); a negative result means the engine
    /// does not need to be driven this way.
    pub fn run_pending_jobs(&self) -> (r: i32)
        ensures
            call_ensures(R::run_pending_jobs, (&self.spec_runtime(),), r),
    {
        let r = self.inner.run_pending_jobs();
        assert(call_ensures(R::run_pending_jobs, (&self.spec_runtime(),), r));
        r
    }

    /// Runs a garbage collection cycle.
    pub fn run_gc(&self) {
        self.inner.run_gc()
    }
}

impl<R: JSRuntimeImpl> JSRuntime<R> where
    R::Context: JSContextImpl<Runtime = R>,
    <R::Context as JSContextImpl>::Value: JSObjectOps<Context = R::Context>,
{
    /// A new context of this runtime, with the global `Rong` object installed.
    pub fn context(&self) -> (r: JSContext<R::Context>)
        ensures
            object_or_exception::<<R::Context as JSContextImpl>::Value>(r.spec_rong()),
    {
        let raw = <R::Context as JSContextImpl>::new(&*self.inner);
        let rong = <<R::Context as JSContextImpl>::Value as JSObjectOps>::new_object(&raw);
        let store = ThrownValueStore::new();
        let thrown = InvCell::new(store, Ghost(StoreInv));
        let ctx = JSContext::assemble(raw, self.clone(), rong, thrown);
        let global = ctx.global();
        let _ = global.set("Rong", ctx.rong());
        ctx
    }
}

/// Whether a value is an object, or the engine's exception.
pub open spec fn object_or_exception<V: JSTypeOf>(v: V) -> bool {
    v.spec_is_object() || v.spec_is_exception()
}

/// A JavaScript engine: its runtime, context and value types.
pub trait JSEngine: Sized {
    type Value: JSValueImpl<Context = Self::Context>;
    type Context: JSContextImpl<Value = Self::Value, Runtime = Self::Runtime>;
    type Runtime: JSRuntimeImpl<Context = Self::Context>;

    /// The engine's name.
    spec fn spec_name() -> &'static str;

    /// The engine's name.
    fn name() -> (r: &'static str)
        ensures
            r == Self::spec_name();

    /// The engine's version.
    fn version() -> String;

    /// A new runtime of this engine.
    fn runtime() -> (r: JSRuntime<Self::Runtime>)
        ensures
            r.spec_engine() == Self::spec_name(),
    {
        JSRuntime::with_engine(Self::name())
    }
}

} // verus!
