//! JavaScript functions: calling them from Rust, and the admission rule of
//! Rust functions called from JavaScript.

use vstd::prelude::*;
use crate::context::JSContext;
use crate::engine::{JSContextImpl, JSObjectOps, JSTypeOf, JSValueImpl};
use crate::error::{is_invalid_arg_count, is_plain_error, JSResult, RongJSError, E_INVALID_STATE, E_NOT_FUNCTION};
use crate::object::JSObject;
use crate::parameter::JSParameterType;
use crate::property::{no_flags, PropertyDescriptor, PropertyFlags};
use crate::value::{FromJSValue, IntoJSValue, JSValue};

verus! {

/// A JavaScript function.
pub struct JSFunc<V: JSValueImpl>(pub(crate) JSObject<V>);

impl<V: JSValueImpl> Clone for JSFunc<V> {
    fn clone(&self) -> (r: Self)
        ensures
            r == *self,
    {
        JSFunc(self.0.clone())
    }
}

impl<V: JSValueImpl> JSFunc<V> {
    /// The engine value.
    pub closed spec fn raw(&self) -> V {
        self.0.raw()
    }

    /// The function as an object.
    pub closed spec fn spec_object(&self) -> JSObject<V> {
        self.0
    }

    /// The context the function lives in.
    pub closed spec fn spec_ctx(&self) -> JSContext<V::Context> {
        self.0.spec_ctx()
    }

    /// The function as an object.
    pub fn as_object(&self) -> (r: &JSObject<V>)
        ensures
            r.raw() == self.raw(),
    {
        &self.0
    }

    /// The context of the function.
    pub fn context(&self) -> (r: JSContext<V::Context>)
        ensures
            r == self.spec_ctx(),
    {
        self.0.context()
    }

    /// The engine value, consuming the function.
    pub fn into_value(self) -> (r: V)
        ensures
            r == self.raw(),
    {
        self.0.into_value()
    }
}

impl<V: JSValueImpl> JSParameterType for JSFunc<V> {}

impl<V: JSValueImpl> IntoJSValue<V> for JSFunc<V> {
    fn into_js_value(self, _ctx: &JSContext<V::Context>) -> (r: JSValue<V>)
        ensures
            r.raw() == self.raw(),
    {
        self.0.into_js_value()
    }
}

impl<V: JSTypeOf> FromJSValue<V> for JSFunc<V> {
    /// A function value; any other value is the `NotJSFunc` error.
    fn from_js_value(_ctx: &JSContext<V::Context>, value: JSValue<V>) -> (r: JSResult<Self>)
        ensures
            value.raw().spec_is_function() && value.raw().spec_is_object() ==> (r matches Ok(f) && f.raw()
                == value.raw()),
            !value.raw().spec_is_function() ==> (r matches Err(e) && is_plain_error(e, "TypeError"@,
                E_NOT_FUNCTION@, "Not JS Function"@)),
            r matches Ok(f) ==> f.raw() == value.raw(),
    {
        if value.is_function() {
            if value.is_object() {
                Ok(JSFunc(JSObject::from_js(value)))
            } else {
                Err(RongJSError::NotObject())
            }
        } else {
            Err(RongJSError::NotJSFunc())
        }
    }
}

/// Whether `raw` is the engine value that `value` can convert to in `ctx`.
pub open spec fn converts_to<V: JSValueImpl, T: IntoJSValue<V>>(value: T, ctx: JSContext<V::Context>, raw: V) -> bool {
    exists|converted: JSValue<V>| #[trigger] call_ensures(T::into_js_value, (value, &ctx), converted)
        && converted.raw() == raw
}

/// Arguments of a call, conversion_can_give into engine values in order.
pub trait IntoJSArgs<V: JSValueImpl> {
    fn into_js_args(self, ctx: &JSContext<V::Context>) -> Vec<V>;
}

impl<V: JSValueImpl> IntoJSArgs<V> for () {
    /// No arguments.
    fn into_js_args(self, _ctx: &JSContext<V::Context>) -> (r: Vec<V>)
        ensures
            Vec::<V>::len(&r) == 0,
    {
        let v: Vec<V> = Vec::new();
        v
    }
}

impl<V: JSValueImpl, A: IntoJSValue<V> + JSParameterType> IntoJSArgs<V> for (A,) {
    fn into_js_args(self, ctx: &JSContext<V::Context>) -> (r: Vec<V>)
        ensures
            r@.len() == 1,
            converts_to(self.0, *ctx, r@[0]),
    {
        let ghost args = self;
        let mut v: Vec<V> = Vec::new();
        let a0 = self.0.into_js_value(ctx);
        assert(call_ensures(A::into_js_value, (args.0, ctx), a0));
        v.push(a0.into_value());
        v
    }
}

impl<V: JSValueImpl, A: IntoJSValue<V> + JSParameterType, B: IntoJSValue<V> + JSParameterType> IntoJSArgs<V> for (A, B) {
    fn into_js_args(self, ctx: &JSContext<V::Context>) -> (r: Vec<V>)
        ensures
            r@.len() == 2,
            converts_to(self.0, *ctx, r@[0]),
            converts_to(self.1, *ctx, r@[1]),
    {
        let ghost args = self;
        let mut v: Vec<V> = Vec::new();
        let a0 = self.0.into_js_value(ctx);
        assert(call_ensures(A::into_js_value, (args.0, ctx), a0));
        v.push(a0.into_value());
        let a1 = self.1.into_js_value(ctx);
        assert(call_ensures(B::into_js_value, (args.1, ctx), a1));
        v.push(a1.into_value());
        v
    }
}

impl<
    V: JSValueImpl,
    A: IntoJSValue<V> + JSParameterType,
    B: IntoJSValue<V> + JSParameterType,
    C: IntoJSValue<V> + JSParameterType,
> IntoJSArgs<V> for (A, B, C) {
    fn into_js_args(self, ctx: &JSContext<V::Context>) -> (r: Vec<V>)
        ensures
            r@.len() == 3,
            converts_to(self.0, *ctx, r@[0]),
            converts_to(self.1, *ctx, r@[1]),
            converts_to(self.2, *ctx, r@[2]),
    {
        let ghost args = self;
        let mut v: Vec<V> = Vec::new();
        let a0 = self.0.into_js_value(ctx);
        assert(call_ensures(A::into_js_value, (args.0, ctx), a0));
        v.push(a0.into_value());
        let a1 = self.1.into_js_value(ctx);
        assert(call_ensures(B::into_js_value, (args.1, ctx), a1));
        v.push(a1.into_value());
        let a2 = self.2.into_js_value(ctx);
        assert(call_ensures(C::into_js_value, (args.2, ctx), a2));
        v.push(a2.into_value());
        v
    }
}

impl<
    V: JSValueImpl,
    T1: IntoJSValue<V> + JSParameterType,
    T2: IntoJSValue<V> + JSParameterType,
    T3: IntoJSValue<V> + JSParameterType,
    T4: IntoJSValue<V> + JSParameterType,
> IntoJSArgs<V> for (T1, T2, T3, T4) {
    fn into_js_args(self, ctx: &JSContext<V::Context>) -> (r: Vec<V>)
        ensures
            r@.len() == 4,
            converts_to(self.0, *ctx, r@[0]),
            converts_to(self.1, *ctx, r@[1]),
            converts_to(self.2, *ctx, r@[2]),
            converts_to(self.3, *ctx, r@[3]),
    {
        let ghost args = self;
        let mut v: Vec<V> = Vec::new();
        let a0 = self.0.into_js_value(ctx);
        assert(call_ensures(T1::into_js_value, (args.0, ctx), a0));
        v.push(a0.into_value());
        let a1 = self.1.into_js_value(ctx);
        assert(call_ensures(T2::into_js_value, (args.1, ctx), a1));
        v.push(a1.into_value());
        let a2 = self.2.into_js_value(ctx);
        assert(call_ensures(T3::into_js_value, (args.2, ctx), a2));
        v.push(a2.into_value());
        let a3 = self.3.into_js_value(ctx);
        assert(call_ensures(T4::into_js_value, (args.3, ctx), a3));
        v.push(a3.into_value());
        v
    }
}

impl<
    V: JSValueImpl,
    T1: IntoJSValue<V> + JSParameterType,
    T2: IntoJSValue<V> + JSParameterType,
    T3: IntoJSValue<V> + JSParameterType,
    T4: IntoJSValue<V> + JSParameterType,
    T5: IntoJSValue<V> + JSParameterType,
> IntoJSArgs<V> for (T1, T2, T3, T4, T5) {
    fn into_js_args(self, ctx: &JSContext<V::Context>) -> (r: Vec<V>)
        ensures
            r@.len() == 5,
            converts_to(self.0, *ctx, r@[0]),
            converts_to(self.1, *ctx, r@[1]),
            converts_to(self.2, *ctx, r@[2]),
            converts_to(self.3, *ctx, r@[3]),
            converts_to(self.4, *ctx, r@[4]),
    {
        let ghost args = self;
        let mut v: Vec<V> = Vec::new();
        let a0 = self.0.into_js_value(ctx);
        assert(call_ensures(T1::into_js_value, (args.0, ctx), a0));
        v.push(a0.into_value());
        let a1 = self.1.into_js_value(ctx);
        assert(call_ensures(T2::into_js_value, (args.1, ctx), a1));
        v.push(a1.into_value());
        let a2 = self.2.into_js_value(ctx);
        assert(call_ensures(T3::into_js_value, (args.2, ctx), a2));
        v.push(a2.into_value());
        let a3 = self.3.into_js_value(ctx);
        assert(call_ensures(T4::into_js_value, (args.3, ctx), a3));
        v.push(a3.into_value());
        let a4 = self.4.into_js_value(ctx);
        assert(call_ensures(T5::into_js_value, (args.4, ctx), a4));
        v.push(a4.into_value());
        v
    }
}

impl<
    V: JSValueImpl,
    T1: IntoJSValue<V> + JSParameterType,
    T2: IntoJSValue<V> + JSParameterType,
    T3: IntoJSValue<V> + JSParameterType,
    T4: IntoJSValue<V> + JSParameterType,
    T5: IntoJSValue<V> + JSParameterType,
    T6: IntoJSValue<V> + JSParameterType,
> IntoJSArgs<V> for (T1, T2, T3, T4, T5, T6) {
    fn into_js_args(self, ctx: &JSContext<V::Context>) -> (r: Vec<V>)
        ensures
            r@.len() == 6,
            converts_to(self.0, *ctx, r@[0]),
            converts_to(self.1, *ctx, r@[1]),
            converts_to(self.2, *ctx, r@[2]),
            converts_to(self.3, *ctx, r@[3]),
            converts_to(self.4, *ctx, r@[4]),
            converts_to(self.5, *ctx, r@[5]),
    {
        let ghost args = self;
        let mut v: Vec<V> = Vec::new();
        let a0 = self.0.into_js_value(ctx);
        assert(call_ensures(T1::into_js_value, (args.0, ctx), a0));
        v.push(a0.into_value());
        let a1 = self.1.into_js_value(ctx);
        assert(call_ensures(T2::into_js_value, (args.1, ctx), a1));
        v.push(a1.into_value());
        let a2 = self.2.into_js_value(ctx);
        assert(call_ensures(T3::into_js_value, (args.2, ctx), a2));
        v.push(a2.into_value());
        let a3 = self.3.into_js_value(ctx);
        assert(call_ensures(T4::into_js_value, (args.3, ctx), a3));
        v.push(a3.into_value());
        let a4 = self.4.into_js_value(ctx);
        assert(call_ensures(T5::into_js_value, (args.4, ctx), a4));
        v.push(a4.into_value());
        let a5 = self.5.into_js_value(ctx);
        assert(call_ensures(T6::into_js_value, (args.5, ctx), a5));
        v.push(a5.into_value());
        v
    }
}

impl<
    V: JSValueImpl,
    T1: IntoJSValue<V> + JSParameterType,
    T2: IntoJSValue<V> + JSParameterType,
    T3: IntoJSValue<V> + JSParameterType,
    T4: IntoJSValue<V> + JSParameterType,
    T5: IntoJSValue<V> + JSParameterType,
    T6: IntoJSValue<V> + JSParameterType,
    T7: IntoJSValue<V> + JSParameterType,
> IntoJSArgs<V> for (T1, T2, T3, T4, T5, T6, T7) {
    fn into_js_args(self, ctx: &JSContext<V::Context>) -> (r: Vec<V>)
        ensures
            r@.len() == 7,
            converts_to(self.0, *ctx, r@[0]),
            converts_to(self.1, *ctx, r@[1]),
            converts_to(self.2, *ctx, r@[2]),
            converts_to(self.3, *ctx, r@[3]),
            converts_to(self.4, *ctx, r@[4]),
            converts_to(self.5, *ctx, r@[5]),
            converts_to(self.6, *ctx, r@[6]),
    {
        let ghost args = self;
        let mut v: Vec<V> = Vec::new();
        let a0 = self.0.into_js_value(ctx);
        assert(call_ensures(T1::into_js_value, (args.0, ctx), a0));
        v.push(a0.into_value());
        let a1 = self.1.into_js_value(ctx);
        assert(call_ensures(T2::into_js_value, (args.1, ctx), a1));
        v.push(a1.into_value());
        let a2 = self.2.into_js_value(ctx);
        assert(call_ensures(T3::into_js_value, (args.2, ctx), a2));
        v.push(a2.into_value());
        let a3 = self.3.into_js_value(ctx);
        assert(call_ensures(T4::into_js_value, (args.3, ctx), a3));
        v.push(a3.into_value());
        let a4 = self.4.into_js_value(ctx);
        assert(call_ensures(T5::into_js_value, (args.4, ctx), a4));
        v.push(a4.into_value());
        let a5 = self.5.into_js_value(ctx);
        assert(call_ensures(T6::into_js_value, (args.5, ctx), a5));
        v.push(a5.into_value());
        let a6 = self.6.into_js_value(ctx);
        assert(call_ensures(T7::into_js_value, (args.6, ctx), a6));
        v.push(a6.into_value());
        v
    }
}

impl<
    V: JSValueImpl,
    T1: IntoJSValue<V> + JSParameterType,
    T2: IntoJSValue<V> + JSParameterType,
    T3: IntoJSValue<V> + JSParameterType,
    T4: IntoJSValue<V> + JSParameterType,
    T5: IntoJSValue<V> + JSParameterType,
    T6: IntoJSValue<V> + JSParameterType,
    T7: IntoJSValue<V> + JSParameterType,
    T8: IntoJSValue<V> + JSParameterType,
> IntoJSArgs<V> for (T1, T2, T3, T4, T5, T6, T7, T8) {
    fn into_js_args(self, ctx: &JSContext<V::Context>) -> (r: Vec<V>)
        ensures
            r@.len() == 8,
            converts_to(self.0, *ctx, r@[0]),
            converts_to(self.1, *ctx, r@[1]),
            converts_to(self.2, *ctx, r@[2]),
            converts_to(self.3, *ctx, r@[3]),
            converts_to(self.4, *ctx, r@[4]),
            converts_to(self.5, *ctx, r@[5]),
            converts_to(self.6, *ctx, r@[6]),
            converts_to(self.7, *ctx, r@[7]),
    {
        let ghost args = self;
        let mut v: Vec<V> = Vec::new();
        let a0 = self.0.into_js_value(ctx);
        assert(call_ensures(T1::into_js_value, (args.0, ctx), a0));
        v.push(a0.into_value());
        let a1 = self.1.into_js_value(ctx);
        assert(call_ensures(T2::into_js_value, (args.1, ctx), a1));
        v.push(a1.into_value());
        let a2 = self.2.into_js_value(ctx);
        assert(call_ensures(T3::into_js_value, (args.2, ctx), a2));
        v.push(a2.into_value());
        let a3 = self.3.into_js_value(ctx);
        assert(call_ensures(T4::into_js_value, (args.3, ctx), a3));
        v.push(a3.into_value());
        let a4 = self.4.into_js_value(ctx);
        assert(call_ensures(T5::into_js_value, (args.4, ctx), a4));
        v.push(a4.into_value());
        let a5 = self.5.into_js_value(ctx);
        assert(call_ensures(T6::into_js_value, (args.5, ctx), a5));
        v.push(a5.into_value());
        let a6 = self.6.into_js_value(ctx);
        assert(call_ensures(T7::into_js_value, (args.6, ctx), a6));
        v.push(a6.into_value());
        let a7 = self.7.into_js_value(ctx);
        assert(call_ensures(T8::into_js_value, (args.7, ctx), a7));
        v.push(a7.into_value());
        v
    }
}

impl<V: JSValueImpl, T: IntoJSValue<V>> IntoJSArgs<V> for Vec<T> {
    /// Each element is one argument, in order.
    fn into_js_args(self, ctx: &JSContext<V::Context>) -> (r: Vec<V>)
        ensures
            r@.len() == self@.len(),
            forall|i: int| 0 <= i < self@.len() ==> converts_to(self@[i], *ctx, #[trigger] r@[i]),
    {
        let ghost items = self@;
        let mut out: Vec<V> = Vec::new();
        for item in it: self
            invariant
                out@.len() == it.index(),
                it.seq() == items,
                forall|i: int| 0 <= i < out@.len() ==> converts_to(items[i], *ctx, #[trigger] out@[i]),
        {
            let ghost given = item;
            let converted = item.into_js_value(ctx);
            assert(call_ensures(T::into_js_value, (given, ctx), converted));
            out.push(converted.into_value());
        }
        out
    }
}

impl<V: JSObjectOps> JSFunc<V> {
    /// Calls the function with `this` (undefined when `None`) and the engine
    /// values as arguments; the result may be the exception marker.
    pub(crate) fn call_with_argv(&self, this: Option<JSObject<V>>, argv: Vec<V>) -> (r: V)
        ensures
            exists|this_value: V|
                #[trigger] call_ensures(<V::Context as JSContextImpl>::call, (&self.spec_ctx().spec_engine(),
                    &self.raw(), this_value, argv), r)
                && (this matches Some(o) ==> this_value == o.raw())
                && (this is None ==> this_value.spec_is_undefined()),
    {
        let ctx = self.context();
        let this_value = match this {
            Some(obj) => obj.into_value(),
            None => V::create_undefined(ctx.as_ref()),
        };
        let ghost this_g = this_value;
        let ghost argv_g = argv;
        let r = ctx.as_ref().call(self.0.as_value(), this_value, argv);
        assert(call_ensures(<V::Context as JSContextImpl>::call, (&self.spec_ctx().spec_engine(), &self.raw(),
            this_g, argv_g), r));
        r
    }

    /// Same as `call_with_argv`.
    pub(crate) fn invoke_with_argv(&self, this: Option<JSObject<V>>, argv: Vec<V>) -> (r: V)
        ensures
            exists|this_value: V|
                #[trigger] call_ensures(<V::Context as JSContextImpl>::call, (&self.spec_ctx().spec_engine(),
                    &self.raw(), this_value, argv), r)
                && (this matches Some(o) ==> this_value == o.raw())
                && (this is None ==> this_value.spec_is_undefined()),
    {
        self.call_with_argv(this, argv)
    }

    /// Calls the function and converts the result; a thrown exception is the
    /// error that carries it.
    pub fn call<Args: IntoJSArgs<V>, R: FromJSValue<V>>(&self, this: Option<JSObject<V>>, args: Args) -> (r: JSResult<R>)
        ensures
            r is Ok ==> crate::value::conversion_can_give::<V, R>(r),
            r matches Err(e) ==> e.thrown_handle() is Some || crate::value::conversion_can_give::<V, R>(Err(e)),
            exists|argv: Vec<V>, this_value: V, result: V|
                #![trigger call_ensures(Args::into_js_args, (args, &self.spec_ctx()), argv),
                    call_ensures(<V::Context as JSContextImpl>::call, (&self.spec_ctx().spec_engine(), &self.raw(),
                    this_value, argv), result)]
                call_ensures(Args::into_js_args, (args, &self.spec_ctx()), argv)
                && call_ensures(<V::Context as JSContextImpl>::call, (&self.spec_ctx().spec_engine(), &self.raw(),
                    this_value, argv), result)
                && (this matches Some(o) ==> this_value == o.raw())
                && (this is None ==> this_value.spec_is_undefined())
                && (result.spec_is_exception() ==> (r matches Err(e) && e.thrown_handle() is Some))
                && (!result.spec_is_exception() ==> exists|v: JSValue<V>| #[trigger] call_ensures(R::from_js_value,
                    (&self.spec_ctx(), v), r) && v.raw() == result),
    {
        let ctx = self.context();
        let ghost args_g = args;
        let argv = args.into_js_args(&ctx);
        let ghost argv_g = argv;
        assert(call_ensures(Args::into_js_args, (args_g, &self.spec_ctx()), argv_g));
        let result = self.call_with_argv(this, argv);
        let value = JSValue::from_raw(&ctx, result);
        let ghost value_g = value;
        let r = value.try_convert::<R>();
        proof {
            let this_value = choose|this_value: V|
                #[trigger] call_ensures(<V::Context as JSContextImpl>::call, (&self.spec_ctx().spec_engine(),
                    &self.raw(), this_value, argv_g), result)
                && (this matches Some(o) ==> this_value == o.raw())
                && (this is None ==> this_value.spec_is_undefined());
            assert(call_ensures(Args::into_js_args, (args_g, &self.spec_ctx()), argv_g)
                && call_ensures(<V::Context as JSContextImpl>::call, (&self.spec_ctx().spec_engine(), &self.raw(),
                this_value, argv_g), result));
            if !result.spec_is_exception() {
                assert(call_ensures(R::from_js_value, (&self.spec_ctx(), value_g), r));
            }
        }
        r
    }

    /// Names the function: defines `name` as non-writable, non-enumerable and
    /// configurable, as JavaScript does for functions.
    pub fn name(self, name: &str) -> (r: JSResult<Self>)
        ensures
            r matches Ok(f) ==> f == self,
            r matches Err(e) ==> e.thrown_handle() is Some,
            exists|descriptor: PropertyDescriptor<V>, done: JSResult<()>|
                #[trigger] call_ensures(PropertyDescriptor::<V>::apply_to::<&str>, (descriptor, &self.spec_object(),
                    "name"), done)
                && (descriptor.spec_value() matches Some(v) && converts_to::<V, &str>(name, self.spec_ctx(), v))
                && descriptor.spec_getter() is None && descriptor.spec_setter() is None
                && descriptor.spec_flags() == (PropertyFlags { writable: false, has_writable: true, enumerable: false,
                    has_enumerable: true, configurable: true, has_configurable: true, ..no_flags() })
                && (done is Ok <==> r is Ok) && (done matches Err(e) ==> r == Err::<Self, RongJSError>(e)),
    {
        let ctx = self.context();
        let name_value: JSValue<V> = JSValue::from_rust(&ctx, name);
        assert(call_ensures(<&str as IntoJSValue<V>>::into_js_value, (name, &self.spec_ctx()), name_value));
        let descriptor = PropertyDescriptor::builder().value(name_value).readonly().hidden().configurable();
        let ghost descriptor_g = descriptor;
        let done = descriptor.apply_to(&self.0, "name");
        assert(call_ensures(PropertyDescriptor::<V>::apply_to::<&str>, (descriptor_g, &self.spec_object(), "name"),
            done));
        match done {
            Ok(()) => Ok(self),
            Err(e) => Err(e),
        }
    }
}

/// The admission rule of a Rust function called from JavaScript: it needs at
/// least `required` arguments, and a function that may run once refuses every
/// call after the first one it admitted.
pub struct CallGate {
    required: u32,
    once: bool,
    used: bool,
}

/// Why a call was refused.
pub enum CallRefusal {
    /// Fewer arguments than required.
    TooFewArgs,
    /// A run-once function was already called.
    AlreadyCalled,
}

/// The decision on a call with `got` arguments by a gate in the given
/// state: the refusal, if any, and whether it is used up afterwards.
pub open spec fn decide_spec(required: u32, once: bool, used: bool, got: u32) -> (Option<CallRefusal>, bool) {
    if got < required {
        (Some(CallRefusal::TooFewArgs), used)
    } else if once && used {
        (Some(CallRefusal::AlreadyCalled), used)
    } else {
        (None, used || once)
    }
}

impl CallGate {
    pub closed spec fn spec_required(&self) -> u32 {
        self.required
    }

    pub closed spec fn spec_once(&self) -> bool {
        self.once
    }

    pub closed spec fn spec_used(&self) -> bool {
        self.used
    }

    /// Admission for a function callable any number of times.
    pub fn new(required: u32) -> (r: Self)
        ensures
            r.spec_required() == required,
            !r.spec_once(),
            !r.spec_used(),
    {
        CallGate { required, once: false, used: false }
    }

    /// Admission for a function callable once.
    pub fn new_once(required: u32) -> (r: Self)
        ensures
            r.spec_required() == required,
            r.spec_once(),
            !r.spec_used(),
    {
        CallGate { required, once: true, used: false }
    }

    /// The number of required arguments, the function's `length`.
    pub fn parameter_required_count(&self) -> (r: u32)
        ensures
            r == self.spec_required(),
    {
        self.required
    }

    /// Decides a call with `got` arguments. The argument count is checked
    /// first; an admitted call of a run-once function uses it up.
    pub fn decide(&mut self, got: u32) -> (r: Result<(), CallRefusal>)
        ensures
            final(self).spec_required() == old(self).spec_required(),
            final(self).spec_once() == old(self).spec_once(),
            ({
                let (refusal, used) = decide_spec(old(self).spec_required(), old(self).spec_once(),
                    old(self).spec_used(), got);
                &&& final(self).spec_used() == used
                &&& match refusal {
                    None => r is Ok,
                    Some(c) => r == Err::<(), CallRefusal>(c),
                }
            }),
    {
        if got < self.required {
            Err(CallRefusal::TooFewArgs)
        } else if self.once && self.used {
            Err(CallRefusal::AlreadyCalled)
        } else {
            if self.once {
                self.used = true;
            }
            Ok(())
        }
    }

    /// [`CallGate::decide`] as the library's errors: `InvalidParameter` for too
    /// few arguments, `OnceFnCalled` for a second call of a run-once function.
    pub fn check(&mut self, got: u32) -> (r: JSResult<()>)
        ensures
            final(self).spec_required() == old(self).spec_required(),
            final(self).spec_once() == old(self).spec_once(),
            got < old(self).spec_required() ==> (r matches Err(e) && e.host() matches Some(h)
                && is_invalid_arg_count(h, old(self).spec_required(), got)),
            got >= old(self).spec_required() && old(self).spec_once() && old(self).spec_used()
                ==> (r matches Err(e) && is_plain_error(e, "Error"@, E_INVALID_STATE@, "OnceFn had been called"@)),
            got >= old(self).spec_required() && !(old(self).spec_once() && old(self).spec_used())
                ==> r is Ok && final(self).spec_used() == (old(self).spec_used() || old(self).spec_once()),
    {
        let required = self.required;
        match self.decide(got) {
            Ok(()) => Ok(()),
            Err(CallRefusal::TooFewArgs) => Err(RongJSError::InvalidParameter(required, got)),
            Err(CallRefusal::AlreadyCalled) => Err(RongJSError::OnceFnCalled()),
        }
    }
}

/// A run-once function runs at most once: once a call was let through,
/// every later call is refused, for too few arguments or as a second call.
pub proof fn law_once_runs_at_most_once(required: u32, first: u32, later: u32)
    requires
        first >= required,
    ensures
        ({
            let (refusal, used) = decide_spec(required, true, false, first);
            &&& refusal is None
            &&& used
            &&& decide_spec(required, true, used, later).0 is Some
        }),
{
}

/// A function that may run any number of times refuses a call only for too
/// few arguments.
pub proof fn law_reusable_never_used_up(required: u32, used: bool, got: u32)
    ensures
        decide_spec(required, false, used, got).0 is Some <==> got < required,
        decide_spec(required, false, used, got).1 == used,
{
}

} // verus!
