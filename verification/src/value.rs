//! Values tied to their context, and conversions between Rust and JavaScript.

use vstd::prelude::*;
use crate::context::JSContext;
use crate::engine::{JSContextImpl, JSObjectOps, JSTypeOf, JSValueConversion, JSValueImpl, MAX_SAFE_INT};
use crate::error::{JSResult, RongJSError};
use crate::object::JSObject;
use crate::valuetype::{type_of_spec, JSValueType};

verus! {

/// A JavaScript value together with the context it lives in.
pub struct JSValue<V: JSValueImpl> {
    pub(crate) inner: V,
    pub(crate) ctx: JSContext<V::Context>,
}

/// The type tag of a raw value, from its predicates.
pub open spec fn type_of_value<V: JSTypeOf>(v: V) -> JSValueType {
    type_of_spec(v.spec_is_exception(), v.spec_is_error(), v.spec_is_promise(), v.spec_is_array(),
        v.spec_is_array_buffer(), v.spec_is_function(), v.spec_is_constructor(), v.spec_is_undefined(),
        v.spec_is_null(), v.spec_is_boolean(), v.spec_is_number(), v.spec_is_bigint(), v.spec_is_string(),
        v.spec_is_date(), v.spec_is_symbol(), v.spec_is_object())
}

impl<V: JSValueImpl> Clone for JSValue<V> {
    fn clone(&self) -> (r: Self)
        ensures
            r == *self,
    {
        let inner = self.inner.clone();
        proof {
            V::lemma_clone_same(self.inner, inner);
        }
        JSValue { inner, ctx: self.ctx.clone() }
    }
}

impl<V: JSValueImpl> JSValue<V> {
    /// The engine value.
    pub closed spec fn raw(&self) -> V {
        self.inner
    }

    /// The context the value lives in.
    pub closed spec fn spec_ctx(&self) -> JSContext<V::Context> {
        self.ctx
    }

    /// Wraps an engine value of the context.
    pub fn from_raw(ctx: &JSContext<V::Context>, value: V) -> (r: Self)
        ensures
            r.raw() == value,
            r.spec_ctx() == *ctx,
    {
        JSValue { inner: value, ctx: ctx.clone() }
    }

    /// The engine value.
    pub fn as_value(&self) -> (r: &V)
        ensures
            *r == self.raw(),
    {
        &self.inner
    }

    /// The engine value, consuming the wrapper.
    pub fn into_value(self) -> (r: V)
        ensures
            r == self.raw(),
    {
        self.inner
    }

    /// The engine value, writable.
    pub(crate) fn inner_mut(&mut self) -> (r: &mut V)
        ensures
            *r == old(self).raw(),
            final(self).raw() == *final(r),
    {
        &mut self.inner
    }

    /// The context of the value.
    pub fn context(&self) -> (r: JSContext<V::Context>)
        ensures
            r == self.spec_ctx(),
    {
        self.ctx.clone()
    }

    /// The context of the value.
    pub fn get_ctx(&self) -> (r: JSContext<V::Context>)
        ensures
            r == self.spec_ctx(),
    {
        self.ctx.clone()
    }

    /// `undefined` in the context.
    pub fn undefined(ctx: &JSContext<V::Context>) -> (r: Self)
        ensures
            r.raw().spec_is_undefined(),
            r.spec_ctx() == *ctx,
    {
        JSValue { inner: V::create_undefined(ctx.as_ref()), ctx: ctx.clone() }
    }

    /// `null` in the context.
    pub fn null(ctx: &JSContext<V::Context>) -> (r: Self)
        ensures
            r.raw().spec_is_null(),
            r.spec_ctx() == *ctx,
    {
        JSValue { inner: V::create_null(ctx.as_ref()), ctx: ctx.clone() }
    }

    /// Converts a Rust value into a value of the context.
    pub fn from_rust<T: IntoJSValue<V>>(ctx: &JSContext<V::Context>, value: T) -> (r: Self)
        ensures
            call_ensures(T::into_js_value, (value, ctx), r),
    {
        value.into_js_value(ctx)
    }
}

impl<V: JSTypeOf> JSValue<V> {
    /// The type tag of the value.
    pub fn type_of(&self) -> (r: JSValueType)
        ensures
            r == type_of_value(self.raw()),
    {
        self.inner.type_of()
    }

    pub fn is_object(&self) -> (r: bool)
        ensures
            r == self.raw().spec_is_object(),
    {
        self.inner.is_object()
    }

    pub fn is_array(&self) -> (r: bool)
        ensures
            r == self.raw().spec_is_array(),
    {
        self.inner.is_array()
    }

    pub fn is_array_buffer(&self) -> (r: bool)
        ensures
            r == self.raw().spec_is_array_buffer(),
    {
        self.inner.is_array_buffer()
    }

    pub fn is_function(&self) -> (r: bool)
        ensures
            r == self.raw().spec_is_function(),
    {
        self.inner.is_function()
    }

    pub fn is_constructor(&self) -> (r: bool)
        ensures
            r == self.raw().spec_is_constructor(),
    {
        self.inner.is_constructor()
    }

    pub fn is_promise(&self) -> (r: bool)
        ensures
            r == self.raw().spec_is_promise(),
    {
        self.inner.is_promise()
    }

    pub fn is_error(&self) -> (r: bool)
        ensures
            r == self.raw().spec_is_error(),
    {
        self.inner.is_error()
    }

    pub fn is_exception(&self) -> (r: bool)
        ensures
            r == self.raw().spec_is_exception(),
    {
        self.inner.is_exception()
    }

    pub fn is_undefined(&self) -> (r: bool)
        ensures
            r == self.raw().spec_is_undefined(),
    {
        self.inner.is_undefined()
    }

    pub fn is_null(&self) -> (r: bool)
        ensures
            r == self.raw().spec_is_null(),
    {
        self.inner.is_null()
    }

    pub fn is_boolean(&self) -> (r: bool)
        ensures
            r == self.raw().spec_is_boolean(),
    {
        self.inner.is_boolean()
    }

    pub fn is_number(&self) -> (r: bool)
        ensures
            r == self.raw().spec_is_number(),
    {
        self.inner.is_number()
    }

    pub fn is_bigint(&self) -> (r: bool)
        ensures
            r == self.raw().spec_is_bigint(),
    {
        self.inner.is_bigint()
    }

    pub fn is_string(&self) -> (r: bool)
        ensures
            r == self.raw().spec_is_string(),
    {
        self.inner.is_string()
    }

    pub fn is_symbol(&self) -> (r: bool)
        ensures
            r == self.raw().spec_is_symbol(),
    {
        self.inner.is_symbol()
    }

    pub fn is_date(&self) -> (r: bool)
        ensures
            r == self.raw().spec_is_date(),
    {
        self.inner.is_date()
    }

    pub fn is_proxy(&self) -> (r: bool)
        ensures
            r == self.raw().spec_is_proxy(),
    {
        self.inner.is_proxy()
    }

    pub fn take_is_object(self) -> (r: Option<Self>)
        ensures
            r == (if self.raw().spec_is_object() { Some(self) } else { None::<Self> }),
    {
        if self.inner.is_object() { Some(self) } else { None }
    }

    pub fn take_is_array(self) -> (r: Option<Self>)
        ensures
            r == (if self.raw().spec_is_array() { Some(self) } else { None::<Self> }),
    {
        if self.inner.is_array() { Some(self) } else { None }
    }

    pub fn take_is_array_buffer(self) -> (r: Option<Self>)
        ensures
            r == (if self.raw().spec_is_array_buffer() { Some(self) } else { None::<Self> }),
    {
        if self.inner.is_array_buffer() { Some(self) } else { None }
    }

    pub fn take_is_function(self) -> (r: Option<Self>)
        ensures
            r == (if self.raw().spec_is_function() { Some(self) } else { None::<Self> }),
    {
        if self.inner.is_function() { Some(self) } else { None }
    }

    pub fn take_is_constructor(self) -> (r: Option<Self>)
        ensures
            r == (if self.raw().spec_is_constructor() { Some(self) } else { None::<Self> }),
    {
        if self.inner.is_constructor() { Some(self) } else { None }
    }

    pub fn take_is_promise(self) -> (r: Option<Self>)
        ensures
            r == (if self.raw().spec_is_promise() { Some(self) } else { None::<Self> }),
    {
        if self.inner.is_promise() { Some(self) } else { None }
    }

    pub fn take_is_error(self) -> (r: Option<Self>)
        ensures
            r == (if self.raw().spec_is_error() { Some(self) } else { None::<Self> }),
    {
        if self.inner.is_error() { Some(self) } else { None }
    }

    pub fn take_is_exception(self) -> (r: Option<Self>)
        ensures
            r == (if self.raw().spec_is_exception() { Some(self) } else { None::<Self> }),
    {
        if self.inner.is_exception() { Some(self) } else { None }
    }

    pub fn take_is_undefined(self) -> (r: Option<Self>)
        ensures
            r == (if self.raw().spec_is_undefined() { Some(self) } else { None::<Self> }),
    {
        if self.inner.is_undefined() { Some(self) } else { None }
    }

    pub fn take_is_null(self) -> (r: Option<Self>)
        ensures
            r == (if self.raw().spec_is_null() { Some(self) } else { None::<Self> }),
    {
        if self.inner.is_null() { Some(self) } else { None }
    }

    pub fn take_is_boolean(self) -> (r: Option<Self>)
        ensures
            r == (if self.raw().spec_is_boolean() { Some(self) } else { None::<Self> }),
    {
        if self.inner.is_boolean() { Some(self) } else { None }
    }

    pub fn take_is_number(self) -> (r: Option<Self>)
        ensures
            r == (if self.raw().spec_is_number() { Some(self) } else { None::<Self> }),
    {
        if self.inner.is_number() { Some(self) } else { None }
    }

    pub fn take_is_bigint(self) -> (r: Option<Self>)
        ensures
            r == (if self.raw().spec_is_bigint() { Some(self) } else { None::<Self> }),
    {
        if self.inner.is_bigint() { Some(self) } else { None }
    }

    pub fn take_is_string(self) -> (r: Option<Self>)
        ensures
            r == (if self.raw().spec_is_string() { Some(self) } else { None::<Self> }),
    {
        if self.inner.is_string() { Some(self) } else { None }
    }

    pub fn take_is_symbol(self) -> (r: Option<Self>)
        ensures
            r == (if self.raw().spec_is_symbol() { Some(self) } else { None::<Self> }),
    {
        if self.inner.is_symbol() { Some(self) } else { None }
    }

    pub fn take_is_date(self) -> (r: Option<Self>)
        ensures
            r == (if self.raw().spec_is_date() { Some(self) } else { None::<Self> }),
    {
        if self.inner.is_date() { Some(self) } else { None }
    }

    /// The value as an object, when it is one.
    pub fn into_object(self) -> (r: Option<JSObject<V>>)
        ensures
            self.raw().spec_is_object() <==> r is Some,
            r matches Some(o) ==> o.raw() == self.raw(),
    {
        if self.inner.is_object() { Some(JSObject::from_js(self)) } else { None }
    }

    /// The value itself, or the error that carries it when it is an exception.
    pub fn check_exception(self) -> (r: JSResult<Self>)
        ensures
            self.raw().spec_is_exception() ==> (r matches Err(e) && e.thrown_handle() is Some),
            !self.raw().spec_is_exception() ==> r == Ok::<Self, RongJSError>(self),
    {
        if self.inner.is_exception() {
            Err(RongJSError::from_thrown_value(self))
        } else {
            Ok(self)
        }
    }

    /// Converts the value into a Rust value; an exception becomes the error that carries it.
    pub fn try_convert<T: FromJSValue<V>>(self) -> (r: JSResult<T>)
        ensures
            self.raw().spec_is_exception() ==> (r matches Err(e) && e.thrown_handle() is Some),
            r is Ok ==> conversion_can_give::<V, T>(r),
            r matches Err(e) ==> e.thrown_handle() is Some || conversion_can_give::<V, T>(Err(e)),
            !self.raw().spec_is_exception() ==> call_ensures(T::from_js_value, (&self.spec_ctx(), self), r),
    {
        let ctx = self.ctx.clone();
        let ghost me = self;
        match self.check_exception() {
            Ok(v) => {
                let r = T::from_js_value(&ctx, v);
                assert(call_ensures(T::from_js_value, (&me.spec_ctx(), me), r));
                r
            },
            Err(e) => Err(e),
        }
    }
}

/// Marks the Rust primitives that convert to and from JavaScript values
/// directly.
pub trait JSCompatible: Sized {}

impl JSCompatible for i32 {}

impl JSCompatible for u32 {}

impl JSCompatible for i64 {}

impl JSCompatible for u64 {}

impl JSCompatible for bool {}

/// Extraction of a Rust value from a JavaScript value.
pub trait FromJSValue<V: JSValueImpl>: Sized {
    fn from_js_value(ctx: &JSContext<V::Context>, value: JSValue<V>) -> JSResult<Self>;
}

/// Whether `r` is a result that `T::from_js_value` can give for some context
/// and value: it ties a result to the conversion it came from, not to the
/// value converted.
pub open spec fn conversion_can_give<V: JSValueImpl, T: FromJSValue<V>>(r: JSResult<T>) -> bool {
    exists|c: JSContext<V::Context>, v: JSValue<V>| call_ensures(T::from_js_value, (&c, v), r)
}

/// Conversion of a Rust value into a JavaScript value.
pub trait IntoJSValue<V: JSValueImpl> {
    fn into_js_value(self, ctx: &JSContext<V::Context>) -> JSValue<V>;
}

impl<V: JSValueImpl> FromJSValue<V> for JSValue<V> {
    fn from_js_value(_ctx: &JSContext<V::Context>, value: JSValue<V>) -> (r: JSResult<Self>)
        ensures
            r == Ok::<Self, RongJSError>(value),
    {
        Ok(value)
    }
}

impl<V: JSValueImpl> crate::parameter::JSParameterType for JSValue<V> {}

impl<V: JSValueImpl> IntoJSValue<V> for JSValue<V> {
    fn into_js_value(self, _ctx: &JSContext<V::Context>) -> (r: JSValue<V>)
        ensures
            r == self,
    {
        self
    }
}

impl<V: JSValueImpl> FromJSValue<V> for () {
    fn from_js_value(_ctx: &JSContext<V::Context>, _value: JSValue<V>) -> (r: JSResult<Self>)
        ensures
            r is Ok,
    {
        Ok(())
    }
}

impl<V: JSValueImpl> IntoJSValue<V> for () {
    fn into_js_value(self, ctx: &JSContext<V::Context>) -> (r: JSValue<V>)
        ensures
            JSValue::<V>::raw(&r).spec_is_undefined(),
            JSValue::<V>::spec_ctx(&r) == *ctx,
    {
        JSValue::undefined(ctx)
    }
}

impl<V: JSValueConversion> FromJSValue<V> for bool {
    fn from_js_value(_ctx: &JSContext<V::Context>, value: JSValue<V>) -> (r: JSResult<Self>)
        ensures
            value.raw().spec_is_boolean() ==> r == Ok::<bool, RongJSError>(value.raw().spec_bool_value()),
    {
        value.inner.to_bool()
    }
}

impl<V: JSValueConversion> FromJSValue<V> for i32 {
    fn from_js_value(_ctx: &JSContext<V::Context>, value: JSValue<V>) -> (r: JSResult<Self>)
        ensures
            (value.raw().spec_is_number() && value.raw().spec_int_value() is Some && i32::MIN <= value.raw().spec_int_value()->0
                <= i32::MAX) ==> r == Ok::<i32, RongJSError>(value.raw().spec_int_value()->0 as i32),
    {
        value.inner.to_i32()
    }
}

impl<V: JSValueConversion> FromJSValue<V> for u32 {
    fn from_js_value(_ctx: &JSContext<V::Context>, value: JSValue<V>) -> (r: JSResult<Self>)
        ensures
            (value.raw().spec_is_number() && value.raw().spec_int_value() is Some && 0 <= value.raw().spec_int_value()->0
                <= u32::MAX) ==> r == Ok::<u32, RongJSError>(value.raw().spec_int_value()->0 as u32),
    {
        value.inner.to_u32()
    }
}

impl<V: JSValueConversion> FromJSValue<V> for i64 {
    fn from_js_value(_ctx: &JSContext<V::Context>, value: JSValue<V>) -> (r: JSResult<Self>)
        ensures
            (value.raw().spec_is_number() && value.raw().spec_int_value() is Some && i64::MIN <= value.raw().spec_int_value()->0
                <= i64::MAX) ==> r == Ok::<i64, RongJSError>(value.raw().spec_int_value()->0 as i64),
    {
        value.inner.to_i64()
    }
}

impl<V: JSValueConversion> FromJSValue<V> for u64 {
    fn from_js_value(_ctx: &JSContext<V::Context>, value: JSValue<V>) -> (r: JSResult<Self>)
        ensures
            (value.raw().spec_is_number() && value.raw().spec_int_value() is Some && 0 <= value.raw().spec_int_value()->0
                <= u64::MAX) ==> r == Ok::<u64, RongJSError>(value.raw().spec_int_value()->0 as u64),
    {
        value.inner.to_u64()
    }
}

impl<V: JSValueConversion> FromJSValue<V> for String {
    fn from_js_value(_ctx: &JSContext<V::Context>, value: JSValue<V>) -> (r: JSResult<Self>)
        ensures
            value.raw().spec_is_string() ==> (r matches Ok(t) && t@ == value.raw().spec_text()@),
    {
        value.inner.to_string()
    }
}

impl<V: JSValueConversion> FromJSValue<V> for i8 {
    /// A number denoting an integer in range converts to that integer.
    fn from_js_value(_ctx: &JSContext<V::Context>, value: JSValue<V>) -> (r: JSResult<Self>)
        ensures
            (value.raw().spec_is_number() && value.raw().spec_int_value() is Some && i8::MIN <= value.raw().spec_int_value()->0
                <= i8::MAX) ==> r == Ok::<i8, RongJSError>(value.raw().spec_int_value()->0 as i8),
    {
        match value.inner.to_i32() {
            Ok(v) => Ok(#[verifier::truncate] (v as i8)),
            Err(e) => Err(e),
        }
    }
}

impl<V: JSValueConversion> FromJSValue<V> for u8 {
    /// A number denoting an integer in range converts to that integer.
    fn from_js_value(_ctx: &JSContext<V::Context>, value: JSValue<V>) -> (r: JSResult<Self>)
        ensures
            (value.raw().spec_is_number() && value.raw().spec_int_value() is Some && 0 <= value.raw().spec_int_value()->0
                <= u8::MAX) ==> r == Ok::<u8, RongJSError>(value.raw().spec_int_value()->0 as u8),
    {
        match value.inner.to_u32() {
            Ok(v) => Ok(#[verifier::truncate] (v as u8)),
            Err(e) => Err(e),
        }
    }
}

impl<V: JSValueConversion> FromJSValue<V> for i16 {
    /// A number denoting an integer in range converts to that integer.
    fn from_js_value(_ctx: &JSContext<V::Context>, value: JSValue<V>) -> (r: JSResult<Self>)
        ensures
            (value.raw().spec_is_number() && value.raw().spec_int_value() is Some && i16::MIN <= value.raw().spec_int_value()->0
                <= i16::MAX) ==> r == Ok::<i16, RongJSError>(value.raw().spec_int_value()->0 as i16),
    {
        match value.inner.to_i32() {
            Ok(v) => Ok(#[verifier::truncate] (v as i16)),
            Err(e) => Err(e),
        }
    }
}

impl<V: JSValueConversion> FromJSValue<V> for u16 {
    /// A number denoting an integer in range converts to that integer.
    fn from_js_value(_ctx: &JSContext<V::Context>, value: JSValue<V>) -> (r: JSResult<Self>)
        ensures
            (value.raw().spec_is_number() && value.raw().spec_int_value() is Some && 0 <= value.raw().spec_int_value()->0
                <= u16::MAX) ==> r == Ok::<u16, RongJSError>(value.raw().spec_int_value()->0 as u16),
    {
        match value.inner.to_u32() {
            Ok(v) => Ok(#[verifier::truncate] (v as u16)),
            Err(e) => Err(e),
        }
    }
}

impl<V: JSValueConversion> FromJSValue<V> for usize {
    /// A number denoting an integer in range converts to that integer.
    fn from_js_value(_ctx: &JSContext<V::Context>, value: JSValue<V>) -> (r: JSResult<Self>)
        ensures
            (value.raw().spec_is_number() && value.raw().spec_int_value() is Some && 0 <= value.raw().spec_int_value()->0
                <= usize::MAX) ==> r == Ok::<usize, RongJSError>(value.raw().spec_int_value()->0 as usize),
    {
        match value.inner.to_u64() {
            Ok(v) => Ok(#[verifier::truncate] (v as usize)),
            Err(e) => Err(e),
        }
    }
}

impl<V: JSValueConversion> FromJSValue<V> for isize {
    /// A number denoting an integer in range converts to that integer.
    fn from_js_value(_ctx: &JSContext<V::Context>, value: JSValue<V>) -> (r: JSResult<Self>)
        ensures
            (value.raw().spec_is_number() && value.raw().spec_int_value() is Some && isize::MIN <= value.raw().spec_int_value()->0
                <= isize::MAX) ==> r == Ok::<isize, RongJSError>(value.raw().spec_int_value()->0 as isize),
    {
        match value.inner.to_i64() {
            Ok(v) => Ok(#[verifier::truncate] (v as isize)),
            Err(e) => Err(e),
        }
    }
}

impl<V: JSValueConversion> IntoJSValue<V> for bool {
    fn into_js_value(self, ctx: &JSContext<V::Context>) -> (r: JSValue<V>)
        ensures
            JSValue::<V>::raw(&r).spec_is_boolean() && JSValue::<V>::raw(&r).spec_bool_value() == self,
            JSValue::<V>::spec_ctx(&r) == *ctx,
    {
        JSValue::from_raw(ctx, V::from_bool(ctx.as_ref(), self))
    }
}

impl<V: JSValueConversion> IntoJSValue<V> for i32 {
    fn into_js_value(self, ctx: &JSContext<V::Context>) -> (r: JSValue<V>)
        ensures
            JSValue::<V>::raw(&r).spec_is_number() && JSValue::<V>::raw(&r).spec_int_value() == Some(self as i128),
            JSValue::<V>::spec_ctx(&r) == *ctx,
    {
        JSValue::from_raw(ctx, V::from_i32(ctx.as_ref(), self))
    }
}

impl<V: JSValueConversion> IntoJSValue<V> for u32 {
    fn into_js_value(self, ctx: &JSContext<V::Context>) -> (r: JSValue<V>)
        ensures
            JSValue::<V>::raw(&r).spec_is_number() && JSValue::<V>::raw(&r).spec_int_value() == Some(self as i128),
            JSValue::<V>::spec_ctx(&r) == *ctx,
    {
        JSValue::from_raw(ctx, V::from_u32(ctx.as_ref(), self))
    }
}

impl<V: JSValueConversion> IntoJSValue<V> for i64 {
    /// A number; it denotes the integer exactly when the integer is safe.
    fn into_js_value(self, ctx: &JSContext<V::Context>) -> (r: JSValue<V>)
        ensures
            JSValue::<V>::raw(&r).spec_is_number(),
            -MAX_SAFE_INT <= self <= MAX_SAFE_INT ==> JSValue::<V>::raw(&r).spec_int_value() == Some(self as i128),
            JSValue::<V>::spec_ctx(&r) == *ctx,
    {
        JSValue::from_raw(ctx, V::from_i64(ctx.as_ref(), self))
    }
}

impl<V: JSValueConversion> IntoJSValue<V> for u64 {
    /// A number; it denotes the integer exactly when the integer is safe.
    fn into_js_value(self, ctx: &JSContext<V::Context>) -> (r: JSValue<V>)
        ensures
            JSValue::<V>::raw(&r).spec_is_number(),
            self <= MAX_SAFE_INT ==> JSValue::<V>::raw(&r).spec_int_value() == Some(self as i128),
            JSValue::<V>::spec_ctx(&r) == *ctx,
    {
        JSValue::from_raw(ctx, V::from_u64(ctx.as_ref(), self))
    }
}

impl<V: JSValueConversion> IntoJSValue<V> for i8 {
    fn into_js_value(self, ctx: &JSContext<V::Context>) -> (r: JSValue<V>)
        ensures
            JSValue::<V>::raw(&r).spec_is_number() && JSValue::<V>::raw(&r).spec_int_value() == Some(self as i128),
            JSValue::<V>::spec_ctx(&r) == *ctx,
    {
        JSValue::from_raw(ctx, V::from_i32(ctx.as_ref(), self as i32))
    }
}

impl<V: JSValueConversion> IntoJSValue<V> for u8 {
    fn into_js_value(self, ctx: &JSContext<V::Context>) -> (r: JSValue<V>)
        ensures
            JSValue::<V>::raw(&r).spec_is_number() && JSValue::<V>::raw(&r).spec_int_value() == Some(self as i128),
            JSValue::<V>::spec_ctx(&r) == *ctx,
    {
        JSValue::from_raw(ctx, V::from_u32(ctx.as_ref(), self as u32))
    }
}

impl<V: JSValueConversion> IntoJSValue<V> for i16 {
    fn into_js_value(self, ctx: &JSContext<V::Context>) -> (r: JSValue<V>)
        ensures
            JSValue::<V>::raw(&r).spec_is_number() && JSValue::<V>::raw(&r).spec_int_value() == Some(self as i128),
            JSValue::<V>::spec_ctx(&r) == *ctx,
    {
        JSValue::from_raw(ctx, V::from_i32(ctx.as_ref(), self as i32))
    }
}

impl<V: JSValueConversion> IntoJSValue<V> for u16 {
    fn into_js_value(self, ctx: &JSContext<V::Context>) -> (r: JSValue<V>)
        ensures
            JSValue::<V>::raw(&r).spec_is_number() && JSValue::<V>::raw(&r).spec_int_value() == Some(self as i128),
            JSValue::<V>::spec_ctx(&r) == *ctx,
    {
        JSValue::from_raw(ctx, V::from_u32(ctx.as_ref(), self as u32))
    }
}

impl<V: JSValueConversion> IntoJSValue<V> for usize {
    /// A number; it denotes the integer exactly when the integer is safe.
    fn into_js_value(self, ctx: &JSContext<V::Context>) -> (r: JSValue<V>)
        ensures
            JSValue::<V>::raw(&r).spec_is_number(),
            self <= MAX_SAFE_INT ==> JSValue::<V>::raw(&r).spec_int_value() == Some(self as i128),
            JSValue::<V>::spec_ctx(&r) == *ctx,
    {
        JSValue::from_raw(ctx, V::from_u64(ctx.as_ref(), self as u64))
    }
}

impl<V: JSValueConversion> IntoJSValue<V> for isize {
    /// A number; it denotes the integer exactly when the integer is safe.
    fn into_js_value(self, ctx: &JSContext<V::Context>) -> (r: JSValue<V>)
        ensures
            JSValue::<V>::raw(&r).spec_is_number(),
            -MAX_SAFE_INT <= self <= MAX_SAFE_INT ==> JSValue::<V>::raw(&r).spec_int_value() == Some(self as i128),
            JSValue::<V>::spec_ctx(&r) == *ctx,
    {
        JSValue::from_raw(ctx, V::from_i64(ctx.as_ref(), self as i64))
    }
}

impl<'a, V: JSValueConversion> IntoJSValue<V> for &'a str {
    /// A string holding the text, or the engine's exception.
    fn into_js_value(self, ctx: &JSContext<V::Context>) -> (r: JSValue<V>)
        ensures
            JSValue::<V>::raw(&r).spec_is_string() || JSValue::<V>::raw(&r).spec_is_exception(),
            JSValue::<V>::raw(&r).spec_is_string() ==> JSValue::<V>::raw(&r).spec_text()@ == self@,
            JSValue::<V>::spec_ctx(&r) == *ctx,
    {
        JSValue::from_raw(ctx, V::from_str(ctx.as_ref(), self))
    }
}

impl<V: JSValueConversion> IntoJSValue<V> for String {
    /// A string holding the text, or the engine's exception.
    fn into_js_value(self, ctx: &JSContext<V::Context>) -> (r: JSValue<V>)
        ensures
            JSValue::<V>::raw(&r).spec_is_string() || JSValue::<V>::raw(&r).spec_is_exception(),
            JSValue::<V>::raw(&r).spec_is_string() ==> JSValue::<V>::raw(&r).spec_text()@ == self@,
            JSValue::<V>::spec_ctx(&r) == *ctx,
    {
        JSValue::from_raw(ctx, V::from_str(ctx.as_ref(), self.as_str()))
    }
}

impl<V: JSValueImpl, T: IntoJSValue<V>> IntoJSValue<V> for Option<T> {
    /// `None` is `null`; `Some` converts its value.
    fn into_js_value(self, ctx: &JSContext<V::Context>) -> (r: JSValue<V>)
        ensures
            self is None ==> JSValue::<V>::raw(&r).spec_is_null() && JSValue::<V>::spec_ctx(&r) == *ctx,
    {
        match self {
            Some(value) => value.into_js_value(ctx),
            None => JSValue::null(ctx),
        }
    }
}

/// A JavaScript symbol.
pub struct JSSymbol<V: JSValueImpl>(pub(crate) JSValue<V>);

impl<V: JSValueImpl> Clone for JSSymbol<V> {
    fn clone(&self) -> (r: Self)
        ensures
            r == *self,
    {
        JSSymbol(self.0.clone())
    }
}

impl<V: JSValueImpl> JSSymbol<V> {
    pub closed spec fn raw(&self) -> V {
        self.0.raw()
    }

    pub fn into_value(self) -> (r: V)
        ensures
            r == self.raw(),
    {
        self.0.into_value()
    }
}

impl<V: JSObjectOps> JSSymbol<V> {
    /// The symbol's description, `Symbol.prototype.description`.
    pub fn descripiton(&self) -> (r: JSResult<String>)
        ensures
            exists|key: V, got: Result<Option<V>, V>|
                #![trigger crate::property::key_value(crate::property::PropertyKey::<V>::Str("description"), key),
                    call_ensures(V::get_property, (&self.raw(), key), got)]
                crate::property::key_value(crate::property::PropertyKey::<V>::Str("description"), key)
                && call_ensures(V::get_property, (&self.raw(), key), got)
                && match got {
                    Err(_) => r matches Err(e) && e.thrown_handle() is Some,
                    Ok(None) => r matches Ok(t) && t@.len() == 0,
                    Ok(Some(v)) => call_ensures(V::to_string, (&v,), r),
                },
    {
        let ctx = self.0.context();
        let key = V::from_str(ctx.as_ref(), "description");
        let ghost key_g = key;
        proof {
            reveal_strlit("description");
        }
        assert(crate::property::key_value(crate::property::PropertyKey::<V>::Str("description"), key_g));
        let got = self.0.inner.get_property(key);
        assert(call_ensures(V::get_property, (&self.raw(), key_g), got));
        match got {
            Ok(Some(v)) => {
                let ghost v_g = v;
                let r = v.to_string();
                assert(call_ensures(V::to_string, (&v_g,), r));
                r
            },
            Ok(None) => Ok(String::new()),
            Err(thrown) => Err(RongJSError::from_thrown_value(JSValue::from_raw(&ctx, thrown))),
        }
    }
}

impl<V: JSTypeOf> FromJSValue<V> for JSSymbol<V> {
    fn from_js_value(_ctx: &JSContext<V::Context>, value: JSValue<V>) -> (r: JSResult<Self>)
        ensures
            value.raw().spec_is_symbol() <==> r is Ok,
    {
        if value.is_symbol() {
            Ok(JSSymbol(value))
        } else {
            Err(RongJSError::NotSymbol())
        }
    }
}

impl<V: JSValueImpl> IntoJSValue<V> for JSSymbol<V> {
    fn into_js_value(self, _ctx: &JSContext<V::Context>) -> (r: JSValue<V>)
        ensures
            r.raw() == self.raw(),
    {
        self.0
    }
}

/// A number that denotes an integer within the range of `i64` converts to
/// exactly that integer, whatever its size beyond 32 bits.
pub proof fn law_i64_conversion_exact<V: JSValueConversion>(c: JSContext<V::Context>, v: JSValue<V>,
    r: JSResult<i64>)
    requires
        call_ensures(<i64 as FromJSValue<V>>::from_js_value, (&c, v), r),
        v.raw().spec_is_number(),
        v.raw().spec_int_value() is Some,
        i64::MIN <= v.raw().spec_int_value()->0 <= i64::MAX,
    ensures
        r == Ok::<i64, RongJSError>(v.raw().spec_int_value()->0 as i64),
{
}

/// A number that denotes an integer within the range of `u64` converts to
/// exactly that integer.
pub proof fn law_u64_conversion_exact<V: JSValueConversion>(c: JSContext<V::Context>, v: JSValue<V>,
    r: JSResult<u64>)
    requires
        call_ensures(<u64 as FromJSValue<V>>::from_js_value, (&c, v), r),
        v.raw().spec_is_number(),
        v.raw().spec_int_value() is Some,
        0 <= v.raw().spec_int_value()->0 <= u64::MAX,
    ensures
        r == Ok::<u64, RongJSError>(v.raw().spec_int_value()->0 as u64),
{
}

/// A number that denotes an integer within the range of `i32` converts to
/// exactly that integer.
pub proof fn law_i32_conversion_exact<V: JSValueConversion>(c: JSContext<V::Context>, v: JSValue<V>,
    r: JSResult<i32>)
    requires
        call_ensures(<i32 as FromJSValue<V>>::from_js_value, (&c, v), r),
        v.raw().spec_is_number(),
        v.raw().spec_int_value() is Some,
        i32::MIN <= v.raw().spec_int_value()->0 <= i32::MAX,
    ensures
        r == Ok::<i32, RongJSError>(v.raw().spec_int_value()->0 as i32),
{
}

/// A number that denotes an integer within the range of `u32` converts to
/// exactly that integer.
pub proof fn law_u32_conversion_exact<V: JSValueConversion>(c: JSContext<V::Context>, v: JSValue<V>,
    r: JSResult<u32>)
    requires
        call_ensures(<u32 as FromJSValue<V>>::from_js_value, (&c, v), r),
        v.raw().spec_is_number(),
        v.raw().spec_int_value() is Some,
        0 <= v.raw().spec_int_value()->0 <= u32::MAX,
    ensures
        r == Ok::<u32, RongJSError>(v.raw().spec_int_value()->0 as u32),
{
}

/// Whether `v` is an object whose only other kind predicate is that of
/// `kind`: none at all for `Object`.
pub open spec fn is_object_of_kind_only<V: JSTypeOf>(v: V, kind: JSValueType) -> bool {
    &&& v.spec_is_object()
    &&& !v.spec_is_exception()
    &&& v.spec_is_error() == (kind == JSValueType::Error)
    &&& v.spec_is_promise() == (kind == JSValueType::Promise)
    &&& v.spec_is_array() == (kind == JSValueType::Array)
    &&& v.spec_is_array_buffer() == (kind == JSValueType::ArrayBuffer)
    &&& v.spec_is_function() == (kind == JSValueType::Function)
    &&& v.spec_is_constructor() == (kind == JSValueType::Constructor)
    &&& v.spec_is_date() == (kind == JSValueType::Date)
    &&& !v.spec_is_undefined() && !v.spec_is_null() && !v.spec_is_boolean() && !v.spec_is_number()
    &&& !v.spec_is_bigint() && !v.spec_is_string() && !v.spec_is_symbol()
}

/// An object of one specific kind is tagged by that kind: a value that is an
/// object and has exactly one of the error, promise, array, array buffer,
/// function, constructor or date predicates gets that kind's tag, and an
/// object with none of them is tagged as a plain object.
pub proof fn law_object_value_tagged_by_kind<V: JSTypeOf>(v: JSValue<V>, kind: JSValueType, r: JSValueType)
    requires
        call_ensures(JSValue::<V>::type_of, (&v,), r),
        is_object_of_kind_only(v.raw(), kind),
        kind == JSValueType::Error || kind == JSValueType::Promise || kind == JSValueType::Array
            || kind == JSValueType::ArrayBuffer || kind == JSValueType::Function
            || kind == JSValueType::Constructor || kind == JSValueType::Date || kind == JSValueType::Object,
    ensures
        r == kind,
{
}

/// A JavaScript boolean converts to the same Rust `bool`.
pub proof fn law_bool_conversion_exact<V: JSValueConversion>(c: JSContext<V::Context>, v: JSValue<V>,
    r: JSResult<bool>)
    requires
        call_ensures(<bool as FromJSValue<V>>::from_js_value, (&c, v), r),
        v.raw().spec_is_boolean(),
    ensures
        r == Ok::<bool, RongJSError>(v.raw().spec_bool_value()),
{
}

/// A JavaScript string converts to a Rust `String` with the same text.
pub proof fn law_string_conversion_exact<V: JSValueConversion>(c: JSContext<V::Context>, v: JSValue<V>,
    r: JSResult<String>)
    requires
        call_ensures(<String as FromJSValue<V>>::from_js_value, (&c, v), r),
        v.raw().spec_is_string(),
    ensures
        r matches Ok(t) && t@ == v.raw().spec_text()@,
{
}

/// A safe `i64` survives the trip into JavaScript and back unchanged.
pub proof fn law_i64_roundtrip<V: JSValueConversion>(x: i64, c: JSContext<V::Context>, v: JSValue<V>,
    d: JSContext<V::Context>, r: JSResult<i64>)
    requires
        -MAX_SAFE_INT <= x <= MAX_SAFE_INT,
        call_ensures(<i64 as IntoJSValue<V>>::into_js_value, (x, &c), v),
        call_ensures(<i64 as FromJSValue<V>>::from_js_value, (&d, v), r),
    ensures
        r == Ok::<i64, RongJSError>(x),
{
}

/// An `i32` survives the trip into JavaScript and back unchanged.
pub proof fn law_i32_roundtrip<V: JSValueConversion>(x: i32, c: JSContext<V::Context>, v: JSValue<V>,
    d: JSContext<V::Context>, r: JSResult<i32>)
    requires
        call_ensures(<i32 as IntoJSValue<V>>::into_js_value, (x, &c), v),
        call_ensures(<i32 as FromJSValue<V>>::from_js_value, (&d, v), r),
    ensures
        r == Ok::<i32, RongJSError>(x),
{
}

} // verus!
