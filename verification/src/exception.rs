//! Exceptions, proxies and dates: wrappers of values of those kinds, and the
//! ways a context throws errors.

use vstd::prelude::*;
use crate::context::JSContext;
use crate::engine::{str_opt_view, JSContextImpl, JSErrorFactory, JSExceptionThrower, JSObjectOps, JSProxyOps, JSTypeOf,
    JSValueImpl};
use crate::error::{is_plain_error, HostError, JSResult, RongJSError, E_NOT_EXCEPTION, E_TYPE};
use crate::object::{property_get_gives, JSObject};
use crate::property::PropertyKey;
use crate::value::{conversion_can_give, FromJSValue, IntoJSValue, JSValue};

verus! {

/// An exception value of JavaScript.
pub struct JSException<V: JSValueImpl>(pub(crate) JSObject<V>);

/// What a Rust caller keeps of an exception: its message and its stack.
#[derive(Debug, Clone, PartialEq, Eq)]
pub struct JSError {
    pub message: Option<String>,
    pub stack: Option<String>,
}

impl<V: JSValueImpl> JSException<V> {
    pub closed spec fn raw(&self) -> V {
        self.0.raw()
    }

    /// The exception as an object.
    pub closed spec fn spec_object(&self) -> JSObject<V> {
        self.0
    }

    /// The exception as an object.
    pub fn as_object(&self) -> (r: &JSObject<V>)
        ensures
            r.raw() == self.raw(),
    {
        &self.0
    }
}

impl<V: JSValueImpl> crate::parameter::JSParameterType for JSException<V> {}

impl<V: JSValueImpl> IntoJSValue<V> for JSException<V> {
    fn into_js_value(self, _ctx: &JSContext<V::Context>) -> (r: JSValue<V>)
        ensures
            JSValue::<V>::raw(&r) == self.raw(),
    {
        self.0.into_js_value()
    }
}

impl<V: JSTypeOf> JSException<V> {
    /// The object as an exception, when it is one.
    pub fn from_object(value: JSObject<V>) -> (r: Option<Self>)
        ensures
            value.raw().spec_is_exception() <==> r is Some,
            r matches Some(e) ==> e.raw() == value.raw(),
    {
        if value.as_value().is_exception() {
            Some(JSException(value))
        } else {
            None
        }
    }
}

impl<V: JSTypeOf> FromJSValue<V> for JSException<V> {
    /// An exception value; any other value is the `NotJSExcep` error.
    fn from_js_value(_ctx: &JSContext<V::Context>, value: JSValue<V>) -> (r: JSResult<Self>)
        ensures
            !value.raw().spec_is_exception() ==> (r matches Err(e) && is_plain_error(e, "TypeError"@,
                E_NOT_EXCEPTION@, "Not JS Exception Object"@)),
            value.raw().spec_is_exception() && value.raw().spec_is_object() ==> (r matches Ok(x) && x.raw()
                == value.raw()),
    {
        if value.is_exception() {
            if value.is_object() {
                Ok(JSException(JSObject::from_js(value)))
            } else {
                Err(RongJSError::NotObject())
            }
        } else {
            Err(RongJSError::NotJSExcep())
        }
    }
}

impl<V: JSObjectOps> JSException<V> {
    /// The `message` property, when it reads as a string.
    pub fn message(&self) -> (r: Option<String>)
        ensures
            r matches Some(t) ==> conversion_can_give::<V, String>(Ok(t)),
            exists|read: JSResult<String>| #[trigger] property_get_gives(self.spec_object(),
                PropertyKey::<V>::Str("message"), read) && r == (match read { Ok(t) => Some(t), Err(_) => None }),
    {
        let read = self.0.get::<&str, String>("message");
        assert(property_get_gives(self.spec_object(), PropertyKey::<V>::Str("message"), read));
        match read {
            Ok(m) => Some(m),
            Err(_) => None,
        }
    }

    /// The `stack` property, when it reads as a string.
    pub fn stack(&self) -> (r: Option<String>)
        ensures
            r matches Some(t) ==> conversion_can_give::<V, String>(Ok(t)),
            exists|read: JSResult<String>| #[trigger] property_get_gives(self.spec_object(),
                PropertyKey::<V>::Str("stack"), read) && r == (match read { Ok(t) => Some(t), Err(_) => None }),
    {
        let read = self.0.get::<&str, String>("stack");
        assert(property_get_gives(self.spec_object(), PropertyKey::<V>::Str("stack"), read));
        match read {
            Ok(s) => Some(s),
            Err(_) => None,
        }
    }

    /// What a Rust caller keeps of the exception: for an `Error`, its message
    /// and stack; for any other value, its text as the message and no stack.
    pub fn into_error(self) -> (r: JSError)
        ensures
            !self.raw().spec_is_error() ==> r.stack is None,
            !self.raw().spec_is_error() && self.raw().spec_is_string() ==> (r.message matches Some(m) && m@
                == self.raw().spec_text()@),
    {
        if self.0.as_value().is_error() {
            JSError { message: self.message(), stack: self.stack() }
        } else {
            let message = match self.0.as_value().to_string() {
                Ok(s) => Some(s),
                Err(_) => None,
            };
            JSError { message, stack: None }
        }
    }
}

impl<C: JSContextImpl + JSExceptionThrower> JSContext<C> where C::Value: JSTypeOf<Context = C> {
    /// Throws the value: the result is the engine's exception marker.
    pub fn throw(&self, value: JSValue<C::Value>) -> (r: JSValue<C::Value>)
        ensures
            r.raw() == self.spec_engine().spec_throw(value.raw()),
            r.raw().spec_is_exception(),
            r.spec_ctx() == *self,
    {
        let raw = self.as_ref().throw(value.into_value());
        JSValue::from_raw(self, raw)
    }
}

/// Whether `r` is the exception marker of throwing, in `ctx`, an `Error`
/// made with the name, message and code.
pub open spec fn throws_error<C: JSContextImpl + JSExceptionThrower + JSErrorFactory>(ctx: JSContext<C>,
    r: JSValue<C::Value>, name: Seq<char>, message: Seq<char>, code: Option<Seq<char>>) -> bool
    where C::Value: JSTypeOf<Context = C>,
{
    &&& r.spec_ctx() == ctx
    &&& r.raw().spec_is_exception()
    &&& exists|e: C::Value| ctx.spec_engine().spec_error_fields(e) == Some((name, message, code))
        && r.raw() == #[trigger] ctx.spec_engine().spec_throw(e)
}

impl<C: JSContextImpl + JSExceptionThrower + JSErrorFactory> JSContext<C> where C::Value: JSTypeOf<Context = C> {
    /// Throws a new error object with the name, message and code.
    pub fn throw_named_error(&self, name: &str, message: &str, code: Option<&str>) -> (r: JSValue<C::Value>)
        ensures
            throws_error(*self, r, name@, message@, str_opt_view(code)),
    {
        let raw = self.as_ref().new_error(name, message, code);
        let raw = self.as_ref().throw(raw);
        JSValue::from_raw(self, raw)
    }

    /// Throws a `SyntaxError`.
    pub fn throw_syntax_error(&self, message: &str) -> (r: JSValue<C::Value>)
        ensures
            throws_error(*self, r, "SyntaxError"@, message@, None),
    {
        self.throw_named_error("SyntaxError", message, None)
    }

    /// Throws a `TypeError`.
    pub fn throw_type_error(&self, message: &str) -> (r: JSValue<C::Value>)
        ensures
            throws_error(*self, r, "TypeError"@, message@, None),
    {
        self.throw_named_error("TypeError", message, None)
    }

    /// Throws a `ReferenceError`.
    pub fn throw_reference_error(&self, message: &str) -> (r: JSValue<C::Value>)
        ensures
            throws_error(*self, r, "ReferenceError"@, message@, None),
    {
        self.throw_named_error("ReferenceError", message, None)
    }

    /// Throws a `RangeError`.
    pub fn throw_range_error(&self, message: &str) -> (r: JSValue<C::Value>)
        ensures
            throws_error(*self, r, "RangeError"@, message@, None),
    {
        self.throw_named_error("RangeError", message, None)
    }

    /// Throws an `Error`.
    pub fn throw_error(&self, message: &str) -> (r: JSValue<C::Value>)
        ensures
            throws_error(*self, r, "Error"@, message@, None),
    {
        self.throw_named_error("Error", message, None)
    }
}

/// A JavaScript `Proxy`.
pub struct JSProxy<V: JSValueImpl>(pub(crate) JSObject<V>);

impl<V: JSValueImpl> Clone for JSProxy<V> {
    fn clone(&self) -> (r: Self)
        ensures
            r == *self,
    {
        JSProxy(self.0.clone())
    }
}

impl HostError {
    /// The error for a value that is not a proxy.
    pub fn not_proxy() -> (r: Self)
        ensures
            crate::error::is_plain_host_error(r, "TypeError"@, E_TYPE@, "Not JS Proxy"@),
    {
        HostError::new(E_TYPE, "Not JS Proxy").with_name("TypeError")
    }
}

impl<V: JSValueImpl> JSProxy<V> {
    pub closed spec fn raw(&self) -> V {
        self.0.raw()
    }

    /// The engine value.
    pub fn into_value(self) -> (r: V)
        ensures
            r == self.raw(),
    {
        self.0.into_value()
    }

    /// The proxy as an object.
    pub fn as_object(&self) -> (r: &JSObject<V>)
        ensures
            r.raw() == self.raw(),
    {
        &self.0
    }
}

impl<V: JSTypeOf> FromJSValue<V> for JSProxy<V> {
    /// A proxy value; any other value is the not-a-proxy error.
    fn from_js_value(_ctx: &JSContext<V::Context>, value: JSValue<V>) -> (r: JSResult<Self>)
        ensures
            !value.raw().spec_is_proxy() ==> (r matches Err(e) && is_plain_error(e, "TypeError"@, E_TYPE@,
                "Not JS Proxy"@)),
            value.raw().spec_is_proxy() ==> (r matches Ok(p) && p.raw() == value.raw()),
    {
        if value.is_proxy() {
            Ok(JSProxy(JSObject::from_js(value)))
        } else {
            Err(RongJSError::host_error(HostError::not_proxy()))
        }
    }
}

impl<V: JSValueImpl> IntoJSValue<V> for JSProxy<V> {
    fn into_js_value(self, _ctx: &JSContext<V::Context>) -> (r: JSValue<V>)
        ensures
            JSValue::<V>::raw(&r) == self.raw(),
    {
        self.0.into_js_value()
    }
}

impl<V: JSProxyOps> JSProxy<V> {
    /// `new Proxy(target, handler)`; an error carries what the engine threw.
    pub fn new(ctx: &JSContext<V::Context>, target: JSObject<V>, handler: JSObject<V>) -> (r: JSResult<Self>)
        ensures
            r matches Ok(p) ==> p.raw().spec_is_proxy(),
            r matches Err(e) ==> e.thrown_handle() is Some || is_plain_error(e, "TypeError"@, E_TYPE@,
                "Not JS Proxy"@),
    {
        match V::new_proxy(ctx.as_ref(), target.into_value(), handler.into_value()) {
            Ok(value) => Self::from_js_value(ctx, JSValue::from_raw(ctx, value)),
            Err(thrown) => Err(RongJSError::from_thrown_value(JSValue::from_raw(ctx, thrown))),
        }
    }

    /// The object the proxy forwards to.
    pub fn target(&self) -> (r: JSResult<JSObject<V>>)
        ensures
            r matches Ok(o) ==> o.raw().spec_is_object(),
            r matches Err(e) ==> e.thrown_handle() is Some || is_plain_error(e, "TypeError"@, E_TYPE@,
                "Not JS Object"@),
    {
        let ctx = self.0.context();
        match self.0.as_value().proxy_target() {
            Ok(value) => {
                let v = JSValue::from_raw(&ctx, value);
                if v.is_object() {
                    Ok(JSObject::from_js(v))
                } else {
                    Err(RongJSError::NotObject())
                }
            },
            Err(thrown) => Err(RongJSError::from_thrown_value(JSValue::from_raw(&ctx, thrown))),
        }
    }

    /// The object as a proxy, when it is one.
    pub fn from_object(obj: JSObject<V>) -> (r: Option<Self>)
        ensures
            obj.raw().spec_is_proxy() <==> r is Some,
            r matches Some(p) ==> p.raw() == obj.raw(),
    {
        if obj.as_value().is_proxy() {
            Some(JSProxy(obj))
        } else {
            None
        }
    }
}

/// A JavaScript `Date`.
pub struct JSDate<V: JSValueImpl> {
    inner: JSValue<V>,
}

impl<V: JSValueImpl> JSDate<V> {
    pub closed spec fn raw(&self) -> V {
        self.inner.raw()
    }

    /// The date as a value.
    pub fn as_value(&self) -> (r: &JSValue<V>)
        ensures
            r.raw() == self.raw(),
    {
        &self.inner
    }

    /// The date as a value, consuming it.
    pub fn into_value(self) -> (r: JSValue<V>)
        ensures
            r.raw() == self.raw(),
    {
        self.inner
    }
}

impl<V: JSTypeOf> FromJSValue<V> for JSDate<V> {
    /// A date value; any other value is a `TypeError`.
    fn from_js_value(_ctx: &JSContext<V::Context>, value: JSValue<V>) -> (r: JSResult<Self>)
        ensures
            !value.raw().spec_is_date() ==> (r matches Err(e) && is_plain_error(e, "TypeError"@, E_TYPE@,
                "Value is not a Date"@)),
            value.raw().spec_is_date() ==> (r matches Ok(d) && d.raw() == value.raw()),
    {
        if value.is_date() {
            Ok(JSDate { inner: value })
        } else {
            Err(RongJSError::host_error(HostError::new(E_TYPE, "Value is not a Date").with_name("TypeError")))
        }
    }
}

impl<V: JSValueImpl> IntoJSValue<V> for JSDate<V> {
    fn into_js_value(self, _ctx: &JSContext<V::Context>) -> (r: JSValue<V>)
        ensures
            JSValue::<V>::raw(&r) == self.raw(),
    {
        self.inner
    }
}

} // verus!
