//! Array buffers, and how many elements of a kind their bytes hold.

use vstd::prelude::*;
use crate::context::JSContext;
use crate::engine::{JSArrayBufferOps, JSObjectOps, JSTypeOf, JSValueImpl};
use crate::error::{err_is, is_plain_error, JSResult, RongJSError, E_NOT_ARRAY_BUFFER, E_OUT_OF_RANGE, E_TYPE};
use crate::object::JSObject;
use crate::typed_array::{element_size, TypedArrayElement};
use crate::value::{FromJSValue, IntoJSValue, JSValue};

verus! {

/// A JavaScript `ArrayBuffer`.
pub struct JSArrayBuffer<V: JSValueImpl> {
    pub(crate) inner: JSObject<V>,
}

impl<V: JSValueImpl> Clone for JSArrayBuffer<V> {
    fn clone(&self) -> (r: Self)
        ensures
            r == *self,
    {
        JSArrayBuffer { inner: self.inner.clone() }
    }
}

impl<V: JSValueImpl> JSArrayBuffer<V> {
    pub closed spec fn raw(&self) -> V {
        self.inner.raw()
    }

    /// The buffer as an object.
    pub fn as_object(&self) -> (r: &JSObject<V>)
        ensures
            r.raw() == self.raw(),
    {
        &self.inner
    }
}

impl<V: JSValueImpl> crate::parameter::JSParameterType for JSArrayBuffer<V> {}

impl<V: JSValueImpl> IntoJSValue<V> for JSArrayBuffer<V> {
    fn into_js_value(self, _ctx: &JSContext<V::Context>) -> (r: JSValue<V>)
        ensures
            JSValue::<V>::raw(&r) == self.raw(),
    {
        self.inner.into_js_value()
    }
}

impl<V: JSTypeOf> FromJSValue<V> for JSArrayBuffer<V> {
    /// An array buffer value; any other value is the `NotJSArrayBuffer` error.
    fn from_js_value(_ctx: &JSContext<V::Context>, value: JSValue<V>) -> (r: JSResult<Self>)
        ensures
            !value.raw().spec_is_array_buffer() ==> (r matches Err(e) && is_plain_error(e, "TypeError"@,
                E_NOT_ARRAY_BUFFER@, "Not JS ArrayBuffer"@)),
            value.raw().spec_is_array_buffer() && value.raw().spec_is_object() ==> (r matches Ok(b) && b.raw()
                == value.raw()),
            r matches Ok(b) ==> b.raw() == value.raw(),
            r matches Err(e) ==> is_plain_error(e, "TypeError"@, E_NOT_ARRAY_BUFFER@, "Not JS ArrayBuffer"@)
                || is_plain_error(e, "TypeError"@, E_TYPE@, "Not JS Object"@),
    {
        if value.is_array_buffer() {
            if value.is_object() {
                Ok(JSArrayBuffer { inner: JSObject::from_js(value) })
            } else {
                Err(RongJSError::NotObject())
            }
        } else {
            Err(RongJSError::NotJSArrayBuffer())
        }
    }
}

/// How many elements of `bytes_per_element` bytes fill `len` bytes exactly,
/// or the alignment error when they do not.
pub fn elements_in(len: usize, bytes_per_element: usize) -> (r: JSResult<usize>)
    requires
        bytes_per_element > 0,
    ensures
        len % bytes_per_element == 0 ==> r == Ok::<usize, RongJSError>(len / bytes_per_element),
        len % bytes_per_element != 0 ==> err_is(r, "RangeError"@, E_OUT_OF_RANGE@,
            "Invalid TypedArray alignment: byte_offset must be a multiple of element size"@),
{
    if len % bytes_per_element != 0 {
        Err(RongJSError::TypedArrayAlignmentError())
    } else {
        Ok(len / bytes_per_element)
    }
}

/// The bytes of `s` from `start` to `end`; a range that is not inside `s`
/// gives no bytes.
pub fn byte_range(s: &[u8], start: usize, end: usize) -> (r: &[u8])
    ensures
        start <= end <= s@.len() ==> r@ == s@.subrange(start as int, end as int),
        !(start <= end <= s@.len()) ==> r@.len() == 0,
{
    if start <= end && end <= s.len() {
        &s[start..end]
    } else {
        &s[0..0]
    }
}

impl<V: JSObjectOps + JSArrayBufferOps> JSArrayBuffer<V> {
    /// The bytes the buffer holds.
    pub open spec fn spec_bytes(&self) -> Seq<u8> {
        self.raw().spec_bytes()
    }

    /// A new buffer holding a copy of the bytes.
    pub fn from_bytes(ctx: &JSContext<V::Context>, bytes: &[u8]) -> (r: JSResult<Self>)
        ensures
            r matches Ok(b) ==> b.spec_bytes() == bytes@,
            r matches Err(e) ==> e.thrown_handle() is Some || is_plain_error(e, "TypeError"@, E_NOT_ARRAY_BUFFER@,
                "Not JS ArrayBuffer"@) || is_plain_error(e, "TypeError"@, E_TYPE@, "Not JS Object"@),
    {
        let value = <V as JSArrayBufferOps>::from_bytes(ctx.as_ref(), bytes);
        match JSValue::from_raw(ctx, value).check_exception() {
            Ok(v) => Self::from_js_value(ctx, v),
            Err(e) => Err(e),
        }
    }

    /// A new buffer taking the bytes.
    pub fn from_bytes_owned(ctx: &JSContext<V::Context>, data: Vec<u8>) -> (r: JSResult<Self>)
        ensures
            r matches Ok(b) ==> b.spec_bytes() == data@,
            r matches Err(e) ==> e.thrown_handle() is Some || is_plain_error(e, "TypeError"@, E_NOT_ARRAY_BUFFER@,
                "Not JS ArrayBuffer"@) || is_plain_error(e, "TypeError"@, E_TYPE@, "Not JS Object"@),
    {
        let value = V::from_vec(ctx.as_ref(), data);
        match JSValue::from_raw(ctx, value).check_exception() {
            Ok(v) => Self::from_js_value(ctx, v),
            Err(e) => Err(e),
        }
    }

    /// The length in bytes.
    pub fn len(&self) -> (r: usize)
        ensures
            r == self.spec_bytes().len(),
    {
        self.inner.as_value().length()
    }

    /// Whether the buffer holds no bytes.
    pub fn is_empty(&self) -> (r: bool)
        ensures
            r == (self.spec_bytes().len() == 0),
    {
        self.len() == 0
    }

    /// The bytes.
    pub fn as_slice(&self) -> (r: &[u8])
        ensures
            r@ == self.spec_bytes(),
    {
        self.inner.as_value().as_slice()
    }

    /// The bytes.
    pub fn as_bytes(&self) -> (r: &[u8])
        ensures
            r@ == self.spec_bytes(),
    {
        self.as_slice()
    }

    /// The bytes, writable.
    pub fn as_mut_slice(&mut self) -> &mut [u8] {
        self.inner.as_mut_value().as_mut_slice()
    }

    /// The bytes from `start` to `end`; see [`byte_range`].
    pub fn slice(&self, start: usize, end: usize) -> (r: &[u8])
        ensures
            start <= end <= self.spec_bytes().len() ==> r@ == self.spec_bytes().subrange(start as int, end as int),
            !(start <= end <= self.spec_bytes().len()) ==> r@.len() == 0,
    {
        byte_range(self.as_slice(), start, end)
    }

    /// A copy of the bytes.
    pub fn to_vec(&self) -> (r: Vec<u8>)
        ensures
            r@ == self.spec_bytes(),
    {
        vstd::slice::slice_to_vec(self.as_slice())
    }

    /// How many `T` elements the buffer holds; see [`elements_in`].
    pub fn element_count<T: TypedArrayElement>(&self) -> (r: JSResult<usize>)
        ensures
            self.spec_bytes().len() as int % element_size(T::spec_kind()) as int == 0 ==> r == Ok::<usize,
                RongJSError>((self.spec_bytes().len() as int / element_size(T::spec_kind()) as int) as usize),
            self.spec_bytes().len() as int % element_size(T::spec_kind()) as int != 0 ==> err_is(r, "RangeError"@,
                E_OUT_OF_RANGE@, "Invalid TypedArray alignment: byte_offset must be a multiple of element size"@),
    {
        elements_in(self.len(), T::bytes_per_element())
    }

    /// Whether `offset` is a multiple of the size of `T`.
    pub fn validate_alignment<T: TypedArrayElement>(&self, offset: usize) -> (r: bool)
        ensures
            r == (offset % element_size(T::spec_kind()) == 0),
    {
        offset % T::bytes_per_element() == 0
    }

    /// The object as an array buffer, when it is one.
    pub fn from_object(obj: JSObject<V>) -> (r: Option<Self>)
        ensures
            obj.raw().spec_is_array_buffer() <==> r is Some,
            r matches Some(b) ==> b.raw() == obj.raw(),
    {
        if obj.as_value().is_array_buffer() {
            Some(JSArrayBuffer { inner: obj })
        } else {
            None
        }
    }
}

} // verus!
