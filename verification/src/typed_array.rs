//! Typed array kinds, element markers, and the view-range rules of typed arrays.

use vstd::prelude::*;
use std::marker::PhantomData;
use crate::array_buffer::JSArrayBuffer;
use crate::context::JSContext;
use crate::engine::{JSArrayBufferOps, JSObjectOps, JSTypeOf, JSTypedArrayOps, JSValueImpl};
use crate::error::{err_is, is_plain_error, HostError, JSResult, RongJSError, E_NOT_ARRAY_BUFFER, E_NOT_TYPED_ARRAY,
    E_OUT_OF_RANGE, E_TYPE};
use crate::object::JSObject;
use crate::value::{FromJSValue, IntoJSValue, JSValue};

verus! {

/// The kinds of typed arrays in JavaScript.
#[derive(Debug, Clone, Copy, PartialEq, Eq, Structural, Hash)]
pub enum JSTypedArrayKind {
    Int8,
    Uint8,
    Uint8Clamped,
    Int16,
    Uint16,
    Int32,
    Uint32,
    BigInt64,
    BigUint64,
    Float32,
    Float64,
}

/// The element size of each kind, in bytes.
pub open spec fn element_size(kind: JSTypedArrayKind) -> usize {
    match kind {
        JSTypedArrayKind::Int8 | JSTypedArrayKind::Uint8 | JSTypedArrayKind::Uint8Clamped => 1,
        JSTypedArrayKind::Int16 | JSTypedArrayKind::Uint16 => 2,
        JSTypedArrayKind::Int32 | JSTypedArrayKind::Uint32 | JSTypedArrayKind::Float32 => 4,
        JSTypedArrayKind::BigInt64 | JSTypedArrayKind::BigUint64 | JSTypedArrayKind::Float64 => 8,
    }
}

/// The name each kind is displayed with.
pub open spec fn kind_name(kind: JSTypedArrayKind) -> Seq<char> {
    match kind {
        JSTypedArrayKind::Int8 => "Int8"@,
        JSTypedArrayKind::Uint8 => "Uint8"@,
        JSTypedArrayKind::Uint8Clamped => "Uint8Clamped"@,
        JSTypedArrayKind::Int16 => "Int16"@,
        JSTypedArrayKind::Uint16 => "Uint16"@,
        JSTypedArrayKind::Int32 => "Int32"@,
        JSTypedArrayKind::Uint32 => "Uint32"@,
        JSTypedArrayKind::BigInt64 => "BigInt64"@,
        JSTypedArrayKind::BigUint64 => "BigUint64"@,
        JSTypedArrayKind::Float32 => "Float32"@,
        JSTypedArrayKind::Float64 => "Float64"@,
    }
}

impl JSTypedArrayKind {
    /// The number of bytes per element for this kind.
    pub fn bytes_per_element(&self) -> (r: usize)
        ensures
            r == element_size(*self),
    {
        match self {
            JSTypedArrayKind::Int8 | JSTypedArrayKind::Uint8 | JSTypedArrayKind::Uint8Clamped => 1,
            JSTypedArrayKind::Int16 | JSTypedArrayKind::Uint16 => 2,
            JSTypedArrayKind::Int32 | JSTypedArrayKind::Uint32 | JSTypedArrayKind::Float32 => 4,
            JSTypedArrayKind::BigInt64 | JSTypedArrayKind::BigUint64 | JSTypedArrayKind::Float64 => 8,
        }
    }

    /// The name of the kind, as it is displayed.
    pub fn name(&self) -> (r: &'static str)
        ensures
            r@ == kind_name(*self),
    {
        match self {
            JSTypedArrayKind::Int8 => "Int8",
            JSTypedArrayKind::Uint8 => "Uint8",
            JSTypedArrayKind::Uint8Clamped => "Uint8Clamped",
            JSTypedArrayKind::Int16 => "Int16",
            JSTypedArrayKind::Uint16 => "Uint16",
            JSTypedArrayKind::Int32 => "Int32",
            JSTypedArrayKind::Uint32 => "Uint32",
            JSTypedArrayKind::BigInt64 => "BigInt64",
            JSTypedArrayKind::BigUint64 => "BigUint64",
            JSTypedArrayKind::Float32 => "Float32",
            JSTypedArrayKind::Float64 => "Float64",
        }
    }
}

/// A Rust type that marks the element kind of a typed array view.
pub trait TypedArrayElement: Sized {
    /// The kind this marker stands for.
    spec fn spec_kind() -> JSTypedArrayKind;

    /// The kind this marker stands for.
    fn kind() -> (r: JSTypedArrayKind)
        ensures
            r == Self::spec_kind();

    /// The number of bytes per element.
    fn bytes_per_element() -> (r: usize)
        ensures
            r == element_size(Self::spec_kind()),
    {
        Self::kind().bytes_per_element()
    }
}

/// Marker type for `Uint8ClampedArray`.
pub struct Uint8Clamped;

impl TypedArrayElement for i8 {
    open spec fn spec_kind() -> JSTypedArrayKind { JSTypedArrayKind::Int8 }
    fn kind() -> JSTypedArrayKind { JSTypedArrayKind::Int8 }
}

impl TypedArrayElement for u8 {
    open spec fn spec_kind() -> JSTypedArrayKind { JSTypedArrayKind::Uint8 }
    fn kind() -> JSTypedArrayKind { JSTypedArrayKind::Uint8 }
}

impl TypedArrayElement for Uint8Clamped {
    open spec fn spec_kind() -> JSTypedArrayKind { JSTypedArrayKind::Uint8Clamped }
    fn kind() -> JSTypedArrayKind { JSTypedArrayKind::Uint8Clamped }
}

impl TypedArrayElement for i16 {
    open spec fn spec_kind() -> JSTypedArrayKind { JSTypedArrayKind::Int16 }
    fn kind() -> JSTypedArrayKind { JSTypedArrayKind::Int16 }
}

impl TypedArrayElement for u16 {
    open spec fn spec_kind() -> JSTypedArrayKind { JSTypedArrayKind::Uint16 }
    fn kind() -> JSTypedArrayKind { JSTypedArrayKind::Uint16 }
}

impl TypedArrayElement for i32 {
    open spec fn spec_kind() -> JSTypedArrayKind { JSTypedArrayKind::Int32 }
    fn kind() -> JSTypedArrayKind { JSTypedArrayKind::Int32 }
}

impl TypedArrayElement for u32 {
    open spec fn spec_kind() -> JSTypedArrayKind { JSTypedArrayKind::Uint32 }
    fn kind() -> JSTypedArrayKind { JSTypedArrayKind::Uint32 }
}

impl TypedArrayElement for i64 {
    open spec fn spec_kind() -> JSTypedArrayKind { JSTypedArrayKind::BigInt64 }
    fn kind() -> JSTypedArrayKind { JSTypedArrayKind::BigInt64 }
}

impl TypedArrayElement for u64 {
    open spec fn spec_kind() -> JSTypedArrayKind { JSTypedArrayKind::BigUint64 }
    fn kind() -> JSTypedArrayKind { JSTypedArrayKind::BigUint64 }
}

/// The length in elements of a view of `kind` at `byte_offset` into a buffer
/// of `buffer_size` bytes: the requested length when it fits, else the rest of
/// the buffer when it divides evenly.
pub open spec fn view_length_spec(kind: JSTypedArrayKind, buffer_size: usize, byte_offset: usize,
    length: Option<usize>) -> Result<usize, ViewRangeError> {
    let bpe = element_size(kind);
    if byte_offset % bpe != 0 {
        Err(ViewRangeError::Alignment)
    } else if byte_offset > buffer_size {
        Err(ViewRangeError::Range)
    } else {
        let available = (buffer_size - byte_offset) as usize;
        match length {
            Some(n) => if n > available / bpe { Err(ViewRangeError::Range) } else { Ok(n) },
            None => if available % bpe != 0 { Err(ViewRangeError::Alignment) } else { Ok((available / bpe) as usize) },
        }
    }
}

/// Why a typed array view does not fit its buffer.
#[derive(Debug, Clone, Copy, PartialEq, Eq, Structural)]
pub enum ViewRangeError {
    Alignment,
    Range,
}

/// The error that each view-range failure is reported as.
pub open spec fn view_error_is<T>(r: JSResult<T>, e: ViewRangeError) -> bool {
    match e {
        ViewRangeError::Alignment => err_is(r, "RangeError"@, E_OUT_OF_RANGE@,
            "Invalid TypedArray alignment: byte_offset must be a multiple of element size"@),
        ViewRangeError::Range => err_is(r, "RangeError"@, E_OUT_OF_RANGE@,
            "Invalid TypedArray range: offset or length exceeds buffer size"@),
    }
}

/// The element length of a view, or the error for a view that does not fit.
pub fn resolve_typed_array_length(kind: JSTypedArrayKind, buffer_size: usize, byte_offset: usize,
    length: Option<usize>) -> (r: JSResult<usize>)
    ensures
        match view_length_spec(kind, buffer_size, byte_offset, length) {
            Ok(n) => r == Ok::<usize, RongJSError>(n),
            Err(e) => view_error_is(r, e),
        },
{
    let bytes_per_element = kind.bytes_per_element();
    if byte_offset % bytes_per_element != 0 {
        return Err(RongJSError::TypedArrayAlignmentError());
    }
    if byte_offset > buffer_size {
        return Err(RongJSError::TypedArrayRangeError());
    }
    let available_bytes = buffer_size - byte_offset;
    match length {
        Some(length) => {
            if length > available_bytes / bytes_per_element {
                return Err(RongJSError::TypedArrayRangeError());
            }
            Ok(length)
        }
        None => {
            if available_bytes % bytes_per_element != 0 {
                return Err(RongJSError::TypedArrayAlignmentError());
            }
            Ok(available_bytes / bytes_per_element)
        }
    }
}

/// A view accepted by the range rules lies inside the buffer.
pub proof fn law_view_fits_buffer(kind: JSTypedArrayKind, buffer_size: usize, byte_offset: usize, length: Option<usize>)
    ensures
        view_length_spec(kind, buffer_size, byte_offset, length) matches Ok(n)
            ==> byte_offset + n * element_size(kind) <= buffer_size && byte_offset % element_size(kind) == 0,
{
    let bpe = element_size(kind);
    if let Ok(n) = view_length_spec(kind, buffer_size, byte_offset, length) {
        let available = (buffer_size - byte_offset) as int;
        assert(n <= available / (bpe as int));
        assert(n * bpe <= available) by (nonlinear_arith)
            requires
                n <= available / (bpe as int),
                bpe > 0,
                available >= 0,
        {
            vstd::arithmetic::div_mod::lemma_fundamental_div_mod(available, bpe as int);
            vstd::arithmetic::mul::lemma_mul_inequality(n as int, available / (bpe as int), bpe as int);
        }
    }
}

/// Every view that fits is accepted: at an offset that is a multiple of the
/// element size, a requested length whose elements end within the buffer
/// resolves to exactly that length.
pub proof fn law_fitting_view_resolves(kind: JSTypedArrayKind, buffer_size: usize, byte_offset: usize, n: usize,
    r: JSResult<usize>)
    requires
        call_ensures(resolve_typed_array_length, (kind, buffer_size, byte_offset, Option::<usize>::Some(n)), r),
        byte_offset % element_size(kind) == 0,
        byte_offset + n * element_size(kind) <= buffer_size,
    ensures
        r == Ok::<usize, RongJSError>(n),
{
    let bpe = element_size(kind) as int;
    let available = buffer_size - byte_offset;
    assert(n <= available / bpe) by (nonlinear_arith)
        requires
            n * bpe <= available,
            bpe > 0,
            available >= 0,
            n >= 0,
    {
        vstd::arithmetic::div_mod::lemma_fundamental_div_mod(available, bpe);
        if n > available / bpe {
            vstd::arithmetic::mul::lemma_mul_inequality(available / bpe + 1, n as int, bpe);
        }
    }
}

/// A view with no requested length takes the whole rest of the buffer: when
/// the offset is aligned, lies within the buffer, and the bytes after it
/// divide evenly into elements, it resolves to the number of those elements.
pub proof fn law_open_view_takes_rest(kind: JSTypedArrayKind, buffer_size: usize, byte_offset: usize,
    r: JSResult<usize>)
    requires
        call_ensures(resolve_typed_array_length, (kind, buffer_size, byte_offset, Option::<usize>::None), r),
        byte_offset % element_size(kind) == 0,
        byte_offset <= buffer_size,
        (buffer_size - byte_offset) % (element_size(kind) as int) == 0,
    ensures
        r matches Ok(m) && m * element_size(kind) == buffer_size - byte_offset,
{
    let bpe = element_size(kind) as int;
    let available = buffer_size - byte_offset;
    vstd::arithmetic::div_mod::lemma_fundamental_div_mod(available, bpe);
    assert((available / bpe) * bpe == available) by (nonlinear_arith)
        requires
            available == bpe * (available / bpe) + available % bpe,
            available % bpe == 0,
    ;
}

/// Every view that does not fit is refused, with the error for its fault: an
/// offset that is no multiple of the element size is misaligned; an offset
/// past the end, or a requested length whose elements end past it, is out of
/// range; with no length asked for, bytes after the offset that do not divide
/// into elements are misaligned.
pub proof fn law_misfit_view_refused(kind: JSTypedArrayKind, buffer_size: usize, byte_offset: usize,
    length: Option<usize>, r: JSResult<usize>)
    requires
        call_ensures(resolve_typed_array_length, (kind, buffer_size, byte_offset, length), r),
    ensures
        byte_offset % element_size(kind) != 0 ==> view_error_is(r, ViewRangeError::Alignment),
        byte_offset % element_size(kind) == 0 && byte_offset > buffer_size
            ==> view_error_is(r, ViewRangeError::Range),
        byte_offset % element_size(kind) == 0 && byte_offset <= buffer_size && length is Some
            && byte_offset + length->0 * element_size(kind) > buffer_size ==> view_error_is(r, ViewRangeError::Range),
        byte_offset % element_size(kind) == 0 && byte_offset <= buffer_size && length is None
            && (buffer_size - byte_offset) % (element_size(kind) as int) != 0
            ==> view_error_is(r, ViewRangeError::Alignment),
{
    let bpe = element_size(kind) as int;
    if byte_offset % element_size(kind) == 0 && byte_offset <= buffer_size {
        if let Some(n) = length {
            let available = buffer_size - byte_offset;
            if byte_offset + n * bpe > buffer_size {
                assert(n > available / bpe) by (nonlinear_arith)
                    requires
                        n * bpe > available,
                        bpe > 0,
                        available >= 0,
                {
                    vstd::arithmetic::div_mod::lemma_fundamental_div_mod(available, bpe);
                    if n <= available / bpe {
                        vstd::arithmetic::mul::lemma_mul_inequality(n as int, available / bpe, bpe);
                    }
                }
            }
        }
    }
}

/// A view that resolves lies inside its buffer: its offset is aligned, a
/// requested length is kept as it is, and its elements end within the buffer.
pub proof fn law_resolved_view_inside_buffer(kind: JSTypedArrayKind, buffer_size: usize, byte_offset: usize,
    length: Option<usize>, r: JSResult<usize>)
    requires
        call_ensures(resolve_typed_array_length, (kind, buffer_size, byte_offset, length), r),
    ensures
        r matches Ok(m) ==> byte_offset % element_size(kind) == 0
            && byte_offset + m * element_size(kind) <= buffer_size
            && (length matches Some(n) ==> m == n),
{
    law_view_fits_buffer(kind, buffer_size, byte_offset, length);
    if let Ok(m) = r {
        if view_length_spec(kind, buffer_size, byte_offset, length) is Err {
            let e = view_length_spec(kind, buffer_size, byte_offset, length)->Err_0;
            assert(view_error_is(r, e));
        }
    }
}

/// The message of a kind mismatch.
pub open spec fn kind_mismatch_text(expected: JSTypedArrayKind, actual: JSTypedArrayKind) -> Seq<char> {
    "TypedArray kind mismatch: expected "@ + kind_name(expected) + ", got "@ + kind_name(actual)
}

#[allow(non_snake_case)]
impl RongJSError {
    /// A view of one kind was asked for where the typed array has another.
    pub fn TypedArrayKindMismatch(expected: JSTypedArrayKind, actual: JSTypedArrayKind) -> (r: Self)
        ensures
            is_plain_error(r, "TypeError"@, E_TYPE@, kind_mismatch_text(expected, actual)),
    {
        let mut message = String::from_str("TypedArray kind mismatch: expected ");
        message.append(expected.name());
        message.append(", got ");
        message.append(actual.name());
        RongJSError::host_error(HostError::new(E_TYPE, message.as_str()).with_name("TypeError"))
    }
}

/// A typed array of any kind.
pub struct AnyJSTypedArray<V: JSValueImpl>(pub(crate) JSObject<V>);

impl<V: JSValueImpl> Clone for AnyJSTypedArray<V> {
    fn clone(&self) -> (r: Self)
        ensures
            r == *self,
    {
        AnyJSTypedArray(self.0.clone())
    }
}

impl<V: JSValueImpl> AnyJSTypedArray<V> {
    pub closed spec fn raw(&self) -> V {
        self.0.raw()
    }

    /// The typed array as an object.
    pub fn as_object(&self) -> (r: &JSObject<V>)
        ensures
            r.raw() == self.raw(),
    {
        &self.0
    }
}

impl<V: JSTypeOf + JSTypedArrayOps> FromJSValue<V> for AnyJSTypedArray<V> {
    /// An object with a typed-array kind; any other value is the
    /// `NotJSTypedArray` error.
    fn from_js_value(_ctx: &JSContext<V::Context>, value: JSValue<V>) -> (r: JSResult<Self>)
        ensures
            value.raw().spec_is_object() && value.raw().spec_kind() is Some <==> r is Ok,
            r matches Ok(a) ==> a.raw() == value.raw(),
            r is Err ==> (r matches Err(e) && is_plain_error(e, "TypeError"@, E_NOT_TYPED_ARRAY@,
                "Not JS TypedArray"@)),
    {
        if value.is_object() && value.as_value().get_kind().is_some() {
            Ok(AnyJSTypedArray(JSObject::from_js(value)))
        } else {
            Err(RongJSError::NotJSTypedArray())
        }
    }
}

impl<V: JSValueImpl> crate::parameter::JSParameterType for AnyJSTypedArray<V> {}

impl<V: JSTypedArrayOps, T: TypedArrayElement> crate::parameter::JSParameterType for JSTypedArray<V, T> {}

impl<V: JSValueImpl> IntoJSValue<V> for AnyJSTypedArray<V> {
    fn into_js_value(self, _ctx: &JSContext<V::Context>) -> (r: JSValue<V>)
        ensures
            JSValue::<V>::raw(&r) == self.raw(),
    {
        self.0.into_js_value()
    }
}

impl<V: JSTypedArrayOps> AnyJSTypedArray<V> {
    /// The kind, as the engine reports it.
    pub fn get_kind(&self) -> (r: Option<JSTypedArrayKind>)
        ensures
            r == self.raw().spec_kind(),
    {
        self.0.as_value().get_kind()
    }

    /// The byte offset into the buffer.
    pub fn byte_offset(&self) -> (r: usize)
        ensures
            r == self.raw().spec_byte_offset(),
    {
        self.0.as_value().get_byte_offset()
    }

    /// The length in elements.
    pub fn len(&self) -> (r: usize)
        ensures
            r == self.raw().spec_length(),
    {
        self.0.as_value().get_length()
    }

    /// Whether the typed array has no elements.
    pub fn is_empty(&self) -> (r: bool)
        ensures
            r == (self.raw().spec_length() == 0),
    {
        self.len() == 0
    }

    /// The length in bytes.
    pub fn byte_length(&self) -> (r: usize)
        ensures
            r == self.raw().spec_byte_length(),
    {
        self.0.as_value().get_byte_length()
    }

    /// The object as a typed array, when it has a typed-array kind.
    pub fn from_object(obj: JSObject<V>) -> (r: Option<Self>)
        ensures
            obj.raw().spec_kind() is Some <==> r is Some,
            r matches Some(a) ==> a.raw() == obj.raw(),
    {
        if obj.as_value().get_kind().is_some() {
            Some(AnyJSTypedArray(obj))
        } else {
            None
        }
    }
}

impl<V: JSObjectOps + JSTypedArrayOps> AnyJSTypedArray<V> {
    /// The kind of the typed array.
    pub fn kind(&self) -> (r: JSTypedArrayKind)
        requires
            self.raw().spec_kind() is Some,
        ensures
            Some(r) == self.raw().spec_kind(),
    {
        match self.get_kind() {
            Some(k) => k,
            None => JSTypedArrayKind::Uint8,
        }
    }

    /// The number of bytes per element.
    pub fn bytes_per_element(&self) -> (r: usize)
        requires
            self.raw().spec_kind() is Some,
        ensures
            r == element_size(self.raw().spec_kind()->0),
    {
        self.kind().bytes_per_element()
    }
}

impl<V: JSObjectOps + JSTypedArrayOps + JSArrayBufferOps> AnyJSTypedArray<V> {
    /// A view of `kind` on the buffer at `byte_offset`, of `length` elements
    /// or the rest of the buffer; a view that does not fit is refused by
    /// [`resolve_typed_array_length`] before the engine is asked.
    pub fn from_array_buffer(ctx: &JSContext<V::Context>, kind: JSTypedArrayKind, buffer: JSArrayBuffer<V>,
        byte_offset: usize, length: Option<usize>) -> (r: JSResult<Self>)
        ensures
            view_length_spec(kind, buffer.spec_bytes().len() as usize, byte_offset, length) matches Err(e)
                ==> view_error_is(r, e),
            view_length_spec(kind, buffer.spec_bytes().len() as usize, byte_offset, length) matches Ok(n)
                ==> (r matches Ok(a) ==> a.raw().spec_kind() == Some(kind) && a.raw().spec_byte_offset()
                == byte_offset && a.raw().spec_length() == n && a.raw().spec_byte_length() == n * element_size(kind)),
            view_length_spec(kind, buffer.spec_bytes().len() as usize, byte_offset, length) is Ok ==> (
                r matches Err(e) ==> e.thrown_handle() is Some || is_plain_error(e, "TypeError"@,
                E_NOT_TYPED_ARRAY@, "Not JS TypedArray"@)),
    {
        let size = buffer.len();
        let length = match resolve_typed_array_length(kind, size, byte_offset, length) {
            Ok(n) => n,
            Err(e) => { return Err(e); },
        };
        let buffer_value = buffer.inner.into_value();
        let value = <V as JSTypedArrayOps>::from_array_buffer(ctx.as_ref(), kind, buffer_value, byte_offset,
            Some(length));
        match JSValue::from_raw(ctx, value).check_exception() {
            Ok(v) => Self::from_js_value(ctx, v),
            Err(e) => Err(e),
        }
    }

    /// The buffer the view is on.
    pub fn buffer(&self) -> (r: JSResult<JSArrayBuffer<V>>)
        ensures
            r matches Ok(b) ==> b.raw().spec_is_array_buffer(),
            exists|answer: Option<V>| #[trigger] call_ensures(V::get_array_buffer, (&self.raw(),), answer) && match answer {
                None => r matches Err(e) && is_plain_error(e, "TypeError"@, E_NOT_ARRAY_BUFFER@, "Not JS ArrayBuffer"@),
                Some(b) => (r matches Ok(buf) ==> buf.raw() == b)
                    && (b.spec_is_array_buffer() && b.spec_is_object() ==> r is Ok),
            },
    {
        let answer = self.0.as_value().get_array_buffer();
        assert(call_ensures(V::get_array_buffer, (&self.raw(),), answer));
        match answer {
            Some(b) => {
                let ctx = self.0.context();
                JSArrayBuffer::from_js_value(&ctx, JSValue::from_raw(&ctx, b))
            },
            None => Err(RongJSError::NotJSArrayBuffer()),
        }
    }

    /// A copy of the bytes in the view's range, taken by [`view_range`] from
    /// the buffer's bytes; `None` when the view has no buffer or its range is
    /// not inside the buffer.
    pub fn byte_view(&self) -> (r: Option<Vec<u8>>)
        ensures
            r matches Some(v) ==> v@.len() == self.raw().spec_byte_length(),
            r matches Some(v) ==> exists|bytes: Seq<u8>| #[trigger] view_range_spec(bytes, self.raw().spec_byte_offset(),
                self.raw().spec_byte_length()) == Some(v@),
            exists|answer: Option<V>| #[trigger] call_ensures(V::get_array_buffer, (&self.raw(),), answer) && match answer {
                None => r is None,
                Some(b) => match view_range_spec(b.spec_bytes(), self.raw().spec_byte_offset(),
                    self.raw().spec_byte_length()) {
                    None => r is None,
                    Some(range) => r matches Some(v) && v@ == range,
                },
            },
    {
        let answer = self.0.as_value().get_array_buffer();
        assert(call_ensures(V::get_array_buffer, (&self.raw(),), answer));
        match answer {
            Some(b) => {
                let offset = self.byte_offset();
                let length = self.byte_length();
                let bytes = b.as_slice();
                let r = view_range(bytes, offset, length);
                proof {
                    if r is Some {
                        assert(view_range_spec(bytes@, offset, length) == Some(r->0@));
                    }
                }
                r
            },
            None => None,
        }
    }

    /// Same as [`AnyJSTypedArray::byte_view`].
    pub fn as_bytes(&self) -> (r: Option<Vec<u8>>)
        ensures
            r matches Some(v) ==> v@.len() == self.raw().spec_byte_length(),
            r matches Some(v) ==> exists|bytes: Seq<u8>| #[trigger] view_range_spec(bytes, self.raw().spec_byte_offset(),
                self.raw().spec_byte_length()) == Some(v@),
            exists|answer: Option<V>| #[trigger] call_ensures(V::get_array_buffer, (&self.raw(),), answer) && match answer {
                None => r is None,
                Some(b) => match view_range_spec(b.spec_bytes(), self.raw().spec_byte_offset(),
                    self.raw().spec_byte_length()) {
                    None => r is None,
                    Some(range) => r matches Some(v) && v@ == range,
                },
            },
    {
        self.byte_view()
    }

    /// The typed array as a view of elements `T`, or the kind-mismatch error.
    pub fn cast<T: TypedArrayElement>(&self) -> (r: JSResult<JSTypedArray<V, T>>)
        ensures
            self.raw().spec_kind() == Some(T::spec_kind()) <==> r is Ok,
            r matches Ok(t) ==> t.raw() == self.raw(),
            self.raw().spec_kind() is None ==> (r matches Err(e) && is_plain_error(e, "TypeError"@,
                E_NOT_TYPED_ARRAY@, "Not JS TypedArray"@)),
            (self.raw().spec_kind() is Some && self.raw().spec_kind()->0 != T::spec_kind()) ==> (r matches Err(e)
                && is_plain_error(e, "TypeError"@, E_TYPE@, kind_mismatch_text(T::spec_kind(),
                self.raw().spec_kind()->0))),
    {
        let copy = self.clone();
        match copy.get_kind() {
            Some(_) => JSTypedArray::from_any(copy),
            None => Err(RongJSError::NotJSTypedArray()),
        }
    }
}

/// The bytes of a view at `offset` of `length` bytes, when it lies inside `bytes`.
pub open spec fn view_range_spec(bytes: Seq<u8>, offset: usize, length: usize) -> Option<Seq<u8>> {
    if offset <= bytes.len() && length <= bytes.len() - offset {
        Some(bytes.subrange(offset as int, offset + length))
    } else {
        None
    }
}

/// A copy of the `length` bytes at `offset`, or `None` when they do not lie
/// inside `bytes`.
pub fn view_range(bytes: &[u8], offset: usize, length: usize) -> (r: Option<Vec<u8>>)
    ensures
        r is Some <==> offset <= bytes@.len() && length <= bytes@.len() - offset,
        r matches Some(v) ==> v@ == bytes@.subrange(offset as int, offset + length),
        r matches Some(v) ==> view_range_spec(bytes@, offset, length) == Some(v@),
{
    if offset <= bytes.len() && length <= bytes.len() - offset {
        Some(vstd::slice::slice_to_vec(&bytes[offset..offset + length]))
    } else {
        None
    }
}

/// A typed array whose elements are `T`.
pub struct JSTypedArray<V: JSTypedArrayOps, T: TypedArrayElement = u8> {
    inner: AnyJSTypedArray<V>,
    marker: PhantomData<T>,
}

impl<V: JSTypedArrayOps, T: TypedArrayElement> JSTypedArray<V, T> {
    /// The typed array's kind is the kind of `T`.
    #[verifier::type_invariant]
    spec fn kind_is_element_kind(self) -> bool {
        self.inner.raw().spec_kind() == Some(T::spec_kind())
    }
}

impl<V: JSTypedArrayOps, T: TypedArrayElement> Clone for JSTypedArray<V, T> {
    fn clone(&self) -> (r: Self)
        ensures
            r == *self,
    {
        proof {
            use_type_invariant(self);
        }
        JSTypedArray { inner: self.inner.clone(), marker: PhantomData }
    }
}

impl<V: JSTypedArrayOps, T: TypedArrayElement> JSTypedArray<V, T> {
    pub closed spec fn raw(&self) -> V {
        self.inner.raw()
    }

    /// The typed array of any kind, whose kind is that of `T`.
    pub fn into_any(self) -> (r: AnyJSTypedArray<V>)
        ensures
            r.raw() == self.raw(),
            r.raw().spec_kind() == Some(T::spec_kind()),
    {
        proof {
            use_type_invariant(&self);
        }
        self.inner
    }

    /// The kind `T` stands for.
    pub fn kind(&self) -> (r: JSTypedArrayKind)
        ensures
            r == T::spec_kind(),
            self.raw().spec_kind() == Some(r),
    {
        proof {
            use_type_invariant(self);
        }
        T::kind()
    }

    /// The number of bytes per element of `T`.
    pub fn bytes_per_element(&self) -> (r: usize)
        ensures
            r == element_size(T::spec_kind()),
    {
        T::bytes_per_element()
    }
}

impl<V: JSTypedArrayOps, T: TypedArrayElement> IntoJSValue<V> for JSTypedArray<V, T> {
    fn into_js_value(self, _ctx: &JSContext<V::Context>) -> (r: JSValue<V>)
        ensures
            JSValue::<V>::raw(&r) == self.raw(),
    {
        self.inner.0.into_js_value()
    }
}

impl<V: JSObjectOps + JSTypedArrayOps, T: TypedArrayElement> JSTypedArray<V, T> {
    /// The typed array as a view of `T`, when its kind is the kind of `T`;
    /// else the kind-mismatch error naming both kinds.
    pub fn from_any(inner: AnyJSTypedArray<V>) -> (r: JSResult<Self>)
        requires
            inner.raw().spec_kind() is Some,
        ensures
            inner.raw().spec_kind() == Some(T::spec_kind()) <==> r is Ok,
            r matches Ok(t) ==> t.raw() == inner.raw(),
            r is Err ==> (r matches Err(e) && is_plain_error(e, "TypeError"@, E_TYPE@,
                kind_mismatch_text(T::spec_kind(), inner.raw().spec_kind()->0))),
    {
        let actual = inner.kind();
        let expected = T::kind();
        if actual != expected {
            return Err(RongJSError::TypedArrayKindMismatch(expected, actual));
        }
        Ok(JSTypedArray { inner, marker: PhantomData })
    }

    /// The object as a view of `T`, when it is a typed array of that kind.
    pub fn from_object(obj: JSObject<V>) -> (r: Option<Self>)
        ensures
            obj.raw().spec_kind() == Some(T::spec_kind()) <==> r is Some,
    {
        match AnyJSTypedArray::from_object(obj) {
            Some(inner) => match Self::from_any(inner) {
                Ok(t) => Some(t),
                Err(_) => None,
            },
            None => None,
        }
    }
}

impl<V: JSTypeOf + JSObjectOps + JSTypedArrayOps, T: TypedArrayElement> FromJSValue<V> for JSTypedArray<V, T> {
    /// A typed array of the kind of `T`; any other value is the
    /// `NotJSTypedArray` error, and a typed array of another kind the
    /// kind-mismatch error.
    fn from_js_value(ctx: &JSContext<V::Context>, value: JSValue<V>) -> (r: JSResult<Self>)
        ensures
            (value.raw().spec_is_object() && value.raw().spec_kind() == Some(T::spec_kind())) <==> r is Ok,
            r matches Ok(t) ==> t.raw() == value.raw(),
            !(value.raw().spec_is_object() && value.raw().spec_kind() is Some) ==> (r matches Err(e)
                && is_plain_error(e, "TypeError"@, E_NOT_TYPED_ARRAY@, "Not JS TypedArray"@)),
            (value.raw().spec_is_object() && value.raw().spec_kind() is Some && value.raw().spec_kind()->0
                != T::spec_kind()) ==> (r matches Err(e) && is_plain_error(e, "TypeError"@, E_TYPE@,
                kind_mismatch_text(T::spec_kind(), value.raw().spec_kind()->0))),
    {
        match AnyJSTypedArray::from_js_value(ctx, value) {
            Ok(inner) => Self::from_any(inner),
            Err(e) => Err(e),
        }
    }
}

impl<V: JSObjectOps + JSTypedArrayOps + JSArrayBufferOps, T: TypedArrayElement> JSTypedArray<V, T> {
    /// A view of `T` on the buffer; see [`AnyJSTypedArray::from_array_buffer`].
    pub fn from_array_buffer(ctx: &JSContext<V::Context>, buffer: JSArrayBuffer<V>, byte_offset: usize,
        length: Option<usize>) -> (r: JSResult<Self>)
        ensures
            view_length_spec(T::spec_kind(), buffer.spec_bytes().len() as usize, byte_offset, length) matches Err(e)
                ==> view_error_is(r, e),
            view_length_spec(T::spec_kind(), buffer.spec_bytes().len() as usize, byte_offset, length) matches Ok(n)
                ==> (r matches Ok(t) ==> t.raw().spec_kind() == Some(T::spec_kind()) && t.raw().spec_byte_offset()
                == byte_offset && t.raw().spec_length() == n && t.raw().spec_byte_length() == n * element_size(
                T::spec_kind())),
            view_length_spec(T::spec_kind(), buffer.spec_bytes().len() as usize, byte_offset, length) is Ok ==> (
                r matches Err(e) ==> e.thrown_handle() is Some || is_plain_error(e, "TypeError"@,
                E_NOT_TYPED_ARRAY@, "Not JS TypedArray"@)),
    {
        match AnyJSTypedArray::from_array_buffer(ctx, T::kind(), buffer, byte_offset, length) {
            Ok(inner) => Ok(JSTypedArray { inner, marker: PhantomData }),
            Err(e) => Err(e),
        }
    }
}

} // verus!
