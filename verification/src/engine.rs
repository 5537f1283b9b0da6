//! The interface a JavaScript engine implements to be driven by this library.
//!
//! Each engine (QuickJS, JavaScriptCore, ArkJS, ...) provides a runtime, a
//! context and a value type implementing these traits. The contracts here are
//! the few facts the library relies on: a value's type does not change, and the
//! constructors of undefined and null give values of those types.

use vstd::prelude::*;
use crate::error::{is_bytecode_failure, JSResult, RongJSError};
use crate::property::PropertyAttributes;
use crate::source::Source;
use crate::typed_array::{element_size, JSTypedArrayKind};
use crate::valuetype::{type_of_spec, JSValueType};

verus! {

/// A JavaScript runtime: a heap and job queue that contexts share.
pub trait JSRuntimeImpl: Sized {
    /// The raw runtime handle type associated with this runtime.
    type RawRuntime;

    /// The context type of this runtime.
    type Context;

    /// Creates a runtime.
    fn new() -> Self;

    /// A copy of the raw, engine-specific runtime handle.
    fn to_raw(&self) -> Self::RawRuntime;

    /// Runs pending jobs (promise callbacks, microtasks). A negative result
    /// means this engine does not need to be driven this way.
    fn run_pending_jobs(&self) -> i32;

    /// Runs a garbage collection cycle.
    fn run_gc(&self);
}

/// A JavaScript context: a global object and a realm within a runtime.
pub trait JSContextImpl: Sized {
    /// The raw, engine-specific context handle.
    type RawContext;

    /// The runtime this context belongs to.
    type Runtime: JSRuntimeImpl<Context = Self>;

    /// The value type of this context.
    type Value;

    /// Creates a context in the runtime.
    fn new(runtime: &Self::Runtime) -> Self;

    /// The raw, engine-specific context handle.
    spec fn spec_raw(&self) -> Self::RawContext;

    /// The identifier of a raw context.
    spec fn spec_context_id(ctx: Self::RawContext) -> usize;

    /// The raw, engine-specific context handle.
    fn as_raw(&self) -> (r: &Self::RawContext)
        ensures
            *r == self.spec_raw();

    /// An identifier unique to this context and stable over its lifetime.
    fn context_id(ctx: &Self::RawContext) -> (r: usize)
        ensures
            r == Self::spec_context_id(*ctx);

    /// Evaluates JavaScript code; an exception value on failure.
    fn eval(&self, source: Source) -> Self::Value;

    /// The global object.
    fn global(&self) -> Self::Value;

    /// Calls `function` with `this` and the arguments.
    fn call(&self, function: &Self::Value, this: Self::Value, argv: Vec<Self::Value>) -> Self::Value;

    /// A new promise with its resolve and reject functions.
    fn promise(&self) -> (Self::Value, Self::Value, Self::Value);

    /// Compiles JavaScript code to bytecode.
    fn compile_to_bytecode(&self, source: Source) -> (r: Result<Vec<u8>, RongJSError>)
        ensures
            r matches Err(e) ==> is_bytecode_failure(e);

    /// Runs previously compiled bytecode.
    fn run_bytecode(&self, bytes: &[u8]) -> Self::Value;
}

/// Creation of JavaScript `Error` objects.
pub trait JSErrorFactory: JSContextImpl {
    /// The `name`, `message` and `code` of an error object, as it was made
    /// (JavaScript may reassign them later).
    spec fn spec_error_fields(&self, v: Self::Value) -> Option<(Seq<char>, Seq<char>, Option<Seq<char>>)>;

    /// A new error object with the given `name`, `message` and optional `code` property.
    fn new_error(&self, name: &str, message: &str, code: Option<&str>) -> (r: Self::Value)
        ensures
            self.spec_error_fields(r) == Some((name@, message@, str_opt_view(code)));
}

/// The characters of an optional text.
pub open spec fn str_opt_view(t: Option<&str>) -> Option<Seq<char>> {
    match t {
        Some(c) => Some(c@),
        None => None,
    }
}

/// Entering the JavaScript exception channel.
pub trait JSExceptionThrower: JSContextImpl {
    /// The engine's exception marker for throwing `value`.
    spec fn spec_throw(&self, value: Self::Value) -> Self::Value;

    /// Throws `value`; the result is the engine's exception marker.
    fn throw(&self, value: Self::Value) -> (r: Self::Value)
        where Self::Value: JSTypeOf,
        ensures
            r == self.spec_throw(value),
            r.spec_is_exception();
}

/// A JavaScript value of some engine.
pub trait JSValueImpl: Sized + Clone {
    /// The context type of this value.
    type Context: JSContextImpl<Value = Self>;

    /// Whether the value is `undefined`.
    spec fn spec_is_undefined(&self) -> bool;

    /// Whether the value is `null`.
    spec fn spec_is_null(&self) -> bool;

    /// The `undefined` value.
    fn create_undefined(ctx: &Self::Context) -> (r: Self)
        ensures
            r.spec_is_undefined();

    /// The `null` value.
    fn create_null(ctx: &Self::Context) -> (r: Self)
        ensures
            r.spec_is_null();

    /// A clone of a value is the same value: another handle to it.
    proof fn lemma_clone_same(a: Self, b: Self)
        requires
            cloned::<Self>(a, b),
        ensures
            a == b;
}

/// The type predicates of a value. A value's type never changes, so each
/// predicate is a function of the value.
pub trait JSTypeOf: JSValueImpl {
    spec fn spec_is_exception(&self) -> bool;
    spec fn spec_is_error(&self) -> bool;
    spec fn spec_is_array(&self) -> bool;
    spec fn spec_is_array_buffer(&self) -> bool;
    spec fn spec_is_promise(&self) -> bool;
    spec fn spec_is_boolean(&self) -> bool;
    spec fn spec_is_number(&self) -> bool;
    spec fn spec_is_bigint(&self) -> bool;
    spec fn spec_is_string(&self) -> bool;
    spec fn spec_is_symbol(&self) -> bool;
    spec fn spec_is_function(&self) -> bool;
    spec fn spec_is_object(&self) -> bool;
    spec fn spec_is_constructor(&self) -> bool;
    spec fn spec_is_date(&self) -> bool;
    spec fn spec_is_proxy(&self) -> bool;

    fn is_exception(&self) -> (r: bool)
        ensures
            r == self.spec_is_exception();

    fn is_error(&self) -> (r: bool)
        ensures
            r == self.spec_is_error();

    fn is_array(&self) -> (r: bool)
        ensures
            r == self.spec_is_array();

    fn is_array_buffer(&self) -> (r: bool)
        ensures
            r == self.spec_is_array_buffer();

    fn is_promise(&self) -> (r: bool)
        ensures
            r == self.spec_is_promise();

    fn is_undefined(&self) -> (r: bool)
        ensures
            r == self.spec_is_undefined();

    fn is_null(&self) -> (r: bool)
        ensures
            r == self.spec_is_null();

    fn is_boolean(&self) -> (r: bool)
        ensures
            r == self.spec_is_boolean();

    fn is_number(&self) -> (r: bool)
        ensures
            r == self.spec_is_number();

    fn is_bigint(&self) -> (r: bool)
        ensures
            r == self.spec_is_bigint();

    fn is_string(&self) -> (r: bool)
        ensures
            r == self.spec_is_string();

    fn is_symbol(&self) -> (r: bool)
        ensures
            r == self.spec_is_symbol();

    fn is_function(&self) -> (r: bool)
        ensures
            r == self.spec_is_function();

    fn is_object(&self) -> (r: bool)
        ensures
            r == self.spec_is_object();

    fn is_constructor(&self) -> (r: bool)
        ensures
            r == self.spec_is_constructor();

    fn is_date(&self) -> (r: bool)
        ensures
            r == self.spec_is_date();

    fn is_proxy(&self) -> (r: bool)
        ensures
            r == self.spec_is_proxy();

    /// The type tag of the value, chosen by the fixed order of [`type_of_spec`].
    fn type_of(&self) -> (r: JSValueType)
        ensures
            r == type_of_spec(self.spec_is_exception(), self.spec_is_error(), self.spec_is_promise(),
                self.spec_is_array(), self.spec_is_array_buffer(), self.spec_is_function(),
                self.spec_is_constructor(), self.spec_is_undefined(), self.spec_is_null(),
                self.spec_is_boolean(), self.spec_is_number(), self.spec_is_bigint(), self.spec_is_string(),
                self.spec_is_date(), self.spec_is_symbol(), self.spec_is_object()),
    {
        crate::valuetype::type_tag(self.is_exception(), self.is_error(), self.is_promise(), self.is_array(),
            self.is_array_buffer(), self.is_function(), self.is_constructor(), self.is_undefined(),
            self.is_null(), self.is_boolean(), self.is_number(), self.is_bigint(), self.is_string(),
            self.is_date(), self.is_symbol(), self.is_object())
    }
}

/// Conversions between Rust primitives and values. Conversions out of a value
/// fail with an error when the value does not hold the requested type.
pub trait JSValueConversion: JSTypeOf {
    /// The truth value of a boolean.
    spec fn spec_bool_value(&self) -> bool;

    /// The integer a number denotes, when it denotes one.
    spec fn spec_int_value(&self) -> Option<i128>;

    /// The characters of a string.
    spec fn spec_text(&self) -> String;

    fn from_bool(ctx: &Self::Context, v: bool) -> (r: Self)
        ensures
            r.spec_is_boolean() && r.spec_bool_value() == v;

    fn from_i32(ctx: &Self::Context, v: i32) -> (r: Self)
        ensures
            r.spec_is_number() && r.spec_int_value() == Some(v as i128);

    fn from_u32(ctx: &Self::Context, v: u32) -> (r: Self)
        ensures
            r.spec_is_number() && r.spec_int_value() == Some(v as i128);

    /// A number; it denotes `v` exactly when `v` is a safe integer.
    fn from_i64(ctx: &Self::Context, v: i64) -> (r: Self)
        ensures
            r.spec_is_number(),
            -MAX_SAFE_INT <= v <= MAX_SAFE_INT ==> r.spec_int_value() == Some(v as i128);

    /// A number; it denotes `v` exactly when `v` is a safe integer.
    fn from_u64(ctx: &Self::Context, v: u64) -> (r: Self)
        ensures
            r.spec_is_number(),
            v <= MAX_SAFE_INT ==> r.spec_int_value() == Some(v as i128);

    /// A number from the bit pattern of an IEEE 754 double.
    fn from_f64_bits(ctx: &Self::Context, bits: u64) -> (r: Self)
        ensures
            r.spec_is_number();

    /// A string holding `v`, or an exception when the engine cannot allocate it.
    fn from_str(ctx: &Self::Context, v: &str) -> (r: Self)
        ensures
            r.spec_is_string() || r.spec_is_exception(),
            r.spec_is_string() ==> r.spec_text()@ == v@;

    fn to_bool(&self) -> (r: JSResult<bool>)
        ensures
            self.spec_is_boolean() ==> r == Ok::<bool, RongJSError>(self.spec_bool_value());

    fn to_i32(&self) -> (r: JSResult<i32>)
        ensures
            (self.spec_is_number() && self.spec_int_value() is Some && i32::MIN <= self.spec_int_value()->0 <= i32::MAX)
                ==> r == Ok::<i32, RongJSError>(self.spec_int_value()->0 as i32);

    fn to_u32(&self) -> (r: JSResult<u32>)
        ensures
            (self.spec_is_number() && self.spec_int_value() is Some && 0 <= self.spec_int_value()->0 <= u32::MAX)
                ==> r == Ok::<u32, RongJSError>(self.spec_int_value()->0 as u32);

    fn to_i64(&self) -> (r: JSResult<i64>)
        ensures
            (self.spec_is_number() && self.spec_int_value() is Some && i64::MIN <= self.spec_int_value()->0 <= i64::MAX)
                ==> r == Ok::<i64, RongJSError>(self.spec_int_value()->0 as i64);

    fn to_u64(&self) -> (r: JSResult<u64>)
        ensures
            (self.spec_is_number() && self.spec_int_value() is Some && 0 <= self.spec_int_value()->0 <= u64::MAX)
                ==> r == Ok::<u64, RongJSError>(self.spec_int_value()->0 as u64);

    fn to_string(&self) -> (r: JSResult<String>)
        ensures
            self.spec_is_string() ==> (r matches Ok(t) && t@ == self.spec_text()@);
}

/// The largest integer a JavaScript number holds exactly.
pub const MAX_SAFE_INT: i64 = 9007199254740991;

/// Primitive object operations. Operations that can run JavaScript report a
/// thrown value as `Err(thrown)`.
pub trait JSObjectOps: JSValueConversion + JSTypeOf {
    /// A new empty object, or an exception.
    fn new_object(ctx: &Self::Context) -> (r: Self)
        ensures
            r.spec_is_object() || r.spec_is_exception();

    /// Whether this object is an instance of the constructor.
    fn instance_of(&self, constructor: Self) -> bool;

    /// Deletes a property: `Ok(true)` when deleted, `Ok(false)` when absent or
    /// not deletable.
    fn del_property(&self, key: Self) -> Result<bool, Self>;

    /// Whether the object has the property.
    fn has_property(&self, key: Self) -> Result<bool, Self>;

    /// Sets a property.
    fn set_property(&self, key: Self, value: Self) -> Result<(), Self>;

    /// Sets the prototype; whether it was set.
    fn set_prototype(&self, prototype: Self) -> bool;

    /// Defines a property with the given value, accessors and attributes.
    fn define_property(&self, key: Self, value: Self, getter: Self, setter: Self, attributes: PropertyAttributes)
        -> Result<(), Self>;

    /// The value of a property lookup; `undefined` is a value, not `None`.
    fn get_property(&self, key: Self) -> Result<Option<Self>, Self>;

    /// The names of the object's own enumerable properties.
    fn get_own_property_names(&self) -> Result<Vec<Self>, Self>;
}

/// Primitive array index operations.
pub trait JSArrayOps: JSTypeOf {
    /// A new empty array, or an exception.
    fn new_array(ctx: &Self::Context) -> (r: Self)
        ensures
            r.spec_is_array() || r.spec_is_exception();

    /// The element at `index`, or an exception.
    fn get_index(&self, index: u32) -> Self;

    /// Sets the element at `index`: `undefined` on success, or an exception.
    fn set_index(&self, index: u32, value: Self) -> (r: Self)
        ensures
            r.spec_is_undefined() || r.spec_is_exception();
}

/// Array buffer operations. An array buffer holds a sequence of bytes; the
/// contracts below speak of the bytes a buffer holds while JavaScript neither
/// writes to it nor detaches it.
pub trait JSArrayBufferOps: JSTypeOf {
    /// The bytes an array buffer holds.
    spec fn spec_bytes(&self) -> Seq<u8>;

    /// A new array buffer holding a copy of the bytes, or an exception.
    fn from_bytes(ctx: &Self::Context, bytes: &[u8]) -> (r: Self)
        ensures
            r.spec_is_array_buffer() ==> r.spec_bytes() == bytes@;

    /// A new array buffer taking the bytes, or an exception.
    fn from_vec(ctx: &Self::Context, vec: Vec<u8>) -> (r: Self)
        ensures
            r.spec_is_array_buffer() ==> r.spec_bytes() == vec@;

    /// The byte length.
    fn length(&self) -> (r: usize)
        ensures
            r == self.spec_bytes().len();

    /// The bytes.
    fn as_slice(&self) -> (r: &[u8])
        ensures
            r@ == self.spec_bytes();

    /// The bytes, writable.
    fn as_mut_slice(&mut self) -> &mut [u8];
}

/// Typed array operations. The kind of a typed array never changes; its
/// offset and lengths are those it has while its buffer is not detached.
pub trait JSTypedArrayOps: JSTypeOf {
    /// The element kind, for a typed array.
    spec fn spec_kind(&self) -> Option<JSTypedArrayKind>;

    /// A typed array view of `buffer` of the kind, at the byte offset and of
    /// the length asked for, or an exception.
    fn from_array_buffer(ctx: &Self::Context, kind: JSTypedArrayKind, buffer: Self, byte_offset: usize,
        length: Option<usize>) -> (r: Self)
        ensures
            !r.spec_is_exception() ==> r.spec_kind() == Some(kind) && r.spec_byte_offset() == byte_offset
                && (length matches Some(n) ==> r.spec_length() == n && r.spec_byte_length() == n * element_size(kind));

    /// The element kind, for a typed array.
    fn get_kind(&self) -> (r: Option<JSTypedArrayKind>)
        ensures
            r == self.spec_kind();

    /// The underlying array buffer.
    fn get_array_buffer(&self) -> Option<Self>;

    /// The byte offset into the array buffer.
    spec fn spec_byte_offset(&self) -> usize;

    /// The length in elements.
    spec fn spec_length(&self) -> usize;

    /// The length in bytes.
    spec fn spec_byte_length(&self) -> usize;

    /// The byte offset into the array buffer.
    fn get_byte_offset(&self) -> (r: usize)
        ensures
            r == self.spec_byte_offset();

    /// The length in elements.
    fn get_length(&self) -> (r: usize)
        ensures
            r == self.spec_length();

    /// The length in bytes.
    fn get_byte_length(&self) -> (r: usize)
        ensures
            r == self.spec_byte_length();
}

/// Proxy operations.
pub trait JSProxyOps: JSTypeOf {
    /// `new Proxy(target, handler)`.
    fn new_proxy(ctx: &Self::Context, target: Self, handler: Self) -> Result<Self, Self>;

    /// The target of a proxy.
    fn proxy_target(&self) -> Result<Self, Self>;
}

} // verus!
