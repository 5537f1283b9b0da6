//! Property attributes, keys and descriptors.

use vstd::prelude::*;

verus! {

/// The attributes of a property definition, as flags. Each of writable,
/// enumerable and configurable comes with a "has" flag saying whether the
/// definition sets it at all; the other three say which of value, getter and
/// setter the definition carries.
#[derive(Clone, Copy)]
pub struct PropertyAttributes(u32);

/// The abstract content of [`PropertyAttributes`].
pub struct PropertyFlags {
    pub writable: bool,
    pub enumerable: bool,
    pub configurable: bool,
    pub has_value: bool,
    pub has_get: bool,
    pub has_set: bool,
    pub has_writable: bool,
    pub has_enumerable: bool,
    pub has_configurable: bool,
}

pub const WRITABLE: u32 = 1;
pub const ENUMERABLE: u32 = 2;
pub const CONFIGURABLE: u32 = 4;
pub const HAS_VALUE: u32 = 8;
pub const HAS_GET: u32 = 16;
pub const HAS_SET: u32 = 32;
pub const HAS_WRITABLE: u32 = 64;
pub const HAS_ENUMERABLE: u32 = 128;
pub const HAS_CONFIGURABLE: u32 = 256;

/// The flags that a bit pattern encodes.
pub open spec fn flags_of(b: u32) -> PropertyFlags {
    PropertyFlags {
        writable: b & 1u32 != 0,
        enumerable: b & 2u32 != 0,
        configurable: b & 4u32 != 0,
        has_value: b & 8u32 != 0,
        has_get: b & 16u32 != 0,
        has_set: b & 32u32 != 0,
        has_writable: b & 64u32 != 0,
        has_enumerable: b & 128u32 != 0,
        has_configurable: b & 256u32 != 0,
    }
}

/// Setting one bit of a pattern sets that flag and leaves the others.
proof fn lemma_set_bits(b: u32)
    ensures
        flags_of(b | 65u32) == (PropertyFlags { writable: true, has_writable: true, ..flags_of(b) }),
        flags_of((b | 64u32) & !1u32) == (PropertyFlags { writable: false, has_writable: true, ..flags_of(b) }),
        flags_of(b | 130u32) == (PropertyFlags { enumerable: true, has_enumerable: true, ..flags_of(b) }),
        flags_of((b | 128u32) & !2u32) == (PropertyFlags { enumerable: false, has_enumerable: true, ..flags_of(b) }),
        flags_of(b | 260u32) == (PropertyFlags { configurable: true, has_configurable: true, ..flags_of(b) }),
        flags_of((b | 256u32) & !4u32) == (PropertyFlags { configurable: false, has_configurable: true, ..flags_of(b) }),
        flags_of(b | 8u32) == (PropertyFlags { has_value: true, ..flags_of(b) }),
        flags_of(b | 16u32) == (PropertyFlags { has_get: true, ..flags_of(b) }),
        flags_of(b | 32u32) == (PropertyFlags { has_set: true, ..flags_of(b) }),
{
    assert(
        ((b | 65u32) & 1u32 != 0) && ((b | 65u32) & 64u32 != 0)
        && ((b | 65u32) & 2u32 != 0) == (b & 2u32 != 0) && ((b | 65u32) & 4u32 != 0) == (b & 4u32 != 0)
        && ((b | 65u32) & 8u32 != 0) == (b & 8u32 != 0) && ((b | 65u32) & 16u32 != 0) == (b & 16u32 != 0)
        && ((b | 65u32) & 32u32 != 0) == (b & 32u32 != 0) && ((b | 65u32) & 128u32 != 0) == (b & 128u32 != 0)
        && ((b | 65u32) & 256u32 != 0) == (b & 256u32 != 0)
    ) by (bit_vector);
    assert({
        let c = (b | 64u32) & !1u32;
        (c & 1u32 == 0) && (c & 64u32 != 0)
        && (c & 2u32 != 0) == (b & 2u32 != 0) && (c & 4u32 != 0) == (b & 4u32 != 0)
        && (c & 8u32 != 0) == (b & 8u32 != 0) && (c & 16u32 != 0) == (b & 16u32 != 0)
        && (c & 32u32 != 0) == (b & 32u32 != 0) && (c & 128u32 != 0) == (b & 128u32 != 0)
        && (c & 256u32 != 0) == (b & 256u32 != 0)
    }) by (bit_vector);
    assert(
        ((b | 130u32) & 2u32 != 0) && ((b | 130u32) & 128u32 != 0)
        && ((b | 130u32) & 1u32 != 0) == (b & 1u32 != 0) && ((b | 130u32) & 4u32 != 0) == (b & 4u32 != 0)
        && ((b | 130u32) & 8u32 != 0) == (b & 8u32 != 0) && ((b | 130u32) & 16u32 != 0) == (b & 16u32 != 0)
        && ((b | 130u32) & 32u32 != 0) == (b & 32u32 != 0) && ((b | 130u32) & 64u32 != 0) == (b & 64u32 != 0)
        && ((b | 130u32) & 256u32 != 0) == (b & 256u32 != 0)
    ) by (bit_vector);
    assert({
        let c = (b | 128u32) & !2u32;
        (c & 2u32 == 0) && (c & 128u32 != 0)
        && (c & 1u32 != 0) == (b & 1u32 != 0) && (c & 4u32 != 0) == (b & 4u32 != 0)
        && (c & 8u32 != 0) == (b & 8u32 != 0) && (c & 16u32 != 0) == (b & 16u32 != 0)
        && (c & 32u32 != 0) == (b & 32u32 != 0) && (c & 64u32 != 0) == (b & 64u32 != 0)
        && (c & 256u32 != 0) == (b & 256u32 != 0)
    }) by (bit_vector);
    assert(
        ((b | 260u32) & 4u32 != 0) && ((b | 260u32) & 256u32 != 0)
        && ((b | 260u32) & 1u32 != 0) == (b & 1u32 != 0) && ((b | 260u32) & 2u32 != 0) == (b & 2u32 != 0)
        && ((b | 260u32) & 8u32 != 0) == (b & 8u32 != 0) && ((b | 260u32) & 16u32 != 0) == (b & 16u32 != 0)
        && ((b | 260u32) & 32u32 != 0) == (b & 32u32 != 0) && ((b | 260u32) & 64u32 != 0) == (b & 64u32 != 0)
        && ((b | 260u32) & 128u32 != 0) == (b & 128u32 != 0)
    ) by (bit_vector);
    assert({
        let c = (b | 256u32) & !4u32;
        (c & 4u32 == 0) && (c & 256u32 != 0)
        && (c & 1u32 != 0) == (b & 1u32 != 0) && (c & 2u32 != 0) == (b & 2u32 != 0)
        && (c & 8u32 != 0) == (b & 8u32 != 0) && (c & 16u32 != 0) == (b & 16u32 != 0)
        && (c & 32u32 != 0) == (b & 32u32 != 0) && (c & 64u32 != 0) == (b & 64u32 != 0)
        && (c & 128u32 != 0) == (b & 128u32 != 0)
    }) by (bit_vector);
    assert(
        ((b | 8u32) & 8u32 != 0)
        && ((b | 8u32) & 1u32 != 0) == (b & 1u32 != 0) && ((b | 8u32) & 2u32 != 0) == (b & 2u32 != 0)
        && ((b | 8u32) & 4u32 != 0) == (b & 4u32 != 0) && ((b | 8u32) & 16u32 != 0) == (b & 16u32 != 0)
        && ((b | 8u32) & 32u32 != 0) == (b & 32u32 != 0) && ((b | 8u32) & 64u32 != 0) == (b & 64u32 != 0)
        && ((b | 8u32) & 128u32 != 0) == (b & 128u32 != 0) && ((b | 8u32) & 256u32 != 0) == (b & 256u32 != 0)
    ) by (bit_vector);
    assert(
        ((b | 16u32) & 16u32 != 0)
        && ((b | 16u32) & 1u32 != 0) == (b & 1u32 != 0) && ((b | 16u32) & 2u32 != 0) == (b & 2u32 != 0)
        && ((b | 16u32) & 4u32 != 0) == (b & 4u32 != 0) && ((b | 16u32) & 8u32 != 0) == (b & 8u32 != 0)
        && ((b | 16u32) & 32u32 != 0) == (b & 32u32 != 0) && ((b | 16u32) & 64u32 != 0) == (b & 64u32 != 0)
        && ((b | 16u32) & 128u32 != 0) == (b & 128u32 != 0) && ((b | 16u32) & 256u32 != 0) == (b & 256u32 != 0)
    ) by (bit_vector);
    assert(
        ((b | 32u32) & 32u32 != 0)
        && ((b | 32u32) & 1u32 != 0) == (b & 1u32 != 0) && ((b | 32u32) & 2u32 != 0) == (b & 2u32 != 0)
        && ((b | 32u32) & 4u32 != 0) == (b & 4u32 != 0) && ((b | 32u32) & 8u32 != 0) == (b & 8u32 != 0)
        && ((b | 32u32) & 16u32 != 0) == (b & 16u32 != 0) && ((b | 32u32) & 64u32 != 0) == (b & 64u32 != 0)
        && ((b | 32u32) & 128u32 != 0) == (b & 128u32 != 0) && ((b | 32u32) & 256u32 != 0) == (b & 256u32 != 0)
    ) by (bit_vector);
}

/// No flag is set in the empty pattern.
pub open spec fn no_flags() -> PropertyFlags {
    PropertyFlags {
        writable: false,
        enumerable: false,
        configurable: false,
        has_value: false,
        has_get: false,
        has_set: false,
        has_writable: false,
        has_enumerable: false,
        has_configurable: false,
    }
}

impl PropertyAttributes {
    /// The flags these attributes hold.
    pub closed spec fn flags(&self) -> PropertyFlags {
        flags_of(self.0)
    }

    pub(crate) fn empty() -> (r: Self)
        ensures
            r.flags() == no_flags(),
    {
        assert(flags_of(0u32) == no_flags()) by {
            assert(0u32 & 1u32 == 0 && 0u32 & 2u32 == 0 && 0u32 & 4u32 == 0 && 0u32 & 8u32 == 0
                && 0u32 & 16u32 == 0 && 0u32 & 32u32 == 0 && 0u32 & 64u32 == 0 && 0u32 & 128u32 == 0
                && 0u32 & 256u32 == 0) by (bit_vector);
        }
        PropertyAttributes(0)
    }

    /// The raw bit pattern, for engines.
    pub fn bits(&self) -> (r: u32)
        ensures
            flags_of(r) == self.flags(),
    {
        self.0
    }

    pub fn is_writable(&self) -> (r: bool)
        ensures
            r == self.flags().writable,
    {
        self.0 & WRITABLE != 0
    }

    pub fn has_writable(&self) -> (r: bool)
        ensures
            r == self.flags().has_writable,
    {
        self.0 & HAS_WRITABLE != 0
    }

    pub fn is_enumerable(&self) -> (r: bool)
        ensures
            r == self.flags().enumerable,
    {
        self.0 & ENUMERABLE != 0
    }

    pub fn has_enumerable(&self) -> (r: bool)
        ensures
            r == self.flags().has_enumerable,
    {
        self.0 & HAS_ENUMERABLE != 0
    }

    pub fn is_configurable(&self) -> (r: bool)
        ensures
            r == self.flags().configurable,
    {
        self.0 & CONFIGURABLE != 0
    }

    pub fn has_configurable(&self) -> (r: bool)
        ensures
            r == self.flags().has_configurable,
    {
        self.0 & HAS_CONFIGURABLE != 0
    }

    pub fn has_value(&self) -> (r: bool)
        ensures
            r == self.flags().has_value,
    {
        self.0 & HAS_VALUE != 0
    }

    pub fn has_get(&self) -> (r: bool)
        ensures
            r == self.flags().has_get,
    {
        self.0 & HAS_GET != 0
    }

    pub fn has_set(&self) -> (r: bool)
        ensures
            r == self.flags().has_set,
    {
        self.0 & HAS_SET != 0
    }

    pub(crate) fn set_writable(self, on: bool) -> (r: Self)
        ensures
            r.flags() == (PropertyFlags { writable: on, has_writable: true, ..self.flags() }),
    {
        proof {
            lemma_set_bits(self.0);
        }
        if on {
            PropertyAttributes(self.0 | 65)
        } else {
            PropertyAttributes((self.0 | HAS_WRITABLE) & !WRITABLE)
        }
    }

    pub(crate) fn set_enumerable(self, on: bool) -> (r: Self)
        ensures
            r.flags() == (PropertyFlags { enumerable: on, has_enumerable: true, ..self.flags() }),
    {
        proof {
            lemma_set_bits(self.0);
        }
        if on {
            PropertyAttributes(self.0 | 130)
        } else {
            PropertyAttributes((self.0 | HAS_ENUMERABLE) & !ENUMERABLE)
        }
    }

    pub(crate) fn set_configurable(self, on: bool) -> (r: Self)
        ensures
            r.flags() == (PropertyFlags { configurable: on, has_configurable: true, ..self.flags() }),
    {
        proof {
            lemma_set_bits(self.0);
        }
        if on {
            PropertyAttributes(self.0 | 260)
        } else {
            PropertyAttributes((self.0 | HAS_CONFIGURABLE) & !CONFIGURABLE)
        }
    }

    pub(crate) fn with_value(self) -> (r: Self)
        ensures
            r.flags() == (PropertyFlags { has_value: true, ..self.flags() }),
    {
        proof {
            lemma_set_bits(self.0);
        }
        PropertyAttributes(self.0 | HAS_VALUE)
    }

    pub(crate) fn with_get(self) -> (r: Self)
        ensures
            r.flags() == (PropertyFlags { has_get: true, ..self.flags() }),
    {
        proof {
            lemma_set_bits(self.0);
        }
        PropertyAttributes(self.0 | HAS_GET)
    }

    pub(crate) fn with_set(self) -> (r: Self)
        ensures
            r.flags() == (PropertyFlags { has_set: true, ..self.flags() }),
    {
        proof {
            lemma_set_bits(self.0);
        }
        PropertyAttributes(self.0 | HAS_SET)
    }
}

impl Default for PropertyAttributes {
    fn default() -> (r: Self)
        ensures
            r.flags() == no_flags(),
    {
        PropertyAttributes::empty()
    }
}

} // verus!

use crate::context::JSContext;
use crate::engine::{JSObjectOps, JSValueConversion, JSValueImpl, MAX_SAFE_INT};
use crate::error::{JSResult, RongJSError};
use crate::function::JSFunc;
use crate::object::JSObject;
use crate::text::{decimal, decimal_string, signed_decimal, signed_decimal_string};
use crate::value::{IntoJSValue, JSSymbol, JSValue};

verus! {

/// A key of an object property: an integer, a string, or a symbol.
pub enum PropertyKey<'a, V: JSValueImpl> {
    Int32(i32),
    Uint32(u32),
    Int64(i64),
    Uint64(u64),
    Str(&'a str),
    Symbol(JSSymbol<V>),
}

impl<'a, V: JSValueImpl> Clone for PropertyKey<'a, V> {
    fn clone(&self) -> (r: Self)
        ensures
            r == *self,
    {
        match self {
            PropertyKey::Int32(i) => PropertyKey::Int32(*i),
            PropertyKey::Uint32(i) => PropertyKey::Uint32(*i),
            PropertyKey::Int64(i) => PropertyKey::Int64(*i),
            PropertyKey::Uint64(i) => PropertyKey::Uint64(*i),
            PropertyKey::Str(s) => PropertyKey::Str(*s),
            PropertyKey::Symbol(s) => PropertyKey::Symbol(s.clone()),
        }
    }
}

/// The text a key displays as; symbols are shown with their description.
pub open spec fn key_text<'a, V: JSValueImpl>(k: PropertyKey<'a, V>) -> Option<Seq<char>> {
    match k {
        PropertyKey::Int32(i) => Some(signed_decimal(i as int)),
        PropertyKey::Uint32(i) => Some(decimal(i as nat)),
        PropertyKey::Int64(i) => Some(signed_decimal(i as int)),
        PropertyKey::Uint64(i) => Some(decimal(i as nat)),
        PropertyKey::Str(s) => Some(s@),
        PropertyKey::Symbol(_) => None,
    }
}

/// The engine value naming a property: the number of an integer key (exact
/// for a safe integer), the string of a text key (or the engine's exception),
/// and the symbol itself.
pub open spec fn key_value<'a, V: JSValueConversion>(k: PropertyKey<'a, V>, r: V) -> bool {
    match k {
        PropertyKey::Int32(i) => r.spec_is_number() && r.spec_int_value() == Some(i as i128),
        PropertyKey::Uint32(i) => r.spec_is_number() && r.spec_int_value() == Some(i as i128),
        PropertyKey::Int64(i) => r.spec_is_number() && (-MAX_SAFE_INT <= i <= MAX_SAFE_INT ==> r.spec_int_value()
            == Some(i as i128)),
        PropertyKey::Uint64(i) => r.spec_is_number() && (i <= MAX_SAFE_INT ==> r.spec_int_value() == Some(i as i128)),
        PropertyKey::Str(s) => (r.spec_is_string() || r.spec_is_exception()) && (r.spec_is_string()
            ==> r.spec_text()@ == s@),
        PropertyKey::Symbol(sym) => r == sym.raw(),
    }
}

/// Anything that can name a property.
pub trait IntoPropertyKey<'a, V: JSValueImpl>: Sized {
    /// The key this names.
    spec fn spec_key(self) -> PropertyKey<'a, V>;

    fn into_key(self) -> (r: PropertyKey<'a, V>)
        ensures
            r == self.spec_key();
}

impl<'a, V: JSValueImpl> IntoPropertyKey<'a, V> for PropertyKey<'a, V> {
    open spec fn spec_key(self) -> PropertyKey<'a, V> {
        self
    }

    fn into_key(self) -> (r: PropertyKey<'a, V>) {
        self
    }
}

impl<'a, V: JSValueImpl> IntoPropertyKey<'a, V> for i32 {
    open spec fn spec_key(self) -> PropertyKey<'a, V> {
        PropertyKey::Int32(self)
    }

    fn into_key(self) -> (r: PropertyKey<'a, V>) {
        PropertyKey::Int32(self)
    }
}

impl<'a, V: JSValueImpl> IntoPropertyKey<'a, V> for u32 {
    open spec fn spec_key(self) -> PropertyKey<'a, V> {
        PropertyKey::Uint32(self)
    }

    fn into_key(self) -> (r: PropertyKey<'a, V>) {
        PropertyKey::Uint32(self)
    }
}

impl<'a, V: JSValueImpl> IntoPropertyKey<'a, V> for i64 {
    open spec fn spec_key(self) -> PropertyKey<'a, V> {
        PropertyKey::Int64(self)
    }

    fn into_key(self) -> (r: PropertyKey<'a, V>) {
        PropertyKey::Int64(self)
    }
}

impl<'a, V: JSValueImpl> IntoPropertyKey<'a, V> for u64 {
    open spec fn spec_key(self) -> PropertyKey<'a, V> {
        PropertyKey::Uint64(self)
    }

    fn into_key(self) -> (r: PropertyKey<'a, V>) {
        PropertyKey::Uint64(self)
    }
}

impl<'a, V: JSValueImpl> IntoPropertyKey<'a, V> for &'a str {
    open spec fn spec_key(self) -> PropertyKey<'a, V> {
        PropertyKey::Str(self)
    }

    fn into_key(self) -> (r: PropertyKey<'a, V>) {
        PropertyKey::Str(self)
    }
}

impl<'a, V: JSValueImpl> IntoPropertyKey<'a, V> for JSSymbol<V> {
    open spec fn spec_key(self) -> PropertyKey<'a, V> {
        PropertyKey::Symbol(self)
    }

    fn into_key(self) -> (r: PropertyKey<'a, V>) {
        PropertyKey::Symbol(self)
    }
}

impl<'a, V: JSValueConversion> PropertyKey<'a, V> {
    /// The engine value naming the property.
    pub(crate) fn into_value(self, context: &JSContext<V::Context>) -> (r: V)
        ensures
            key_value(self, r),
    {
        let ctx = context.as_ref();
        match self {
            PropertyKey::Int32(i) => V::from_i32(ctx, i),
            PropertyKey::Uint32(i) => V::from_u32(ctx, i),
            PropertyKey::Int64(i) => V::from_i64(ctx, i),
            PropertyKey::Uint64(i) => V::from_u64(ctx, i),
            PropertyKey::Str(s) => V::from_str(ctx, s),
            PropertyKey::Symbol(s) => s.into_value(),
        }
    }
}

impl<'a, V: JSObjectOps> PropertyKey<'a, V> {
    /// The text the key displays as: the number, the string, or
    /// `Symbol(description)`.
    pub fn text(&self) -> (r: String)
        ensures
            key_text(*self) matches Some(t) ==> r@ == t,
    {
        match self {
            PropertyKey::Int32(i) => signed_decimal_string(*i as i64),
            PropertyKey::Uint32(i) => decimal_string(*i as u64),
            PropertyKey::Int64(i) => signed_decimal_string(*i),
            PropertyKey::Uint64(i) => decimal_string(*i),
            PropertyKey::Str(s) => String::from_str(s),
            PropertyKey::Symbol(s) => {
                let description = match s.descripiton() {
                    Ok(d) => d,
                    Err(_) => String::new(),
                };
                let mut t = String::from_str("Symbol(");
                t.append(description.as_str());
                t.append(")");
                t
            }
        }
    }
}

/// A property definition: an optional value, optional accessors, and attributes.
pub struct PropertyDescriptor<V: JSValueImpl> {
    value: Option<V>,
    getter: Option<JSFunc<V>>,
    setter: Option<JSFunc<V>>,
    attributes: PropertyAttributes,
}

impl<V: JSValueImpl> PropertyDescriptor<V> {
    pub closed spec fn spec_value(&self) -> Option<V> {
        self.value
    }

    pub closed spec fn spec_getter(&self) -> Option<JSFunc<V>> {
        self.getter
    }

    pub closed spec fn spec_setter(&self) -> Option<JSFunc<V>> {
        self.setter
    }

    pub closed spec fn spec_flags(&self) -> PropertyFlags {
        self.attributes.flags()
    }

    /// An empty descriptor.
    pub fn new() -> (r: Self)
        ensures
            r.spec_value() is None,
            r.spec_getter() is None,
            r.spec_setter() is None,
            r.spec_flags() == no_flags(),
    {
        PropertyDescriptor { value: None, getter: None, setter: None, attributes: PropertyAttributes::empty() }
    }

    /// An empty descriptor, to be filled by the builder methods.
    pub fn builder() -> (r: Self)
        ensures
            r.spec_value() is None,
            r.spec_getter() is None,
            r.spec_setter() is None,
            r.spec_flags() == no_flags(),
    {
        Self::new()
    }

    /// A descriptor with the given value.
    pub fn from_value(value: JSValue<V>) -> (r: Self)
        ensures
            r.spec_value() == Some(value.raw()),
            r.spec_getter() is None,
            r.spec_setter() is None,
            r.spec_flags() == no_flags(),
    {
        Self::new().value(value)
    }

    /// A descriptor with the conversion_can_give Rust value.
    pub fn from_rust<T: IntoJSValue<V>>(ctx: &JSContext<V::Context>, value: T) -> (r: Self)
        ensures
            r.spec_value() is Some,
            r.spec_getter() is None,
            r.spec_setter() is None,
            r.spec_flags() == no_flags(),
    {
        Self::from_value(JSValue::from_rust(ctx, value))
    }

    /// A descriptor with the given getter.
    pub fn from_getter(getter: JSFunc<V>) -> (r: Self)
        ensures
            r.spec_value() is None,
            r.spec_getter() == Some(getter),
            r.spec_setter() is None,
            r.spec_flags() == no_flags(),
    {
        Self::new().getter(getter)
    }

    /// A descriptor with the given setter.
    pub fn from_setter(setter: JSFunc<V>) -> (r: Self)
        ensures
            r.spec_value() is None,
            r.spec_getter() is None,
            r.spec_setter() == Some(setter),
            r.spec_flags() == no_flags(),
    {
        Self::new().setter(setter)
    }

    /// A descriptor with the given getter and setter.
    pub fn from_accessor(getter: JSFunc<V>, setter: JSFunc<V>) -> (r: Self)
        ensures
            r.spec_value() is None,
            r.spec_getter() == Some(getter),
            r.spec_setter() == Some(setter),
            r.spec_flags() == no_flags(),
    {
        Self::from_getter(getter).setter(setter)
    }

    pub fn value(self, value: JSValue<V>) -> (r: Self)
        ensures
            r.spec_value() == Some(value.raw()),
            r.spec_getter() == self.spec_getter(),
            r.spec_setter() == self.spec_setter(),
            r.spec_flags() == self.spec_flags(),
    {
        PropertyDescriptor { value: Some(value.into_value()), ..self }
    }

    pub fn getter(self, getter: JSFunc<V>) -> (r: Self)
        ensures
            r.spec_value() == self.spec_value(),
            r.spec_getter() == Some(getter),
            r.spec_setter() == self.spec_setter(),
            r.spec_flags() == self.spec_flags(),
    {
        PropertyDescriptor { getter: Some(getter), ..self }
    }

    pub fn setter(self, setter: JSFunc<V>) -> (r: Self)
        ensures
            r.spec_value() == self.spec_value(),
            r.spec_getter() == self.spec_getter(),
            r.spec_setter() == Some(setter),
            r.spec_flags() == self.spec_flags(),
    {
        PropertyDescriptor { setter: Some(setter), ..self }
    }

    pub fn writable(self) -> (r: Self)
        ensures
            r.spec_value() == self.spec_value(),
            r.spec_getter() == self.spec_getter(),
            r.spec_setter() == self.spec_setter(),
            r.spec_flags() == (PropertyFlags { writable: true, has_writable: true, ..self.spec_flags() }),
    {
        let attributes = self.attributes.set_writable(true);
        PropertyDescriptor { attributes, ..self }
    }

    pub fn readonly(self) -> (r: Self)
        ensures
            r.spec_value() == self.spec_value(),
            r.spec_getter() == self.spec_getter(),
            r.spec_setter() == self.spec_setter(),
            r.spec_flags() == (PropertyFlags { writable: false, has_writable: true, ..self.spec_flags() }),
    {
        let attributes = self.attributes.set_writable(false);
        PropertyDescriptor { attributes, ..self }
    }

    pub fn enumerable(self) -> (r: Self)
        ensures
            r.spec_value() == self.spec_value(),
            r.spec_getter() == self.spec_getter(),
            r.spec_setter() == self.spec_setter(),
            r.spec_flags() == (PropertyFlags { enumerable: true, has_enumerable: true, ..self.spec_flags() }),
    {
        let attributes = self.attributes.set_enumerable(true);
        PropertyDescriptor { attributes, ..self }
    }

    pub fn hidden(self) -> (r: Self)
        ensures
            r.spec_value() == self.spec_value(),
            r.spec_getter() == self.spec_getter(),
            r.spec_setter() == self.spec_setter(),
            r.spec_flags() == (PropertyFlags { enumerable: false, has_enumerable: true, ..self.spec_flags() }),
    {
        let attributes = self.attributes.set_enumerable(false);
        PropertyDescriptor { attributes, ..self }
    }

    pub fn configurable(self) -> (r: Self)
        ensures
            r.spec_value() == self.spec_value(),
            r.spec_getter() == self.spec_getter(),
            r.spec_setter() == self.spec_setter(),
            r.spec_flags() == (PropertyFlags { configurable: true, has_configurable: true, ..self.spec_flags() }),
    {
        let attributes = self.attributes.set_configurable(true);
        PropertyDescriptor { attributes, ..self }
    }

    pub fn non_configurable(self) -> (r: Self)
        ensures
            r.spec_value() == self.spec_value(),
            r.spec_getter() == self.spec_getter(),
            r.spec_setter() == self.spec_setter(),
            r.spec_flags() == (PropertyFlags { configurable: false, has_configurable: true, ..self.spec_flags() }),
    {
        let attributes = self.attributes.set_configurable(false);
        PropertyDescriptor { attributes, ..self }
    }

    /// The attributes a definition passes to the engine: the descriptor's
    /// flags, with the value, getter and setter flags set for the parts it carries.
    pub fn final_attributes(&self) -> (r: PropertyAttributes)
        ensures
            r.flags() == (PropertyFlags {
                has_value: self.spec_flags().has_value || self.spec_value() is Some,
                has_get: self.spec_flags().has_get || self.spec_getter() is Some,
                has_set: self.spec_flags().has_set || self.spec_setter() is Some,
                ..self.spec_flags()
            }),
    {
        let mut attributes = self.attributes;
        if self.value.is_some() {
            attributes = attributes.with_value();
        }
        if self.getter.is_some() {
            attributes = attributes.with_get();
        }
        if self.setter.is_some() {
            attributes = attributes.with_set();
        }
        attributes
    }
}

impl<V: JSValueImpl> PropertyDescriptor<V> {
    /// What a definition hands the engine: the value, getter and setter, each
    /// `absent` when the descriptor has none, and the final attributes.
    pub fn define_parts(self, absent: V) -> (r: (V, V, V, PropertyAttributes))
        ensures
            r.0 == (match self.spec_value() { Some(v) => v, None => absent }),
            r.1 == (match self.spec_getter() { Some(g) => g.raw(), None => absent }),
            r.2 == (match self.spec_setter() { Some(s) => s.raw(), None => absent }),
            r.3.flags() == (PropertyFlags {
                has_value: self.spec_flags().has_value || self.spec_value() is Some,
                has_get: self.spec_flags().has_get || self.spec_getter() is Some,
                has_set: self.spec_flags().has_set || self.spec_setter() is Some,
                ..self.spec_flags()
            }),
    {
        let attributes = self.final_attributes();
        let value = match self.value {
            Some(v) => v,
            None => {
                let a = absent.clone();
                proof {
                    V::lemma_clone_same(absent, a);
                }
                a
            },
        };
        let getter = match self.getter {
            Some(g) => g.into_value(),
            None => {
                let a = absent.clone();
                proof {
                    V::lemma_clone_same(absent, a);
                }
                a
            },
        };
        let setter = match self.setter {
            Some(s) => s.into_value(),
            None => absent,
        };
        (value, getter, setter, attributes)
    }
}

impl<V: JSObjectOps> PropertyDescriptor<V> {
    /// Defines the property on `obj` under the key, handing the engine the
    /// [`PropertyDescriptor::define_parts`] with `undefined` for absent parts.
    /// An error carries what the engine threw.
    pub fn define_on<'a, K: IntoPropertyKey<'a, V>>(self, obj: &JSObject<V>, k: K) -> (r: JSResult<()>)
        ensures
            r matches Err(e) ==> e.thrown_handle() is Some,
            exists|absent: V, parts: (V, V, V, PropertyAttributes), key: V, answer: Result<(), V>|
                #![trigger call_ensures(PropertyDescriptor::<V>::define_parts, (self, absent), parts),
                    key_value(k.spec_key(), key),
                    call_ensures(V::define_property, (&obj.raw(), key, parts.0, parts.1, parts.2, parts.3), answer)]
                absent.spec_is_undefined()
                && call_ensures(PropertyDescriptor::<V>::define_parts, (self, absent), parts)
                && key_value(k.spec_key(), key)
                && call_ensures(V::define_property, (&obj.raw(), key, parts.0, parts.1, parts.2, parts.3), answer)
                && (r is Ok <==> answer is Ok),
    {
        let ctx = obj.context();
        let undefined = V::create_undefined(ctx.as_ref());
        let ghost absent = undefined;
        let ghost descriptor = self;
        let parts = self.define_parts(undefined);
        let ghost parts_g = parts;
        let (value, getter, setter, attributes) = parts;
        let key = k.into_key().into_value(&ctx);
        let ghost key_g = key;
        let answer = obj.as_value().define_property(key, value, getter, setter, attributes);
        assert(call_ensures(PropertyDescriptor::<V>::define_parts, (descriptor, absent), parts_g)
            && key_value(k.spec_key(), key_g)
            && call_ensures(V::define_property, (&obj.raw(), key_g, parts_g.0, parts_g.1, parts_g.2, parts_g.3),
            answer));
        match answer {
            Ok(()) => Ok(()),
            Err(thrown) => Err(RongJSError::from_thrown_value(JSValue::from_raw(&ctx, thrown))),
        }
    }

    /// Same as [`PropertyDescriptor::define_on`].
    pub fn apply_to<'a, K: IntoPropertyKey<'a, V>>(self, obj: &JSObject<V>, k: K) -> (r: JSResult<()>)
        ensures
            r matches Err(e) ==> e.thrown_handle() is Some,
            exists|absent: V, parts: (V, V, V, PropertyAttributes), key: V, answer: Result<(), V>|
                #![trigger call_ensures(PropertyDescriptor::<V>::define_parts, (self, absent), parts),
                    key_value(k.spec_key(), key),
                    call_ensures(V::define_property, (&obj.raw(), key, parts.0, parts.1, parts.2, parts.3), answer)]
                absent.spec_is_undefined()
                && call_ensures(PropertyDescriptor::<V>::define_parts, (self, absent), parts)
                && key_value(k.spec_key(), key)
                && call_ensures(V::define_property, (&obj.raw(), key, parts.0, parts.1, parts.2, parts.3), answer)
                && (r is Ok <==> answer is Ok),
    {
        self.define_on(obj, k)
    }
}

} // verus!
