//! Arrays: element access by index, push and pop over the `length`
//! property, and iteration over `[0, length)`.

use vstd::prelude::*;
use crate::context::JSContext;
use crate::engine::{JSArrayOps, JSObjectOps, JSTypeOf, JSValueConversion, JSValueImpl};
use crate::error::{is_plain_error, HostError, JSResult, RongJSError, E_NOT_ARRAY, E_OUT_OF_RANGE};
use crate::object::{is_missing_property_code, JSObject};
use crate::value::{conversion_can_give, FromJSValue, IntoJSValue, JSValue};
use std::marker::PhantomData;

verus! {

/// Whether `n` is a result that converting a `length` value into a `u32` can
/// give: it ties a number to the read it came from, not to a given array.
pub open spec fn length_read_can_give<V: JSValueConversion>(n: u32) -> bool {
    conversion_can_give::<V, u32>(Ok(n))
}

/// The errors reading an array's `length` can end in: what the engine
/// threw, a missing `length`, or a value that is no `u32`.
pub open spec fn length_read_can_fail_with<V: JSValueConversion>(e: RongJSError) -> bool {
    e.thrown_handle() is Some || is_missing_property_code(e) || conversion_can_give::<V, u32>(Err(e))
}

/// Whether `answer` is what the engine can answer to a write of `value` at
/// exactly `index` of the array `array`.
pub open spec fn engine_write_answers<V: JSArrayOps>(array: V, index: u32, value: V, answer: V) -> bool {
    call_ensures(V::set_index, (&array, index, value), answer)
}

/// Whether `answer` is what the engine can answer to a read at exactly
/// `index` of the array `array`.
pub open spec fn engine_read_answers<V: JSArrayOps>(array: V, index: u32, answer: V) -> bool {
    call_ensures(V::get_index, (&array, index), answer)
}

/// The index of the last element of an array of `len` elements, if any.
pub fn last_index(len: u32) -> (r: Option<u32>)
    ensures
        len == 0 ==> r is None,
        len > 0 ==> r == Some((len - 1) as u32),
{
    if len == 0 { None } else { Some(len - 1) }
}

/// A JavaScript array.
pub struct JSArray<V: JSValueImpl>(pub(crate) JSObject<V>);

impl<V: JSValueImpl> Clone for JSArray<V> {
    fn clone(&self) -> (r: Self)
        ensures
            r == *self,
    {
        JSArray(self.0.clone())
    }
}

impl<V: JSValueImpl> JSArray<V> {
    pub closed spec fn raw(&self) -> V {
        self.0.raw()
    }

    /// The array as an object.
    pub closed spec fn spec_object(&self) -> JSObject<V> {
        self.0
    }

    /// The context the array lives in.
    pub closed spec fn spec_ctx(&self) -> JSContext<V::Context> {
        self.0.spec_ctx()
    }

    /// The array as an object.
    pub fn as_object(&self) -> (r: &JSObject<V>)
        ensures
            r.raw() == self.raw(),
    {
        &self.0
    }

    /// The context of the array.
    pub fn get_ctx(&self) -> (r: JSContext<V::Context>)
        ensures
            r == self.spec_ctx(),
    {
        self.0.context()
    }
}

impl<V: JSValueImpl> crate::parameter::JSParameterType for JSArray<V> {}

impl<V: JSValueImpl> IntoJSValue<V> for JSArray<V> {
    fn into_js_value(self, _ctx: &JSContext<V::Context>) -> (r: JSValue<V>)
        ensures
            JSValue::<V>::raw(&r) == self.raw(),
    {
        self.0.into_js_value()
    }
}

impl<V: JSTypeOf> FromJSValue<V> for JSArray<V> {
    /// An array value; any other value is the `NotJSArray` error.
    fn from_js_value(_ctx: &JSContext<V::Context>, value: JSValue<V>) -> (r: JSResult<Self>)
        ensures
            !value.raw().spec_is_array() ==> (r matches Err(e) && is_plain_error(e, "TypeError"@, E_NOT_ARRAY@,
                "Not JS Array"@)),
            value.raw().spec_is_array() && value.raw().spec_is_object() ==> (r matches Ok(a) && a.raw()
                == value.raw()),
            r matches Ok(a) ==> a.raw() == value.raw() && a.spec_ctx() == value.spec_ctx(),
    {
        if value.is_array() {
            if value.is_object() {
                Ok(JSArray(JSObject::from_js(value)))
            } else {
                Err(RongJSError::NotObject())
            }
        } else {
            Err(RongJSError::NotJSArray())
        }
    }
}

/// The next index of a walk over `[index, count)`.
pub struct ArrayCursor {
    index: u32,
    count: u32,
}

impl ArrayCursor {
    pub closed spec fn spec_index(&self) -> u32 {
        self.index
    }

    pub closed spec fn spec_count(&self) -> u32 {
        self.count
    }

    /// A walk over `[0, count)`.
    pub fn new(count: u32) -> (r: Self)
        ensures
            r.spec_index() == 0,
            r.spec_count() == count,
    {
        ArrayCursor { index: 0, count }
    }

    /// The next index, or `None` once the walk is over.
    pub fn next_index(&mut self) -> (r: Option<u32>)
        ensures
            final(self).spec_count() == old(self).spec_count(),
            old(self).spec_index() < old(self).spec_count() ==> r == Some(old(self).spec_index())
                && final(self).spec_index() == old(self).spec_index() + 1,
            old(self).spec_index() >= old(self).spec_count() ==> r is None && final(self).spec_index()
                == old(self).spec_index(),
    {
        if self.index < self.count {
            let i = self.index;
            self.index = i + 1;
            Some(i)
        } else {
            None
        }
    }

    /// How many indices are left.
    pub fn remaining(&self) -> (r: usize)
        ensures
            self.spec_index() <= self.spec_count() ==> r == self.spec_count() - self.spec_index(),
            self.spec_index() > self.spec_count() ==> r == 0,
    {
        if self.index <= self.count { (self.count - self.index) as usize } else { 0 }
    }
}

/// The length a push leaves: one past the index written, or the error for
/// an array already at the largest length.
pub fn length_after_push(len: u32) -> (r: JSResult<u32>)
    ensures
        len < u32::MAX ==> r == Ok::<u32, RongJSError>((len + 1) as u32),
        len == u32::MAX ==> (r matches Err(e) && is_plain_error(e, "RangeError"@, E_OUT_OF_RANGE@,
            "Invalid array length"@)),
{
    if len < u32::MAX {
        Ok(len + 1)
    } else {
        Err(RongJSError::host_error(HostError::new(E_OUT_OF_RANGE, "Invalid array length").with_name("RangeError")))
    }
}

impl<V: JSObjectOps + JSArrayOps> JSArray<V> {
    /// A new empty array; an error carries what the engine threw.
    pub fn new(ctx: &JSContext<V::Context>) -> (r: JSResult<Self>)
        ensures
            r matches Ok(a) ==> a.raw().spec_is_array() && a.spec_ctx() == *ctx,
    {
        let value = <V as JSArrayOps>::new_array(ctx.as_ref());
        match JSValue::from_raw(ctx, value).check_exception() {
            Ok(v) => Self::from_js_value(ctx, v),
            Err(e) => Err(e),
        }
    }

    /// The `length` property.
    pub fn len(&self) -> (r: JSResult<u32>)
        ensures
            r matches Ok(n) ==> length_read_can_give::<V>(n),
            r matches Err(e) ==> length_read_can_fail_with::<V>(e),
    {
        self.0.get::<&str, u32>("length")
    }

    /// Whether `length` is 0.
    pub fn is_empty(&self) -> (r: JSResult<bool>)
        ensures
            r matches Ok(b) ==> exists|n: u32| length_read_can_give::<V>(n) && b == (n == 0),
            r matches Err(e) ==> length_read_can_fail_with::<V>(e),
    {
        match self.len() {
            Ok(n) => Ok(n == 0),
            Err(e) => Err(e),
        }
    }

    /// The element at `index`; an error carries what the engine threw.
    pub fn get_value(&self, index: u32) -> (r: JSResult<JSValue<V>>)
        ensures
            r matches Ok(v) ==> !v.raw().spec_is_exception() && v.spec_ctx() == self.spec_ctx(),
            r matches Err(e) ==> e.thrown_handle() is Some,
            exists|answer: V| #[trigger] engine_read_answers(self.raw(), index, answer)
                && (r is Ok <==> !answer.spec_is_exception())
                && (r matches Ok(v) ==> v.raw() == answer),
    {
        let ctx = self.get_ctx();
        let v = self.0.as_value().get_index(index);
        assert(engine_read_answers(self.raw(), index, v));
        JSValue::from_raw(&ctx, v).check_exception()
    }

    /// Writes the element at `index`.
    pub fn set_value(&self, index: u32, value: JSValue<V>) -> (r: JSResult<()>)
        ensures
            r matches Err(e) ==> e.thrown_handle() is Some,
            exists|answer: V| #[trigger] engine_write_answers(self.raw(), index, value.raw(), answer)
                && (r is Ok <==> !answer.spec_is_exception()),
    {
        let ctx = self.get_ctx();
        let r = self.0.as_value().set_index(index, value.into_value());
        assert(engine_write_answers(self.raw(), index, value.raw(), r));
        match JSValue::from_raw(&ctx, r).check_exception() {
            Ok(_) => Ok(()),
            Err(e) => Err(e),
        }
    }

    /// The element at `index` conversion_can_give, or `None` past the end.
    pub fn get_opt<T: FromJSValue<V>>(&self, index: u32) -> (r: JSResult<Option<T>>)
        ensures
            r is Ok ==> exists|n: u32| #[trigger] length_read_can_give::<V>(n) && (r == Ok::<Option<T>, RongJSError>(None)
                <==> index >= n),
            r matches Ok(Some(t)) ==> conversion_can_give::<V, T>(Ok(t)),
            r matches Ok(Some(t)) ==> exists|v: JSValue<V>| #[trigger] engine_read_answers(self.raw(), index, v.raw())
                && call_ensures(T::from_js_value, (&self.spec_ctx(), v), Ok::<T, RongJSError>(t)),
            r matches Err(e) ==> length_read_can_fail_with::<V>(e) || conversion_can_give::<V, T>(Err(e)),
    {
        let len = match self.len() {
            Ok(n) => n,
            Err(e) => { return Err(e); },
        };
        if index >= len {
            return Ok(None);
        }
        let ctx = self.get_ctx();
        match self.get_value(index) {
            Ok(v) => {
                let ghost read = v;
                let converted = T::from_js_value(&ctx, v);
                assert(call_ensures(T::from_js_value, (&ctx, read), converted));
                assert(engine_read_answers(self.raw(), index, read.raw()));
                match converted {
                    Ok(t) => Ok(Some(t)),
                    Err(e) => Err(e),
                }
            },
            Err(e) => Err(e),
        }
    }

    /// Converts and writes the element at `index`.
    pub fn set<T: IntoJSValue<V>>(&self, index: u32, value: T) -> (r: JSResult<()>)
        ensures
            r matches Err(e) ==> e.thrown_handle() is Some,
            exists|converted: JSValue<V>, answer: V|
                #![trigger call_ensures(T::into_js_value, (value, &self.spec_ctx()), converted),
                    engine_write_answers(self.raw(), index, converted.raw(), answer)]
                call_ensures(T::into_js_value, (value, &self.spec_ctx()), converted)
                && engine_write_answers(self.raw(), index, converted.raw(), answer)
                && (r is Ok <==> !answer.spec_is_exception()),
    {
        let ctx = self.get_ctx();
        let converted = value.into_js_value(&ctx);
        let ghost c = converted;
        let r = self.set_value(index, converted);
        proof {
            let answer = choose|answer: V| #[trigger] engine_write_answers(self.raw(), index, c.raw(), answer)
                && (r is Ok <==> !answer.spec_is_exception());
            assert(call_ensures(T::into_js_value, (value, &self.spec_ctx()), c)
                && engine_write_answers(self.raw(), index, c.raw(), answer));
        }
        r
    }

    /// Deletes the element at `index`; whether it was deleted. A deletion the
    /// engine refuses by throwing counts as not deleted.
    pub fn delete(&self, index: u32) -> (r: bool)
        ensures
            exists|res: JSResult<bool>| #[trigger] call_ensures(JSObject::<V>::delete::<u32>, (&self.spec_object(), index), res)
                && r == (res == Ok::<bool, RongJSError>(true)),
    {
        let res = self.0.delete(index);
        assert(call_ensures(JSObject::<V>::delete::<u32>, (&self.0, index), res));
        match res {
            Ok(b) => b,
            Err(_) => false,
        }
    }

    /// Whether an element is present at `index` (not a hole). A check the
    /// engine answers by throwing counts as absent.
    pub fn has_index(&self, index: u32) -> (r: bool)
        ensures
            exists|res: JSResult<bool>| #[trigger] call_ensures(JSObject::<V>::has_property::<u32>,
                (&self.spec_object(), index), res) && r == (res == Ok::<bool, RongJSError>(true)),
    {
        let res = self.0.has_property(index);
        assert(call_ensures(JSObject::<V>::has_property::<u32>, (&self.0, index), res));
        match res {
            Ok(b) => b,
            Err(_) => false,
        }
    }

    /// Appends at index `length`; the new length.
    pub fn push_value(&self, value: JSValue<V>) -> (r: JSResult<u32>)
        ensures
            r matches Ok(m) ==> exists|n: u32| length_read_can_give::<V>(n) && n < u32::MAX && m == n + 1,
            r matches Ok(m) ==> exists|answer: V| #[trigger] engine_write_answers(self.raw(), (m - 1) as u32,
                value.raw(), answer) && !answer.spec_is_exception(),
            r matches Err(e) ==> length_read_can_fail_with::<V>(e) || (exists|n: u32| length_read_can_give::<V>(n) && n == u32::MAX)
                && is_plain_error(e, "RangeError"@, E_OUT_OF_RANGE@, "Invalid array length"@),
    {
        let index = match self.len() {
            Ok(n) => n,
            Err(e) => { return Err(e); },
        };
        let next = match length_after_push(index) {
            Ok(n) => n,
            Err(e) => { return Err(e); },
        };
        let ghost written = value;
        let r = self.set_value(index, value);
        match r {
            Ok(()) => {
                assert((next - 1) as u32 == index);
                Ok(next)
            },
            Err(e) => Err(e),
        }
    }

    /// Converts and appends; the new length.
    pub fn push<T: IntoJSValue<V>>(&self, value: T) -> (r: JSResult<u32>)
        ensures
            r matches Ok(m) ==> exists|n: u32| length_read_can_give::<V>(n) && n < u32::MAX && m == n + 1,
            r matches Ok(m) ==> exists|converted: JSValue<V>, answer: V|
                #![trigger call_ensures(T::into_js_value, (value, &self.spec_ctx()), converted),
                    engine_write_answers(self.raw(), (m - 1) as u32, converted.raw(), answer)]
                call_ensures(T::into_js_value, (value, &self.spec_ctx()), converted)
                && engine_write_answers(self.raw(), (m - 1) as u32, converted.raw(), answer)
                && !answer.spec_is_exception(),
            r matches Err(e) ==> length_read_can_fail_with::<V>(e) || (exists|n: u32| length_read_can_give::<V>(n) && n == u32::MAX)
                && is_plain_error(e, "RangeError"@, E_OUT_OF_RANGE@, "Invalid array length"@),
    {
        let ctx = self.get_ctx();
        let converted = value.into_js_value(&ctx);
        let ghost c = converted;
        let r = self.push_value(converted);
        proof {
            if let Ok(m) = r {
                let answer = choose|answer: V| #[trigger] engine_write_answers(self.raw(), (m - 1) as u32, c.raw(),
                    answer) && !answer.spec_is_exception();
                assert(call_ensures(T::into_js_value, (value, &self.spec_ctx()), c)
                    && engine_write_answers(self.raw(), (m - 1) as u32, c.raw(), answer));
            }
        }
        r
    }

    /// Removes and returns the last element; `undefined` for an empty array.
    /// The length shrinks by one.
    pub fn pop_value(&self) -> (r: JSResult<JSValue<V>>)
        ensures
            r matches Ok(v) ==> exists|n: u32| #[trigger] length_read_can_give::<V>(n) && (n == 0 ==> v.raw().spec_is_undefined())
                && (n > 0 ==> !v.raw().spec_is_exception() && engine_read_answers(self.raw(), (n - 1) as u32, v.raw())),
            r matches Ok(v) ==> v.spec_ctx() == self.spec_ctx(),
            r matches Err(e) ==> length_read_can_fail_with::<V>(e),
    {
        let len = match self.len() {
            Ok(n) => n,
            Err(e) => { return Err(e); },
        };
        let ctx = self.get_ctx();
        let index = match last_index(len) {
            None => { return Ok(JSValue::undefined(&ctx)); },
            Some(i) => i,
        };
        let value = match self.get_value(index) {
            Ok(v) => v,
            Err(e) => { return Err(e); },
        };
        let _ = self.delete(index);
        match self.0.set("length", index) {
            Ok(_) => Ok(value),
            Err(e) => Err(e),
        }
    }

    /// Removes the last element and converts it; `None` for an empty array.
    pub fn pop_opt<T: FromJSValue<V>>(&self) -> (r: JSResult<Option<T>>)
        ensures
            r matches Ok(None) ==> exists|n: u32| length_read_can_give::<V>(n) && n == 0,
            r matches Ok(Some(t)) ==> conversion_can_give::<V, T>(Ok(t)),
            r matches Err(e) ==> length_read_can_fail_with::<V>(e) || conversion_can_give::<V, T>(Err(e)),
    {
        let empty = match self.is_empty() {
            Ok(b) => b,
            Err(e) => { return Err(e); },
        };
        if empty {
            return Ok(None);
        }
        let ctx = self.get_ctx();
        match self.pop_value() {
            Ok(v) => match T::from_js_value(&ctx, v) {
                Ok(t) => Ok(Some(t)),
                Err(e) => Err(e),
            },
            Err(e) => Err(e),
        }
    }

    /// A walk over the elements in `[0, length)`, conversion_can_give.
    pub fn iter<T: FromJSValue<V>>(&self) -> (r: JSResult<ArrayIter<V, T>>)
        ensures
            r matches Ok(it) ==> it.spec_index() == 0 && length_read_can_give::<V>(it.spec_count()),
            r matches Err(e) ==> length_read_can_fail_with::<V>(e),
    {
        match self.len() {
            Ok(n) => Ok(ArrayIter { array: self.clone(), cursor: ArrayCursor::new(n), marker: PhantomData }),
            Err(e) => Err(e),
        }
    }

    /// A walk over the elements in `[0, length)`.
    pub fn iter_values(&self) -> (r: JSResult<ArrayValueIter<V>>)
        ensures
            r matches Ok(it) ==> it.spec_index() == 0 && length_read_can_give::<V>(it.spec_count()),
            r matches Err(e) ==> length_read_can_fail_with::<V>(e),
    {
        match self.len() {
            Ok(n) => Ok(ArrayValueIter { array: self.clone(), cursor: ArrayCursor::new(n) }),
            Err(e) => Err(e),
        }
    }

    /// A walk over the present elements in `[0, length)`, skipping holes.
    pub fn iter_present<T: FromJSValue<V>>(&self) -> (r: JSResult<ArrayPresentIter<V, T>>)
        ensures
            r matches Ok(it) ==> it.spec_index() == 0 && length_read_can_give::<V>(it.spec_count()),
            r matches Err(e) ==> length_read_can_fail_with::<V>(e),
    {
        match self.len() {
            Ok(n) => Ok(ArrayPresentIter { array: self.clone(), cursor: ArrayCursor::new(n), marker: PhantomData }),
            Err(e) => Err(e),
        }
    }

    /// The object as an array, when it is one.
    pub fn from_object(obj: JSObject<V>) -> (r: Option<Self>)
        ensures
            obj.raw().spec_is_array() <==> r is Some,
            r matches Some(a) ==> a.raw() == obj.raw(),
    {
        if obj.as_value().is_array() {
            Some(JSArray(obj))
        } else {
            None
        }
    }

    /// The elements of `[0, length)`, conversion_can_give; the first failure ends it.
    pub fn to_vec<T: FromJSValue<V>>(&self) -> (r: JSResult<Vec<T>>)
        ensures
            r matches Ok(v) ==> (exists|n: u32| length_read_can_give::<V>(n) && v@.len() == n) && forall|j: int| 0 <= j
                < v@.len() ==> conversion_can_give::<V, T>(Ok(#[trigger] v@[j])),
            r matches Err(e) ==> length_read_can_fail_with::<V>(e) || conversion_can_give::<V, T>(Err(e)),
    {
        let mut it = match self.iter::<T>() {
            Ok(it) => it,
            Err(e) => { return Err(e); },
        };
        let ghost n = it.cursor.spec_count();
        let mut out: Vec<T> = Vec::new();
        loop
            invariant
                length_read_can_give::<V>(n),
                it.cursor.spec_count() == n,
                it.cursor.spec_index() <= n,
                out@.len() == it.cursor.spec_index(),
                forall|j: int| 0 <= j < out@.len() ==> conversion_can_give::<V, T>(Ok(#[trigger] out@[j])),
            decreases it.cursor.spec_count() - it.cursor.spec_index(),
        {
            match it.cursor.next_index() {
                Some(i) => {
                    let ctx = it.array.get_ctx();
                    match it.array.get_value(i) {
                        Ok(v) => match T::from_js_value(&ctx, v) {
                            Ok(t) => out.push(t),
                            Err(e) => { return Err(e); },
                        },
                        Err(e) => { return Err(e); },
                    }
                },
                None => { return Ok(out); },
            }
        }
    }
}

/// A walk over the conversion_can_give elements of an array.
pub struct ArrayIter<V: JSValueImpl, T> {
    array: JSArray<V>,
    cursor: ArrayCursor,
    marker: PhantomData<T>,
}

impl<V: JSValueImpl, T> ArrayIter<V, T> {
    /// The next index of the walk.
    pub closed spec fn spec_index(&self) -> u32 {
        self.cursor.spec_index()
    }

    /// The end of the walk.
    pub closed spec fn spec_count(&self) -> u32 {
        self.cursor.spec_count()
    }

    /// The array walked over.
    pub closed spec fn spec_array(&self) -> V {
        self.array.raw()
    }
}

impl<V: JSObjectOps + JSArrayOps, T: FromJSValue<V>> ArrayIter<V, T> {
    /// The next element conversion_can_give, or `None` at the end.
    pub fn next(&mut self) -> (r: Option<JSResult<T>>)
        ensures
            final(self).spec_count() == old(self).spec_count(),
            final(self).spec_array() == old(self).spec_array(),
            old(self).spec_index() < old(self).spec_count() ==> r is Some && final(self).spec_index()
                == old(self).spec_index() + 1,
            old(self).spec_index() >= old(self).spec_count() ==> r is None && final(self).spec_index()
                == old(self).spec_index(),
            r matches Some(res) ==> exists|answer: V|
                #[trigger] engine_read_answers(old(self).spec_array(), old(self).spec_index(), answer)
                && (answer.spec_is_exception() ==> (res matches Err(e) && e.thrown_handle() is Some))
                && (!answer.spec_is_exception() ==> exists|c: JSContext<V::Context>, v: JSValue<V>|
                    #[trigger] call_ensures(T::from_js_value, (&c, v), res) && v.raw() == answer),
    {
        match self.cursor.next_index() {
            Some(i) => {
                let ctx = self.array.get_ctx();
                let read = self.array.get_value(i);
                let ghost read_g = read;
                let res = match read {
                    Ok(v) => {
                        let ghost given = v;
                        let converted = T::from_js_value(&ctx, v);
                        assert(call_ensures(T::from_js_value, (&ctx, given), converted));
                        converted
                    },
                    Err(e) => Err(e),
                };
                proof {
                    let answer = choose|answer: V| #[trigger] engine_read_answers(self.array.raw(), i, answer)
                        && (read_g is Ok <==> !answer.spec_is_exception())
                        && (read_g matches Ok(v) ==> v.raw() == answer);
                    assert(engine_read_answers(old(self).spec_array(), old(self).spec_index(), answer));
                }
                Some(res)
            },
            None => None,
        }
    }

    /// How many elements are left.
    pub fn len(&self) -> (r: usize)
        ensures
            self.spec_index() <= self.spec_count() ==> r == self.spec_count() - self.spec_index(),
            self.spec_index() > self.spec_count() ==> r == 0,
    {
        self.cursor.remaining()
    }
}

/// A walk over the elements of an array.
pub struct ArrayValueIter<V: JSValueImpl> {
    array: JSArray<V>,
    cursor: ArrayCursor,
}

impl<V: JSValueImpl> ArrayValueIter<V> {
    /// The next index of the walk.
    pub closed spec fn spec_index(&self) -> u32 {
        self.cursor.spec_index()
    }

    /// The end of the walk.
    pub closed spec fn spec_count(&self) -> u32 {
        self.cursor.spec_count()
    }

    /// The array walked over.
    pub closed spec fn spec_array(&self) -> V {
        self.array.raw()
    }
}

impl<V: JSObjectOps + JSArrayOps> ArrayValueIter<V> {
    /// The next element, or `None` at the end.
    pub fn next(&mut self) -> (r: Option<JSResult<JSValue<V>>>)
        ensures
            final(self).spec_count() == old(self).spec_count(),
            final(self).spec_array() == old(self).spec_array(),
            old(self).spec_index() < old(self).spec_count() ==> r is Some && final(self).spec_index()
                == old(self).spec_index() + 1,
            old(self).spec_index() >= old(self).spec_count() ==> r is None && final(self).spec_index()
                == old(self).spec_index(),
            r matches Some(res) ==> exists|answer: V|
                #[trigger] engine_read_answers(old(self).spec_array(), old(self).spec_index(), answer)
                && (res is Ok <==> !answer.spec_is_exception())
                && (res matches Ok(v) ==> v.raw() == answer),
    {
        match self.cursor.next_index() {
            Some(i) => {
                let read = self.array.get_value(i);
                proof {
                    let answer = choose|answer: V| #[trigger] engine_read_answers(self.array.raw(), i, answer)
                        && (read is Ok <==> !answer.spec_is_exception())
                        && (read matches Ok(v) ==> v.raw() == answer);
                    assert(engine_read_answers(old(self).spec_array(), old(self).spec_index(), answer));
                }
                Some(read)
            },
            None => None,
        }
    }

    /// How many elements are left.
    pub fn len(&self) -> (r: usize)
        ensures
            self.spec_index() <= self.spec_count() ==> r == self.spec_count() - self.spec_index(),
            self.spec_index() > self.spec_count() ==> r == 0,
    {
        self.cursor.remaining()
    }
}

/// A walk over the present elements of an array.
pub struct ArrayPresentIter<V: JSValueImpl, T> {
    array: JSArray<V>,
    cursor: ArrayCursor,
    marker: PhantomData<T>,
}

impl<V: JSValueImpl, T> ArrayPresentIter<V, T> {
    /// The next index of the walk.
    pub closed spec fn spec_index(&self) -> u32 {
        self.cursor.spec_index()
    }

    /// The end of the walk.
    pub closed spec fn spec_count(&self) -> u32 {
        self.cursor.spec_count()
    }

    /// The array walked over.
    pub closed spec fn spec_array(&self) -> V {
        self.array.raw()
    }

    /// The array walked over, as an array.
    pub closed spec fn spec_walked(&self) -> JSArray<V> {
        self.array
    }
}

impl<V: JSObjectOps + JSArrayOps, T: FromJSValue<V>> ArrayPresentIter<V, T> {
    /// The next present element conversion_can_give, or `None` at the end; holes are
    /// skipped. The walk only moves forward, and `None` comes exactly when it
    /// has reached its end.
    pub fn next(&mut self) -> (r: Option<JSResult<T>>)
        ensures
            final(self).spec_count() == old(self).spec_count(),
            final(self).spec_array() == old(self).spec_array(),
            old(self).spec_index() >= old(self).spec_count() ==> final(self).spec_index() == old(self).spec_index(),
            old(self).spec_index() < old(self).spec_count() ==> old(self).spec_index() < final(self).spec_index()
                <= final(self).spec_count(),
            r is Some ==> old(self).spec_index() < old(self).spec_count(),
            r is None ==> final(self).spec_index() >= final(self).spec_count(),
            final(self).spec_walked() == old(self).spec_walked(),
            forall|k: u32| old(self).spec_index() <= k < final(self).spec_index() && (r is None || k + 1
                < final(self).spec_index()) ==> #[trigger] call_ensures(JSArray::<V>::has_index,
                (&old(self).spec_walked(), k), false),
            r matches Some(res) ==> call_ensures(JSArray::<V>::has_index,
                (&old(self).spec_walked(), (final(self).spec_index() - 1) as u32), true)
                && exists|answer: V| #[trigger] engine_read_answers(old(self).spec_array(),
                    (final(self).spec_index() - 1) as u32, answer)
                && (answer.spec_is_exception() ==> (res matches Err(e) && e.thrown_handle() is Some))
                && (!answer.spec_is_exception() ==> exists|c: JSContext<V::Context>, v: JSValue<V>|
                    #[trigger] call_ensures(T::from_js_value, (&c, v), res) && v.raw() == answer),
    {
        let ghost start = self.cursor.spec_index();
        loop
            invariant
                self.cursor.spec_count() == old(self).spec_count(),
                self.array == old(self).array,
                start == old(self).cursor.spec_index(),
                start >= self.cursor.spec_count() ==> self.cursor.spec_index() == start,
                start < self.cursor.spec_count() ==> start <= self.cursor.spec_index() <= self.cursor.spec_count(),
                forall|k: u32| start <= k < self.cursor.spec_index() ==> #[trigger] call_ensures(
                    JSArray::<V>::has_index, (&self.array, k), false),
            decreases self.cursor.spec_count() - self.cursor.spec_index(),
        {
            match self.cursor.next_index() {
                Some(i) => {
                    let present = self.array.has_index(i);
                    assert(call_ensures(JSArray::<V>::has_index, (&self.array, i), present));
                    if present {
                        let ctx = self.array.get_ctx();
                        let read = self.array.get_value(i);
                        let ghost read_g = read;
                        let res = match read {
                            Ok(v) => {
                                let ghost given = v;
                                let converted = T::from_js_value(&ctx, v);
                                assert(call_ensures(T::from_js_value, (&ctx, given), converted));
                                converted
                            },
                            Err(e) => Err(e),
                        };
                        proof {
                            let answer = choose|answer: V| #[trigger] engine_read_answers(self.array.raw(), i, answer)
                                && (read_g is Ok <==> !answer.spec_is_exception())
                                && (read_g matches Ok(v) ==> v.raw() == answer);
                            assert(engine_read_answers(old(self).spec_array(), i, answer));
                            assert((self.cursor.spec_index() - 1) as u32 == i);
                        }
                        return Some(res);
                    }
                },
                None => { return None; },
            }
        }
    }
}

impl<V: JSObjectOps + JSArrayOps, T: IntoJSValue<V>> IntoJSValue<V> for Vec<T> {
    /// A new array holding the conversion_can_give items in order; an engine failure
    /// leaves the rest out.
    fn into_js_value(self, ctx: &JSContext<V::Context>) -> JSValue<V> {
        match JSArray::<V>::new(ctx) {
            Ok(array) => {
                for item in self {
                    let _ = array.push(item);
                }
                array.0.into_js_value()
            },
            Err(_) => JSValue::undefined(ctx),
        }
    }
}

impl<V: JSObjectOps + JSArrayOps, T: FromJSValue<V>> FromJSValue<V> for Vec<T> {
    /// The conversion_can_give elements of an array; any other value is the
    /// `NotJSArray` error.
    fn from_js_value(ctx: &JSContext<V::Context>, value: JSValue<V>) -> (r: JSResult<Self>)
        ensures
            !value.raw().spec_is_array() ==> (r matches Err(e) && is_plain_error(e, "TypeError"@, E_NOT_ARRAY@,
                "Not JS Array"@)),
    {
        if value.is_array() {
            match JSArray::from_js_value(ctx, value) {
                Ok(array) => array.to_vec(),
                Err(e) => Err(e),
            }
        } else {
            Err(RongJSError::NotJSArray())
        }
    }
}

/// Writing an element lands at exactly the index asked for: a call of `set`
/// hands the engine a write, at `index` itself, of the value that the Rust
/// value converts to, and it succeeds exactly when that write does not throw.
pub proof fn law_set_writes_at_index<V: JSObjectOps + JSArrayOps, T: IntoJSValue<V>>(array: JSArray<V>,
    index: u32, value: T, r: JSResult<()>)
    requires
        call_ensures(JSArray::<V>::set::<T>, (&array, index, value), r),
    ensures
        exists|converted: JSValue<V>, answer: V|
            #![trigger call_ensures(T::into_js_value, (value, &array.spec_ctx()), converted),
                call_ensures(V::set_index, (&array.raw(), index, converted.raw()), answer)]
            call_ensures(T::into_js_value, (value, &array.spec_ctx()), converted)
            && call_ensures(V::set_index, (&array.raw(), index, converted.raw()), answer)
            && (r is Ok <==> !answer.spec_is_exception()),
{
    let (converted, answer) = choose|converted: JSValue<V>, answer: V|
        call_ensures(T::into_js_value, (value, &array.spec_ctx()), converted)
        && engine_write_answers(array.raw(), index, converted.raw(), answer)
        && (r is Ok <==> !answer.spec_is_exception());
    assert(call_ensures(T::into_js_value, (value, &array.spec_ctx()), converted)
        && call_ensures(V::set_index, (&array.raw(), index, converted.raw()), answer));
}

/// Reading an element asks the engine for exactly the index given: a read
/// that succeeds gives back the engine's answer for that index, and it fails
/// exactly when that answer is a thrown value.
pub proof fn law_get_reads_at_index<V: JSObjectOps + JSArrayOps>(array: JSArray<V>, index: u32,
    r: JSResult<JSValue<V>>)
    requires
        call_ensures(JSArray::<V>::get_value, (&array, index), r),
    ensures
        exists|answer: V| #[trigger] call_ensures(V::get_index, (&array.raw(), index), answer)
            && (r is Ok <==> !answer.spec_is_exception())
            && (r matches Ok(v) ==> v.raw() == answer),
{
    let answer = choose|answer: V| #[trigger] engine_read_answers(array.raw(), index, answer)
        && (r is Ok <==> !answer.spec_is_exception())
        && (r matches Ok(v) ==> v.raw() == answer);
    assert(call_ensures(V::get_index, (&array.raw(), index), answer));
}

/// Pushing appends: a push that succeeds writes the value at the index equal
/// to the length it read, and answers that length plus one.
pub proof fn law_push_writes_at_old_length<V: JSObjectOps + JSArrayOps>(array: JSArray<V>, value: JSValue<V>,
    r: JSResult<u32>)
    requires
        call_ensures(JSArray::<V>::push_value, (&array, value), r),
        r is Ok,
    ensures
        exists|n: u32, answer: V|
            #![trigger length_read_can_give::<V>(n), call_ensures(V::set_index, (&array.raw(), n, value.raw()), answer)]
            length_read_can_give::<V>(n) && r == Ok::<u32, RongJSError>((n + 1) as u32)
            && call_ensures(V::set_index, (&array.raw(), n, value.raw()), answer)
            && !answer.spec_is_exception(),
{
    let m = r->Ok_0;
    let n = choose|n: u32| length_read_can_give::<V>(n) && n < u32::MAX && m == n + 1;
    let answer = choose|answer: V| #[trigger] engine_write_answers(array.raw(), (m - 1) as u32, value.raw(), answer)
        && !answer.spec_is_exception();
    assert((m - 1) as u32 == n);
    assert(length_read_can_give::<V>(n) && call_ensures(V::set_index, (&array.raw(), n, value.raw()), answer));
}

} // verus!
