//! Objects: property reads and writes, definitions, and enumeration.

use vstd::prelude::*;
use crate::context::JSContext;
use crate::engine::{JSObjectOps, JSTypeOf, JSValueImpl};
use crate::error::{JSResult, RongJSError, E_MISSING_PROPERTY};
use crate::function::JSFunc;
use crate::property::{key_text, key_value, IntoPropertyKey, PropertyDescriptor, PropertyKey};
use crate::value::{conversion_can_give, FromJSValue, IntoJSValue, JSValue};

verus! {

/// A JavaScript object.
pub struct JSObject<V: JSValueImpl>(pub(crate) JSValue<V>);

impl<V: JSValueImpl> Clone for JSObject<V> {
    fn clone(&self) -> (r: Self)
        ensures
            r == *self,
    {
        JSObject(self.0.clone())
    }
}

/// The error for a property the object does not have, naming its key.
pub open spec fn is_missing_property<'a, V: JSValueImpl>(e: RongJSError, k: PropertyKey<'a, V>) -> bool {
    e.host() matches Some(h) && h.name@ == "ReferenceError"@ && h.code@ == E_MISSING_PROPERTY@
        && h.data is None && h.spec_thrown() is None
        && (key_text(k) matches Some(t) ==> h.message@ == "Property '"@ + t + "' Not Found"@)
}

/// Whether the error is that of a missing property.
pub open spec fn is_missing_property_code(e: RongJSError) -> bool {
    e.host() matches Some(h) && h.code@ == E_MISSING_PROPERTY@
}

/// How a property read resolves, from the engine's answer to the lookup and,
/// when that answer is `undefined` or nothing, from the presence check.
pub enum ReadOutcome {
    /// The lookup gave a value other than `undefined`.
    Value,
    /// The property exists and holds `undefined`.
    Undefined,
    /// The property does not exist.
    Missing,
}

/// The outcome of a read: `defined` is whether the lookup gave a value other
/// than `undefined`, `present` what the presence check answered.
pub open spec fn read_outcome_spec(defined: bool, present: bool) -> ReadOutcome {
    if defined {
        ReadOutcome::Value
    } else if present {
        ReadOutcome::Undefined
    } else {
        ReadOutcome::Missing
    }
}

/// Decides a read; the presence check matters only when the lookup did not
/// give a defined value.
pub fn read_outcome(defined: bool, present: bool) -> (r: ReadOutcome)
    ensures
        r == read_outcome_spec(defined, present),
{
    if defined {
        ReadOutcome::Value
    } else if present {
        ReadOutcome::Undefined
    } else {
        ReadOutcome::Missing
    }
}

impl<V: JSValueImpl> JSObject<V> {
    /// The engine value.
    pub closed spec fn raw(&self) -> V {
        self.0.raw()
    }

    /// The context the object lives in.
    pub closed spec fn spec_ctx(&self) -> JSContext<V::Context> {
        self.0.spec_ctx()
    }

    /// The value as an object, unchecked.
    pub(crate) fn from_js(value: JSValue<V>) -> (r: Self)
        ensures
            r.raw() == value.raw(),
            r.spec_ctx() == value.spec_ctx(),
    {
        JSObject(value)
    }

    /// Wraps an engine value of the context.
    pub fn from_raw(ctx: &JSContext<V::Context>, value: V) -> (r: Self)
        ensures
            r.raw() == value,
            r.spec_ctx() == *ctx,
    {
        JSObject(JSValue::from_raw(ctx, value))
    }

    /// The context of the object.
    pub fn context(&self) -> (r: JSContext<V::Context>)
        ensures
            r == self.spec_ctx(),
    {
        self.0.context()
    }

    /// The engine value.
    pub fn as_value(&self) -> (r: &V)
        ensures
            *r == self.raw(),
    {
        self.0.as_value()
    }

    /// The engine value, consuming the object.
    pub fn into_value(self) -> (r: V)
        ensures
            r == self.raw(),
    {
        self.0.into_value()
    }

    /// The object as a value.
    pub fn into_js_value(self) -> (r: JSValue<V>)
        ensures
            r.raw() == self.raw(),
    {
        self.0
    }

    /// The object as a value.
    pub fn as_js_value(&self) -> (r: &JSValue<V>)
        ensures
            r.raw() == self.raw(),
    {
        &self.0
    }

    /// The engine value, writable.
    pub fn as_mut_value(&mut self) -> (r: &mut V)
        ensures
            *r == old(self).raw(),
            final(self).raw() == *final(r),
    {
        self.0.inner_mut()
    }
}

impl<V: JSTypeOf> FromJSValue<V> for JSObject<V> {
    fn from_js_value(_ctx: &JSContext<V::Context>, value: JSValue<V>) -> (r: JSResult<Self>)
        ensures
            value.raw().spec_is_object() ==> (r matches Ok(o) && o.raw() == value.raw()),
            !value.raw().spec_is_object() ==> (r matches Err(e) && crate::error::is_plain_error(e,
                "TypeError"@, crate::error::E_TYPE@, "Not JS Object"@)),
    {
        if value.is_object() {
            Ok(JSObject(value))
        } else {
            Err(RongJSError::NotObject())
        }
    }
}

impl<V: JSValueImpl> crate::parameter::JSParameterType for JSObject<V> {}

impl<V: JSValueImpl> IntoJSValue<V> for JSObject<V> {
    fn into_js_value(self, _ctx: &JSContext<V::Context>) -> JSValue<V> {
        self.0
    }
}

/// Whether `answer` is what the engine can answer to a lookup of `key` on
/// `obj`.
pub open spec fn engine_lookup_answers<V: JSObjectOps>(obj: V, key: V, answer: Result<Option<V>, V>) -> bool {
    call_ensures(V::get_property, (&obj, key), answer)
}

/// Whether `answer` is what the engine can answer to a presence check of
/// `key` on `obj`.
pub open spec fn engine_presence_answers<V: JSObjectOps>(obj: V, key: V, answer: Result<bool, V>) -> bool {
    call_ensures(V::has_property, (&obj, key), answer)
}

/// How a read of `key` on `obj` resolves, given the engine's answer `got` to
/// the lookup: a thrown value fails the read; a value other than `undefined`
/// is the value read; otherwise the presence check decides between a present
/// property holding `undefined` and a missing one.
pub open spec fn read_resolves<V: JSObjectOps>(obj: V, key: V, got: Result<Option<V>, V>,
    r: JSResult<Option<JSValue<V>>>) -> bool {
    match got {
        Err(_) => r is Err,
        Ok(found) => if found matches Some(v) && !v.spec_is_undefined() {
            r matches Ok(Some(jv)) && jv.raw() == found->0
        } else {
            exists|present: Result<bool, V>| #[trigger] engine_presence_answers(obj, key, present)
                && match present {
                    Err(_) => r is Err,
                    Ok(false) => r == Ok::<Option<JSValue<V>>, RongJSError>(None),
                    Ok(true) => r matches Ok(Some(jv)) && jv.raw().spec_is_undefined(),
                }
        },
    }
}

/// Whether `r` is what reading `key` on `obj` can give.
pub open spec fn property_read_gives<V: JSObjectOps>(obj: V, key: V, r: JSResult<Option<JSValue<V>>>) -> bool {
    exists|got: Result<Option<V>, V>| #[trigger] engine_lookup_answers(obj, key, got) && read_resolves(obj, key, got, r)
}

/// Whether `r` is what reading the property `k` of `obj` and converting it
/// can give: the key's engine value is looked up, a thrown value fails the
/// read, a missing property is the error naming the key, and a value found
/// is converted.
pub open spec fn property_get_gives<'a, V: JSObjectOps, T: FromJSValue<V>>(obj: JSObject<V>, k: PropertyKey<'a, V>,
    r: JSResult<T>) -> bool {
    exists|key: V, read: JSResult<Option<JSValue<V>>>|
        #![trigger key_value(k, key), property_read_gives(obj.raw(), key, read)]
        key_value(k, key) && property_read_gives(obj.raw(), key, read)
        && (read matches Err(e) ==> r == Err::<T, RongJSError>(e))
        && (read == Ok::<Option<JSValue<V>>, RongJSError>(None) ==> (r matches Err(e) && is_missing_property(e, k)))
        && (read matches Ok(Some(v)) ==> call_ensures(T::from_js_value, (&obj.spec_ctx(), v), r))
}

/// Whether `answer` is what the engine can answer when asked for the names of
/// the own enumerable properties of `obj`.
pub open spec fn engine_names_answer<V: JSObjectOps>(obj: V, answer: Result<Vec<V>, V>) -> bool {
    call_ensures(V::get_own_property_names, (&obj,), answer)
}

/// Whether `names` are names the engine can list for `obj`.
pub open spec fn own_names_give<V: JSObjectOps>(obj: V, names: Seq<V>) -> bool {
    exists|listed: Vec<V>| #[trigger] engine_names_answer(obj, Ok(listed)) && listed@ == names
}

/// Whether `entries` pair names of `names`, in their order, each with the
/// value the engine's lookup of that name on `obj` answered.
pub open spec fn entries_listed<V: JSObjectOps>(obj: V, names: Seq<V>, entries: Seq<Entry<V>>) -> bool {
    exists|at: Seq<int>| {
        &&& at.len() == entries.len()
        &&& forall|j: int| 0 <= j < at.len() ==> 0 <= #[trigger] at[j] < names.len()
        &&& forall|j: int, l: int| 0 <= j < l < at.len() ==> at[j] < at[l]
        &&& forall|j: int| 0 <= j < at.len() ==> names[#[trigger] at[j]] == entries[j].spec_key().raw()
            && engine_lookup_answers(obj, entries[j].spec_key().raw(), Ok(Some(entries[j].spec_value().raw())))
    }
}

/// Whether `listed` are the values (or, with `keys`, the keys) of entries
/// that listing the own properties of `obj` can give, in order.
pub open spec fn entry_parts_listed<V: JSObjectOps>(obj: V, keys: bool, listed: Seq<JSValue<V>>) -> bool {
    exists|names: Seq<V>, es: Seq<Entry<V>>|
        #![trigger own_names_give(obj, names), entries_listed(obj, names, es)]
        own_names_give(obj, names) && entries_listed(obj, names, es) && listed.len() == es.len()
        && forall|j: int| 0 <= j < es.len() ==> listed[j] == (if keys { (#[trigger] es[j]).spec_key() } else {
            es[j].spec_value() })
}

/// The error that carries a value the engine threw.
fn thrown_error<V: JSValueImpl>(ctx: &JSContext<V::Context>, thrown: V) -> (r: RongJSError)
    ensures
        r.thrown_handle() is Some,
{
    RongJSError::from_thrown_value(JSValue::from_raw(ctx, thrown))
}

impl<V: JSObjectOps> JSObject<V> {
    /// A new empty object.
    pub fn new(ctx: &JSContext<V::Context>) -> (r: Self)
        ensures
            r.raw().spec_is_object() || r.raw().spec_is_exception(),
            r.spec_ctx() == *ctx,
    {
        JSObject(JSValue::from_raw(ctx, V::new_object(ctx.as_ref())))
    }

    /// Sets a property; an error carries what the engine threw.
    pub fn set<'a, K: IntoPropertyKey<'a, V>, KV: IntoJSValue<V>>(&'a self, k: K, kv: KV) -> (r: JSResult<&'a Self>)
        ensures
            r matches Ok(s) ==> s == self,
            r matches Err(e) ==> e.thrown_handle() is Some,
            exists|key: V, value: JSValue<V>, answer: Result<(), V>|
                #![trigger key_value(k.spec_key(), key), call_ensures(KV::into_js_value, (kv, &self.spec_ctx()), value),
                    call_ensures(V::set_property, (&self.raw(), key, value.raw()), answer)]
                key_value(k.spec_key(), key)
                && call_ensures(KV::into_js_value, (kv, &self.spec_ctx()), value)
                && call_ensures(V::set_property, (&self.raw(), key, value.raw()), answer)
                && (r is Ok <==> answer is Ok),
    {
        let ctx = self.context();
        let key = k.into_key().into_value(&ctx);
        let converted = kv.into_js_value(&ctx);
        let ghost c = converted;
        let value = converted.into_value();
        let ghost kg = key;
        let answer = self.as_value().set_property(key, value);
        assert(key_value(k.spec_key(), kg) && call_ensures(KV::into_js_value, (kv, &self.spec_ctx()), c)
            && call_ensures(V::set_property, (&self.raw(), kg, c.raw()), answer));
        match answer {
            Ok(()) => Ok(self),
            Err(thrown) => Err(thrown_error(&ctx, thrown)),
        }
    }

    /// Defines a property from a descriptor.
    pub fn define_property<'a, K: IntoPropertyKey<'a, V>>(&'a self, k: K, descriptor: PropertyDescriptor<V>)
        -> (r: JSResult<&'a Self>)
        ensures
            r matches Ok(s) ==> s == self,
            r matches Err(e) ==> e.thrown_handle() is Some,
            exists|done: JSResult<()>|
                #[trigger] call_ensures(PropertyDescriptor::<V>::define_on::<K>, (descriptor, self, k), done)
                && (done is Ok <==> r is Ok) && (done matches Err(e) ==> r == Err::<&Self, RongJSError>(e)),
    {
        let done = descriptor.define_on(self, k);
        assert(call_ensures(PropertyDescriptor::<V>::define_on::<K>, (descriptor, self, k), done));
        match done {
            Ok(()) => Ok(self),
            Err(e) => Err(e),
        }
    }

    /// Deletes a property: whether it was deleted.
    pub fn delete<'a, K: IntoPropertyKey<'a, V>>(&'a self, k: K) -> (r: JSResult<bool>)
        ensures
            r matches Err(e) ==> e.thrown_handle() is Some,
            exists|key: V, answer: Result<bool, V>|
                #![trigger key_value(k.spec_key(), key), call_ensures(V::del_property, (&self.raw(), key), answer)]
                key_value(k.spec_key(), key) && call_ensures(V::del_property, (&self.raw(), key), answer)
                && (answer is Err <==> r is Err) && (answer matches Ok(b) ==> r == Ok::<bool, RongJSError>(b)),
    {
        let ctx = self.context();
        let key = k.into_key().into_value(&ctx);
        let ghost kg = key;
        let answer = self.as_value().del_property(key);
        assert(key_value(k.spec_key(), kg) && call_ensures(V::del_property, (&self.raw(), kg), answer));
        match answer {
            Ok(b) => Ok(b),
            Err(thrown) => Err(thrown_error(&ctx, thrown)),
        }
    }

    /// Whether the object has the property.
    pub fn has_property<'a, K: IntoPropertyKey<'a, V>>(&self, k: K) -> (r: JSResult<bool>)
        ensures
            r matches Err(e) ==> e.thrown_handle() is Some,
            exists|key: V, answer: Result<bool, V>|
                #![trigger key_value(k.spec_key(), key), engine_presence_answers(self.raw(), key, answer)]
                key_value(k.spec_key(), key) && engine_presence_answers(self.raw(), key, answer)
                && (answer is Err <==> r is Err) && (answer matches Ok(b) ==> r == Ok::<bool, RongJSError>(b)),
    {
        let ctx = self.context();
        let key = k.into_key().into_value(&ctx);
        let ghost kg = key;
        let answer = self.as_value().has_property(key);
        assert(key_value(k.spec_key(), kg) && engine_presence_answers(self.raw(), kg, answer));
        match answer {
            Ok(b) => Ok(b),
            Err(thrown) => Err(thrown_error(&ctx, thrown)),
        }
    }

    /// Reads a property. A value other than `undefined` is taken as it is;
    /// otherwise the presence check tells an existing `undefined` property
    /// (`Some(undefined)`) from a missing one (`None`).
    fn read(&self, ctx: &JSContext<V::Context>, key: V) -> (r: JSResult<Option<JSValue<V>>>)
        ensures
            r matches Err(e) ==> e.thrown_handle() is Some,
            r matches Ok(Some(v)) ==> v.spec_ctx() == *ctx,
            property_read_gives(self.raw(), key, r),
    {
        let lookup_key = key.clone();
        proof {
            V::lemma_clone_same(key, lookup_key);
        }
        let got = self.as_value().get_property(lookup_key);
        assert(engine_lookup_answers(self.raw(), key, got));
        let ghost got_g = got;
        let (defined, found) = match got {
            Ok(Some(v)) => {
                let d = !v.is_undefined();
                (d, Some(v))
            },
            Ok(None) => (false, None),
            Err(thrown) => { return Err(thrown_error(ctx, thrown)); },
        };
        let ghost key_g = key;
        let ghost mut presence: Result<bool, V> = Ok(true);
        let present = if defined {
            true
        } else {
            let answer = self.as_value().has_property(key);
            assert(engine_presence_answers(self.raw(), key_g, answer));
            proof {
                presence = answer;
            }
            match answer {
                Ok(b) => b,
                Err(thrown) => {
                    let r = Err(thrown_error(ctx, thrown));
                    assert(read_resolves(self.raw(), key_g, got_g, r));
                    return r;
                },
            }
        };
        let r = match read_outcome(defined, present) {
            ReadOutcome::Missing => Ok(None),
            _ => match found {
                Some(v) => Ok(Some(JSValue::from_raw(ctx, v))),
                None => Ok(Some(JSValue::undefined(ctx))),
            },
        };
        proof {
            if !defined {
                assert(engine_presence_answers(self.raw(), key_g, presence));
            }
            assert(read_resolves(self.raw(), key_g, got_g, r));
        }
        r
    }

    /// Reads a property and converts it. A missing property is the
    /// `PropertyNotFound` error naming the key.
    pub fn get<'a, K: IntoPropertyKey<'a, V>, T: FromJSValue<V>>(&'a self, k: K) -> (r: JSResult<T>)
        ensures
            r is Ok ==> conversion_can_give::<V, T>(r),
            r is Err ==> (r matches Err(e) && (e.thrown_handle() is Some || is_missing_property(e, k.spec_key())
                || conversion_can_give::<V, T>(r))),
            property_get_gives(*self, k.spec_key(), r),
    {
        let ctx = self.context();
        let key: PropertyKey<'a, V> = k.into_key();
        let kv = key.clone().into_value(&ctx);
        let ghost kg = kv;
        let read = self.read(&ctx, kv);
        let ghost read_g = read;
        let r = match read {
            Ok(Some(value)) => {
                let ghost given = value;
                let converted = T::from_js_value(&ctx, value);
                assert(call_ensures(T::from_js_value, (&self.spec_ctx(), given), converted));
                converted
            },
            Ok(None) => Err(RongJSError::PropertyNotFound(key.text())),
            Err(e) => Err(e),
        };
        assert(key_value(k.spec_key(), kg) && property_read_gives(self.raw(), kg, read_g));
        r
    }

    /// Reads a property and converts it; `None` when it is missing.
    pub fn get_opt<'a, K: IntoPropertyKey<'a, V>, T: FromJSValue<V>>(&'a self, k: K) -> (r: JSResult<Option<T>>)
        ensures
            r matches Ok(Some(t)) ==> conversion_can_give::<V, T>(Ok(t)),
            r matches Err(e) ==> e.thrown_handle() is Some || conversion_can_give::<V, T>(Err(e)),
            exists|key: V, read: JSResult<Option<JSValue<V>>>|
                #![trigger key_value(k.spec_key(), key), property_read_gives(self.raw(), key, read)]
                key_value(k.spec_key(), key) && property_read_gives(self.raw(), key, read)
                && (read matches Err(e) ==> r == Err::<Option<T>, RongJSError>(e))
                && (read == Ok::<Option<JSValue<V>>, RongJSError>(None) ==> r == Ok::<Option<T>, RongJSError>(None))
                && (read matches Ok(Some(v)) ==> exists|c: JSResult<T>|
                    #[trigger] call_ensures(T::from_js_value, (&self.spec_ctx(), v), c)
                    && (c matches Ok(t) ==> r == Ok::<Option<T>, RongJSError>(Some(t)))
                    && (c matches Err(e) ==> r == Err::<Option<T>, RongJSError>(e))),
    {
        let ctx = self.context();
        let kv = k.into_key().into_value(&ctx);
        let ghost kg = kv;
        let read = self.read(&ctx, kv);
        let ghost read_g = read;
        let r = match read {
            Ok(Some(value)) => {
                let ghost given = value;
                let converted = T::from_js_value(&ctx, value);
                assert(call_ensures(T::from_js_value, (&self.spec_ctx(), given), converted));
                match converted {
                    Ok(t) => Ok(Some(t)),
                    Err(e) => Err(e),
                }
            },
            Ok(None) => Ok(None),
            Err(e) => Err(e),
        };
        assert(key_value(k.spec_key(), kg) && property_read_gives(self.raw(), kg, read_g));
        r
    }

    /// The names of the object's own enumerable properties.
    pub fn own_keys(&self) -> (r: JSResult<Vec<V>>)
        ensures
            r matches Err(e) ==> e.thrown_handle() is Some,
            exists|answer: Result<Vec<V>, V>| #[trigger] engine_names_answer(self.raw(), answer)
                && (answer is Err <==> r is Err) && (answer matches Ok(listed) ==> r matches Ok(v) && v@ == listed@),
    {
        let ctx = self.context();
        let answer = self.as_value().get_own_property_names();
        assert(engine_names_answer(self.raw(), answer));
        match answer {
            Ok(keys) => Ok(keys),
            Err(thrown) => Err(thrown_error(&ctx, thrown)),
        }
    }

    /// The `[key, value]` pairs of the object's own enumerable properties, in
    /// the order of [`JSObject::own_keys`]; a key whose lookup gives nothing is
    /// skipped.
    pub fn entries(&self) -> (r: JSResult<Vec<Entry<V>>>)
        ensures
            r matches Err(e) ==> e.thrown_handle() is Some,
            r matches Ok(es) ==> exists|names: Seq<V>| #[trigger] own_names_give(self.raw(), names)
                && entries_listed(self.raw(), names, es@),
    {
        let ctx = self.context();
        let keys = match self.own_keys() {
            Ok(k) => k,
            Err(e) => { return Err(e); },
        };
        assert(own_names_give(self.raw(), keys@));
        let mut entries: Vec<Entry<V>> = Vec::new();
        let ghost mut at: Seq<int> = Seq::empty();
        let mut i: usize = 0;
        while i < keys.len()
            invariant
                i <= keys.len(),
                entries.len() <= i,
                at.len() == entries@.len(),
                forall|j: int| 0 <= j < at.len() ==> 0 <= #[trigger] at[j] < i,
                forall|j: int, l: int| 0 <= j < l < at.len() ==> at[j] < at[l],
                forall|j: int| 0 <= j < at.len() ==> keys@[#[trigger] at[j]] == entries@[j].spec_key().raw()
                    && engine_lookup_answers(self.raw(), entries@[j].spec_key().raw(),
                    Ok(Some(entries@[j].spec_value().raw()))),
            decreases keys.len() - i,
        {
            let key = keys[i].clone();
            let lookup_key = key.clone();
            proof {
                V::lemma_clone_same(keys@[i as int], key);
                V::lemma_clone_same(key, lookup_key);
            }
            let got = self.as_value().get_property(lookup_key);
            assert(engine_lookup_answers(self.raw(), key, got));
            match got {
                Ok(Some(value)) => {
                    let ghost before = entries@;
                    let ghost found = value;
                    let entry = Entry { key: JSValue::from_raw(&ctx, key), value: JSValue::from_raw(&ctx, value) };
                    assert(entry.spec_key().raw() == key && entry.spec_value().raw() == found);
                    entries.push(entry);
                    proof {
                        assert(keys@[i as int] == key);
                        assert(engine_lookup_answers(self.raw(), key, Ok(Some(found))));
                        at = at.push(i as int);
                        assert forall|j: int| 0 <= j < at.len() implies keys@[#[trigger] at[j]]
                            == entries@[j].spec_key().raw() && engine_lookup_answers(self.raw(),
                            entries@[j].spec_key().raw(), Ok(Some(entries@[j].spec_value().raw()))) by {
                            if j < before.len() {
                                assert(entries@[j] == before[j]);
                            } else {
                                assert(at[j] == i);
                                assert(entries@[j] == entry);
                            }
                        }
                    }
                },
                Ok(None) => {},
                Err(thrown) => { return Err(thrown_error(&ctx, thrown)); },
            }
            assert(forall|j: int| 0 <= j < at.len() ==> keys@[#[trigger] at[j]] == entries@[j].spec_key().raw()
                && engine_lookup_answers(self.raw(), entries@[j].spec_key().raw(),
                Ok(Some(entries@[j].spec_value().raw()))));
            i = i + 1;
        }
        assert(entries_listed(self.raw(), keys@, entries@));
        Ok(entries)
    }

    /// The entries, conversion_can_give.
    pub fn entries_as<K: FromJSValue<V>, V2: FromJSValue<V>>(&self) -> (r: JSResult<Vec<(K, V2)>>)
        ensures
            r matches Ok(v) ==> forall|j: int| 0 <= j < v@.len() ==> conversion_can_give::<V, K>(Ok((#[trigger] v@[j]).0))
                && conversion_can_give::<V, V2>(Ok(v@[j].1)),
            r matches Err(e) ==> e.thrown_handle() is Some || conversion_can_give::<V, K>(Err(e)) || conversion_can_give::<V, V2>(
                Err(e)),
            r matches Ok(v) ==> exists|names: Seq<V>, es: Seq<Entry<V>>|
                #![trigger own_names_give(self.raw(), names), entries_listed(self.raw(), names, es)]
                own_names_give(self.raw(), names) && entries_listed(self.raw(), names, es) && v@.len() == es.len()
                && forall|j: int| 0 <= j < es.len() ==> entry_converts_to(#[trigger] es[j], v@[j]),
    {
        let entries = match self.entries() {
            Ok(e) => e,
            Err(e) => { return Err(e); },
        };
        let ghost listed = entries@;
        let mut out: Vec<(K, V2)> = Vec::new();
        for entry in it: entries
            invariant
                it.seq() == listed,
                out@.len() == it.index(),
                forall|j: int| 0 <= j < out@.len() ==> conversion_can_give::<V, K>(Ok((#[trigger] out@[j]).0))
                    && conversion_can_give::<V, V2>(Ok(out@[j].1)),
                forall|j: int| 0 <= j < out@.len() ==> entry_converts_to(#[trigger] listed[j], out@[j]),
        {
            let ghost given = entry;
            match entry.try_into::<K, V2>() {
                Ok(pair) => {
                    let ghost before = out@;
                    out.push(pair);
                    assert forall|j: int| 0 <= j < out@.len() implies entry_converts_to(#[trigger] listed[j], out@[j]) by {
                        if j < before.len() {
                            assert(out@[j] == before[j]);
                        } else {
                            assert(listed[j] == given);
                        }
                    }
                },
                Err(e) => { return Err(e); },
            }
        }
        Ok(out)
    }

    /// The values of the entries, in order.
    pub fn values(&self) -> (r: JSResult<Vec<JSValue<V>>>)
        ensures
            r matches Err(e) ==> e.thrown_handle() is Some,
            r matches Ok(out) ==> entry_parts_listed(self.raw(), false, out@),
    {
        let entries = match self.entries() {
            Ok(e) => e,
            Err(e) => { return Err(e); },
        };
        let mut out: Vec<JSValue<V>> = Vec::new();
        let mut i: usize = 0;
        while i < entries.len()
            invariant
                i <= entries.len(),
                out@.len() == i,
                forall|j: int| 0 <= j < i ==> out@[j] == (#[trigger] entries@[j]).spec_value(),
            decreases entries.len() - i,
        {
            out.push(entries[i].value().clone());
            i = i + 1;
        }
        Ok(out)
    }

    /// The values, conversion_can_give.
    pub fn values_as<T: FromJSValue<V>>(&self) -> (r: JSResult<Vec<T>>)
        ensures
            r matches Ok(v) ==> forall|j: int| 0 <= j < v@.len() ==> conversion_can_give::<V, T>(Ok(#[trigger] v@[j])),
            r matches Err(e) ==> e.thrown_handle() is Some || conversion_can_give::<V, T>(Err(e)),
            r matches Ok(v) ==> exists|listed: Seq<JSValue<V>>| #[trigger] entry_parts_listed(self.raw(), false, listed)
                && v@.len() == listed.len() && forall|j: int| 0 <= j < listed.len() ==> call_ensures(T::from_js_value,
                (&self.spec_ctx(), #[trigger] listed[j]), Ok::<T, RongJSError>(v@[j])),
    {
        let ctx = self.context();
        let values = match self.values() {
            Ok(v) => v,
            Err(e) => { return Err(e); },
        };
        let mut out: Vec<T> = Vec::new();
        let mut i: usize = 0;
        while i < values.len()
            invariant
                i <= values.len(),
                out@.len() == i,
                ctx == self.spec_ctx(),
                forall|j: int| 0 <= j < out@.len() ==> conversion_can_give::<V, T>(Ok(#[trigger] out@[j])),
                forall|j: int| 0 <= j < i ==> call_ensures(T::from_js_value, (&ctx, #[trigger] values@[j]),
                    Ok::<T, RongJSError>(out@[j])),
            decreases values.len() - i,
        {
            let v = values[i].clone();
            let converted = T::from_js_value(&ctx, v);
            assert(call_ensures(T::from_js_value, (&ctx, values@[i as int]), converted));
            match converted {
                Ok(t) => {
                    let ghost before = out@;
                    out.push(t);
                    assert forall|j: int| 0 <= j < i + 1 implies call_ensures(T::from_js_value,
                        (&ctx, #[trigger] values@[j]), Ok::<T, RongJSError>(out@[j])) by {
                        if j < i {
                            assert(out@[j] == before[j]);
                        }
                    }
                },
                Err(e) => { return Err(e); },
            }
            i = i + 1;
        }
        Ok(out)
    }

    /// The keys of the entries, in order.
    pub fn keys(&self) -> (r: JSResult<Vec<JSValue<V>>>)
        ensures
            r matches Err(e) ==> e.thrown_handle() is Some,
            r matches Ok(out) ==> entry_parts_listed(self.raw(), true, out@),
    {
        let entries = match self.entries() {
            Ok(e) => e,
            Err(e) => { return Err(e); },
        };
        let mut out: Vec<JSValue<V>> = Vec::new();
        let mut i: usize = 0;
        while i < entries.len()
            invariant
                i <= entries.len(),
                out@.len() == i,
                forall|j: int| 0 <= j < i ==> out@[j] == (#[trigger] entries@[j]).spec_key(),
            decreases entries.len() - i,
        {
            out.push(entries[i].key().clone());
            i = i + 1;
        }
        Ok(out)
    }

    /// The keys, conversion_can_give.
    pub fn keys_as<K: FromJSValue<V>>(&self) -> (r: JSResult<Vec<K>>)
        ensures
            r matches Ok(v) ==> forall|j: int| 0 <= j < v@.len() ==> conversion_can_give::<V, K>(Ok(#[trigger] v@[j])),
            r matches Err(e) ==> e.thrown_handle() is Some || conversion_can_give::<V, K>(Err(e)),
            r matches Ok(v) ==> exists|listed: Seq<JSValue<V>>| #[trigger] entry_parts_listed(self.raw(), true, listed)
                && v@.len() == listed.len() && forall|j: int| 0 <= j < listed.len() ==> call_ensures(K::from_js_value,
                (&self.spec_ctx(), #[trigger] listed[j]), Ok::<K, RongJSError>(v@[j])),
    {
        let ctx = self.context();
        let keys = match self.keys() {
            Ok(v) => v,
            Err(e) => { return Err(e); },
        };
        let mut out: Vec<K> = Vec::new();
        let mut i: usize = 0;
        while i < keys.len()
            invariant
                i <= keys.len(),
                out@.len() == i,
                ctx == self.spec_ctx(),
                forall|j: int| 0 <= j < out@.len() ==> conversion_can_give::<V, K>(Ok(#[trigger] out@[j])),
                forall|j: int| 0 <= j < i ==> call_ensures(K::from_js_value, (&ctx, #[trigger] keys@[j]),
                    Ok::<K, RongJSError>(out@[j])),
            decreases keys.len() - i,
        {
            let k = keys[i].clone();
            let converted = K::from_js_value(&ctx, k);
            assert(call_ensures(K::from_js_value, (&ctx, keys@[i as int]), converted));
            match converted {
                Ok(t) => {
                    let ghost before = out@;
                    out.push(t);
                    assert forall|j: int| 0 <= j < i + 1 implies call_ensures(K::from_js_value,
                        (&ctx, #[trigger] keys@[j]), Ok::<K, RongJSError>(out@[j])) by {
                        if j < i {
                            assert(out@[j] == before[j]);
                        }
                    }
                },
                Err(e) => { return Err(e); },
            }
            i = i + 1;
        }
        Ok(out)
    }

    /// Parses JSON text into a value with the global `JSON.parse`.
    pub fn from_json_string(ctx: &JSContext<V::Context>, json: &str) -> (r: JSResult<Self>)
        ensures
            r matches Ok(o) ==> !o.raw().spec_is_exception() && o.spec_ctx() == *ctx,
            r matches Err(e) ==> e.thrown_handle() is Some || is_missing_property_code(e) || conversion_can_give::<V,
                JSObject<V>>(Err(e)) || conversion_can_give::<V, JSFunc<V>>(Err(e)),
    {
        let global = ctx.global();
        let json_obj: JSObject<V> = match global.get("JSON") {
            Ok(o) => o,
            Err(e) => { return Err(e); },
        };
        let parse: JSFunc<V> = match json_obj.get("parse") {
            Ok(f) => f,
            Err(e) => { return Err(e); },
        };
        let text = JSValue::<V>::from_rust(ctx, json);
        let mut argv: Vec<V> = Vec::new();
        argv.push(text.into_value());
        let result = parse.call_with_argv(None, argv);
        match JSValue::from_raw(ctx, result).check_exception() {
            Ok(v) => Ok(JSObject(v)),
            Err(e) => Err(e),
        }
    }

    /// Serialises the object with the global `JSON.stringify`.
    pub fn to_json_string(&self) -> (r: JSResult<String>)
        ensures
            r is Ok ==> conversion_can_give::<V, String>(r),
            r matches Err(e) ==> e.thrown_handle() is Some || is_missing_property_code(e) || conversion_can_give::<V,
                JSObject<V>>(Err(e)) || conversion_can_give::<V, JSFunc<V>>(Err(e)) || conversion_can_give::<V, String>(Err(e)),
    {
        let ctx = self.context();
        let global = ctx.global();
        let json_obj: JSObject<V> = match global.get("JSON") {
            Ok(o) => o,
            Err(e) => { return Err(e); },
        };
        let stringify: JSFunc<V> = match json_obj.get("stringify") {
            Ok(f) => f,
            Err(e) => { return Err(e); },
        };
        let mut argv: Vec<V> = Vec::new();
        argv.push(self.as_value().clone());
        let result = stringify.call_with_argv(None, argv);
        JSValue::from_raw(&ctx, result).try_convert::<String>()
    }
}

/// Whether `pair` is what converting the key and the value of `entry`, in the
/// key's context, can give.
pub open spec fn entry_converts_to<V: JSValueImpl, K: FromJSValue<V>, T: FromJSValue<V>>(entry: Entry<V>,
    pair: (K, T)) -> bool {
    &&& call_ensures(K::from_js_value, (&entry.spec_key().spec_ctx(), entry.spec_key()), Ok::<K, RongJSError>(pair.0))
    &&& call_ensures(T::from_js_value, (&entry.spec_key().spec_ctx(), entry.spec_value()), Ok::<T, RongJSError>(pair.1))
}

/// A `[key, value]` pair of an object.
pub struct Entry<V: JSValueImpl> {
    key: JSValue<V>,
    value: JSValue<V>,
}

impl<V: JSValueImpl> Entry<V> {
    pub closed spec fn spec_key(&self) -> JSValue<V> {
        self.key
    }

    pub closed spec fn spec_value(&self) -> JSValue<V> {
        self.value
    }

    pub fn key(&self) -> (r: &JSValue<V>)
        ensures
            *r == self.spec_key(),
    {
        &self.key
    }

    pub fn value(&self) -> (r: &JSValue<V>)
        ensures
            *r == self.spec_value(),
    {
        &self.value
    }

    pub fn into_tuple(self) -> (r: (JSValue<V>, JSValue<V>))
        ensures
            r == (self.spec_key(), self.spec_value()),
    {
        (self.key, self.value)
    }

    /// The key and value, conversion_can_give; the key's conversion error comes first.
    pub fn try_into<K: FromJSValue<V>, T: FromJSValue<V>>(self) -> (r: JSResult<(K, T)>)
        ensures
            r matches Ok(p) ==> conversion_can_give::<V, K>(Ok(p.0)) && conversion_can_give::<V, T>(Ok(p.1)),
            r matches Err(e) ==> conversion_can_give::<V, K>(Err(e)) || conversion_can_give::<V, T>(Err(e)),
            r matches Ok(p) ==> entry_converts_to(self, p),
    {
        let ctx = self.key.context();
        let ghost me = self;
        let k = match K::from_js_value(&ctx, self.key) {
            Ok(k) => k,
            Err(e) => { return Err(e); },
        };
        match T::from_js_value(&ctx, self.value) {
            Ok(t) => {
                assert(entry_converts_to(me, (k, t)));
                Ok((k, t))
            },
            Err(e) => Err(e),
        }
    }
}

} // verus!
