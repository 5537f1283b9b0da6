//! Errors at the JavaScript boundary: host errors become `Error` objects,
//! thrown payloads go back to JavaScript, and a thrown payload can be
//! summarised as a host error.

use vstd::prelude::*;
use crate::context::JSContext;
use crate::engine::{JSArrayOps, JSContextImpl, JSErrorFactory, JSExceptionThrower, JSObjectOps, JSTypeOf, JSValueConversion,
    JSValueImpl};
use crate::error::{keys_ascending, lemma_is_error_before_thrown, ErrorData, ErrorField, ErrorNumber, HostError, RongJSError, RongJSErrorKind, E_INTERNAL,
    E_JS_THROWN};
use crate::object::JSObject;
use crate::text::{signed_decimal, signed_decimal_string, decimal, decimal_string, str_eq};
use crate::thrown_store::ThrownValueHandle;
use crate::value::JSValue;

verus! {

/// The largest integer a JavaScript number holds exactly, 2^53 - 1.
pub const MAX_SAFE_INTEGER: u64 = 9007199254740991;

/// How a number of error data is handed to JavaScript: an integer that a
/// JavaScript number holds exactly, the decimal text of one that it does not,
/// or the bits of a float.
#[derive(Debug, PartialEq, Eq)]
pub enum NumberForm {
    Signed(i64),
    Unsigned(u64),
    Text(String),
    FloatBits(u64),
}

/// The decimal text an unsafe integer is shown as.
pub open spec fn number_text_spec(n: ErrorNumber) -> Seq<char> {
    match n {
        ErrorNumber::I64(v) => signed_decimal(v as int),
        ErrorNumber::U64(v) => decimal(v as nat),
        ErrorNumber::F64(_) => Seq::empty(),
    }
}

/// Whether the number is an integer outside the safe range.
pub open spec fn is_unsafe_integer(n: ErrorNumber) -> bool {
    match n {
        ErrorNumber::I64(v) => !(-(MAX_SAFE_INTEGER as int) <= v <= MAX_SAFE_INTEGER as int),
        ErrorNumber::U64(v) => v > MAX_SAFE_INTEGER,
        ErrorNumber::F64(_) => false,
    }
}

/// Decides the form of a number of error data.
pub fn number_form(n: ErrorNumber) -> (r: NumberForm)
    ensures
        is_unsafe_integer(n) ==> (r matches NumberForm::Text(t) && t@ == number_text_spec(n)),
        !is_unsafe_integer(n) ==> match n {
            ErrorNumber::I64(v) => r == NumberForm::Signed(v),
            ErrorNumber::U64(v) => r == NumberForm::Unsigned(v),
            ErrorNumber::F64(bits) => r == NumberForm::FloatBits(bits),
        },
{
    match n {
        ErrorNumber::I64(v) => {
            if -9007199254740991i64 <= v && v <= 9007199254740991i64 {
                NumberForm::Signed(v)
            } else {
                NumberForm::Text(signed_decimal_string(v))
            }
        },
        ErrorNumber::U64(v) => {
            if v <= MAX_SAFE_INTEGER {
                NumberForm::Unsigned(v)
            } else {
                NumberForm::Text(decimal_string(v))
            }
        },
        ErrorNumber::F64(bits) => NumberForm::FloatBits(bits),
    }
}

/// What the JavaScript value of primitive error data is: `null`, the boolean,
/// a number denoting the integer of a safe integer, the decimal text of an
/// unsafe one, a number for a float, and the string (or the engine's
/// exception when it cannot allocate it); an array (or `undefined` when the
/// engine cannot make one), and an object (or the engine's exception).
pub open spec fn primitive_data_value<V: JSValueConversion>(data: ErrorData, r: V) -> bool {
    match data {
        ErrorData::Null => r.spec_is_null(),
        ErrorData::Bool(b) => r.spec_is_boolean() && r.spec_bool_value() == b,
        ErrorData::Number(n) => if is_unsafe_integer(n) {
            (r.spec_is_string() || r.spec_is_exception()) && (r.spec_is_string() ==> r.spec_text()@
                == number_text_spec(n))
        } else {
            match n {
                ErrorNumber::I64(v) => r.spec_is_number() && r.spec_int_value() == Some(v as i128),
                ErrorNumber::U64(v) => r.spec_is_number() && r.spec_int_value() == Some(v as i128),
                ErrorNumber::F64(_) => r.spec_is_number(),
            }
        },
        ErrorData::String(s) => (r.spec_is_string() || r.spec_is_exception()) && (r.spec_is_string()
            ==> r.spec_text()@ == s@),
        ErrorData::Array(_) => r.spec_is_array() || r.spec_is_undefined(),
        ErrorData::Object(_) => r.spec_is_object() || r.spec_is_exception(),
    }
}

/// What building the JavaScript value of error data hands the engine.
pub enum DataPlan {
    Null,
    Bool(bool),
    /// A number holding a safe integer.
    Signed(i64),
    /// A number holding a safe integer.
    Unsigned(u64),
    /// A string: the text of a string, or the decimal text of an unsafe integer.
    Text(String),
    /// A number from the bits of a float.
    FloatBits(u64),
    /// An array whose first `n` items are set, at indices `0..n` in order.
    Array(usize),
    /// An object with one property per key, set in this order.
    Object(Vec<String>),
}

/// Whether a plan is the plan of the data; see [`data_plan`].
pub open spec fn is_data_plan(d: ErrorData, p: DataPlan) -> bool {
    match d {
        ErrorData::Null => p is Null,
        ErrorData::Bool(b) => p == DataPlan::Bool(b),
        ErrorData::Number(n) => if is_unsafe_integer(n) {
            p matches DataPlan::Text(t) && t@ == number_text_spec(n)
        } else {
            match n {
                ErrorNumber::I64(v) => p == DataPlan::Signed(v),
                ErrorNumber::U64(v) => p == DataPlan::Unsigned(v),
                ErrorNumber::F64(bits) => p == DataPlan::FloatBits(bits),
            }
        },
        ErrorData::String(s) => p matches DataPlan::Text(t) && t@ == s@,
        ErrorData::Array(items) => p == DataPlan::Array(
            if items@.len() <= u32::MAX as nat + 1 { items@.len() as usize } else { (u32::MAX as nat + 1) as usize }),
        ErrorData::Object(entries) => p matches DataPlan::Object(keys) && keys@.len() == entries@.len()
            && forall|k: int| 0 <= k < keys@.len() ==> (#[trigger] keys@[k])@ == entries@[k].key@,
    }
}

/// The plan of the value of error data: the form of a number (see
/// [`number_form`]), the text of a string, how many array items are set (an
/// index fits in 32 bits), and the keys of an object, in order.
pub fn data_plan(data: &ErrorData) -> (r: DataPlan)
    ensures
        is_data_plan(*data, r),
{
    match data {
        ErrorData::Null => DataPlan::Null,
        ErrorData::Bool(b) => DataPlan::Bool(*b),
        ErrorData::String(s) => DataPlan::Text(s.clone()),
        ErrorData::Number(n) => match number_form(*n) {
            NumberForm::Signed(v) => DataPlan::Signed(v),
            NumberForm::Unsigned(v) => DataPlan::Unsigned(v),
            NumberForm::Text(t) => DataPlan::Text(t),
            NumberForm::FloatBits(bits) => DataPlan::FloatBits(bits),
        },
        ErrorData::Array(items) => {
            let n: usize = if items.len() <= u32::MAX as usize { items.len() } else { u32::MAX as usize + 1 };
            DataPlan::Array(n)
        },
        ErrorData::Object(entries) => {
            let mut keys: Vec<String> = Vec::new();
            let mut i: usize = 0;
            while i < entries.len()
                invariant
                    i <= entries@.len(),
                    keys@.len() == i,
                    forall|k: int| 0 <= k < i ==> (#[trigger] keys@[k])@ == entries@[k].key@,
                decreases entries@.len() - i,
            {
                keys.push(entries[i].key.clone());
                i = i + 1;
            }
            DataPlan::Object(keys)
        },
    }
}

/// Builds the JavaScript value of error data by its [`data_plan`]: `null`,
/// booleans, numbers in their [`number_form`], strings, arrays and plain
/// objects. An array the engine cannot create becomes `undefined`.
#[verifier::loop_isolation(false)]
pub fn error_data_to_js_value<V: JSObjectOps + JSArrayOps>(ctx: &JSContext<V::Context>, data: &ErrorData) -> (r: V)
    ensures
        primitive_data_value(*data, r),
    decreases data,
{
    let c = ctx.as_ref();
    let plan = data_plan(data);
    match plan {
        DataPlan::Null => V::create_null(c),
        DataPlan::Bool(b) => V::from_bool(c, b),
        DataPlan::Signed(v) => V::from_i64(c, v),
        DataPlan::Unsigned(v) => V::from_u64(c, v),
        DataPlan::Text(t) => V::from_str(c, t.as_str()),
        DataPlan::FloatBits(bits) => V::from_f64_bits(c, bits),
        DataPlan::Array(n) => {
            let array = <V as JSArrayOps>::new_array(c);
            if array.is_exception() {
                return V::create_undefined(c);
            }
            match data {
                ErrorData::Array(items) => {
                    let mut i: usize = 0;
                    while i < n
                        invariant
                            i <= n,
                            n <= items@.len(),
                            n <= u32::MAX as nat + 1,
                        decreases n - i,
                    {
                        proof {
                            vstd::std_specs::vec::axiom_vec_index_decreases(*items, i as int);
                            assert(decreases_to!(*data => *items));
                            assert(decreases_to!(*items => items[i as int]));
                        }
                        let item = error_data_to_js_value::<V>(ctx, &items[i]);
                        let _ = array.set_index(i as u32, item);
                        i = i + 1;
                    }
                },
                _ => {},
            }
            array
        },
        DataPlan::Object(keys) => {
            let obj = V::new_object(c);
            match data {
                ErrorData::Object(entries) => {
                    let mut i: usize = 0;
                    while i < keys.len()
                        invariant
                            keys@.len() == entries@.len(),
                            i <= keys@.len(),
                        decreases keys@.len() - i,
                    {
                        proof {
                            vstd::std_specs::vec::axiom_vec_index_decreases(*entries, i as int);
                            assert(decreases_to!(*data => *entries));
                            assert(decreases_to!(*entries => entries[i as int]));
                            assert(decreases_to!(entries[i as int] => entries[i as int].value));
                        }
                        let value = error_data_to_js_value::<V>(ctx, &entries[i].value);
                        let key = V::from_str(c, keys[i].as_str());
                        let _ = obj.set_property(key, value);
                        i = i + 1;
                    }
                },
                _ => {},
            }
            obj
        },
    }
}

/// What a summary of a thrown payload is; see [`thrown_summary`].
pub open spec fn is_thrown_summary(r: HostError, handle: ThrownValueHandle, available: bool, is_error: bool,
    text: Option<String>, message_property: Option<String>) -> bool {
    &&& r.name@ == "Error"@
    &&& r.code@ == E_JS_THROWN@
    &&& r.spec_thrown() == Some(handle)
    &&& match message_property {
        Some(m) => r.message == m,
        None => match text {
            Some(t) => available ==> r.message == t,
            None => true,
        },
    }
    &&& message_property is None && (text is None || !available) ==> r.message@ == "JavaScript threw a value"@
    &&& available ==> (r.data matches Some(ErrorData::Object(entries)) && match text {
        Some(t) => entries@.len() == 2 && entries@[0].key@ == "is_error"@
            && entries@[0].value == ErrorData::Bool(is_error) && entries@[1].key@ == "thrown"@
            && entries@[1].value == ErrorData::String(t),
        None => entries@.len() == 1 && entries@[0].key@ == "is_error"@
            && entries@[0].value == ErrorData::Bool(is_error),
    })
    &&& !available ==> (r.data matches Some(ErrorData::Object(entries)) && entries@.len() == 1
        && entries@[0].key@ == "thrown"@ && (entries@[0].value matches ErrorData::String(s)
        && s@ == "<unavailable>"@))
}

/// The summary of a thrown payload as a host error: a plain `Error` with code
/// `E_JS_THROWN` that keeps the payload's handle. Its data holds, in key
/// order, `is_error` (whether the payload is an `Error`) when the payload is
/// available, and `thrown`, the payload's text when it has one, or
/// `<unavailable>` when the payload is gone. Its message is the payload's
/// `message` property, else its text, else `JavaScript threw a value`.
pub fn thrown_summary(handle: ThrownValueHandle, available: bool, is_error: bool, text: Option<String>,
    message_property: Option<String>) -> (r: HostError)
    ensures
        is_thrown_summary(r, handle, available, is_error, text, message_property),
        r.data matches Some(ErrorData::Object(entries)) && keys_ascending(entries@),
{
    proof {
        lemma_is_error_before_thrown();
    }
    let mut entries: Vec<ErrorField> = Vec::new();
    let text = if available { text } else { None };
    let message = match message_property {
        Some(m) => m,
        None => match &text {
            Some(t) => t.clone(),
            None => String::from_str("JavaScript threw a value"),
        },
    };
    if available {
        entries.push(ErrorField { key: String::from_str("is_error"), value: ErrorData::Bool(is_error) });
        match text {
            Some(t) => entries.push(ErrorField { key: String::from_str("thrown"), value: ErrorData::String(t) }),
            None => {},
        }
    } else {
        entries.push(ErrorField {
            key: String::from_str("thrown"),
            value: ErrorData::String(String::from_str("<unavailable>")),
        });
    }
    HostError::with_thrown(E_JS_THROWN, message, ErrorData::Object(entries), handle)
}

/// The summary of a thrown payload, from what its context still holds:
/// `None` when the payload is gone. For a payload, whether it is an `Error`,
/// its text, and its `message` property when it is an object.
pub fn summarize_payload<C: JSContextImpl>(ctx: &JSContext<C>, handle: ThrownValueHandle,
    thrown: Option<C::Value>) -> (r: HostError)
    where C::Value: JSObjectOps<Context = C>,
    ensures
        thrown is None ==> is_thrown_summary(r, handle, false, false, None, None),
        thrown matches Some(v) ==> exists|t: Option<String>, m: Option<String>|
            #[trigger] is_thrown_summary(r, handle, true, v.spec_is_error(), t, m)
            && (v.spec_is_string() ==> (t matches Some(tt) && tt@ == v.spec_text()@)),
{
    match thrown {
        Some(v) => {
            let text = match v.to_string() {
                Ok(s) => Some(s),
                Err(_) => None,
            };
            let is_error = v.is_error();
            let message = if v.is_object() {
                let obj = JSObject::from_raw(ctx, v);
                match obj.get::<&str, String>("message") {
                    Ok(m) => Some(m),
                    Err(_) => None,
                }
            } else {
                None
            };
            let ghost t = text;
            let ghost m = message;
            let r = thrown_summary(handle, true, is_error, text, message);
            assert(is_thrown_summary(r, handle, true, is_error, t, m));
            r
        },
        None => thrown_summary(handle, false, false, None, None),
    }
}

impl RongJSError {
    /// The error as a host error: a host error stays as it is; a thrown
    /// payload becomes its [`thrown_summary`], which keeps the handle. The
    /// payload stays in its context's store.
    pub fn into_host_in<C: JSContextImpl>(self, ctx: &JSContext<C>) -> (r: Self)
        where C::Value: JSObjectOps<Context = C>,
        ensures
            self.host() is Some ==> r == self,
            self.thrown_handle() matches Some(h) ==> (r.host() matches Some(host) && exists|a: bool, e: bool,
                t: Option<String>, m: Option<String>| #[trigger] is_thrown_summary(host, h, a, e, t, m)),
            self.thrown_handle() is Some && self.thrown_handle()->0.spec_context_id() != ctx.spec_id() ==> (
                r.host() matches Some(host) && is_thrown_summary(host, self.thrown_handle()->0, false, false, None,
                None)),
    {
        proof {
            self.lemma_kinds();
        }
        match self.thrown_handle_exec() {
            None => self,
            Some(handle) => {
                let thrown = ctx.resolve_thrown(handle);
                let ghost avail = thrown is Some;
                let host = summarize_payload(ctx, handle, thrown);
                proof {
                    if !avail {
                        assert(is_thrown_summary(host, handle, false, false, None, None));
                    }
                }
                RongJSError::host_error(host)
            },
        }
    }
}

/// The name, message and code an `Error` object of a host error is made with.
pub open spec fn host_error_fields(h: HostError) -> (Seq<char>, Seq<char>, Option<Seq<char>>) {
    (h.name@, h.message@, Some(h.code@))
}

/// The fields of the internal `Error` that stands for a payload no longer stored.
pub open spec fn lost_payload_fields() -> (Seq<char>, Seq<char>, Option<Seq<char>>) {
    ("Error"@, "Invalid thrown value handle"@, Some(E_INTERNAL@))
}

/// Whether a host error stands for a thrown payload whose handle it keeps.
pub open spec fn refers_to_thrown(h: HostError) -> bool {
    h.code@ == E_JS_THROWN@ && h.spec_thrown() is Some
}

/// Which properties the `Error` object of a host error gets besides its
/// name, message and code.
pub struct ErrorObjectPlan {
    /// Whether the object gets a `data` property.
    pub set_data: bool,
    /// Whether `data` is the value of the host's data (else a new empty object).
    pub data_from_host: bool,
    /// Whether `data.thrown` is set to the thrown payload.
    pub set_thrown: bool,
    /// Whether `cause` is set to the thrown payload.
    pub set_cause: bool,
}

/// The plan of an `Error` object. A summary of a thrown payload always gets
/// `data`: the value of its data when that is an object, else a new object;
/// `data.thrown` is the payload while it is stored, and `cause` the payload
/// when it is an `Error`. Any other host error gets `data` exactly when it has
/// data. `payload` is whether the payload is an `Error`, when it is stored.
pub fn error_object_plan(summary: bool, has_data: bool, data_is_object: bool, payload: Option<bool>)
    -> (r: ErrorObjectPlan)
    ensures
        summary ==> r.set_data && r.data_from_host == (has_data && data_is_object) && r.set_thrown == payload is Some
            && r.set_cause == (payload == Some(true)),
        !summary ==> r.set_data == has_data && r.data_from_host == has_data && !r.set_thrown && !r.set_cause,
{
    if summary {
        let set_cause = match payload {
            Some(is_error) => is_error,
            None => false,
        };
        ErrorObjectPlan { set_data: true, data_from_host: has_data && data_is_object, set_thrown: payload.is_some(),
            set_cause }
    } else {
        ErrorObjectPlan { set_data: has_data, data_from_host: has_data, set_thrown: false, set_cause: false }
    }
}

/// The `Error` object of a host error: its name, message and code, and the
/// properties of its [`error_object_plan`]. A summary of a thrown payload also
/// carries the payload under `data.thrown`, and as `cause` when the payload is
/// an `Error`; the payload stays stored.
pub fn host_error_object<V: JSObjectOps + JSArrayOps>(host: &HostError, ctx: &JSContext<V::Context>) -> (r: V)
    where V::Context: JSErrorFactory,
    ensures
        ctx.spec_engine().spec_error_fields(r) == Some(host_error_fields(*host)),
{
    let c = ctx.as_ref();
    let raw = c.new_error(host.name, host.message.as_str(), Some(host.code));
    let summary = str_eq(host.code, E_JS_THROWN);
    let data_value: Option<V> = match &host.data {
        Some(d) => Some(error_data_to_js_value::<V>(ctx, d)),
        None => None,
    };
    let data_is_object = match &data_value {
        Some(v) => v.is_object(),
        None => false,
    };
    let payload: Option<V> = if summary {
        match host.thrown {
            Some(handle) => ctx.resolve_thrown(handle),
            None => None,
        }
    } else {
        None
    };
    let payload_kind = match &payload {
        Some(t) => Some(t.is_error()),
        None => None,
    };
    let plan = error_object_plan(summary, data_value.is_some(), data_is_object, payload_kind);
    if plan.set_data {
        let data_obj = if plan.data_from_host {
            match data_value {
                Some(v) => v,
                None => V::new_object(c),
            }
        } else {
            V::new_object(c)
        };
        if plan.set_thrown {
            match &payload {
                Some(t) => {
                    let _ = data_obj.set_property(V::from_str(c, "thrown"), t.clone());
                },
                None => {},
            }
        }
        if plan.set_cause {
            match payload {
                Some(t) => {
                    let _ = raw.set_property(V::from_str(c, "cause"), t);
                },
                None => {},
            }
        }
        let _ = raw.set_property(V::from_str(c, "data"), data_obj);
    }
    raw
}

impl RongJSError {
    /// Sends the error into JavaScript's exception channel. A thrown payload
    /// is thrown again and leaves the store; one no longer stored becomes an
    /// internal `Error`. A host error is thrown as its `Error` object, and the
    /// payload a summary kept leaves the store.
    pub fn throw_js_exception<V: JSObjectOps + JSArrayOps>(self, ctx: &JSContext<V::Context>) -> (r: V)
        where V::Context: JSErrorFactory + JSExceptionThrower,
        ensures
            self.host() matches Some(h) ==> exists|o: V| ctx.spec_engine().spec_error_fields(o) == Some(
                host_error_fields(h)) && r == #[trigger] ctx.spec_engine().spec_throw(o),
            self.thrown_handle() is Some ==> exists|v: V| r == #[trigger] ctx.spec_engine().spec_throw(v),
            r.spec_is_exception(),
            self.thrown_handle() is Some && self.thrown_handle()->0.spec_context_id() != ctx.spec_id() ==> exists|o: V|
                ctx.spec_engine().spec_error_fields(o) == Some(lost_payload_fields()) && r
                == #[trigger] ctx.spec_engine().spec_throw(o),
    {
        proof {
            self.lemma_kind_parts();
        }
        let c = ctx.as_ref();
        match self.0 {
            RongJSErrorKind::Thrown(handle) => match ctx.take_thrown(handle) {
                Some(value) => c.throw(value),
                None => {
                    let raw = c.new_error("Error", "Invalid thrown value handle", Some(E_INTERNAL));
                    c.throw(raw)
                },
            },
            RongJSErrorKind::Host(host) => {
                let obj = host_error_object::<V>(&host, ctx);
                if str_eq(host.code, E_JS_THROWN) {
                    match host.thrown {
                        Some(handle) => {
                            let _ = ctx.take_thrown(handle);
                        },
                        None => {},
                    }
                }
                c.throw(obj)
            },
        }
    }

    /// The value a `catch` or a promise rejection receives for the error,
    /// without entering the exception channel; the store is left as by
    /// [`RongJSError::throw_js_exception`].
    pub fn into_catch_value<V: JSObjectOps + JSArrayOps>(self, ctx: &JSContext<V::Context>) -> (r: JSValue<V>)
        where V::Context: JSErrorFactory,
        ensures
            r.spec_ctx() == *ctx,
            self.host() matches Some(h) ==> ctx.spec_engine().spec_error_fields(r.raw()) == Some(
                host_error_fields(h)),
            self.thrown_handle() is Some && self.thrown_handle()->0.spec_context_id() != ctx.spec_id()
                ==> ctx.spec_engine().spec_error_fields(r.raw()) == Some(lost_payload_fields()),
    {
        proof {
            self.lemma_kind_parts();
        }
        let c = ctx.as_ref();
        match self.0 {
            RongJSErrorKind::Thrown(handle) => match ctx.take_thrown(handle) {
                Some(value) => JSValue::from_raw(ctx, value),
                None => {
                    let raw = c.new_error("Error", "Invalid thrown value handle", Some(E_INTERNAL));
                    JSValue::from_raw(ctx, raw)
                },
            },
            RongJSErrorKind::Host(host) => {
                let obj = host_error_object::<V>(&host, ctx);
                if str_eq(host.code, E_JS_THROWN) {
                    match host.thrown {
                        Some(handle) => {
                            let _ = ctx.take_thrown(handle);
                        },
                        None => {},
                    }
                }
                JSValue::from_raw(ctx, obj)
            },
        }
    }
}

} // verus!
