//! Error codes, structured error data and the error type crossing the Rust/JS boundary.

use vstd::prelude::*;
use vstd::string::*;
use crate::text::{concat3, decimal, decimal_string, str_eq};
use crate::thrown_store::ThrownValueHandle;

verus! {

pub const E_ABORT: &'static str = "E_ABORT";
pub const E_ALREADY_EXISTS: &'static str = "E_ALREADY_EXISTS";
pub const E_COMPILE: &'static str = "E_COMPILE";
pub const E_ERROR: &'static str = "E_ERROR";
pub const E_ILLEGAL_CONSTRUCTOR: &'static str = "E_ILLEGAL_CONSTRUCTOR";
pub const E_INTERNAL: &'static str = "E_INTERNAL";
pub const E_INVALID_ARG: &'static str = "E_INVALID_ARG";
pub const E_INVALID_DATA: &'static str = "E_INVALID_DATA";
pub const E_INVALID_STATE: &'static str = "E_INVALID_STATE";
pub const E_IO: &'static str = "E_IO";
pub const E_JS_THROWN: &'static str = "E_JS_THROWN";
pub const E_MISSING_PROPERTY: &'static str = "E_MISSING_PROPERTY";
pub const E_NETWORK: &'static str = "E_NETWORK";
pub const E_NOT_ARRAY: &'static str = "E_NOT_ARRAY";
pub const E_NOT_ARRAY_BUFFER: &'static str = "E_NOT_ARRAY_BUFFER";
pub const E_NOT_EXCEPTION: &'static str = "E_NOT_EXCEPTION";
pub const E_NOT_FOUND: &'static str = "E_NOT_FOUND";
pub const E_NOT_FUNCTION: &'static str = "E_NOT_FUNCTION";
pub const E_NOT_SUPPORTED: &'static str = "E_NOT_SUPPORTED";
pub const E_NOT_TYPED_ARRAY: &'static str = "E_NOT_TYPED_ARRAY";
pub const E_OUT_OF_RANGE: &'static str = "E_OUT_OF_RANGE";
pub const E_PERMISSION_DENIED: &'static str = "E_PERMISSION_DENIED";
pub const E_STREAM: &'static str = "E_STREAM";
pub const E_TIMEOUT: &'static str = "E_TIMEOUT";
pub const E_TYPE: &'static str = "E_TYPE";

pub type JSResult<T> = Result<T, RongJSError>;

/// A number inside error data: signed, unsigned, or the bit pattern of a float.
#[derive(Debug, Clone, Copy, PartialEq, Eq, Structural)]
pub enum ErrorNumber {
    I64(i64),
    U64(u64),
    F64(u64),
}

/// Whether text `a` comes before text `b`, comparing characters in order.
pub open spec fn text_before(a: Seq<char>, b: Seq<char>) -> bool
    decreases a.len(),
{
    if b.len() == 0 {
        false
    } else if a.len() == 0 {
        true
    } else if a[0] != b[0] {
        (a[0] as u32) < (b[0] as u32)
    } else {
        text_before(a.drop_first(), b.drop_first())
    }
}

/// Whether the keys of object entries are distinct and ascending.
pub open spec fn keys_ascending(entries: Seq<ErrorField>) -> bool {
    forall|i: int, j: int| 0 <= i < j < entries.len() ==> text_before(#[trigger] entries[i].key@,
        #[trigger] entries[j].key@)
}

/// `expected` comes before `got`.
pub proof fn lemma_expected_before_got()
    ensures
        text_before("expected"@, "got"@),
{
    reveal_strlit("expected");
    reveal_strlit("got");
}

/// `is_error` comes before `thrown`.
pub proof fn lemma_is_error_before_thrown()
    ensures
        text_before("is_error"@, "thrown"@),
{
    reveal_strlit("is_error");
    reveal_strlit("thrown");
}

/// JSON-like structured data attached to an error. An object holds its entries
/// with distinct keys, in ascending key order ([`keys_ascending`]) when built
/// by this crate.
#[derive(Debug, PartialEq, Eq)]
pub enum ErrorData {
    Null,
    Bool(bool),
    Number(ErrorNumber),
    String(String),
    Array(Vec<ErrorData>),
    Object(Vec<ErrorField>),
}

/// One entry of an object in error data.
#[derive(Debug, PartialEq, Eq)]
pub struct ErrorField {
    pub key: String,
    pub value: ErrorData,
}

/// The first entry of an object's entries with the given key.
pub open spec fn entries_lookup(entries: Seq<ErrorField>, key: Seq<char>) -> Option<ErrorData>
    decreases entries.len(),
{
    if entries.len() == 0 {
        None
    } else if entries[0].key@ == key {
        Some(entries[0].value)
    } else {
        entries_lookup(entries.drop_first(), key)
    }
}

/// The data is an object with exactly one entry, whose value is the given string.
pub open spec fn is_single_string_entry(data: Option<ErrorData>, key: Seq<char>, value: Seq<char>) -> bool {
    match data {
        Some(ErrorData::Object(entries)) => entries@.len() == 1 && entries@[0].key@ == key && match entries@[0].value {
            ErrorData::String(s) => s@ == value,
            _ => false,
        },
        _ => false,
    }
}

/// The data is an object whose entry under `key` is the given string.
pub open spec fn field_is_string(data: Option<ErrorData>, key: Seq<char>, value: Seq<char>) -> bool {
    match data {
        Some(ErrorData::Object(entries)) => match entries_lookup(entries@, key) {
            Some(ErrorData::String(s)) => s@ == value,
            _ => false,
        },
        _ => false,
    }
}

/// Whether `b` holds the same data as `a`: the same scalars and texts, and
/// arrays and objects of the same length whose keys and items agree in order.
pub open spec fn same_data(a: ErrorData, b: ErrorData) -> bool
    decreases a,
{
    match a {
        ErrorData::Array(xs) => b matches ErrorData::Array(ys) && ys@.len() == xs@.len()
            && forall|i: int| 0 <= i < xs@.len() ==> same_data(#[trigger] xs[i], ys@[i]),
        ErrorData::Object(es) => b matches ErrorData::Object(fs) && fs@.len() == es@.len()
            && forall|i: int| 0 <= i < es@.len() ==> (#[trigger] es[i]).key@ == fs@[i].key@
                && same_data(es[i].value, fs@[i].value),
        ErrorData::String(t) => b matches ErrorData::String(u) && u@ == t@,
        _ => b == a,
    }
}

impl ErrorData {
    #[verifier::loop_isolation(false)]
    fn duplicate(&self) -> (r: ErrorData)
        ensures
            self matches ErrorData::Array(items) ==> (r matches ErrorData::Array(o) && o@.len() == items@.len()),
            self matches ErrorData::Object(entries) ==> (r matches ErrorData::Object(o) && o@.len()
                == entries@.len() && forall|j: int| 0 <= j < o@.len() ==> (#[trigger] o@[j]).key@ == entries@[j].key@),
            !(self is Array || self is Object) ==> r == *self,
            same_data(*self, r),
        decreases self,
    {
        match self {
            ErrorData::Null => ErrorData::Null,
            ErrorData::Bool(b) => ErrorData::Bool(*b),
            ErrorData::Number(n) => ErrorData::Number(*n),
            ErrorData::String(s) => ErrorData::String(s.clone()),
            ErrorData::Array(items) => {
                let mut out: Vec<ErrorData> = Vec::new();
                let mut i: usize = 0;
                while i < items.len()
                    invariant
                        i <= items@.len(),
                        out@.len() == i,
                        forall|j: int| 0 <= j < i ==> same_data(#[trigger] items[j], out@[j]),
                    decreases items@.len() - i,
                {
                    proof {
                        vstd::std_specs::vec::axiom_vec_index_decreases(*items, i as int);
                        assert(decreases_to!(*self => *items));
                        assert(decreases_to!(*items => items[i as int]));
                    }
                    out.push(items[i].duplicate());
                    i = i + 1;
                }
                ErrorData::Array(out)
            }
            ErrorData::Object(entries) => {
                let mut out: Vec<ErrorField> = Vec::new();
                let mut i: usize = 0;
                while i < entries.len()
                    invariant
                        i <= entries@.len(),
                        out@.len() == i,
                        forall|j: int| 0 <= j < i ==> (#[trigger] out@[j]).key@ == entries@[j].key@,
                        forall|j: int| 0 <= j < i ==> same_data((#[trigger] entries[j]).value, out@[j].value),
                    decreases entries@.len() - i,
                {
                    proof {
                        vstd::std_specs::vec::axiom_vec_index_decreases(*entries, i as int);
                        assert(decreases_to!(*self => *entries));
                        assert(decreases_to!(*entries => entries[i as int]));
                        assert(decreases_to!(entries[i as int] => entries[i as int].value));
                    }
                    let value = entries[i].value.duplicate();
                    out.push(ErrorField { key: entries[i].key.clone(), value });
                    i = i + 1;
                }
                ErrorData::Object(out)
            }
        }
    }

    /// The string payload, if this is a string.
    pub fn as_str(&self) -> (r: Option<&str>)
        ensures
            match self {
                ErrorData::String(s) => r matches Some(t) && t@ == s@,
                _ => r is None,
            },
    {
        match self {
            ErrorData::String(s) => Some(s.as_str()),
            _ => None,
        }
    }

    /// The value stored under `key`, if this is an object that has one.
    #[verifier::loop_isolation(false)]
    pub fn field(&self, key: &str) -> (r: Option<&ErrorData>)
        ensures
            match self {
                ErrorData::Object(entries) => match r {
                    Some(d) => entries_lookup(entries@, key@) == Some(*d),
                    None => entries_lookup(entries@, key@) is None,
                },
                _ => r is None,
            },
    {
        match self {
            ErrorData::Object(entries) => {
                assert(entries@.skip(0) =~= entries@);
                let mut i: usize = 0;
                while i < entries.len()
                    invariant
                        i <= entries@.len(),
                        entries_lookup(entries@, key@) == entries_lookup(entries@.skip(i as int), key@),
                    decreases entries@.len() - i,
                {
                    assert(entries@.skip(i as int).drop_first() =~= entries@.skip(i + 1));
                    assert(entries@.skip(i as int)[0] == entries@[i as int]);
                    if str_eq(entries[i].key.as_str(), key) {
                        return Some(&entries[i].value);
                    }
                    i = i + 1;
                }
                assert(entries@.skip(i as int).len() == 0);
                None
            }
            _ => None,
        }
    }

    /// An object with a single entry.
    pub fn single_entry(key: &str, value: ErrorData) -> (r: ErrorData)
        ensures
            r matches ErrorData::Object(entries) && entries@.len() == 1
                && entries@[0].key@ == key@ && entries@[0].value == value,
            r matches ErrorData::Object(entries) && keys_ascending(entries@),
    {
        let mut entries = Vec::new();
        entries.push(ErrorField { key: String::from_str(key), value });
        ErrorData::Object(entries)
    }
}

impl Clone for ErrorData {
    fn clone(&self) -> (r: Self)
        ensures
            same_data(*self, r),
    {
        self.duplicate()
    }
}

impl Clone for ErrorField {
    fn clone(&self) -> (r: Self)
        ensures
            r.key@ == self.key@,
            same_data(self.value, r.value),
    {
        ErrorField { key: self.key.clone(), value: self.value.duplicate() }
    }
}

impl From<bool> for ErrorData {
    fn from(v: bool) -> (r: Self)
        ensures
            r == ErrorData::Bool(v),
    {
        ErrorData::Bool(v)
    }
}

impl vstd::std_specs::convert::FromSpecImpl<bool> for ErrorData {
    open spec fn obeys_from_spec() -> bool {
        true
    }

    open spec fn from_spec(v: bool) -> Self {
        ErrorData::Bool(v)
    }
}

impl From<i64> for ErrorData {
    fn from(v: i64) -> (r: Self)
        ensures
            r == ErrorData::Number(ErrorNumber::I64(v)),
    {
        ErrorData::Number(ErrorNumber::I64(v))
    }
}

impl vstd::std_specs::convert::FromSpecImpl<i64> for ErrorData {
    open spec fn obeys_from_spec() -> bool {
        true
    }

    open spec fn from_spec(v: i64) -> Self {
        ErrorData::Number(ErrorNumber::I64(v))
    }
}

impl From<u64> for ErrorData {
    fn from(v: u64) -> (r: Self)
        ensures
            r == ErrorData::Number(ErrorNumber::U64(v)),
    {
        ErrorData::Number(ErrorNumber::U64(v))
    }
}

impl vstd::std_specs::convert::FromSpecImpl<u64> for ErrorData {
    open spec fn obeys_from_spec() -> bool {
        true
    }

    open spec fn from_spec(v: u64) -> Self {
        ErrorData::Number(ErrorNumber::U64(v))
    }
}

impl From<String> for ErrorData {
    fn from(v: String) -> (r: Self)
        ensures
            r == ErrorData::String(v),
    {
        ErrorData::String(v)
    }
}

impl vstd::std_specs::convert::FromSpecImpl<String> for ErrorData {
    open spec fn obeys_from_spec() -> bool {
        true
    }

    open spec fn from_spec(v: String) -> Self {
        ErrorData::String(v)
    }
}

/// A failure that originates on the host side and is surfaced to JS as an `Error` object.
#[derive(Debug, Clone, PartialEq, Eq)]
pub struct HostError {
    pub name: &'static str,
    pub code: &'static str,
    pub message: String,
    pub data: Option<ErrorData>,
    /// The thrown payload this error was made from, when it came from JavaScript.
    pub thrown: Option<ThrownValueHandle>,
}

/// A failure to compile to bytecode: the compile error, or the error of an
/// engine that has no bytecode.
pub open spec fn is_bytecode_failure(e: RongJSError) -> bool {
    ||| is_plain_error(e, "Error"@, E_COMPILE@, "Failed to compile JS code to bytecode"@)
    ||| (e.host() matches Some(h) && h.name@ == "Error"@ && h.code@ == E_NOT_SUPPORTED@
        && h.message@ == "Does not support bytecode"@ && h.spec_thrown() is None
        && is_single_string_entry(h.data, "feature"@, "bytecode"@))
}

/// A host error with the given parts and no data or thrown payload.
pub open spec fn is_plain_host_error(h: HostError, name: Seq<char>, code: Seq<char>, message: Seq<char>) -> bool {
    &&& h.name@ == name
    &&& h.code@ == code
    &&& h.message@ == message
    &&& h.data is None
    &&& h.spec_thrown() is None
}

/// The error for a call with `got` arguments where `expected` are required.
pub open spec fn is_invalid_arg_count(r: HostError, expected: u32, got: u32) -> bool {
    &&& r.name@ == "TypeError"@
    &&& r.code@ == E_INVALID_ARG@
    &&& r.message@ == decimal(expected as nat) + " arguments required, but "@ + decimal(got as nat) + " found"@
    &&& r.data matches Some(ErrorData::Object(entries)) && entries@.len() == 2
        && entries@[0].key@ == "expected"@ && entries@[0].value == ErrorData::Number(ErrorNumber::U64(expected as u64))
        && entries@[1].key@ == "got"@ && entries@[1].value == ErrorData::Number(ErrorNumber::U64(got as u64))
    &&& r.spec_thrown() is None
}

impl HostError {
    /// The thrown payload this error refers to, if any.
    pub open spec fn spec_thrown(&self) -> Option<ThrownValueHandle> {
        self.thrown
    }

    pub fn new(code: &'static str, message: &str) -> (r: Self)
        ensures
            is_plain_host_error(r, "Error"@, code@, message@),
    {
        HostError { name: "Error", code, message: String::from_str(message), data: None, thrown: None }
    }

    /// The text the error displays as: its code, a colon and a space, and
    /// its message.
    pub fn display_text(&self) -> (r: String)
        ensures
            r@ == self.code@ + ": "@ + self.message@,
    {
        let mut s = String::from_str(self.code);
        s.append(": ");
        s.append(self.message.as_str());
        s
    }

    pub(crate) fn with_thrown(code: &'static str, message: String, data: ErrorData, handle: ThrownValueHandle) -> (r: Self)
        ensures
            r.name@ == "Error"@,
            r.code == code,
            r.message == message,
            r.data == Some(data),
            r.spec_thrown() == Some(handle),
    {
        HostError { name: "Error", code, message, data: Some(data), thrown: Some(handle) }
    }

    /// A `TypeError` for a call with too few arguments.
    pub fn invalid_arg_count(expected: u32, got: u32) -> (r: Self)
        ensures
            is_invalid_arg_count(r, expected, got),
            r.data matches Some(ErrorData::Object(entries)) && keys_ascending(entries@),
    {
        proof {
            lemma_expected_before_got();
        }
        let e = decimal_string(expected as u64);
        let g = decimal_string(got as u64);
        let mut message = concat3(e.as_str(), " arguments required, but ", g.as_str());
        message.append(" found");
        let mut entries = Vec::new();
        entries.push(ErrorField { key: String::from_str("expected"), value: ErrorData::Number(ErrorNumber::U64(expected as u64)) });
        entries.push(ErrorField { key: String::from_str("got"), value: ErrorData::Number(ErrorNumber::U64(got as u64)) });
        HostError { name: "TypeError", code: E_INVALID_ARG, message, data: Some(ErrorData::Object(entries)), thrown: None }
    }

    pub fn with_name(self, name: &'static str) -> (r: Self)
        ensures
            r.name == name,
            r.code == self.code,
            r.message == self.message,
            r.data == self.data,
            r.spec_thrown() == self.spec_thrown(),
    {
        let mut s = self;
        s.name = name;
        s
    }

    pub fn with_data(self, data: ErrorData) -> (r: Self)
        ensures
            r.name == self.name,
            r.code == self.code,
            r.message == self.message,
            r.data == Some(data),
            r.spec_thrown() == self.spec_thrown(),
    {
        let mut s = self;
        s.data = Some(data);
        s
    }

    /// An `AbortError`, carrying the reason when one is given.
    pub fn aborted(reason: Option<String>) -> (r: Self)
        ensures
            r.name@ == "AbortError"@,
            r.code@ == E_ABORT@,
            r.message@ == "Operation aborted"@,
            r.spec_thrown() is None,
            match reason {
                None => r.data is None,
                Some(s) => r.data matches Some(ErrorData::Object(entries)) && entries@.len() == 1
                    && entries@[0].key@ == "reason"@ && entries@[0].value == ErrorData::String(s),
            },
    {
        let err = HostError::new(E_ABORT, "Operation aborted").with_name("AbortError");
        match reason {
            Some(reason) => err.with_data(ErrorData::single_entry("reason", ErrorData::String(reason))),
            None => err,
        }
    }
}

/// Which of the two kinds an error is.
#[derive(Debug, Clone, PartialEq, Eq)]
pub(crate) enum RongJSErrorKind {
    /// Host-originated failure that must be surfaced to JS as an `Error` object.
    Host(HostError),
    /// Thrown/rejected JS payload (any JS value, including primitives).
    Thrown(ThrownValueHandle),
}

/// The error type of every fallible operation of the library.
#[derive(Debug, Clone, PartialEq, Eq)]
pub struct RongJSError(pub(crate) RongJSErrorKind);

impl From<HostError> for RongJSError {
    fn from(err: HostError) -> (r: Self)
        ensures
            r.host() == Some(err),
    {
        RongJSError(RongJSErrorKind::Host(err))
    }
}

impl vstd::std_specs::convert::FromSpecImpl<HostError> for RongJSError {
    open spec fn obeys_from_spec() -> bool {
        true
    }

    closed spec fn from_spec(err: HostError) -> Self {
        RongJSError(RongJSErrorKind::Host(err))
    }
}

/// The error is a host error with the given parts and no data.
pub open spec fn is_plain_error(e: RongJSError, name: Seq<char>, code: Seq<char>, message: Seq<char>) -> bool {
    e.host() matches Some(h) && is_plain_host_error(h, name, code, message)
}

/// The result is an error that is a host error with the given parts and no data.
pub open spec fn err_is<T>(r: JSResult<T>, name: Seq<char>, code: Seq<char>, message: Seq<char>) -> bool {
    match r {
        Err(e) => is_plain_error(e, name, code, message),
        Ok(_) => false,
    }
}

#[allow(non_snake_case)]
impl RongJSError {
    /// The host error, when this is one.
    pub closed spec fn host(&self) -> Option<HostError> {
        match self.0 {
            RongJSErrorKind::Host(h) => Some(h),
            RongJSErrorKind::Thrown(_) => None,
        }
    }

    /// The handle of the thrown payload, when this is a thrown value.
    pub closed spec fn thrown_handle(&self) -> Option<ThrownValueHandle> {
        match self.0 {
            RongJSErrorKind::Host(_) => None,
            RongJSErrorKind::Thrown(h) => Some(h),
        }
    }

    pub proof fn lemma_kinds(&self)
        ensures
            self.host() is Some <==> self.thrown_handle() is None,
    {
    }

    /// How the two kinds show in the spec functions.
    pub(crate) proof fn lemma_kind_parts(&self)
        ensures
            self.0 matches RongJSErrorKind::Host(h) ==> self.host() == Some(h) && self.thrown_handle() is None,
            self.0 matches RongJSErrorKind::Thrown(h) ==> self.thrown_handle() == Some(h) && self.host() is None,
    {
    }

    pub(crate) fn host_error(err: HostError) -> (r: Self)
        ensures
            r.host() == Some(err),
            r.thrown_handle() is None,
    {
        RongJSError(RongJSErrorKind::Host(err))
    }

    pub(crate) fn from_handle(handle: ThrownValueHandle) -> (r: Self)
        ensures
            r.thrown_handle() == Some(handle),
            r.host() is None,
    {
        RongJSError(RongJSErrorKind::Thrown(handle))
    }

    fn plain(name: &'static str, code: &'static str, message: &str) -> (r: Self)
        ensures
            is_plain_error(r, name@, code@, message@),
    {
        Self::host_error(HostError::new(code, message).with_name(name))
    }

    pub fn Borrow(ty: &'static str) -> (r: Self)
        ensures
            is_plain_error(r, "Error"@, E_INTERNAL@, "Failed to borrow for type "@ + ty@),
    {
        let mut message = String::from_str("Failed to borrow for type ");
        message.append(ty);
        Self::host_error(HostError::new(E_INTERNAL, message.as_str()))
    }

    pub fn InvalidParameter(expected: u32, got: u32) -> (r: Self)
        ensures
            r.host() matches Some(h) && is_invalid_arg_count(h, expected, got),
    {
        Self::host_error(HostError::invalid_arg_count(expected, got))
    }

    pub fn PropertyNotFound(name: String) -> (r: Self)
        ensures
            is_plain_error(r, "ReferenceError"@, E_MISSING_PROPERTY@, "Property '"@ + name@ + "' Not Found"@),
    {
        let message = concat3("Property '", name.as_str(), "' Not Found");
        Self::plain("ReferenceError", E_MISSING_PROPERTY, message.as_str())
    }

    pub fn NotObject() -> (r: Self)
        ensures
            is_plain_error(r, "TypeError"@, E_TYPE@, "Not JS Object"@),
    {
        Self::plain("TypeError", E_TYPE, "Not JS Object")
    }

    pub fn NotSymbol() -> (r: Self)
        ensures
            is_plain_error(r, "TypeError"@, E_TYPE@, "Not JS Symbol"@),
    {
        Self::plain("TypeError", E_TYPE, "Not JS Symbol")
    }

    pub fn NotJSFunc() -> (r: Self)
        ensures
            is_plain_error(r, "TypeError"@, E_NOT_FUNCTION@, "Not JS Function"@),
    {
        Self::plain("TypeError", E_NOT_FUNCTION, "Not JS Function")
    }

    pub fn NotJSArray() -> (r: Self)
        ensures
            is_plain_error(r, "TypeError"@, E_NOT_ARRAY@, "Not JS Array"@),
    {
        Self::plain("TypeError", E_NOT_ARRAY, "Not JS Array")
    }

    pub fn NotJSArrayBuffer() -> (r: Self)
        ensures
            is_plain_error(r, "TypeError"@, E_NOT_ARRAY_BUFFER@, "Not JS ArrayBuffer"@),
    {
        Self::plain("TypeError", E_NOT_ARRAY_BUFFER, "Not JS ArrayBuffer")
    }

    pub fn NotJSTypedArray() -> (r: Self)
        ensures
            is_plain_error(r, "TypeError"@, E_NOT_TYPED_ARRAY@, "Not JS TypedArray"@),
    {
        Self::plain("TypeError", E_NOT_TYPED_ARRAY, "Not JS TypedArray")
    }

    pub fn TypedArrayAlignmentError() -> (r: Self)
        ensures
            is_plain_error(r, "RangeError"@, E_OUT_OF_RANGE@,
                "Invalid TypedArray alignment: byte_offset must be a multiple of element size"@),
    {
        Self::plain("RangeError", E_OUT_OF_RANGE,
            "Invalid TypedArray alignment: byte_offset must be a multiple of element size")
    }

    pub fn TypedArrayRangeError() -> (r: Self)
        ensures
            is_plain_error(r, "RangeError"@, E_OUT_OF_RANGE@,
                "Invalid TypedArray range: offset or length exceeds buffer size"@),
    {
        Self::plain("RangeError", E_OUT_OF_RANGE,
            "Invalid TypedArray range: offset or length exceeds buffer size")
    }

    pub fn NotJSExcep() -> (r: Self)
        ensures
            is_plain_error(r, "TypeError"@, E_NOT_EXCEPTION@, "Not JS Exception Object"@),
    {
        Self::plain("TypeError", E_NOT_EXCEPTION, "Not JS Exception Object")
    }

    pub fn CompileToByteErr() -> (r: Self)
        ensures
            is_plain_error(r, "Error"@, E_COMPILE@, "Failed to compile JS code to bytecode"@),
    {
        Self::plain("Error", E_COMPILE, "Failed to compile JS code to bytecode")
    }

    pub fn NotSupportByteCode() -> (r: Self)
        ensures
            r.host() matches Some(h) && h.name@ == "Error"@ && h.code@ == E_NOT_SUPPORTED@
                && h.message@ == "Does not support bytecode"@ && h.spec_thrown() is None
                && is_single_string_entry(h.data, "feature"@, "bytecode"@),
    {
        let data = ErrorData::single_entry("feature", ErrorData::String(String::from_str("bytecode")));
        Self::host_error(HostError::new(E_NOT_SUPPORTED, "Does not support bytecode").with_data(data))
    }

    pub fn OnceFnCalled() -> (r: Self)
        ensures
            is_plain_error(r, "Error"@, E_INVALID_STATE@, "OnceFn had been called"@),
    {
        Self::plain("Error", E_INVALID_STATE, "OnceFn had been called")
    }

    pub fn as_host_error(&self) -> (r: Option<&HostError>)
        ensures
            match r {
                Some(h) => self.host() == Some(*h),
                None => self.host() is None,
            },
    {
        match &self.0 {
            RongJSErrorKind::Host(host) => Some(host),
            RongJSErrorKind::Thrown(_) => None,
        }
    }

    pub fn into_host_error(self) -> (r: Option<HostError>)
        ensures
            r == self.host(),
    {
        match self.0 {
            RongJSErrorKind::Host(host) => Some(host),
            RongJSErrorKind::Thrown(_) => None,
        }
    }

    pub(crate) fn thrown_handle_exec(&self) -> (r: Option<ThrownValueHandle>)
        ensures
            r == self.thrown_handle(),
    {
        match &self.0 {
            RongJSErrorKind::Thrown(h) => Some(*h),
            RongJSErrorKind::Host(_) => None,
        }
    }

    /// The text the error displays as: a host error's [`HostError::display_text`],
    /// or `JavaScript threw a value` for a thrown payload.
    pub fn display_text(&self) -> (r: String)
        ensures
            self.host() matches Some(h) ==> r@ == h.code@ + ": "@ + h.message@,
            self.thrown_handle() is Some ==> r@ == "JavaScript threw a value"@,
    {
        proof {
            self.lemma_kinds();
        }
        match &self.0 {
            RongJSErrorKind::Host(h) => h.display_text(),
            RongJSErrorKind::Thrown(_) => String::from_str("JavaScript threw a value"),
        }
    }

    pub fn is_thrown(&self) -> (r: bool)
        ensures
            r == self.thrown_handle() is Some,
    {
        match &self.0 {
            RongJSErrorKind::Thrown(_) => true,
            RongJSErrorKind::Host(_) => false,
        }
    }

    pub fn is_property_not_found(&self) -> (r: bool)
        ensures
            r == (self.host() matches Some(h) && h.code@ == E_MISSING_PROPERTY@),
    {
        match &self.0 {
            RongJSErrorKind::Host(host) => str_eq(host.code, E_MISSING_PROPERTY),
            RongJSErrorKind::Thrown(_) => false,
        }
    }

    pub fn is_not_support_bytecode(&self) -> (r: bool)
        ensures
            r == (self.host() matches Some(h) && h.code@ == E_NOT_SUPPORTED@
                && field_is_string(h.data, "feature"@, "bytecode"@)),
    {
        match &self.0 {
            RongJSErrorKind::Host(host) => {
                if !str_eq(host.code, E_NOT_SUPPORTED) {
                    return false;
                }
                match &host.data {
                    Some(data) => match data {
                        ErrorData::Object(_) => match data.field("feature") {
                            Some(value) => match value.as_str() {
                                Some(s) => str_eq(s, "bytecode"),
                                None => false,
                            },
                            None => false,
                        },
                        _ => false,
                    },
                    None => false,
                }
            }
            RongJSErrorKind::Thrown(_) => false,
        }
    }
}

/// An object of exactly one string entry holds that string under its key.
pub proof fn law_single_entry_lookup(data: Option<ErrorData>, key: Seq<char>, value: Seq<char>)
    requires
        is_single_string_entry(data, key, value),
    ensures
        field_is_string(data, key, value),
{
    match data {
        Some(ErrorData::Object(entries)) => {
            assert(entries_lookup(entries@, key) == Some(entries@[0].value));
        },
        _ => {},
    }
}

/// The error for a missing property is recognised as one, and is no thrown payload.
pub proof fn law_missing_property_is_recognised(e: RongJSError, message: Seq<char>)
    requires
        is_plain_error(e, "ReferenceError"@, E_MISSING_PROPERTY@, message),
    ensures
        e.host() matches Some(h) && h.code@ == E_MISSING_PROPERTY@,
        e.thrown_handle() is None,
{
    e.lemma_kinds();
}

/// The error for missing bytecode support is recognised as one.
pub proof fn law_no_bytecode_is_recognised(e: RongJSError)
    requires
        e.host() matches Some(h) && h.code@ == E_NOT_SUPPORTED@ && is_single_string_entry(h.data, "feature"@,
            "bytecode"@),
    ensures
        e.host() matches Some(h) && h.code@ == E_NOT_SUPPORTED@ && field_is_string(h.data, "feature"@, "bytecode"@),
{
    let h = e.host()->0;
    law_single_entry_lookup(h.data, "feature"@, "bytecode"@);
}

} // verus!
