//! The type tags of JavaScript values.

use vstd::prelude::*;

verus! {

#[derive(Clone, Copy, Debug, PartialEq, Eq, Structural)]
pub enum JSValueType {
    Undefined,
    Null,
    Error,
    Exception,
    Boolean,
    Number,
    BigInt,
    String,
    Object,
    Array,
    ArrayBuffer,
    Function,
    Constructor,
    Promise,
    Symbol,
    Date,
    Unknown,
}

/// The tag of a value from its type predicates. The more specific kinds are
/// tested first; `Object` comes last since functions, arrays and the like are
/// objects too.
pub open spec fn type_of_spec(
    exception: bool,
    error: bool,
    promise: bool,
    array: bool,
    array_buffer: bool,
    function: bool,
    constructor: bool,
    undefined: bool,
    null: bool,
    boolean: bool,
    number: bool,
    bigint: bool,
    string: bool,
    date: bool,
    symbol: bool,
    object: bool,
) -> JSValueType {
    if exception { JSValueType::Exception }
    else if error { JSValueType::Error }
    else if promise { JSValueType::Promise }
    else if array { JSValueType::Array }
    else if array_buffer { JSValueType::ArrayBuffer }
    else if function { JSValueType::Function }
    else if constructor { JSValueType::Constructor }
    else if undefined { JSValueType::Undefined }
    else if null { JSValueType::Null }
    else if boolean { JSValueType::Boolean }
    else if number { JSValueType::Number }
    else if bigint { JSValueType::BigInt }
    else if string { JSValueType::String }
    else if date { JSValueType::Date }
    else if symbol { JSValueType::Symbol }
    else if object { JSValueType::Object }
    else { JSValueType::Unknown }
}

/// Computes [`type_of_spec`].
pub fn type_tag(
    exception: bool,
    error: bool,
    promise: bool,
    array: bool,
    array_buffer: bool,
    function: bool,
    constructor: bool,
    undefined: bool,
    null: bool,
    boolean: bool,
    number: bool,
    bigint: bool,
    string: bool,
    date: bool,
    symbol: bool,
    object: bool,
) -> (r: JSValueType)
    ensures
        r == type_of_spec(exception, error, promise, array, array_buffer, function, constructor, undefined,
            null, boolean, number, bigint, string, date, symbol, object),
{
    if exception { JSValueType::Exception }
    else if error { JSValueType::Error }
    else if promise { JSValueType::Promise }
    else if array { JSValueType::Array }
    else if array_buffer { JSValueType::ArrayBuffer }
    else if function { JSValueType::Function }
    else if constructor { JSValueType::Constructor }
    else if undefined { JSValueType::Undefined }
    else if null { JSValueType::Null }
    else if boolean { JSValueType::Boolean }
    else if number { JSValueType::Number }
    else if bigint { JSValueType::BigInt }
    else if string { JSValueType::String }
    else if date { JSValueType::Date }
    else if symbol { JSValueType::Symbol }
    else if object { JSValueType::Object }
    else { JSValueType::Unknown }
}

/// The tag of a value is given by the first of its predicates in the order
/// exception, error, promise, array, array buffer, function, constructor,
/// undefined, null, boolean, number, bigint, string, date, symbol, object;
/// a value with none of them is unknown.
pub proof fn law_tag_follows_first_predicate(
    exception: bool,
    error: bool,
    promise: bool,
    array: bool,
    array_buffer: bool,
    function: bool,
    constructor: bool,
    undefined: bool,
    null: bool,
    boolean: bool,
    number: bool,
    bigint: bool,
    string: bool,
    date: bool,
    symbol: bool,
    object: bool,
    r: JSValueType,
)
    requires
        call_ensures(type_tag, (exception, error, promise, array, array_buffer, function, constructor, undefined,
            null, boolean, number, bigint, string, date, symbol, object), r),
    ensures
        exception ==> r == JSValueType::Exception,
        !exception && error ==> r == JSValueType::Error,
        !exception && !error && promise ==> r == JSValueType::Promise,
        !exception && !error && !promise && array ==> r == JSValueType::Array,
        !exception && !error && !promise && !array && array_buffer ==> r == JSValueType::ArrayBuffer,
        !exception && !error && !promise && !array && !array_buffer && function ==> r == JSValueType::Function,
        !exception && !error && !promise && !array && !array_buffer && !function && constructor
            ==> r == JSValueType::Constructor,
        !exception && !error && !promise && !array && !array_buffer && !function && !constructor && undefined
            ==> r == JSValueType::Undefined,
        !exception && !error && !promise && !array && !array_buffer && !function && !constructor && !undefined
            && null ==> r == JSValueType::Null,
        !exception && !error && !promise && !array && !array_buffer && !function && !constructor && !undefined
            && !null && boolean ==> r == JSValueType::Boolean,
        !exception && !error && !promise && !array && !array_buffer && !function && !constructor && !undefined
            && !null && !boolean && number ==> r == JSValueType::Number,
        !exception && !error && !promise && !array && !array_buffer && !function && !constructor && !undefined
            && !null && !boolean && !number && bigint ==> r == JSValueType::BigInt,
        !exception && !error && !promise && !array && !array_buffer && !function && !constructor && !undefined
            && !null && !boolean && !number && !bigint && string ==> r == JSValueType::String,
        !exception && !error && !promise && !array && !array_buffer && !function && !constructor && !undefined
            && !null && !boolean && !number && !bigint && !string && date ==> r == JSValueType::Date,
        !exception && !error && !promise && !array && !array_buffer && !function && !constructor && !undefined
            && !null && !boolean && !number && !bigint && !string && !date && symbol ==> r == JSValueType::Symbol,
        !exception && !error && !promise && !array && !array_buffer && !function && !constructor && !undefined
            && !null && !boolean && !number && !bigint && !string && !date && !symbol && object
            ==> r == JSValueType::Object,
        !exception && !error && !promise && !array && !array_buffer && !function && !constructor && !undefined
            && !null && !boolean && !number && !bigint && !string && !date && !symbol && !object
            ==> r == JSValueType::Unknown,
{
}

/// An object of one specific kind is tagged by that kind, not as a plain
/// object: a value whose only predicates are `object` and one of date, array,
/// array buffer, function, constructor, promise or error gets that kind's tag.
pub proof fn law_object_kind_tagged(kind: JSValueType, r: JSValueType)
    requires
        call_ensures(type_tag, (false, kind == JSValueType::Error, kind == JSValueType::Promise,
            kind == JSValueType::Array, kind == JSValueType::ArrayBuffer, kind == JSValueType::Function,
            kind == JSValueType::Constructor, false, false, false, false, false, false, kind == JSValueType::Date,
            false, true), r),
        kind == JSValueType::Error || kind == JSValueType::Promise || kind == JSValueType::Array
            || kind == JSValueType::ArrayBuffer || kind == JSValueType::Function
            || kind == JSValueType::Constructor || kind == JSValueType::Date,
    ensures
        r == kind,
{
}

/// The display name of each tag.
pub open spec fn type_name_spec(t: JSValueType) -> Seq<char> {
    match t {
        JSValueType::Undefined => "undefined"@,
        JSValueType::Null => "null"@,
        JSValueType::Error => "error"@,
        JSValueType::Exception => "exception"@,
        JSValueType::Boolean => "boolean"@,
        JSValueType::Number => "number"@,
        JSValueType::BigInt => "bigint"@,
        JSValueType::String => "string"@,
        JSValueType::Object => "object"@,
        JSValueType::Array => "array"@,
        JSValueType::ArrayBuffer => "arrayBuffer"@,
        JSValueType::Function => "function"@,
        JSValueType::Constructor => "constructor"@,
        JSValueType::Promise => "promise"@,
        JSValueType::Symbol => "symbol"@,
        JSValueType::Date => "Date"@,
        JSValueType::Unknown => "unknown"@,
    }
}

impl JSValueType {
    /// The text the tag displays as.
    pub fn name(&self) -> (r: &'static str)
        ensures
            r@ == type_name_spec(*self),
    {
        match self {
            JSValueType::Undefined => "undefined",
            JSValueType::Null => "null",
            JSValueType::Error => "error",
            JSValueType::Exception => "exception",
            JSValueType::Boolean => "boolean",
            JSValueType::Number => "number",
            JSValueType::BigInt => "bigint",
            JSValueType::String => "string",
            JSValueType::Object => "object",
            JSValueType::Array => "array",
            JSValueType::ArrayBuffer => "arrayBuffer",
            JSValueType::Function => "function",
            JSValueType::Constructor => "constructor",
            JSValueType::Promise => "promise",
            JSValueType::Symbol => "symbol",
            JSValueType::Date => "Date",
            JSValueType::Unknown => "unknown",
        }
    }
}

} // verus!
