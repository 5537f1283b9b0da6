use rong_core::parameter::{FromParams, Optional, Rest, This};
use rong_core::iterator::{iter_result_fields, iter_step, write_iter_result};
use rong_core::function::IntoJSArgs;
use rong_core::array::JSArray;
use rong_core::context::JSContext;
use rong_core::engine::{
    JSArrayOps, JSContextImpl, JSObjectOps, JSRuntimeImpl, JSTypeOf, JSValueConversion, JSValueImpl,
};
use rong_core::error::{ErrorData, ErrorField, ErrorNumber, HostError, JSResult, RongJSError, E_TYPE};
use rong_core::error_js::error_data_to_js_value;
use rong_core::object::JSObject;
use rong_core::property::PropertyAttributes;
use rong_core::runtime::JSRuntime;
use rong_core::source::Source;
use rong_core::value::JSValue;
use std::cell::RefCell;
use std::rc::Rc;

// A small in-memory engine: enough of objects, arrays and primitives to drive
// the engine-generic parts of the library.

#[derive(Clone, Debug, PartialEq)]
enum Kind {
    Undefined,
    Null,
    Bool(bool),
    Int(i128),
    Float(u64),
    Str(String),
    Object,
    Array,
    Exception,
}

struct Slot {
    kind: Kind,
    props: RefCell<Vec<(String, Mock)>>,
    elems: RefCell<Vec<Option<Mock>>>,
}

#[derive(Clone)]
struct Mock(Rc<Slot>);

impl Mock {
    fn of(kind: Kind) -> Mock {
        Mock(Rc::new(Slot { kind, props: RefCell::new(Vec::new()), elems: RefCell::new(Vec::new()) }))
    }

    fn kind(&self) -> &Kind {
        &self.0.kind
    }

    fn key_text(&self) -> String {
        match self.kind() {
            Kind::Str(s) => s.clone(),
            Kind::Int(n) => n.to_string(),
            _ => "?".to_string(),
        }
    }

    fn index_of(key: &str) -> Option<usize> {
        key.parse::<usize>().ok()
    }

    fn wrong_type() -> RongJSError {
        RongJSError::from(HostError::new(E_TYPE, "wrong type"))
    }

    fn lookup(&self, key: &str) -> Option<Mock> {
        if *self.kind() == Kind::Array {
            if key == "length" {
                return Some(Mock::of(Kind::Int(self.0.elems.borrow().len() as i128)));
            }
            if let Some(i) = Mock::index_of(key) {
                return self.0.elems.borrow().get(i).cloned().flatten();
            }
        }
        self.0.props.borrow().iter().find(|(k, _)| k == key).map(|(_, v)| v.clone())
    }

    fn store(&self, key: &str, value: Mock) {
        if *self.kind() == Kind::Array {
            if key == "length" {
                if let Kind::Int(n) = value.kind() {
                    self.0.elems.borrow_mut().resize(*n as usize, None);
                }
                return;
            }
            if let Some(i) = Mock::index_of(key) {
                let mut elems = self.0.elems.borrow_mut();
                if elems.len() <= i {
                    elems.resize(i + 1, None);
                }
                elems[i] = Some(value);
                return;
            }
        }
        let mut props = self.0.props.borrow_mut();
        match props.iter_mut().find(|(k, _)| k == key) {
            Some(entry) => entry.1 = value,
            None => props.push((key.to_string(), value)),
        }
    }
}

struct MockRuntime;

struct MockContext {
    id: usize,
    global: Mock,
}

impl JSRuntimeImpl for MockRuntime {
    type RawRuntime = ();
    type Context = MockContext;

    fn new() -> Self {
        MockRuntime
    }

    fn to_raw(&self) -> Self::RawRuntime {}

    fn run_pending_jobs(&self) -> i32 {
        -1
    }

    fn run_gc(&self) {}
}

impl JSContextImpl for MockContext {
    type RawContext = usize;
    type Runtime = MockRuntime;
    type Value = Mock;

    fn new(_runtime: &Self::Runtime) -> Self {
        MockContext { id: 1, global: Mock::of(Kind::Object) }
    }

    fn spec_raw(&self) -> usize {
        self.id
    }

    fn spec_context_id(ctx: usize) -> usize {
        ctx
    }

    fn as_raw(&self) -> &Self::RawContext {
        &self.id
    }

    fn context_id(ctx: &Self::RawContext) -> usize {
        *ctx
    }

    fn eval(&self, _source: Source) -> Mock {
        Mock::of(Kind::Exception)
    }

    fn global(&self) -> Mock {
        self.global.clone()
    }

    fn call(&self, _function: &Mock, _this: Mock, _argv: Vec<Mock>) -> Mock {
        Mock::of(Kind::Undefined)
    }

    fn promise(&self) -> (Mock, Mock, Mock) {
        (Mock::of(Kind::Object), Mock::of(Kind::Object), Mock::of(Kind::Object))
    }

    fn compile_to_bytecode(&self, _source: Source) -> Result<Vec<u8>, RongJSError> {
        Err(RongJSError::NotSupportByteCode())
    }

    fn run_bytecode(&self, _bytes: &[u8]) -> Mock {
        Mock::of(Kind::Exception)
    }
}

impl JSValueImpl for Mock {
    type Context = MockContext;

    fn spec_is_undefined(&self) -> bool {
        *self.kind() == Kind::Undefined
    }

    fn spec_is_null(&self) -> bool {
        *self.kind() == Kind::Null
    }

    fn lemma_clone_same(_a: Self, _b: Self) {}

    fn create_undefined(_ctx: &MockContext) -> Self {
        Mock::of(Kind::Undefined)
    }

    fn create_null(_ctx: &MockContext) -> Self {
        Mock::of(Kind::Null)
    }
}

impl JSTypeOf for Mock {
    fn spec_is_exception(&self) -> bool {
        self.is_exception()
    }
    fn spec_is_error(&self) -> bool {
        self.is_error()
    }
    fn spec_is_array(&self) -> bool {
        self.is_array()
    }
    fn spec_is_array_buffer(&self) -> bool {
        self.is_array_buffer()
    }
    fn spec_is_promise(&self) -> bool {
        self.is_promise()
    }
    fn spec_is_boolean(&self) -> bool {
        self.is_boolean()
    }
    fn spec_is_number(&self) -> bool {
        self.is_number()
    }
    fn spec_is_bigint(&self) -> bool {
        self.is_bigint()
    }
    fn spec_is_string(&self) -> bool {
        self.is_string()
    }
    fn spec_is_symbol(&self) -> bool {
        self.is_symbol()
    }
    fn spec_is_function(&self) -> bool {
        self.is_function()
    }
    fn spec_is_object(&self) -> bool {
        self.is_object()
    }
    fn spec_is_constructor(&self) -> bool {
        self.is_constructor()
    }
    fn spec_is_date(&self) -> bool {
        self.is_date()
    }
    fn spec_is_proxy(&self) -> bool {
        self.is_proxy()
    }
    fn is_exception(&self) -> bool {
        *self.kind() == Kind::Exception
    }
    fn is_error(&self) -> bool {
        false
    }
    fn is_array(&self) -> bool {
        *self.kind() == Kind::Array
    }
    fn is_array_buffer(&self) -> bool {
        false
    }
    fn is_promise(&self) -> bool {
        false
    }
    fn is_undefined(&self) -> bool {
        *self.kind() == Kind::Undefined
    }
    fn is_null(&self) -> bool {
        *self.kind() == Kind::Null
    }
    fn is_boolean(&self) -> bool {
        matches!(self.kind(), Kind::Bool(_))
    }
    fn is_number(&self) -> bool {
        matches!(self.kind(), Kind::Int(_) | Kind::Float(_))
    }
    fn is_bigint(&self) -> bool {
        false
    }
    fn is_string(&self) -> bool {
        matches!(self.kind(), Kind::Str(_))
    }
    fn is_symbol(&self) -> bool {
        false
    }
    fn is_function(&self) -> bool {
        false
    }
    fn is_object(&self) -> bool {
        matches!(self.kind(), Kind::Object | Kind::Array)
    }
    fn is_constructor(&self) -> bool {
        false
    }
    fn is_date(&self) -> bool {
        false
    }
    fn is_proxy(&self) -> bool {
        false
    }
}

impl JSValueConversion for Mock {
    fn spec_bool_value(&self) -> bool {
        matches!(self.kind(), Kind::Bool(true))
    }
    fn spec_int_value(&self) -> Option<i128> {
        match self.kind() {
            Kind::Int(n) => Some(*n),
            _ => None,
        }
    }
    fn spec_text(&self) -> String {
        match self.kind() {
            Kind::Str(t) => t.clone(),
            _ => String::new(),
        }
    }
    fn from_bool(_ctx: &MockContext, v: bool) -> Self {
        Mock::of(Kind::Bool(v))
    }
    fn from_i32(_ctx: &MockContext, v: i32) -> Self {
        Mock::of(Kind::Int(v as i128))
    }
    fn from_u32(_ctx: &MockContext, v: u32) -> Self {
        Mock::of(Kind::Int(v as i128))
    }
    fn from_i64(_ctx: &MockContext, v: i64) -> Self {
        Mock::of(Kind::Int(v as i128))
    }
    fn from_u64(_ctx: &MockContext, v: u64) -> Self {
        Mock::of(Kind::Int(v as i128))
    }
    fn from_f64_bits(_ctx: &MockContext, bits: u64) -> Self {
        Mock::of(Kind::Float(bits))
    }
    fn from_str(_ctx: &MockContext, v: &str) -> Self {
        Mock::of(Kind::Str(v.to_string()))
    }
    fn to_bool(&self) -> JSResult<bool> {
        match self.kind() {
            Kind::Bool(b) => Ok(*b),
            _ => Err(Mock::wrong_type()),
        }
    }
    fn to_i32(&self) -> JSResult<i32> {
        match self.kind() {
            Kind::Int(n) => i32::try_from(*n).map_err(|_| Mock::wrong_type()),
            _ => Err(Mock::wrong_type()),
        }
    }
    fn to_u32(&self) -> JSResult<u32> {
        match self.kind() {
            Kind::Int(n) => u32::try_from(*n).map_err(|_| Mock::wrong_type()),
            _ => Err(Mock::wrong_type()),
        }
    }
    fn to_i64(&self) -> JSResult<i64> {
        match self.kind() {
            Kind::Int(n) => i64::try_from(*n).map_err(|_| Mock::wrong_type()),
            _ => Err(Mock::wrong_type()),
        }
    }
    fn to_u64(&self) -> JSResult<u64> {
        match self.kind() {
            Kind::Int(n) => u64::try_from(*n).map_err(|_| Mock::wrong_type()),
            _ => Err(Mock::wrong_type()),
        }
    }
    fn to_string(&self) -> JSResult<String> {
        match self.kind() {
            Kind::Str(s) => Ok(s.clone()),
            _ => Err(Mock::wrong_type()),
        }
    }
}

impl JSObjectOps for Mock {
    fn new_object(_ctx: &MockContext) -> Self {
        Mock::of(Kind::Object)
    }

    fn instance_of(&self, _constructor: Self) -> bool {
        false
    }

    fn del_property(&self, key: Self) -> Result<bool, Self> {
        let name = key.key_text();
        if *self.kind() == Kind::Array {
            if let Some(i) = Mock::index_of(&name) {
                let mut elems = self.0.elems.borrow_mut();
                if i < elems.len() && elems[i].is_some() {
                    elems[i] = None;
                    return Ok(true);
                }
                return Ok(false);
            }
        }
        let mut props = self.0.props.borrow_mut();
        let before = props.len();
        props.retain(|(k, _)| *k != name);
        Ok(props.len() < before)
    }

    fn has_property(&self, key: Self) -> Result<bool, Self> {
        Ok(self.lookup(&key.key_text()).is_some())
    }

    fn set_property(&self, key: Self, value: Self) -> Result<(), Self> {
        self.store(&key.key_text(), value);
        Ok(())
    }

    fn set_prototype(&self, _prototype: Self) -> bool {
        true
    }

    fn define_property(&self, key: Self, value: Self, _getter: Self, _setter: Self, _attributes: PropertyAttributes)
        -> Result<(), Self> {
        self.store(&key.key_text(), value);
        Ok(())
    }

    fn get_property(&self, key: Self) -> Result<Option<Self>, Self> {
        Ok(Some(self.lookup(&key.key_text()).unwrap_or_else(|| Mock::of(Kind::Undefined))))
    }

    fn get_own_property_names(&self) -> Result<Vec<Self>, Self> {
        Ok(self.0.props.borrow().iter().map(|(k, _)| Mock::of(Kind::Str(k.clone()))).collect())
    }
}

impl JSArrayOps for Mock {
    fn new_array(_ctx: &MockContext) -> Self {
        Mock::of(Kind::Array)
    }

    fn get_index(&self, index: u32) -> Self {
        self.lookup(&index.to_string()).unwrap_or_else(|| Mock::of(Kind::Undefined))
    }

    fn set_index(&self, index: u32, value: Self) -> Self {
        self.store(&index.to_string(), value);
        Mock::of(Kind::Undefined)
    }
}

fn context() -> JSContext<MockContext> {
    JSRuntime::<MockRuntime>::with_engine("mock").context()
}

#[test]
fn mock_runtime_names_engine_and_installs_rong_global() {
    let rt = JSRuntime::<MockRuntime>::with_engine("mock");
    assert_eq!(rt.engine(), "mock");
    let ctx = rt.context();
    let global = ctx.global();
    assert!(global.has_property("Rong").unwrap());
}

#[test]
fn object_set_then_get_gives_value_back() {
    let ctx = context();
    let obj = JSObject::<Mock>::new(&ctx);
    obj.set("answer", 42i32).unwrap();
    obj.set("name", "rong").unwrap();
    assert_eq!(obj.get::<_, i32>("answer").unwrap(), 42);
    assert_eq!(obj.get::<_, String>("name").unwrap(), "rong");
    obj.set("answer", 7u32).unwrap();
    assert_eq!(obj.get::<_, u32>("answer").unwrap(), 7);
}

#[test]
fn object_missing_property_is_reported() {
    let ctx = context();
    let obj = JSObject::<Mock>::new(&ctx);
    let err = obj.get::<_, i32>("nope").err().expect("missing");
    assert!(err.is_property_not_found());
    assert_eq!(obj.get_opt::<_, i32>("nope").unwrap(), None);
}

#[test]
fn object_undefined_property_is_present() {
    let ctx = context();
    let obj = JSObject::<Mock>::new(&ctx);
    obj.set("u", JSValue::<Mock>::undefined(&ctx)).unwrap();
    let v = obj.get_opt::<_, JSValue<Mock>>("u").unwrap().expect("present");
    assert!(v.is_undefined());
    assert!(obj.has_property("u").unwrap());
}

#[test]
fn object_delete_removes_property() {
    let ctx = context();
    let obj = JSObject::<Mock>::new(&ctx);
    obj.set("x", true).unwrap();
    assert!(obj.has_property("x").unwrap());
    assert!(obj.delete("x").unwrap());
    assert!(!obj.has_property("x").unwrap());
    assert!(!obj.delete("x").unwrap());
}

#[test]
fn object_keys_and_values_in_order() {
    let ctx = context();
    let obj = JSObject::<Mock>::new(&ctx);
    obj.set("a", 1i32).unwrap();
    obj.set("b", 2i32).unwrap();
    obj.set("c", 3i32).unwrap();
    assert_eq!(obj.keys_as::<String>().unwrap(), vec!["a".to_string(), "b".to_string(), "c".to_string()]);
    assert_eq!(obj.values_as::<i32>().unwrap(), vec![1, 2, 3]);
    let pairs = obj.entries_as::<String, i32>().unwrap();
    assert_eq!(pairs, vec![("a".to_string(), 1), ("b".to_string(), 2), ("c".to_string(), 3)]);
}

#[test]
fn array_push_len_and_pop() {
    let ctx = context();
    let arr = JSArray::<Mock>::new(&ctx).unwrap();
    assert!(arr.is_empty().unwrap());
    assert_eq!(arr.push(10i32).unwrap(), 1);
    assert_eq!(arr.push(20i32).unwrap(), 2);
    assert_eq!(arr.push(30i32).unwrap(), 3);
    assert_eq!(arr.len().unwrap(), 3);
    assert_eq!(arr.to_vec::<i32>().unwrap(), vec![10, 20, 30]);
    assert_eq!(arr.get_opt::<i32>(1).unwrap(), Some(20));
    assert_eq!(arr.get_opt::<i32>(3).unwrap(), None);
    assert_eq!(arr.pop_opt::<i32>().unwrap(), Some(30));
    assert_eq!(arr.len().unwrap(), 2);
    assert_eq!(arr.pop_opt::<i32>().unwrap(), Some(20));
    assert_eq!(arr.pop_opt::<i32>().unwrap(), Some(10));
    assert_eq!(arr.pop_opt::<i32>().unwrap(), None);
    assert!(arr.pop_value().unwrap().is_undefined());
}

#[test]
fn array_iterators_walk_in_order_and_skip_holes() {
    let ctx = context();
    let arr = JSArray::<Mock>::new(&ctx).unwrap();
    arr.push(1i32).unwrap();
    arr.push(2i32).unwrap();
    arr.push(3i32).unwrap();
    let mut it = arr.iter::<i32>().unwrap();
    assert_eq!(it.len(), 3);
    assert_eq!(it.next().map(|r| r.unwrap()), Some(1));
    assert_eq!(it.next().map(|r| r.unwrap()), Some(2));
    assert_eq!(it.next().map(|r| r.unwrap()), Some(3));
    assert!(it.next().is_none());
    assert!(arr.delete(1));
    assert!(!arr.has_index(1));
    assert!(arr.has_index(2));
    let mut present = arr.iter_present::<i32>().unwrap();
    assert_eq!(present.next().map(|r| r.unwrap()), Some(1));
    assert_eq!(present.next().map(|r| r.unwrap()), Some(3));
    assert!(present.next().is_none());
}

#[test]
fn vec_round_trips_through_array() {
    let ctx = context();
    let value = JSValue::<Mock>::from_rust(&ctx, vec![4i32, 5, 6]);
    assert!(value.is_array());
    let back: Vec<i32> = value.try_convert().unwrap();
    assert_eq!(back, vec![4, 5, 6]);
}

#[test]
fn array_from_object_only_for_arrays() {
    let ctx = context();
    let plain = JSObject::<Mock>::new(&ctx);
    assert!(JSArray::from_object(plain).is_none());
    let arr = JSArray::<Mock>::new(&ctx).unwrap();
    let obj = arr.as_object().clone();
    assert!(JSArray::from_object(obj).is_some());
}

#[test]
fn error_data_becomes_plain_object() {
    let ctx = context();
    let data = ErrorData::Object(vec![
        ErrorField { key: "ok".to_string(), value: ErrorData::Bool(true) },
        ErrorField { key: "count".to_string(), value: ErrorData::Number(ErrorNumber::U64(3)) },
        ErrorField { key: "big".to_string(), value: ErrorData::Number(ErrorNumber::U64(u64::MAX)) },
        ErrorField { key: "list".to_string(), value: ErrorData::Array(vec![ErrorData::String("x".to_string())]) },
        ErrorField { key: "nothing".to_string(), value: ErrorData::Null },
    ]);
    let raw = error_data_to_js_value::<Mock>(&ctx, &data);
    let obj = JSObject::from_raw(&ctx, raw);
    assert!(obj.get::<_, bool>("ok").unwrap());
    assert_eq!(obj.get::<_, u64>("count").unwrap(), 3);
    assert_eq!(obj.get::<_, String>("big").unwrap(), "18446744073709551615");
    assert_eq!(obj.get::<_, Vec<String>>("list").unwrap(), vec!["x".to_string()]);
    assert!(obj.get::<_, JSValue<Mock>>("nothing").unwrap().is_null());
}

#[test]
fn eval_exception_becomes_error() {
    let ctx = context();
    let r: JSResult<i32> = ctx.eval(Source::from_bytes(b"1 + 1"));
    assert!(r.is_err());
}

#[test]
fn iterator_result_written_on_object() {
    let ctx = context();
    let result = JSObject::<Mock>::new(&ctx);
    let item = JSValue::<Mock>::from_rust(&ctx, 3i32);
    write_iter_result(&result, iter_result_fields(&ctx, iter_step(Some(item)))).unwrap();
    assert!(!result.get::<_, bool>("done").unwrap());
    assert_eq!(result.get::<_, i32>("value").unwrap(), 3);
    write_iter_result(&result, iter_result_fields(&ctx, iter_step(None))).unwrap();
    assert!(result.get::<_, bool>("done").unwrap());
    assert!(result.get::<_, JSValue<Mock>>("value").unwrap().is_undefined());
}

#[test]
fn five_arguments_convert_in_order() {
    let ctx = context();
    let argv: Vec<Mock> = (1i32, 2i32, 3i32, 4i32, 5i32).into_js_args(&ctx);
    assert_eq!(argv.len(), 5);
}

#[test]
fn requirement_counts_plain_parameters() {
    let r = <(This<String>, i32, Optional<String>, Rest<String>) as FromParams<Mock>>::param_requirements();
    assert_eq!(r.required_count(), 1);
    assert!(!r.is_exhaustive());
    let r = <(i32, i32, i32, i32, i32) as FromParams<Mock>>::param_requirements();
    assert_eq!(r.required_count(), 5);
    assert!(r.is_exhaustive());
}
