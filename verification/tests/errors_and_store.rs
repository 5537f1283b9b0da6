use rong_core::error::{ErrorData, ErrorNumber, HostError, RongJSError, E_ABORT, E_INVALID_ARG, E_MISSING_PROPERTY};
use rong_core::error_js::{number_form, thrown_summary, NumberForm, MAX_SAFE_INTEGER};
use rong_core::text::{decimal_string, signed_decimal_string, str_eq};
use rong_core::thrown_store::ThrownValueStore;
use rong_core::typed_array::{resolve_typed_array_length, JSTypedArrayKind};

#[test]
fn store_read_after_write_and_take_once() {
    let mut store: ThrownValueStore<String> = ThrownValueStore::new();
    let h = store.insert(7, "boom".to_string());
    assert_eq!(store.get(7, h), Some(&"boom".to_string()));
    assert_eq!(store.get(8, h), None);
    assert_eq!(store.take(7, h), Some("boom".to_string()));
    assert_eq!(store.get(7, h), None);
    assert_eq!(store.take(7, h), None);
}

#[test]
fn store_reused_slot_rejects_old_handle() {
    let mut store: ThrownValueStore<u32> = ThrownValueStore::new();
    let h1 = store.insert(1, 10);
    assert_eq!(store.take(1, h1), Some(10));
    let h2 = store.insert(1, 20);
    assert_ne!(h1, h2);
    assert_eq!(store.get(1, h1), None);
    assert_eq!(store.get(1, h2), Some(&20));
    assert!(store.has_room());
}

#[test]
fn host_error_parts() {
    let e = HostError::new(E_ABORT, "stop");
    assert_eq!(e.name, "Error");
    assert_eq!(e.code, "E_ABORT");
    assert_eq!(e.message, "stop");
    assert!(e.data.is_none());
    let a = HostError::aborted(Some("user".to_string()));
    assert_eq!(a.name, "AbortError");
    assert_eq!(a.message, "Operation aborted");
    assert_eq!(a.data.as_ref().and_then(|d| d.field("reason")).and_then(|v| v.as_str()), Some("user"));
}

#[test]
fn invalid_arg_count_message() {
    let e = HostError::invalid_arg_count(2, 1);
    assert_eq!(e.name, "TypeError");
    assert_eq!(e.code, E_INVALID_ARG);
    assert_eq!(e.message, "2 arguments required, but 1 found");
    let data = e.data.unwrap();
    assert_eq!(data.field("expected"), Some(&ErrorData::Number(ErrorNumber::U64(2))));
    assert_eq!(data.field("got"), Some(&ErrorData::Number(ErrorNumber::U64(1))));
}

#[test]
fn error_predicates() {
    let e = RongJSError::PropertyNotFound("foo".to_string());
    assert!(e.is_property_not_found());
    assert!(!e.is_thrown());
    let h = e.as_host_error().unwrap();
    assert_eq!(h.name, "ReferenceError");
    assert_eq!(h.code, E_MISSING_PROPERTY);
    assert_eq!(h.message, "Property 'foo' Not Found");
    let b = RongJSError::NotSupportByteCode();
    assert!(b.is_not_support_bytecode());
    assert!(!b.is_property_not_found());
    let once = RongJSError::OnceFnCalled();
    assert_eq!(once.as_host_error().unwrap().message, "OnceFn had been called");
}

#[test]
fn kind_mismatch_message() {
    let e = RongJSError::TypedArrayKindMismatch(JSTypedArrayKind::Uint8, JSTypedArrayKind::Float64);
    let h = e.into_host_error().unwrap();
    assert_eq!(h.name, "TypeError");
    assert_eq!(h.message, "TypedArray kind mismatch: expected Uint8, got Float64");
}

#[test]
fn typed_array_length_rules() {
    assert_eq!(resolve_typed_array_length(JSTypedArrayKind::Int32, 16, 4, None).unwrap(), 3);
    assert_eq!(resolve_typed_array_length(JSTypedArrayKind::Int32, 16, 4, Some(2)).unwrap(), 2);
    let misaligned = resolve_typed_array_length(JSTypedArrayKind::Int32, 16, 2, None).unwrap_err();
    assert_eq!(misaligned.as_host_error().unwrap().name, "RangeError");
    assert!(misaligned.as_host_error().unwrap().message.contains("alignment"));
    let too_long = resolve_typed_array_length(JSTypedArrayKind::Int32, 16, 4, Some(4)).unwrap_err();
    assert!(too_long.as_host_error().unwrap().message.contains("range"));
    let past_end = resolve_typed_array_length(JSTypedArrayKind::Uint8, 4, 5, None).unwrap_err();
    assert!(past_end.as_host_error().unwrap().message.contains("range"));
    let ragged = resolve_typed_array_length(JSTypedArrayKind::Float64, 12, 0, None).unwrap_err();
    assert!(ragged.as_host_error().unwrap().message.contains("alignment"));
}

#[test]
fn numbers_beyond_safe_range_become_text() {
    assert_eq!(number_form(ErrorNumber::U64(MAX_SAFE_INTEGER)), NumberForm::Unsigned(9007199254740991));
    assert_eq!(number_form(ErrorNumber::U64(MAX_SAFE_INTEGER + 1)), NumberForm::Text("9007199254740992".to_string()));
    assert_eq!(number_form(ErrorNumber::I64(-9007199254740991)), NumberForm::Signed(-9007199254740991));
    assert_eq!(number_form(ErrorNumber::I64(i64::MIN)), NumberForm::Text("-9223372036854775808".to_string()));
    assert_eq!(number_form(ErrorNumber::F64(1.5f64.to_bits())), NumberForm::FloatBits(1.5f64.to_bits()));
}

#[test]
fn thrown_summary_fields() {
    let mut store: ThrownValueStore<u8> = ThrownValueStore::new();
    let h = store.insert(3, 0);
    let s = thrown_summary(h, true, true, Some("boom".to_string()), Some("msg".to_string()));
    assert_eq!(s.code, "E_JS_THROWN");
    assert_eq!(s.message, "msg");
    assert_eq!(s.thrown, Some(h));
    let data = s.data.unwrap();
    assert_eq!(data.field("is_error"), Some(&ErrorData::Bool(true)));
    assert_eq!(data.field("thrown").and_then(|d| d.as_str()), Some("boom"));
    let gone = thrown_summary(h, false, false, None, None);
    assert_eq!(gone.message, "JavaScript threw a value");
    assert_eq!(gone.data.unwrap().field("thrown").and_then(|d| d.as_str()), Some("<unavailable>"));
    let text_only = thrown_summary(h, true, false, Some("7".to_string()), None);
    assert_eq!(text_only.message, "7");
}

#[test]
fn decimal_text() {
    assert_eq!(decimal_string(0), "0");
    assert_eq!(decimal_string(1234567890), "1234567890");
    assert_eq!(decimal_string(u64::MAX), "18446744073709551615");
    assert_eq!(signed_decimal_string(-42), "-42");
    assert_eq!(signed_decimal_string(i64::MIN), "-9223372036854775808");
    assert!(str_eq("abc", "abc"));
    assert!(!str_eq("abc", "abd"));
    assert!(!str_eq("ab", "abc"));
}
