use rong_core::source::{bytecode_file_contents, parse_bytecode_file, BytecodeFileError, Source, SourceKind};
use rong_core::typed_array::JSTypedArrayKind;
use rong_core::valuetype::{type_tag, JSValueType};

#[test]
fn bytecode_file_round_trip() {
    let file = bytecode_file_contents("quickjs", &[1, 2, 3]);
    assert_eq!(&file[..6], b"DANITY");
    assert_eq!(&file[6..13], b"quickjs");
    assert_eq!(file[13], 0);
    assert_eq!(parse_bytecode_file(&file, "quickjs").unwrap(), vec![1, 2, 3]);
    assert_eq!(parse_bytecode_file(&file, "jscore"), Err(BytecodeFileError::EngineMismatch));
    assert_eq!(parse_bytecode_file(b"NOTRONG", "quickjs"), Err(BytecodeFileError::InvalidFormat));
}

#[test]
fn sources_from_files() {
    let js = Source::from_file_contents("a.js", Some("js"), b"1+1".to_vec(), "quickjs").unwrap();
    assert!(matches!(js.kind(), SourceKind::JavaScript(_)));
    assert_eq!(js.code(), b"1+1");
    assert_eq!(js.name(), Some("a.js"));
    assert_eq!(js.len(), 3);
    let file = bytecode_file_contents("quickjs", &[9, 9]);
    let bc = Source::from_file_contents("a.rong", Some("rong"), file, "quickjs").unwrap();
    assert!(matches!(bc.kind(), SourceKind::ByteCode(_)));
    assert_eq!(bc.code(), &[9, 9]);
    let bad = Source::from_file_contents("a.txt", Some("txt"), vec![], "quickjs").unwrap_err();
    assert_eq!(
        bad.as_host_error().unwrap().message,
        "Unsupported file type. Supported extensions: .js, .ts, .mjs, .rong. Found: a.txt"
    );
    let wrong = bytecode_file_contents("jscore", &[1]);
    let err = Source::from_file_contents("b.rong", Some("rong"), wrong, "quickjs").unwrap_err();
    assert!(err.as_host_error().unwrap().message.starts_with("Bytecode was compiled for a different engine. Expected: quickjs"));
    let garbage = Source::from_file_contents("c.rong", Some("rong"), b"xyz".to_vec(), "quickjs").unwrap_err();
    assert_eq!(garbage.as_host_error().unwrap().message, "Invalid .rong file format");
}

#[test]
fn saving_bytecode_needs_rong_extension() {
    let s = Source::from_bytes(b"abc").with_name("x");
    assert_eq!(s.name(), Some("x"));
    assert!(!s.is_empty());
    let file = s.bytecode_file_for(Some("rong"), "quickjs").unwrap();
    assert_eq!(parse_bytecode_file(&file, "quickjs").unwrap(), b"abc".to_vec());
    let err = s.bytecode_file_for(Some("js"), "quickjs").unwrap_err();
    assert_eq!(err.as_host_error().unwrap().message, "Bytecode files must have .rong extension");
}

#[test]
fn type_tags_by_precedence() {
    let t = type_tag(false, false, false, true, false, false, false, false, false, false, false, false, false, false,
        false, true);
    assert_eq!(t, JSValueType::Array);
    let o = type_tag(false, false, false, false, false, false, false, false, false, false, false, false, false, false,
        false, true);
    assert_eq!(o, JSValueType::Object);
    let u = type_tag(false, false, false, false, false, false, false, false, false, false, false, false, false, false,
        false, false);
    assert_eq!(u, JSValueType::Unknown);
    assert_eq!(JSTypedArrayKind::BigInt64.bytes_per_element(), 8);
    assert_eq!(JSTypedArrayKind::Uint8Clamped.name(), "Uint8Clamped");
}
