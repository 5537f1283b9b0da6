//! JavaScript sources and the `.rong` bytecode file format.
//!
//! A bytecode file is the magic `DANITY`, the name of the engine that compiled
//! it, one zero byte, then the bytecode itself.

use vstd::prelude::*;
use vstd::string::*;
use crate::error::{err_is, HostError, JSResult, RongJSError, E_ERROR};
use crate::text::str_eq;

verus! {

#[derive(Debug, Clone)]
pub enum SourceKind {
    /// UTF-8 JavaScript code.
    JavaScript(Vec<u8>),
    /// Compiled bytecode.
    ByteCode(Vec<u8>),
}

#[derive(Debug, Clone)]
pub struct Source {
    kind: SourceKind,
    name: Option<String>,
}

/// The bytes of a source, whatever its kind.
pub open spec fn kind_code(kind: SourceKind) -> Seq<u8> {
    match kind {
        SourceKind::JavaScript(code) => code@,
        SourceKind::ByteCode(code) => code@,
    }
}

/// The magic that starts every bytecode file.
pub open spec fn magic() -> Seq<u8> {
    seq![68u8, 65u8, 78u8, 73u8, 84u8, 89u8]
}

/// The header of a bytecode file for the engine whose name has the given bytes.
pub open spec fn bytecode_header(engine: Seq<u8>) -> Seq<u8> {
    magic() + engine
}

/// The whole contents of a bytecode file.
pub open spec fn bytecode_file(engine: Seq<u8>, code: Seq<u8>) -> Seq<u8> {
    bytecode_header(engine) + seq![0u8] + code
}

/// Why a `.rong` file could not be read.
#[derive(Debug, Clone, Copy, PartialEq, Eq, Structural)]
pub enum BytecodeFileError {
    /// The file does not start with the magic.
    InvalidFormat,
    /// The file was written for another engine.
    EngineMismatch,
}

/// The outcome of reading a bytecode file, as a function of its bytes.
pub open spec fn parse_bytecode_spec(data: Seq<u8>, engine: Seq<u8>) -> Result<Seq<u8>, BytecodeFileError> {
    let header = bytecode_header(engine);
    if data.len() < 6 || data.subrange(0, 6) != magic() {
        Err(BytecodeFileError::InvalidFormat)
    } else if data.len() > header.len() && data.subrange(0, header.len() as int) == header
        && data[header.len() as int] == 0u8 {
        Ok(data.subrange(header.len() as int + 1, data.len() as int))
    } else {
        Err(BytecodeFileError::EngineMismatch)
    }
}

/// A lossy UTF-8 decoding of the bytes: the text `String::from_utf8_lossy` gives.
pub uninterp spec fn utf8_lossy(bytes: Seq<u8>) -> Seq<char>;

/// Decodes bytes as UTF-8, replacing invalid sequences (`String::from_utf8_lossy`).
#[verifier::external_body]
fn lossy_text(bytes: &[u8]) -> (r: String)
    ensures
        r@ == utf8_lossy(bytes@),
{
    String::from_utf8_lossy(bytes).into_owned()
}

fn push_all(out: &mut Vec<u8>, bytes: &[u8])
    ensures
        final(out)@ == old(out)@ + bytes@,
{
    let mut i: usize = 0;
    while i < bytes.len()
        invariant
            i <= bytes@.len(),
            out@ == old(out)@ + bytes@.subrange(0, i as int),
        decreases bytes@.len() - i,
    {
        out.push(bytes[i]);
        i = i + 1;
        assert(bytes@.subrange(0, i as int) =~= bytes@.subrange(0, i - 1).push(bytes@[i - 1]));
    }
    assert(bytes@.subrange(0, bytes@.len() as int) =~= bytes@);
}

fn copy_range(bytes: &[u8], from: usize, to: usize) -> (r: Vec<u8>)
    requires
        from <= to <= bytes@.len(),
    ensures
        r@ == bytes@.subrange(from as int, to as int),
{
    let mut out: Vec<u8> = Vec::new();
    let mut i: usize = from;
    while i < to
        invariant
            from <= i <= to,
            to <= bytes@.len(),
            out@ == bytes@.subrange(from as int, i as int),
        decreases to - i,
    {
        out.push(bytes[i]);
        i = i + 1;
        assert(bytes@.subrange(from as int, i as int) =~= bytes@.subrange(from as int, i - 1).push(bytes@[i - 1]));
    }
    out
}

fn magic_bytes() -> (r: Vec<u8>)
    ensures
        r@ == magic(),
{
    let mut v = Vec::new();
    v.push(68u8);
    v.push(65u8);
    v.push(78u8);
    v.push(73u8);
    v.push(84u8);
    v.push(89u8);
    assert(v@ =~= magic());
    v
}

/// Whether `data` starts with `prefix`.
fn starts_with(data: &[u8], prefix: &[u8]) -> (r: bool)
    ensures
        r == (prefix@.len() <= data@.len() && data@.subrange(0, prefix@.len() as int) == prefix@),
{
    if prefix.len() > data.len() {
        return false;
    }
    let mut i: usize = 0;
    while i < prefix.len()
        invariant
            prefix@.len() <= data@.len(),
            i <= prefix@.len(),
            forall|j: int| 0 <= j < i ==> data@[j] == prefix@[j],
        decreases prefix@.len() - i,
    {
        if data[i] != prefix[i] {
            assert(data@.subrange(0, prefix@.len() as int)[i as int] != prefix@[i as int]);
            return false;
        }
        i = i + 1;
    }
    assert(data@.subrange(0, prefix@.len() as int) =~= prefix@);
    true
}

/// Reads the bytecode out of the contents of a `.rong` file written for `engine`.
pub fn parse_bytecode_file(data: &[u8], engine: &str) -> (r: Result<Vec<u8>, BytecodeFileError>)
    ensures
        match r {
            Ok(code) => parse_bytecode_spec(data@, engine.spec_bytes()) == Ok::<Seq<u8>, BytecodeFileError>(code@),
            Err(e) => parse_bytecode_spec(data@, engine.spec_bytes()) == Err::<Seq<u8>, BytecodeFileError>(e),
        },
{
    let magic = magic_bytes();
    if data.len() < 6 || !starts_with(data, magic.as_slice()) {
        proof {
            if data@.len() >= 6 {
                assert(magic@.len() == 6);
            }
        }
        return Err(BytecodeFileError::InvalidFormat);
    }
    let mut header = magic_bytes();
    push_all(&mut header, engine.as_bytes());
    let n = header.len();
    if data.len() > n && starts_with(data, header.as_slice()) && data[n] == 0 {
        Ok(copy_range(data, n + 1, data.len()))
    } else {
        Err(BytecodeFileError::EngineMismatch)
    }
}

/// The contents of a `.rong` file holding `code`, compiled by `engine`.
pub fn bytecode_file_contents(engine: &str, code: &[u8]) -> (r: Vec<u8>)
    ensures
        r@ == bytecode_file(engine.spec_bytes(), code@),
{
    let mut out = magic_bytes();
    push_all(&mut out, engine.as_bytes());
    out.push(0u8);
    push_all(&mut out, code);
    out
}

/// Reading a file written by `bytecode_file_contents` for the same engine gives the code back.
pub proof fn law_bytecode_roundtrip(engine: Seq<u8>, code: Seq<u8>)
    ensures
        parse_bytecode_spec(bytecode_file(engine, code), engine) == Ok::<Seq<u8>, BytecodeFileError>(code),
{
    let data = bytecode_file(engine, code);
    let header = bytecode_header(engine);
    assert(data.subrange(0, 6) =~= magic());
    assert(data.subrange(0, header.len() as int) =~= header);
    assert(data[header.len() as int] == 0u8);
    assert(data.subrange(header.len() as int + 1, data.len() as int) =~= code);
}

impl Source {
    pub closed spec fn spec_kind(&self) -> SourceKind {
        self.kind
    }

    pub closed spec fn spec_name(&self) -> Option<String> {
        self.name
    }

    /// A source holding JavaScript code, without a name.
    pub fn from_bytes(code: &[u8]) -> (r: Self)
        ensures
            r.spec_kind() matches SourceKind::JavaScript(c) && c@ == code@,
            r.spec_name() is None,
    {
        Source { kind: SourceKind::JavaScript(copy_range(code, 0, code.len())), name: None }
    }

    /// Sets or changes the name of the source.
    pub fn with_name(self, name: &str) -> (r: Self)
        ensures
            r.spec_kind() == self.spec_kind(),
            r.spec_name() matches Some(n) && n@ == name@,
    {
        Source { kind: self.kind, name: Some(String::from_str(name)) }
    }

    /// A source holding compiled bytecode, without a name.
    pub(crate) fn from_bytecode(code: Vec<u8>) -> (r: Self)
        ensures
            r.spec_kind() == SourceKind::ByteCode(code),
            r.spec_name() is None,
    {
        Source { kind: SourceKind::ByteCode(code), name: None }
    }

    /// Builds the source that reading the file at `path` with the given extension
    /// and contents gives: JavaScript for `.js`, `.ts` and `.mjs`, bytecode for a
    /// well-formed `.rong` file of this engine, an error otherwise. The name is the path.
    pub fn from_file_contents(path: &str, extension: Option<&str>, code: Vec<u8>, engine: &str) -> (r: JSResult<Self>)
        ensures
            is_script_extension(extension) ==> ok_source(r, false, code@, path@),
            is_rong_extension(extension) ==> match parse_bytecode_spec(code@, engine.spec_bytes()) {
                Ok(bc) => ok_source(r, true, bc, path@),
                Err(BytecodeFileError::InvalidFormat) => err_is(r, "Error"@, E_ERROR@, "Invalid .rong file format"@),
                Err(BytecodeFileError::EngineMismatch) => err_is(r, "Error"@, E_ERROR@,
                    "Bytecode was compiled for a different engine. Expected: "@ + engine@ + ", Found: "@
                        + utf8_lossy(code@.subrange(6, code@.len() as int))),
            },
            !is_script_extension(extension) && !is_rong_extension(extension) ==> err_is(r, "Error"@, E_ERROR@,
                "Unsupported file type. Supported extensions: .js, .ts, .mjs, .rong. Found: "@ + path@),
    {
        proof {
            reveal_strlit("js");
            reveal_strlit("ts");
            reveal_strlit("mjs");
            reveal_strlit("rong");
            assert("js"@.len() == 2 && "ts"@.len() == 2 && "mjs"@.len() == 3 && "rong"@.len() == 4);
            assert(is_script_extension(extension) ==> !is_rong_extension(extension));
        }
        let name = Some(String::from_str(path));
        if script_extension(extension) {
            return Ok(Source { kind: SourceKind::JavaScript(code), name });
        }
        if rong_extension(extension) {
            match parse_bytecode_file(code.as_slice(), engine) {
                Ok(bytecode) => Ok(Source { kind: SourceKind::ByteCode(bytecode), name }),
                Err(BytecodeFileError::InvalidFormat) => Err(
                    RongJSError::from(HostError::new(E_ERROR, "Invalid .rong file format")),
                ),
                Err(BytecodeFileError::EngineMismatch) => {
                    let found = lossy_text(copy_range(code.as_slice(), 6, code.len()).as_slice());
                    let mut message = String::from_str("Bytecode was compiled for a different engine. Expected: ");
                    message.append(engine);
                    message.append(", Found: ");
                    message.append(found.as_str());
                    Err(RongJSError::from(HostError::new(E_ERROR, message.as_str())))
                }
            }
        } else {
            let mut message = String::from_str(
                "Unsupported file type. Supported extensions: .js, .ts, .mjs, .rong. Found: ",
            );
            message.append(path);
            Err(RongJSError::from(HostError::new(E_ERROR, message.as_str())))
        }
    }

    /// The contents of the `.rong` file that saving this source to a path with
    /// the given extension writes, or the error for any other extension.
    pub fn bytecode_file_for(&self, extension: Option<&str>, engine: &str) -> (r: JSResult<Vec<u8>>)
        ensures
            is_rong_extension(extension) ==> (r matches Ok(bytes)
                && bytes@ == bytecode_file(engine.spec_bytes(), kind_code(self.spec_kind()))),
            !is_rong_extension(extension) ==> err_is(r, "Error"@, E_ERROR@, "Bytecode files must have .rong extension"@),
    {
        if !rong_extension(extension) {
            return Err(RongJSError::from(HostError::new(E_ERROR, "Bytecode files must have .rong extension")));
        }
        Ok(bytecode_file_contents(engine, self.code()))
    }

    pub fn kind(&self) -> (r: &SourceKind)
        ensures
            *r == self.spec_kind(),
    {
        &self.kind
    }

    /// The source bytes, JavaScript code or bytecode.
    pub fn code(&self) -> (r: &[u8])
        ensures
            r@ == kind_code(self.spec_kind()),
    {
        match &self.kind {
            SourceKind::JavaScript(code) => code.as_slice(),
            SourceKind::ByteCode(code) => code.as_slice(),
        }
    }

    /// The name or path of the source, when it has one.
    pub fn name(&self) -> (r: Option<&str>)
        ensures
            match self.spec_name() {
                Some(n) => r matches Some(s) && s@ == n@,
                None => r is None,
            },
    {
        match &self.name {
            Some(n) => Some(n.as_str()),
            None => None,
        }
    }

    /// The length of the code in bytes.
    pub fn len(&self) -> (r: usize)
        ensures
            r == kind_code(self.spec_kind()).len(),
    {
        self.code().len()
    }

    pub fn is_empty(&self) -> (r: bool)
        ensures
            r == (kind_code(self.spec_kind()).len() == 0),
    {
        self.len() == 0
    }
}

/// The result is a source of the given kind, code and name.
pub open spec fn ok_source(r: JSResult<Source>, bytecode: bool, code: Seq<u8>, name: Seq<char>) -> bool {
    match r {
        Ok(s) => {
            &&& kind_code(s.spec_kind()) == code
            &&& (s.spec_kind() is ByteCode) == bytecode
            &&& match s.spec_name() {
                Some(n) => n@ == name,
                None => false,
            }
        },
        Err(_) => false,
    }
}

/// The extension is one of `js`, `ts`, `mjs`.
pub open spec fn is_script_extension(extension: Option<&str>) -> bool {
    match extension {
        Some(e) => e@ == "js"@ || e@ == "ts"@ || e@ == "mjs"@,
        None => false,
    }
}

/// The extension is `rong`.
pub open spec fn is_rong_extension(extension: Option<&str>) -> bool {
    match extension {
        Some(e) => e@ == "rong"@,
        None => false,
    }
}

fn script_extension(extension: Option<&str>) -> (r: bool)
    ensures
        r == is_script_extension(extension),
{
    match extension {
        Some(e) => str_eq(e, "js") || str_eq(e, "ts") || str_eq(e, "mjs"),
        None => false,
    }
}

fn rong_extension(extension: Option<&str>) -> (r: bool)
    ensures
        r == is_rong_extension(extension),
{
    match extension {
        Some(e) => str_eq(e, "rong"),
        None => false,
    }
}

} // verus!
