//! The decisions of the host network service: how a response body is read,
//! when a download failed, and how a download feeds its extra sink.

use vstd::prelude::*;
use vstd::string::StringSliceAdditionalSpecFns;

verus! {

/// An extra consumer of a downloaded body.
pub trait BodySink {
    /// Takes a chunk of the body. An error stops further writes to the sink.
    fn write(&mut self, chunk: &[u8]) -> Result<(), String>;

    /// Called once when the download ends, with its outcome.
    fn close(&mut self, result: &Result<(), String>);
}

/// The value of a decimal digit character.
pub open spec fn digit_value(c: char) -> int {
    (c as int) - ('0' as int)
}

/// Whether every character is a decimal digit.
pub open spec fn all_digits(s: Seq<char>) -> bool {
    forall|i: int| 0 <= i < s.len() ==> '0' <= #[trigger] s[i] <= '9'
}

/// The number that decimal digits denote.
pub open spec fn digits_value(s: Seq<char>) -> int
    decreases s.len(),
{
    if s.len() == 0 {
        0
    } else {
        digits_value(s.drop_last()) * 10 + digit_value(s.last())
    }
}

/// The digits of a `Content-Length` value: the text after an optional `+`.
pub open spec fn length_digits(s: Seq<char>) -> Seq<char> {
    if s.len() > 0 && s[0] == '+' { s.drop_first() } else { s }
}

/// The declared length of a body: the number a `Content-Length` value
/// denotes when it is one or more digits, after an optional `+`, and fits a
/// machine word; 0 when the header is absent or anything else.
pub open spec fn content_length_spec(value: Option<Seq<char>>) -> int {
    match value {
        Some(s) => {
            let d = length_digits(s);
            if d.len() > 0 && all_digits(d) && digits_value(d) <= usize::MAX { digits_value(d) } else { 0 }
        },
        None => 0,
    }
}

/// Reads a `Content-Length` value; see [`content_length_spec`].
#[verifier::loop_isolation(false)]
pub fn parse_content_length(value: Option<&str>) -> (r: usize)
    ensures
        r == content_length_spec(match value {
            Some(s) => Some(s@),
            None => None::<Seq<char>>,
        }),
{
    match value {
        None => 0,
        Some(s) => {
            let n = s.unicode_len();
            let start: usize = if n > 0 && s.get_char(0) == '+' { 1 } else { 0 };
            let ghost d = length_digits(s@);
            assert(d =~= s@.subrange(start as int, n as int));
            if start >= n {
                return 0;
            }
            let mut acc: usize = 0;
            let mut i: usize = start;
            while i < n
                invariant
                    start <= i <= n,
                    n == s@.len(),
                    d == s@.subrange(start as int, n as int),
                    all_digits(s@.subrange(start as int, i as int)),
                    acc == digits_value(s@.subrange(start as int, i as int)),
                decreases n - i,
            {
                let c = s.get_char(i);
                assert(s@.subrange(start as int, i + 1).drop_last() =~= s@.subrange(start as int, i as int));
                if c < '0' || c > '9' {
                    proof {
                        assert(d[i - start] == c);
                        assert(!all_digits(d));
                    }
                    return 0;
                }
                let v: usize = (c as u32 - '0' as u32) as usize;
                if acc > (usize::MAX - v) / 10 {
                    proof {
                        if all_digits(d) {
                            lemma_digits_value_grows(d, (i - start) as int);
                            assert(digits_value(s@.subrange(start as int, i + 1)) == acc * 10 + v) by {
                                assert(s@.subrange(start as int, i + 1).last() == c);
                            }
                            assert(acc * 10 + v > usize::MAX) by (nonlinear_arith)
                                requires
                                    acc > (usize::MAX - v) / 10,
                                    v <= 9,
                            ;
                            assert(d.subrange(0, (i - start) + 1) =~= s@.subrange(start as int, i + 1));
                        }
                    }
                    return 0;
                }
                proof {
                    assert(acc * 10 + v <= usize::MAX) by (nonlinear_arith)
                        requires
                            acc <= (usize::MAX - v) / 10,
                            v <= 9,
                    ;
                    assert(s@.subrange(start as int, i + 1).last() == c);
                }
                acc = acc * 10 + v;
                i = i + 1;
            }
            acc
        },
    }
}

/// The value of a prefix of digits never exceeds the value of all of them.
proof fn lemma_digits_value_grows(d: Seq<char>, k: int)
    requires
        0 <= k < d.len(),
        all_digits(d),
    ensures
        digits_value(d.subrange(0, k + 1)) <= digits_value(d),
    decreases d.len(),
{
    if k + 1 == d.len() {
        assert(d.subrange(0, k + 1) =~= d);
    } else {
        let e = d.drop_last();
        assert(all_digits(e));
        lemma_digits_value_grows(e, k);
        assert(e.subrange(0, k + 1) =~= d.subrange(0, k + 1));
        assert(digits_value(e) <= digits_value(d)) by {
            assert('0' <= d.last() <= '9');
            lemma_digits_value_nonneg(e);
        }
    }
}

/// Decimal digits denote a number that is not negative.
proof fn lemma_digits_value_nonneg(d: Seq<char>)
    requires
        all_digits(d),
    ensures
        digits_value(d) >= 0,
    decreases d.len(),
{
    if d.len() > 0 {
        assert(all_digits(d.drop_last()));
        lemma_digits_value_nonneg(d.drop_last());
        assert('0' <= d.last() <= '9');
    }
}

/// How a response body is handed over.
#[derive(Clone, Copy, Debug, PartialEq, Eq, Structural)]
pub enum BodyPlan {
    /// Read whole before the response is answered, with the declared length.
    Small(usize),
    /// Handed over as a stream of chunks.
    Stream,
}

/// A body whose declared length is positive and at most `small` is read
/// whole; any other body is streamed.
pub fn body_plan(content_length: usize, small: usize) -> (r: BodyPlan)
    ensures
        (0 < content_length <= small) ==> r == BodyPlan::Small(content_length),
        !(0 < content_length <= small) ==> r == BodyPlan::Stream,
{
    if content_length > 0 && content_length <= small {
        BodyPlan::Small(content_length)
    } else {
        BodyPlan::Stream
    }
}

/// A body read whole may not grow past `small`: the error once it does.
pub fn check_small_body(buffered: usize, small: usize) -> (r: Result<(), String>)
    ensures
        buffered <= small <==> r is Ok,
        r matches Err(m) ==> m@ == "body exceeded small threshold"@,
{
    if buffered > small {
        Err(String::from_str("body exceeded small threshold"))
    } else {
        Ok(())
    }
}

/// Whether an HTTP status is a success, `2xx`.
pub fn is_success_status(status: u16) -> (r: bool)
    ensures
        r == (200 <= status <= 299),
{
    200 <= status && status <= 299
}

/// Whether a byte may appear in an HTTP header value: any byte but the
/// control characters and DEL, where tab is allowed.
pub open spec fn header_byte_ok(b: u8) -> bool {
    (b >= 32 && b != 127) || b == 9
}

/// `http::HeaderValue::from_str` accepts exactly the text whose bytes all
/// pass [`header_byte_ok`]; this tells whether it accepts `s`.
#[verifier::external_body]
fn header_value_accepted(s: &str) -> (r: bool)
    ensures
        r == forall|i: int| 0 <= i < s.spec_bytes().len() ==> header_byte_ok(#[trigger] s.spec_bytes()[i]),
{
    http::HeaderValue::from_str(s).is_ok()
}

/// Checks a user agent before it is installed: it must be a valid header
/// value; otherwise the error names the problem.
pub fn validate_user_agent(ua: &str) -> (r: Result<(), String>)
    ensures
        r is Ok <==> forall|i: int| 0 <= i < ua.spec_bytes().len() ==> header_byte_ok(#[trigger] ua.spec_bytes()[i]),
        r matches Err(m) ==> m@ == "invalid user agent header: failed to parse header value"@,
{
    if header_value_accepted(ua) {
        Ok(())
    } else {
        Err(String::from_str("invalid user agent header: failed to parse header value"))
    }
}

/// The user agent sent by default: `RongJS/` and the package version.
pub fn default_user_agent(version: &str) -> (r: String)
    ensures
        r@ == "RongJS/"@ + version@,
{
    let mut s = String::from_str("RongJS/");
    s.append(version);
    s
}

/// Whether the extra sink of a download still takes chunks. A write error
/// closes it for good: it gets that error and no more chunks.
pub struct SinkForwarding {
    active: bool,
}

impl SinkForwarding {
    pub closed spec fn spec_active(&self) -> bool {
        self.active
    }

    /// A download with (`true`) or without an extra sink.
    pub fn new(has_sink: bool) -> (r: Self)
        ensures
            r.spec_active() == has_sink,
    {
        SinkForwarding { active: has_sink }
    }

    /// Whether the next chunk goes to the sink.
    pub fn forwards(&self) -> (r: bool)
        ensures
            r == self.spec_active(),
    {
        self.active
    }

    /// The sink answered a chunk: `true` when it must now be closed with its
    /// error, which happens at most once.
    pub fn on_write(&mut self, ok: bool) -> (close_now: bool)
        ensures
            close_now == (old(self).spec_active() && !ok),
            final(self).spec_active() == (old(self).spec_active() && ok),
    {
        if self.active && !ok {
            self.active = false;
            true
        } else {
            false
        }
    }
}

} // verus!
