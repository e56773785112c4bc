//! The protocol codec: single-exchange request/response framing over a byte
//! stream. A request is `METHOD SP PATH SP HTTP/1.0 CRLF`, followed either by
//! a bare `CRLF` (empty payload) or by a `Content-Length` header, a blank
//! line, and the payload bytes. A response is a status line, up to 64
//! headers among which `Content-Length` is required, a blank line, and a
//! body of exactly that many bytes.

use vstd::prelude::*;

use crate::digits::{all_digits, dec_bytes, dec_value, is_digit_byte};
use crate::digits::{format_u64, lemma_dec_bytes_all_digits, lemma_dec_value_of_dec_bytes, parse_u64};
use crate::Error;

verus! {

pub const MAX_HEADERS: usize = 64;

// ---------------------------------------------------------------------------
// Wire constants
// ---------------------------------------------------------------------------

/// A single space byte.
pub open spec fn sp() -> Seq<u8> {
    seq![32u8]
}

/// The `\r\n` line terminator.
pub open spec fn crlf() -> Seq<u8> {
    seq![13u8, 10u8]
}

/// The bytes of `"HTTP/1.0"`.
pub open spec fn version_bytes() -> Seq<u8> {
    seq![72u8, 84u8, 84u8, 80u8, 47u8, 49u8, 46u8, 48u8]
}

/// The bytes of `"HTTP/"`, the required status-line prefix.
pub open spec fn http_slash() -> Seq<u8> {
    seq![72u8, 84u8, 84u8, 80u8, 47u8]
}

/// The bytes of `"Content-Length: "`, as emitted in requests.
pub open spec fn content_length_label() -> Seq<u8> {
    seq![67u8, 111u8, 110u8, 116u8, 101u8, 110u8, 116u8, 45u8, 76u8, 101u8, 110u8, 103u8, 116u8,
        104u8, 58u8, 32u8]
}

/// The bytes of `"content-length"`, the lower-cased header name.
pub open spec fn content_length_name() -> Seq<u8> {
    seq![99u8, 111u8, 110u8, 116u8, 101u8, 110u8, 116u8, 45u8, 108u8, 101u8, 110u8, 103u8, 116u8,
        104u8]
}

// ---------------------------------------------------------------------------
// Requests
// ---------------------------------------------------------------------------

/// The request methods the control API uses.
#[derive(Clone, Copy, Debug, PartialEq, Eq, Structural)]
pub enum Method {
    Get,
    Put,
    Patch,
}

pub open spec fn method_bytes(m: Method) -> Seq<u8> {
    match m {
        Method::Get => seq![71u8, 69u8, 84u8],
        Method::Put => seq![80u8, 85u8, 84u8],
        Method::Patch => seq![80u8, 65u8, 84u8, 67u8, 72u8],
    }
}

/// The request line, without its terminator.
pub open spec fn spec_request_line(m: Method, path: Seq<u8>) -> Seq<u8> {
    method_bytes(m) + sp() + path + sp() + version_bytes()
}

/// The full wire encoding of a request whose path has the given UTF-8 bytes.
/// `None` stands for the designated empty payload: no body and no length
/// header.
pub open spec fn spec_encode(m: Method, path: Seq<u8>, payload: Option<Seq<u8>>) -> Seq<u8> {
    match payload {
        None => spec_request_line(m, path) + crlf() + crlf(),
        Some(b) => spec_request_line(m, path) + crlf() + content_length_label() + dec_bytes(b.len())
            + crlf() + crlf() + b,
    }
}

/// One request to the control API: a method, an endpoint path, and either
/// the empty-payload marker (`None`) or serialized payload bytes.
#[derive(Debug)]
pub struct Request {
    pub method: Method,
    pub path: String,
    pub payload: Option<Vec<u8>>,
}

/// Appends all bytes of `s` to `out`.
fn push_bytes(out: &mut Vec<u8>, s: &[u8])
    ensures
        final(out)@ == old(out)@ + s@,
{
    let mut i: usize = 0;
    while i < s.len()
        invariant
            i <= s@.len(),
            out@ == old(out)@ + s@.subrange(0, i as int),
        decreases s@.len() - i,
    {
        let ghost pre = out@;
        out.push(s[i]);
        i = i + 1;
        proof {
            assert(out@ =~= old(out)@ + s@.subrange(0, i as int));
        }
    }
    proof {
        assert(old(out)@ + s@.subrange(0, s@.len() as int) =~= old(out)@ + s@);
    }
}

/// Appends the method token.
fn push_method(out: &mut Vec<u8>, m: Method)
    ensures
        final(out)@ == old(out)@ + method_bytes(m),
{
    match m {
        Method::Get => {
            out.push(71);
            out.push(69);
            out.push(84);
        },
        Method::Put => {
            out.push(80);
            out.push(85);
            out.push(84);
        },
        Method::Patch => {
            out.push(80);
            out.push(65);
            out.push(84);
            out.push(67);
            out.push(72);
        },
    }
    proof {
        assert(out@ =~= old(out)@ + method_bytes(m));
    }
}

/// Appends `" HTTP/1.0\r\n"` — the space, the version token and the line end.
fn push_version_tail(out: &mut Vec<u8>)
    ensures
        final(out)@ == old(out)@ + sp() + version_bytes() + crlf(),
{
    out.push(32);
    out.push(72);
    out.push(84);
    out.push(84);
    out.push(80);
    out.push(47);
    out.push(49);
    out.push(46);
    out.push(48);
    out.push(13);
    out.push(10);
    proof {
        assert(out@ =~= old(out)@ + sp() + version_bytes() + crlf());
    }
}

/// Appends `"Content-Length: "`.
fn push_content_length_label(out: &mut Vec<u8>)
    ensures
        final(out)@ == old(out)@ + content_length_label(),
{
    out.push(67);
    out.push(111);
    out.push(110);
    out.push(116);
    out.push(101);
    out.push(110);
    out.push(116);
    out.push(45);
    out.push(76);
    out.push(101);
    out.push(110);
    out.push(103);
    out.push(116);
    out.push(104);
    out.push(58);
    out.push(32);
    proof {
        assert(out@ =~= old(out)@ + content_length_label());
    }
}

impl Request {
    /// Encodes this request into its wire bytes.
    pub fn encode(&self) -> (r: Vec<u8>)
        ensures
            r@ == spec_encode(self.method, vstd::utf8::encode_utf8(self.path@), match self
                .payload {
                Some(b) => Some(b@),
                None => None,
            }),
    {
        let ghost path_b = vstd::utf8::encode_utf8(self.path@);
        let mut out: Vec<u8> = Vec::new();
        push_method(&mut out, self.method);
        out.push(32);
        proof {
            assert(out@ =~= method_bytes(self.method) + sp());
        }
        push_bytes(&mut out, self.path.as_str().as_bytes());
        push_version_tail(&mut out);
        proof {
            assert(out@ =~= spec_request_line(self.method, path_b) + crlf());
        }
        match &self.payload {
            None => {
                out.push(13);
                out.push(10);
                proof {
                    assert(out@ =~= spec_request_line(self.method, path_b) + crlf() + crlf());
                }
            },
            Some(body) => {
                let ghost mid = out@;
                push_content_length_label(&mut out);
                let len_digits = format_u64(body.len() as u64);
                push_bytes(&mut out, len_digits.as_slice());
                out.push(13);
                out.push(10);
                out.push(13);
                out.push(10);
                push_bytes(&mut out, body.as_slice());
                proof {
                    assert(out@ =~= mid + content_length_label() + dec_bytes(body@.len()) + crlf()
                        + crlf() + body@);
                }
            },
        }
        out
    }
}

} // verus!

verus! {

// ---------------------------------------------------------------------------
// Response grammar, specification side
// ---------------------------------------------------------------------------

/// Index of the first `\r\n` pair in `s`, or `-1` if there is none.
pub open spec fn find_crlf(s: Seq<u8>) -> int
    decreases s.len(),
{
    if s.len() < 2 {
        -1
    } else if s[0] == 13 && s[1] == 10 {
        0
    } else {
        let r = find_crlf(s.drop_first());
        if r < 0 {
            -1
        } else {
            r + 1
        }
    }
}

pub open spec fn crlf_at(s: Seq<u8>, i: int) -> bool {
    0 <= i && i + 1 < s.len() && s[i] == 13 && s[i + 1] == 10
}

pub proof fn lemma_find_crlf(s: Seq<u8>)
    ensures
        -1 <= find_crlf(s) <= s.len(),
        find_crlf(s) == -1 ==> forall|i: int| !crlf_at(s, i),
        find_crlf(s) >= 0 ==> crlf_at(s, find_crlf(s)) && (forall|i: int|
            0 <= i < find_crlf(s) ==> !crlf_at(s, i)),
    decreases s.len(),
{
    if s.len() < 2 {
    } else if s[0] == 13 && s[1] == 10 {
    } else {
        let t = s.drop_first();
        lemma_find_crlf(t);
        assert forall|i: int| 1 <= i && crlf_at(s, i) implies crlf_at(t, i - 1) by {
            assert(t[i - 1] == s[i]);
            assert(t[i] == s[i + 1]);
        }
        assert forall|i: int| crlf_at(t, i) implies crlf_at(s, i + 1) by {
            assert(t[i] == s[i + 1]);
            assert(t[i + 1] == s[i + 2]);
        }
        if find_crlf(t) >= 0 {
            assert(crlf_at(s, find_crlf(t) + 1));
        }
    }
}

/// If a pair sits at `i` and none sits earlier, the first pair is at `i`.
pub proof fn lemma_find_crlf_exact(s: Seq<u8>, i: int)
    requires
        crlf_at(s, i),
        forall|k: int| 0 <= k < i ==> !crlf_at(s, k),
    ensures
        find_crlf(s) == i,
{
    lemma_find_crlf(s);
    if find_crlf(s) == -1 {
        assert(false);
    } else if find_crlf(s) < i {
        assert(crlf_at(s, find_crlf(s)));
        assert(false);
    } else if find_crlf(s) > i {
        assert(!crlf_at(s, i));
        assert(false);
    }
}

/// Splits the header section into its lines: `Some((lines, rest))` where
/// `rest` is everything after the first empty line, or `None` if the stream
/// ends before an empty line (an incomplete message).
pub open spec fn spec_split_lines(b: Seq<u8>) -> Option<(Seq<Seq<u8>>, Seq<u8>)>
    decreases b.len(),
    via spec_split_lines_decreases
{
    let i = find_crlf(b);
    if i < 0 {
        None
    } else if i == 0 {
        Some((Seq::empty(), b.subrange(2, b.len() as int)))
    } else {
        match spec_split_lines(b.subrange(i + 2, b.len() as int)) {
            None => None,
            Some((lines, rest)) => Some((seq![b.subrange(0, i)] + lines, rest)),
        }
    }
}

#[via_fn]
proof fn spec_split_lines_decreases(b: Seq<u8>) {
    lemma_find_crlf(b);
}

/// Prepends already-split lines to the result of splitting a suffix.
pub open spec fn glue_lines(pre: Seq<Seq<u8>>, r: Option<(Seq<Seq<u8>>, Seq<u8>)>) -> Option<
    (Seq<Seq<u8>>, Seq<u8>),
> {
    match r {
        None => None,
        Some((lines, rest)) => Some((pre + lines, rest)),
    }
}

/// Index of the first occurrence of `c` in `s`, or `-1`.
pub open spec fn find_byte(s: Seq<u8>, c: u8) -> int
    decreases s.len(),
{
    if s.len() == 0 {
        -1
    } else if s[0] == c {
        0
    } else {
        let r = find_byte(s.drop_first(), c);
        if r < 0 {
            -1
        } else {
            r + 1
        }
    }
}

pub proof fn lemma_find_byte(s: Seq<u8>, c: u8)
    ensures
        -1 <= find_byte(s, c) <= s.len(),
        find_byte(s, c) == -1 ==> forall|i: int| 0 <= i < s.len() ==> s[i] != c,
        find_byte(s, c) >= 0 ==> find_byte(s, c) < s.len() && s[find_byte(s, c)] == c && (forall|
            i: int,
        |
            0 <= i < find_byte(s, c) ==> s[i] != c),
    decreases s.len(),
{
    if s.len() == 0 {
    } else if s[0] == c {
    } else {
        let t = s.drop_first();
        lemma_find_byte(t, c);
        assert(forall|i: int| 0 <= i < t.len() ==> t[i] == s[i + 1]);
        assert forall|i: int| 1 <= i < s.len() implies t[i - 1] == s[i] by {}
    }
}

pub proof fn lemma_find_byte_exact(s: Seq<u8>, c: u8, i: int)
    requires
        0 <= i < s.len(),
        s[i] == c,
        forall|k: int| 0 <= k < i ==> s[k] != c,
    ensures
        find_byte(s, c) == i,
{
    lemma_find_byte(s, c);
    if find_byte(s, c) == -1 {
        assert(false);
    } else if find_byte(s, c) < i {
        assert(false);
    } else if find_byte(s, c) > i {
        assert(false);
    }
}

pub open spec fn to_lower_byte(b: u8) -> u8 {
    if 65 <= b <= 90 {
        (b + 32) as u8
    } else {
        b
    }
}

pub open spec fn lower_seq(s: Seq<u8>) -> Seq<u8> {
    Seq::new(s.len(), |i: int| to_lower_byte(s[i]))
}

pub open spec fn is_ws(b: u8) -> bool {
    b == 32 || b == 9
}

/// Index of the first byte that is not a space or tab, or `-1`.
pub open spec fn first_non_ws(s: Seq<u8>) -> int
    decreases s.len(),
{
    if s.len() == 0 {
        -1
    } else if !is_ws(s[0]) {
        0
    } else {
        let r = first_non_ws(s.drop_first());
        if r < 0 {
            -1
        } else {
            r + 1
        }
    }
}

/// Index of the last byte that is not a space or tab, or `-1`.
pub open spec fn last_non_ws(s: Seq<u8>) -> int
    decreases s.len(),
{
    if s.len() == 0 {
        -1
    } else if !is_ws(s.last()) {
        s.len() - 1
    } else {
        last_non_ws(s.drop_last())
    }
}

pub proof fn lemma_first_non_ws(s: Seq<u8>)
    ensures
        -1 <= first_non_ws(s) <= s.len(),
        first_non_ws(s) == -1 ==> forall|i: int| 0 <= i < s.len() ==> is_ws(#[trigger] s[i]),
        first_non_ws(s) >= 0 ==> first_non_ws(s) < s.len() && !is_ws(s[first_non_ws(s)]) && (forall|
            i: int,
        |
            0 <= i < first_non_ws(s) ==> is_ws(#[trigger] s[i])),
    decreases s.len(),
{
    if s.len() == 0 {
    } else if !is_ws(s[0]) {
    } else {
        let t = s.drop_first();
        lemma_first_non_ws(t);
        assert(forall|i: int| 0 <= i < t.len() ==> t[i] == s[i + 1]);
        assert forall|i: int| 1 <= i < s.len() implies t[i - 1] == s[i] by {}
    }
}

pub proof fn lemma_last_non_ws(s: Seq<u8>)
    ensures
        -1 <= last_non_ws(s) < s.len(),
        last_non_ws(s) == -1 ==> forall|i: int| 0 <= i < s.len() ==> is_ws(#[trigger] s[i]),
        last_non_ws(s) >= 0 ==> last_non_ws(s) < s.len() && !is_ws(s[last_non_ws(s)]) && (forall|
            i: int,
        |
            last_non_ws(s) < i < s.len() ==> is_ws(#[trigger] s[i])),
    decreases s.len(),
{
    if s.len() == 0 {
    } else if !is_ws(s.last()) {
    } else {
        lemma_last_non_ws(s.drop_last());
        assert forall|i: int| 0 <= i < s.len() - 1 implies s.drop_last()[i] == s[i] by {}
    }
}

/// Strips leading and trailing spaces and tabs.
pub open spec fn trim_ws(s: Seq<u8>) -> Seq<u8> {
    if first_non_ws(s) < 0 {
        Seq::empty()
    } else {
        s.subrange(first_non_ws(s), last_non_ws(s) + 1)
    }
}

/// Parses one header line into its lower-cased name and trimmed value.
/// `None` when the line has no colon or an empty name.
pub open spec fn spec_parse_header(line: Seq<u8>) -> Option<(Seq<u8>, Seq<u8>)> {
    let c = find_byte(line, 58);
    if c <= 0 {
        None
    } else {
        Some(
            (lower_seq(line.subrange(0, c)), trim_ws(line.subrange(c + 1, line.len() as int))),
        )
    }
}

/// Parses every header line, in order. `None` when any line is malformed.
pub open spec fn spec_headers(lines: Seq<Seq<u8>>) -> Option<Seq<(Seq<u8>, Seq<u8>)>>
    decreases lines.len(),
{
    if lines.len() == 0 {
        Some(Seq::empty())
    } else {
        match spec_parse_header(lines[0]) {
            None => None,
            Some(h) => match spec_headers(lines.drop_first()) {
                None => None,
                Some(t) => Some(seq![h] + t),
            },
        }
    }
}

pub proof fn lemma_spec_headers_snoc(lines: Seq<Seq<u8>>, x: Seq<u8>)
    ensures
        spec_headers(lines.push(x)) == match (spec_headers(lines), spec_parse_header(x)) {
            (Some(t), Some(h)) => Some(t.push(h)),
            _ => None::<Seq<(Seq<u8>, Seq<u8>)>>,
        },
    decreases lines.len(),
{
    if lines.len() == 0 {
        assert(lines.push(x).drop_first() =~= Seq::<Seq<u8>>::empty());
        assert(lines.push(x)[0] == x);
        match spec_parse_header(x) {
            None => {},
            Some(h) => {
                assert(spec_headers(Seq::<Seq<u8>>::empty()) == Some(Seq::<(Seq<u8>, Seq<u8>)>::empty()));
                assert(spec_headers(lines.push(x)) == Some(seq![h] + Seq::<(Seq<u8>, Seq<u8>)>::empty()));
                assert(seq![h] + Seq::<(Seq<u8>, Seq<u8>)>::empty() =~= Seq::<(Seq<u8>, Seq<u8>)>::empty().push(h));
            },
        }
    } else {
        let p = lines.push(x);
        assert(p[0] == lines[0]);
        assert(p.drop_first() =~= lines.drop_first().push(x));
        lemma_spec_headers_snoc(lines.drop_first(), x);
        match (spec_parse_header(lines[0]), spec_headers(lines.drop_first()), spec_parse_header(x)) {
            (Some(h0), Some(t), Some(hx)) => {
                assert(seq![h0] + t.push(hx) =~= (seq![h0] + t).push(hx));
            },
            _ => {},
        }
    }
}

/// The value of the first header with the given (lower-cased) name.
pub open spec fn spec_first_value(hdrs: Seq<(Seq<u8>, Seq<u8>)>, name: Seq<u8>) -> Option<Seq<u8>>
    decreases hdrs.len(),
{
    if hdrs.len() == 0 {
        None
    } else if hdrs[0].0 == name {
        Some(hdrs[0].1)
    } else {
        spec_first_value(hdrs.drop_first(), name)
    }
}

pub proof fn lemma_first_value_snoc(hdrs: Seq<(Seq<u8>, Seq<u8>)>, name: Seq<u8>, h: (Seq<u8>, Seq<u8>))
    ensures
        spec_first_value(hdrs.push(h), name) == match spec_first_value(hdrs, name) {
            Some(v) => Some(v),
            None => if h.0 == name {
                Some(h.1)
            } else {
                None
            },
        },
    decreases hdrs.len(),
{
    if hdrs.len() == 0 {
        assert(hdrs.push(h)[0] == h);
        assert(hdrs.push(h).drop_first() =~= Seq::<(Seq<u8>, Seq<u8>)>::empty());
        assert(spec_first_value(Seq::<(Seq<u8>, Seq<u8>)>::empty(), name) == None::<Seq<u8>>);
        if h.0 == name {
            assert(spec_first_value(hdrs.push(h), name) == Some(h.1));
        } else {
            assert(spec_first_value(hdrs.push(h), name) == spec_first_value(
                hdrs.push(h).drop_first(),
                name,
            ));
        }
    } else {
        assert(hdrs.push(h)[0] == hdrs[0]);
        assert(hdrs.push(h).drop_first() =~= hdrs.drop_first().push(h));
        lemma_first_value_snoc(hdrs.drop_first(), name, h);
    }
}

/// Parses the status line: `HTTP/…` version token, a space, and a
/// three-digit status code, followed by nothing or by a space and a reason.
pub open spec fn spec_parse_status(line: Seq<u8>) -> Option<u16> {
    let i = find_byte(line, 32);
    if i < 5 {
        None
    } else if line.subrange(0, 5) != http_slash() {
        None
    } else {
        let rest = line.subrange(i + 1, line.len() as int);
        if rest.len() < 3 {
            None
        } else if !(is_digit_byte(rest[0]) && is_digit_byte(rest[1]) && is_digit_byte(rest[2])) {
            None
        } else if rest.len() > 3 && rest[3] != 32 {
            None
        } else {
            Some((100 * (rest[0] - 48) + 10 * (rest[1] - 48) + (rest[2] - 48)) as u16)
        }
    }
}

/// How decoding a response can fail: the stream ended before the message was
/// complete, or the message does not have the shape the protocol requires.
pub enum SpecDecodeErr {
    Incomplete,
    Bad,
}

/// The head of a response: its status code, the value of its first
/// `Content-Length` header if any, and everything after the blank line.
pub open spec fn spec_parse_head(b: Seq<u8>) -> Result<(u16, Option<Seq<u8>>, Seq<u8>), SpecDecodeErr> {
    match spec_split_lines(b) {
        None => Err(SpecDecodeErr::Incomplete),
        Some((lines, rest)) => {
            if lines.len() == 0 {
                Err(SpecDecodeErr::Bad)
            } else if lines.len() > MAX_HEADERS as int + 1 {
                Err(SpecDecodeErr::Bad)
            } else {
                match spec_parse_status(lines[0]) {
                    None => Err(SpecDecodeErr::Bad),
                    Some(code) => match spec_headers(lines.drop_first()) {
                        None => Err(SpecDecodeErr::Bad),
                        Some(hdrs) => Ok((code, spec_first_value(hdrs, content_length_name()), rest)),
                    },
                }
            }
        },
    }
}

/// What `decode` returns, as a function of the wire bytes: the status code
/// and exactly `Content-Length` bytes of body, or the reason it fails.
pub open spec fn spec_decode(b: Seq<u8>) -> Result<(u16, Seq<u8>), SpecDecodeErr> {
    match spec_parse_head(b) {
        Err(e) => Err(e),
        Ok((code, clv, rest)) => match clv {
            None => Err(SpecDecodeErr::Bad),
            Some(v) => {
                if !(v.len() > 0 && all_digits(v) && dec_value(v) <= usize::MAX as nat) {
                    Err(SpecDecodeErr::Bad)
                } else if rest.len() < dec_value(v) {
                    Err(SpecDecodeErr::Incomplete)
                } else {
                    Ok((code, rest.subrange(0, dec_value(v) as int)))
                }
            },
        },
    }
}

/// What `status_code` returns: the status line's code, whether or not a
/// `Content-Length` header is present.
pub open spec fn spec_status_code(b: Seq<u8>) -> Result<u16, SpecDecodeErr> {
    match spec_parse_head(b) {
        Err(e) => Err(e),
        Ok((code, clv, rest)) => Ok(code),
    }
}

} // verus!

verus! {

// ---------------------------------------------------------------------------
// Response parsing, executable side
// ---------------------------------------------------------------------------

/// Finds the first `\r\n` at or after `from`.
fn find_crlf_from(b: &[u8], from: usize) -> (r: Option<usize>)
    requires
        from <= b@.len(),
    ensures
        match r {
            Some(j) => from <= j && j + 1 < b@.len() && find_crlf(
                b@.subrange(from as int, b@.len() as int),
            ) == j - from,
            None => find_crlf(b@.subrange(from as int, b@.len() as int)) == -1,
        },
{
    let ghost suffix = b@.subrange(from as int, b@.len() as int);
    let n = b.len();
    let mut j: usize = from;
    while j < n && j + 1 < n
        invariant
            from <= j,
            j <= n,
            n == b@.len(),
            suffix == b@.subrange(from as int, b@.len() as int),
            forall|k: int| from <= k < j ==> !crlf_at(b@, k),
        decreases n - j,
    {
        if b[j] == 13 && b[j + 1] == 10 {
            proof {
                assert(suffix.len() == n - from);
                assert forall|k: int| 0 <= k < j - from implies !crlf_at(suffix, k) by {
                    assert(suffix[k] == b@[from + k]);
                    if k + 1 < suffix.len() {
                        assert(suffix[k + 1] == b@[from + k + 1]);
                    }
                    assert(!crlf_at(b@, from + k));
                }
                assert(suffix[j - from] == b@[j as int]);
                assert(suffix[j - from + 1] == b@[j as int + 1]);
                assert(crlf_at(suffix, j - from));
                lemma_find_crlf_exact(suffix, j - from);
            }
            return Some(j);
        }
        proof {
            assert(!crlf_at(b@, j as int));
        }
        j = j + 1;
    }
    proof {
        assert(suffix.len() == n - from);
        lemma_find_crlf(suffix);
        if find_crlf(suffix) >= 0 {
            let i = find_crlf(suffix);
            assert(crlf_at(suffix, i));
            assert(suffix[i] == b@[from + i]);
            assert(suffix[i + 1] == b@[from + i + 1]);
            assert(crlf_at(b@, from + i));
            assert(false);
        }
    }
    None
}

/// Finds the first occurrence of `c` in `s`.
fn find_byte_in(s: &[u8], c: u8) -> (r: Option<usize>)
    ensures
        match r {
            Some(j) => find_byte(s@, c) == j,
            None => find_byte(s@, c) == -1,
        },
{
    let mut j: usize = 0;
    while j < s.len()
        invariant
            j <= s@.len(),
            forall|k: int| 0 <= k < j ==> s@[k] != c,
        decreases s@.len() - j,
    {
        if s[j] == c {
            proof {
                lemma_find_byte_exact(s@, c, j as int);
            }
            return Some(j);
        }
        j = j + 1;
    }
    proof {
        lemma_find_byte(s@, c);
        if find_byte(s@, c) >= 0 {
            assert(false);
        }
    }
    None
}

/// Parses the status line of a response.
fn parse_status_line(line: &[u8]) -> (r: Option<u16>)
    ensures
        r == spec_parse_status(line@),
{
    let i = match find_byte_in(line, 32) {
        Some(i) => i,
        None => {
            return None;
        },
    };
    if i < 5 {
        return None;
    }
    proof {
        lemma_find_byte(line@, 32);
    }
    if !(line[0] == 72 && line[1] == 84 && line[2] == 84 && line[3] == 80 && line[4] == 47) {
        proof {
            let p = line@.subrange(0, 5);
            assert(p[0] == line@[0] && p[1] == line@[1] && p[2] == line@[2] && p[3] == line@[3]
                && p[4] == line@[4]);
            if p == http_slash() {
                assert(p[0] == 72 && p[1] == 84 && p[2] == 84 && p[3] == 80 && p[4] == 47);
                assert(false);
            }
        }
        return None;
    }
    proof {
        assert(line@.subrange(0, 5) =~= http_slash());
    }
    let ghost rest = line@.subrange(i + 1, line@.len() as int);
    let rest_len = line.len() - (i + 1);
    proof {
        assert(rest.len() == rest_len);
        assert(forall|k: int| 0 <= k < rest.len() ==> rest[k] == line@[i + 1 + k]);
    }
    if rest_len < 3 {
        return None;
    }
    let b0 = line[i + 1];
    let b1 = line[i + 2];
    let b2 = line[i + 3];
    if !(48 <= b0 && b0 <= 57 && 48 <= b1 && b1 <= 57 && 48 <= b2 && b2 <= 57) {
        return None;
    }
    if rest_len > 3 && line[i + 4] != 32 {
        return None;
    }
    let code: u16 = 100 * ((b0 - 48) as u16) + 10 * ((b1 - 48) as u16) + ((b2 - 48) as u16);
    Some(code)
}

/// The lower-cased bytes of the `Content-Length` header name.
fn content_length_name_vec() -> (r: Vec<u8>)
    ensures
        r@ == content_length_name(),
{
    let mut v: Vec<u8> = Vec::new();
    v.push(99);
    v.push(111);
    v.push(110);
    v.push(116);
    v.push(101);
    v.push(110);
    v.push(116);
    v.push(45);
    v.push(108);
    v.push(101);
    v.push(110);
    v.push(103);
    v.push(116);
    v.push(104);
    proof {
        assert(v@ =~= content_length_name());
    }
    v
}

/// Whether `name`, lower-cased, equals `target`.
fn lower_eq(name: &[u8], target: &Vec<u8>) -> (r: bool)
    ensures
        r == (lower_seq(name@) == target@),
{
    if name.len() != target.len() {
        proof {
            if lower_seq(name@) == target@ {
                assert(lower_seq(name@).len() == target@.len());
                assert(false);
            }
        }
        return false;
    }
    let mut k: usize = 0;
    while k < name.len()
        invariant
            k <= name@.len(),
            name@.len() == target@.len(),
            forall|j: int| 0 <= j < k ==> to_lower_byte(name@[j]) == target@[j],
        decreases name@.len() - k,
    {
        let b = name[k];
        let lb: u8 = if 65 <= b && b <= 90 {
            b + 32
        } else {
            b
        };
        if lb != target[k] {
            proof {
                if lower_seq(name@) == target@ {
                    assert(lower_seq(name@)[k as int] == target@[k as int]);
                    assert(false);
                }
            }
            return false;
        }
        k = k + 1;
    }
    proof {
        assert(lower_seq(name@) =~= target@);
    }
    true
}

pub proof fn lemma_first_non_ws_exact(s: Seq<u8>, i: int)
    requires
        0 <= i < s.len(),
        !is_ws(s[i]),
        forall|k: int| 0 <= k < i ==> is_ws(#[trigger] s[k]),
    ensures
        first_non_ws(s) == i,
{
    lemma_first_non_ws(s);
    let f = first_non_ws(s);
    if f == -1 {
        assert(is_ws(s[i]));
        assert(false);
    } else if f < i {
        assert(is_ws(s[f]));
        assert(false);
    } else if f > i {
        assert(is_ws(s[i]));
        assert(false);
    }
}

pub proof fn lemma_last_non_ws_exact(s: Seq<u8>, i: int)
    requires
        0 <= i < s.len(),
        !is_ws(s[i]),
        forall|k: int| i < k < s.len() ==> is_ws(#[trigger] s[k]),
    ensures
        last_non_ws(s) == i,
{
    lemma_last_non_ws(s);
    let l = last_non_ws(s);
    if l == -1 {
        assert(is_ws(s[i]));
        assert(false);
    } else if l < i {
        assert(is_ws(s[i]));
        assert(false);
    } else if l > i {
        assert(is_ws(s[l]));
        assert(false);
    }
}

/// Copies the value part of a header line (everything after `from`), with
/// surrounding spaces and tabs removed.
fn trim_value(line: &[u8], from: usize) -> (r: Vec<u8>)
    requires
        from <= line@.len(),
    ensures
        r@ == trim_ws(line@.subrange(from as int, line@.len() as int)),
{
    let ghost value = line@.subrange(from as int, line@.len() as int);
    let n = line.len();
    let mut a: usize = from;
    while a < n && (line[a] == 32 || line[a] == 9)
        invariant
            from <= a <= n == line@.len(),
            forall|k: int| from <= k < a ==> is_ws(#[trigger] line@[k]),
        decreases n - a,
    {
        a = a + 1;
    }
    proof {
        assert(forall|k: int| 0 <= k < value.len() ==> value[k] == line@[from + k]);
    }
    if a == n {
        proof {
            lemma_first_non_ws(value);
            if first_non_ws(value) >= 0 {
                assert(!is_ws(value[first_non_ws(value)]));
                assert(is_ws(line@[from + first_non_ws(value)]));
                assert(false);
            }
            assert(trim_ws(value) =~= Seq::<u8>::empty());
        }
        return Vec::new();
    }
    let mut e: usize = n;
    while e > a + 1 && (line[e - 1] == 32 || line[e - 1] == 9)
        invariant
            a + 1 <= e <= n == line@.len(),
            forall|k: int| e <= k < n ==> is_ws(#[trigger] line@[k]),
        decreases e,
    {
        e = e - 1;
    }
    proof {
        assert(!is_ws(line@[a as int]));
        lemma_first_non_ws_exact(value, a - from);
        assert(!is_ws(line@[e - 1]));
        lemma_last_non_ws_exact(value, e - 1 - from);
        assert(trim_ws(value) =~= line@.subrange(a as int, e as int));
    }
    let out = vstd::slice::slice_to_vec(vstd::slice::slice_subrange(line, a, e));
    out
}

} // verus!

verus! {

pub proof fn lemma_spec_headers_elem_none(lines: Seq<Seq<u8>>, i: int)
    requires
        0 <= i < lines.len(),
        spec_parse_header(lines[i]) is None,
    ensures
        spec_headers(lines) is None,
    decreases lines.len(),
{
    if i == 0 {
    } else {
        lemma_spec_headers_elem_none(lines.drop_first(), i - 1);
    }
}

/// The decoded form of a response: its status code and its body, sliced to
/// exactly `Content-Length` bytes.
#[derive(Debug)]
pub struct Response {
    pub status_code: u16,
    pub body: Vec<u8>,
}

/// Splits the head of a response: the status code, the first
/// `Content-Length` value, and where the body starts.
fn parse_head(response: &[u8]) -> (r: Result<(u16, Option<Vec<u8>>, usize), Error>)
    ensures
        match spec_parse_head(response@) {
            Ok((code, clv, rest)) => r is Ok && r->Ok_0.0 == code && (match (
                r->Ok_0.1,
                clv,
            ) {
                (Some(v), Some(sv)) => v@ == sv,
                (None, None) => true,
                _ => false,
            }) && r->Ok_0.2 <= response@.len() && rest == response@.subrange(
                r->Ok_0.2 as int,
                response@.len() as int,
            ),
            Err(SpecDecodeErr::Incomplete) => r is Err && r->Err_0 is Event
                && r->Err_0->Event_0@ == "Incomplete response"@,
            Err(SpecDecodeErr::Bad) => r is Err && r->Err_0 is Event
                && r->Err_0->Event_0@ == "Bad HTTP response"@,
        },
{
    let ghost whole = response@;
    let n = response.len();
    let mut pos: usize = 0;
    let mut spans: Vec<(usize, usize)> = Vec::new();
    let ghost mut lines: Seq<Seq<u8>> = Seq::empty();
    let mut body_start_opt: Option<usize> = None;
    proof {
        assert(whole.subrange(0, whole.len() as int) =~= whole);
        match spec_split_lines(whole) {
            None => {},
            Some((ls, bd)) => {
                assert(Seq::<Seq<u8>>::empty() + ls =~= ls);
            },
        }
    }
    while body_start_opt.is_none()
        invariant
            pos <= n,
            n == whole.len(),
            whole == response@,
            spans@.len() == lines.len(),
            forall|k: int|
                0 <= k < lines.len() ==> (#[trigger] spans@[k]).0 <= spans@[k].1 && spans@[k].1
                    <= whole.len() && lines[k] == whole.subrange(
                    spans@[k].0 as int,
                    spans@[k].1 as int,
                ),
            match body_start_opt {
                None => glue_lines(
                    lines,
                    spec_split_lines(whole.subrange(pos as int, whole.len() as int)),
                ) == spec_split_lines(whole),
                Some(bs) => bs <= whole.len() && spec_split_lines(whole) == Some(
                    (lines, whole.subrange(bs as int, whole.len() as int)),
                ),
            },
        decreases (if body_start_opt is Some {
            0int
        } else {
            n - pos + 1
        }),
    {
        let ghost suffix = whole.subrange(pos as int, whole.len() as int);
        match find_crlf_from(response, pos) {
            None => {
                proof {
                    assert(spec_split_lines(suffix) is None);
                }
                return Err(Error::Event("Incomplete response".to_owned()));
            },
            Some(j) => {
                if j == pos {
                    proof {
                        assert(find_crlf(suffix) == 0);
                        assert(spec_split_lines(suffix) == Some(
                            (Seq::<Seq<u8>>::empty(), suffix.subrange(2, suffix.len() as int)),
                        ));
                        assert(lines + Seq::<Seq<u8>>::empty() =~= lines);
                        assert(suffix.subrange(2, suffix.len() as int) =~= whole.subrange(
                            pos as int + 2,
                            whole.len() as int,
                        ));
                    }
                    body_start_opt = Some(pos + 2);
                } else {
                    proof {
                        let i = j - pos;
                        assert(find_crlf(suffix) == i && i > 0);
                        assert(suffix.subrange(i + 2, suffix.len() as int) =~= whole.subrange(
                            j as int + 2,
                            whole.len() as int,
                        ));
                        assert(suffix.subrange(0, i) =~= whole.subrange(pos as int, j as int));
                        let next = spec_split_lines(
                            whole.subrange(j as int + 2, whole.len() as int),
                        );
                        match next {
                            None => {
                                assert(spec_split_lines(suffix) is None);
                            },
                            Some((ls, bd)) => {
                                assert(spec_split_lines(suffix) == Some(
                                    (seq![whole.subrange(pos as int, j as int)] + ls, bd),
                                ));
                                assert(lines + (seq![whole.subrange(pos as int, j as int)] + ls)
                                    =~= lines.push(whole.subrange(pos as int, j as int)) + ls);
                            },
                        }
                    }
                    spans.push((pos, j));
                    proof {
                        lines = lines.push(whole.subrange(pos as int, j as int));
                    }
                    pos = j + 2;
                }
            },
        }
    }
    let body_start: usize = match body_start_opt {
        Some(bs) => bs,
        None => {
            proof {
                assert(false);
            }
            0
        },
    };
    let ghost rest = whole.subrange(body_start as int, whole.len() as int);
    if spans.len() == 0 {
        return Err(Error::Event("Bad HTTP response".to_owned()));
    }
    if spans.len() > MAX_HEADERS + 1 {
        return Err(Error::Event("Bad HTTP response".to_owned()));
    }
    let (s0, e0) = (spans[0].0, spans[0].1);
    let first_line = vstd::slice::slice_subrange(response, s0, e0);
    let code = match parse_status_line(first_line) {
        Some(c) => c,
        None => {
            proof {
                assert(spec_parse_status(lines[0]) is None);
            }
            return Err(Error::Event("Bad HTTP response".to_owned()));
        },
    };
    let cl_name = content_length_name_vec();
    let mut cl: Option<Vec<u8>> = None;
    let ghost mut hdrs: Seq<(Seq<u8>, Seq<u8>)> = Seq::empty();
    let mut k: usize = 1;
    while k < spans.len()
        invariant
            1 <= k <= spans@.len(),
            n == whole.len(),
            whole == response@,
            body_start <= whole.len(),
            rest == whole.subrange(body_start as int, whole.len() as int),
            spec_split_lines(whole) == Some((lines, rest)),
            1 <= lines.len() <= MAX_HEADERS as int + 1,
            spec_parse_status(lines[0]) == Some(code),
            cl_name@ == content_length_name(),
            spans@.len() == lines.len(),
            forall|t: int|
                0 <= t < lines.len() ==> (#[trigger] spans@[t]).0 <= spans@[t].1 && spans@[t].1
                    <= whole.len() && lines[t] == whole.subrange(
                    spans@[t].0 as int,
                    spans@[t].1 as int,
                ),
            spec_headers(lines.subrange(1, k as int)) == Some(hdrs),
            match cl {
                Some(v) => spec_first_value(hdrs, content_length_name()) == Some(v@),
                None => spec_first_value(hdrs, content_length_name()) is None,
            },
        decreases spans@.len() - k,
    {
        let (sk, ek) = (spans[k].0, spans[k].1);
        let line = vstd::slice::slice_subrange(response, sk, ek);
        proof {
            assert(line@ == lines[k as int]);
        }
        let c = match find_byte_in(line, 58) {
            Some(c) if c > 0 => c,
            _ => {
                proof {
                    assert(spec_parse_header(lines[k as int]) is None);
                    assert(lines.drop_first()[k as int - 1] == lines[k as int]);
                    lemma_spec_headers_elem_none(lines.drop_first(), k as int - 1);
                    assert(lines.drop_first() =~= lines.subrange(1, lines.len() as int));
                }
                return Err(Error::Event("Bad HTTP response".to_owned()));
            },
        };
        proof {
            lemma_find_byte(line@, 58);
        }
        let ghost h = spec_parse_header(lines[k as int])->Some_0;
        let name = vstd::slice::slice_subrange(line, 0, c);
        let is_cl = lower_eq(name, &cl_name);
        proof {
            assert(name@ == line@.subrange(0, c as int));
            assert(h.0 == lower_seq(line@.subrange(0, c as int)));
            assert(h.1 == trim_ws(line@.subrange(c as int + 1, line@.len() as int)));
        }
        if is_cl && cl.is_none() {
            let v = trim_value(line, c + 1);
            proof {
                assert(v@ == h.1);
            }
            cl = Some(v);
        }
        proof {
            lemma_spec_headers_snoc(lines.subrange(1, k as int), lines[k as int]);
            assert(lines.subrange(1, k as int).push(lines[k as int]) =~= lines.subrange(
                1,
                k as int + 1,
            ));
            lemma_first_value_snoc(hdrs, content_length_name(), h);
            hdrs = hdrs.push(h);
        }
        k = k + 1;
    }
    proof {
        assert(lines.subrange(1, lines.len() as int) =~= lines.drop_first());
        assert(spec_headers(lines.drop_first()) == Some(hdrs));
    }
    Ok((code, cl, body_start))
}

/// Decodes a response into its status code and `Content-Length`-delimited
/// body. A message with no blank line or a truncated body is incomplete; a
/// malformed status line or header, a missing or unreadable
/// `Content-Length`, or more than 64 headers is a protocol error.
pub fn decode(response: &[u8]) -> (r: Result<Response, Error>)
    ensures
        match spec_decode(response@) {
            Ok((code, body)) => r is Ok && r->Ok_0.status_code == code && r->Ok_0.body@ == body,
            Err(SpecDecodeErr::Incomplete) => r is Err && r->Err_0 is Event
                && r->Err_0->Event_0@ == "Incomplete response"@,
            Err(SpecDecodeErr::Bad) => r is Err && r->Err_0 is Event
                && r->Err_0->Event_0@ == "Bad HTTP response"@,
        },
{
    let (code, cl, body_start) = match parse_head(response) {
        Ok(t) => t,
        Err(e) => {
            return Err(e);
        },
    };
    let v = match cl {
        Some(v) => v,
        None => {
            return Err(Error::Event("Bad HTTP response".to_owned()));
        },
    };
    let len64 = match crate::digits::parse_u64(v.as_slice()) {
        Some(x) => x,
        None => {
            return Err(Error::Event("Bad HTTP response".to_owned()));
        },
    };
    if len64 > usize::MAX as u64 {
        return Err(Error::Event("Bad HTTP response".to_owned()));
    }
    let len: usize = len64 as usize;
    if response.len() - body_start < len {
        return Err(Error::Event("Incomplete response".to_owned()));
    }
    let body = vstd::slice::slice_to_vec(
        vstd::slice::slice_subrange(response, body_start, body_start + len),
    );
    proof {
        let rest = response@.subrange(body_start as int, response@.len() as int);
        assert(body@ =~= rest.subrange(0, len as int));
    }
    Ok(Response { status_code: code, body })
}

/// Reads only the status code of a response; a missing `Content-Length`
/// does not bother it.
pub fn status_code(response: &[u8]) -> (r: Result<u16, Error>)
    ensures
        match spec_status_code(response@) {
            Ok(code) => r is Ok && r->Ok_0 == code,
            Err(SpecDecodeErr::Incomplete) => r is Err && r->Err_0 is Event
                && r->Err_0->Event_0@ == "Incomplete response"@,
            Err(SpecDecodeErr::Bad) => r is Err && r->Err_0 is Event
                && r->Err_0->Event_0@ == "Bad HTTP response"@,
        },
{
    match parse_head(response) {
        Ok((code, cl, body_start)) => Ok(code),
        Err(e) => Err(e),
    }
}

} // verus!

verus! {

// ---------------------------------------------------------------------------
// Framing laws
// ---------------------------------------------------------------------------

/// Reads a request line back into its method and path tokens.
pub open spec fn spec_parse_request_line(line: Seq<u8>) -> Option<(Seq<u8>, Seq<u8>)> {
    let i = find_byte(line, 32);
    if i < 0 {
        None
    } else {
        let m = line.subrange(0, i);
        let tail = line.subrange(i + 1, line.len() as int);
        let j = find_byte(tail, 32);
        if j < 0 {
            None
        } else {
            let p = tail.subrange(0, j);
            let v = tail.subrange(j + 1, tail.len() as int);
            if v == version_bytes() {
                Some((m, p))
            } else {
                None
            }
        }
    }
}

/// Reads encoded request bytes back: the method token, the path bytes, and
/// the payload (`None` when the request carries the empty-payload marker).
pub open spec fn spec_parse_request(b: Seq<u8>) -> Option<(Seq<u8>, Seq<u8>, Option<Seq<u8>>)> {
    match spec_split_lines(b) {
        None => None,
        Some((lines, rest)) => {
            if lines.len() == 0 {
                None
            } else {
                match spec_parse_request_line(lines[0]) {
                    None => None,
                    Some((m, p)) => {
                        if lines.len() == 1 {
                            if rest.len() == 0 {
                                Some((m, p, None))
                            } else {
                                None
                            }
                        } else {
                            match spec_headers(lines.drop_first()) {
                                None => None,
                                Some(hdrs) => match spec_first_value(
                                    hdrs,
                                    content_length_name(),
                                ) {
                                    None => None,
                                    Some(v) => {
                                        if v.len() > 0 && all_digits(v) && dec_value(v)
                                            <= rest.len() {
                                            Some(
                                                (m, p, Some(rest.subrange(0, dec_value(v) as int))),
                                            )
                                        } else {
                                            None
                                        }
                                    },
                                },
                            }
                        }
                    },
                }
            }
        },
    }
}

proof fn lemma_split_line_prefix(a: Seq<u8>, rest: Seq<u8>)
    requires
        a.len() > 0,
        forall|i: int| 0 <= i < a.len() ==> #[trigger] a[i] != 13,
    ensures
        spec_split_lines(a + crlf() + rest) == glue_lines(seq![a], spec_split_lines(rest)),
{
    let w = a + crlf() + rest;
    assert(w[a.len() as int] == 13);
    assert(w[a.len() as int + 1] == 10);
    assert(crlf_at(w, a.len() as int));
    assert forall|k: int| 0 <= k < a.len() implies !crlf_at(w, k) by {
        assert(w[k] == a[k]);
    }
    lemma_find_crlf_exact(w, a.len() as int);
    assert(w.subrange(0, a.len() as int) =~= a);
    assert(w.subrange(a.len() as int + 2, w.len() as int) =~= rest);
    match spec_split_lines(rest) {
        None => {},
        Some((ls, bd)) => {
            assert(spec_split_lines(w) == Some((seq![a] + ls, bd)));
        },
    }
}

proof fn lemma_split_final(rest: Seq<u8>)
    ensures
        spec_split_lines(crlf() + rest) == Some((Seq::<Seq<u8>>::empty(), rest)),
{
    let w = crlf() + rest;
    assert(w[0] == 13);
    assert(w[1] == 10);
    assert(crlf_at(w, 0));
    lemma_find_crlf_exact(w, 0);
    assert(w.subrange(2, w.len() as int) =~= rest);
}

/// The request line never holds a carriage return: the method and version
/// tokens are fixed letters, and the path is assumed clean.
proof fn lemma_request_line_no_cr(m: Method, path: Seq<u8>)
    requires
        forall|i: int| 0 <= i < path.len() ==> #[trigger] path[i] != 13,
    ensures
        forall|i: int|
            0 <= i < spec_request_line(m, path).len() ==> #[trigger] spec_request_line(m, path)[i]
                != 13,
{
    let line = spec_request_line(m, path);
    let mb = method_bytes(m);
    assert forall|i: int| 0 <= i < line.len() implies #[trigger] line[i] != 13 by {
        if i < mb.len() {
            assert(line[i] == mb[i]);
        } else if i == mb.len() {
            assert(line[i] == 32);
        } else if i < mb.len() + 1 + path.len() {
            assert(line[i] == path[i - mb.len() - 1]);
        } else if i == mb.len() + 1 + path.len() {
            assert(line[i] == 32);
        } else {
            assert(line[i] == version_bytes()[i - (mb.len() + 1 + path.len() + 1)]);
        }
    }
}

/// Framing loses nothing: the wire encoding of a request parses back to
/// exactly its method, path and payload bytes, so a peer that echoes the
/// bytes hands back the request unchanged. The path must not contain a
/// space, carriage return or line feed, which no control-API path does.
pub proof fn lemma_decode_encode_request(m: Method, path: Seq<u8>, payload: Option<Seq<u8>>)
    requires
        forall|i: int|
            0 <= i < path.len() ==> #[trigger] path[i] != 32 && path[i] != 13 && path[i] != 10,
    ensures
        spec_parse_request(spec_encode(m, path, payload)) == Some(
            (method_bytes(m), path, payload),
        ),
{
    let line = spec_request_line(m, path);
    let mb = method_bytes(m);
    lemma_request_line_no_cr(m, path);

    // The request line splits into its two tokens.
    assert(spec_parse_request_line(line) == Some((mb, path))) by {
        assert(line[mb.len() as int] == 32);
        assert forall|k: int| 0 <= k < mb.len() implies line[k] != 32 by {
            assert(line[k] == mb[k]);
        }
        lemma_find_byte_exact(line, 32, mb.len() as int);
        assert(line.subrange(0, mb.len() as int) =~= mb);
        let tail = line.subrange(mb.len() as int + 1, line.len() as int);
        assert(tail =~= path + sp() + version_bytes());
        assert(tail[path.len() as int] == 32);
        assert forall|k: int| 0 <= k < path.len() implies tail[k] != 32 by {
            assert(tail[k] == path[k]);
        }
        lemma_find_byte_exact(tail, 32, path.len() as int);
        assert(tail.subrange(0, path.len() as int) =~= path);
        assert(tail.subrange(path.len() as int + 1, tail.len() as int) =~= version_bytes());
    }

    match payload {
        None => {
            let w = spec_encode(m, path, None);
            assert(w =~= line + crlf() + (crlf() + Seq::<u8>::empty()));
            lemma_split_final(Seq::<u8>::empty());
            lemma_split_line_prefix(line, crlf() + Seq::<u8>::empty());
            let lines = seq![line] + Seq::<Seq<u8>>::empty();
            assert(spec_split_lines(w) == Some((lines, Seq::<u8>::empty())));
            assert(lines.len() == 1);
            assert(lines[0] == line);
        },
        Some(b) => {
            let digits = dec_bytes(b.len());
            let cl_line = content_length_label() + digits;
            lemma_dec_bytes_all_digits(b.len());
            assert forall|i: int| 0 <= i < cl_line.len() implies #[trigger] cl_line[i] != 13 by {
                if i < content_length_label().len() {
                    assert(cl_line[i] == content_length_label()[i]);
                } else {
                    assert(cl_line[i] == digits[i - content_length_label().len()]);
                    assert(is_digit_byte(digits[i - content_length_label().len()]));
                }
            }
            let w = spec_encode(m, path, Some(b));
            assert(w =~= line + crlf() + (cl_line + crlf() + (crlf() + b)));
            lemma_split_final(b);
            lemma_split_line_prefix(cl_line, crlf() + b);
            lemma_split_line_prefix(line, cl_line + crlf() + (crlf() + b));
            let lines = seq![line] + (seq![cl_line] + Seq::<Seq<u8>>::empty());
            assert(spec_split_lines(w) == Some((lines, b)));
            assert(lines.len() == 2);
            assert(lines[0] == line);
            assert(lines[1] == cl_line);

            // The one header parses to a content-length of exactly `b.len()`.
            assert(spec_parse_header(cl_line) == Some((content_length_name(), digits))) by {
                assert(cl_line[14] == 58);
                assert forall|k: int| 0 <= k < 14 implies cl_line[k] != 58 by {
                    assert(cl_line[k] == content_length_label()[k]);
                }
                lemma_find_byte_exact(cl_line, 58, 14);
                assert(lower_seq(cl_line.subrange(0, 14)) =~= content_length_name());
                let v = cl_line.subrange(15, cl_line.len() as int);
                assert(v =~= seq![32u8] + digits);
                assert(digits.len() > 0);
                assert(is_digit_byte(digits[0]));
                assert(v[1] == digits[0]);
                assert(!is_ws(v[1]));
                assert(is_ws(v[0]));
                lemma_first_non_ws_exact(v, 1);
                assert(!is_ws(v[v.len() - 1])) by {
                    assert(v[v.len() - 1] == digits[digits.len() - 1]);
                    assert(is_digit_byte(digits[digits.len() - 1]));
                }
                lemma_last_non_ws_exact(v, v.len() - 1);
                assert(trim_ws(v) =~= digits);
            }
            let hdrs0 = Seq::<(Seq<u8>, Seq<u8>)>::empty();
            lemma_spec_headers_snoc(Seq::<Seq<u8>>::empty(), cl_line);
            assert(Seq::<Seq<u8>>::empty().push(cl_line) =~= seq![cl_line]);
            assert(lines.drop_first() =~= seq![cl_line]);
            assert(spec_headers(lines.drop_first()) == Some(
                hdrs0.push((content_length_name(), digits)),
            ));
            let hdrs = hdrs0.push((content_length_name(), digits));
            assert(hdrs[0] == (content_length_name(), digits));
            assert(spec_first_value(hdrs, content_length_name()) == Some(digits));
            lemma_dec_value_of_dec_bytes(b.len());
            assert(b.subrange(0, b.len() as int) =~= b);
        },
    }
}

/// A response whose head parses but holds no `Content-Length` header is
/// rejected as a protocol error: the codec has no chunked-transfer fallback.
pub proof fn lemma_decode_missing_content_length(b: Seq<u8>)
    requires
        spec_parse_head(b) matches Ok((code, clv, rest)) && clv is None,
    ensures
        spec_decode(b) == Err::<(u16, Seq<u8>), SpecDecodeErr>(SpecDecodeErr::Bad),
{
}

} // verus!
