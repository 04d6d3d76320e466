//! A `unity://` protocol handler used to confirm that requests for the
//! scheme are routed to the embedder. Every request is answered with the
//! same status, `503 smoke-stub`, with a JSON body that echoes the
//! request's URL parts as JSON strings.
use vstd::prelude::*;
use vstd::string::*;

verus! {

/// The status code of every response of the handler.
pub const SMOKE_STATUS_CODE: u16 = 503;

/// The reason phrase of every response of the handler.
pub const SMOKE_STATUS_TEXT: &'static str = "smoke-stub";

/// The media type of every response of the handler.
pub const SMOKE_CONTENT_TYPE: &'static str = "application/json";

/// The body up to the scheme.
pub const BODY_BEFORE_SCHEME: &'static str = "{\"ok\":false,\"error\":\"unity_smoke_handler\",\"scheme\":";

/// The body between the scheme and the path.
pub const BODY_BEFORE_PATH: &'static str = ",\"path\":";

/// The body between the path and the query.
pub const BODY_BEFORE_QUERY: &'static str = ",\"query\":";

/// What stands for the query when the URL has none.
pub const BODY_NO_QUERY: &'static str = "null";

/// The end of the body.
pub const BODY_END: &'static str = "}";

/// The lowercase hexadecimal digit of `n` (below 16).
pub open spec fn hex_digit(n: u8) -> u8 {
    if n < 10 {
        (0x30u8 + n) as u8
    } else {
        (0x61u8 + n - 10) as u8
    }
}

/// What one byte becomes inside a JSON string: a double quote and a
/// backslash are preceded by a backslash, a control byte (below 0x20) is
/// written as `\u00XX` in lowercase hexadecimal, every other byte stays as
/// it is (so UTF-8 sequences pass through whole).
pub open spec fn json_escaped_byte(b: u8) -> Seq<u8> {
    if b == 0x22u8 {
        seq![0x5cu8, 0x22u8]
    } else if b == 0x5cu8 {
        seq![0x5cu8, 0x5cu8]
    } else if b < 0x20u8 {
        seq![0x5cu8, 0x75u8, 0x30u8, 0x30u8, hex_digit(b / 16), hex_digit(b % 16)]
    } else {
        seq![b]
    }
}

/// The bytes of `s` escaped for the inside of a JSON string.
pub open spec fn json_escape(s: Seq<u8>) -> Seq<u8>
    decreases s.len(),
{
    if s.len() == 0 {
        Seq::empty()
    } else {
        json_escape(s.drop_last()) + json_escaped_byte(s.last())
    }
}

/// `s` as a JSON string: in double quotes, escaped.
pub open spec fn json_string(s: Seq<u8>) -> Seq<u8> {
    seq![0x22u8] + json_escape(s) + seq![0x22u8]
}

/// An escaped string holds no control byte, as JSON requires of the inside
/// of a string.
pub proof fn lemma_json_escape_has_no_control_bytes(s: Seq<u8>)
    ensures
        forall|i: int| 0 <= i < json_escape(s).len() ==> json_escape(s)[i] >= 0x20u8,
    decreases s.len(),
{
    if s.len() > 0 {
        lemma_json_escape_has_no_control_bytes(s.drop_last());
        let b = s.last();
        let e = json_escaped_byte(b);
        assert forall|i: int| 0 <= i < e.len() implies e[i] >= 0x20u8 by {
            if b < 0x20u8 && b != 0x22u8 && b != 0x5cu8 {
                assert(b / 16 < 2 && b % 16 < 16);
            }
        }
        let prev = json_escape(s.drop_last());
        assert forall|i: int| 0 <= i < json_escape(s).len() implies json_escape(s)[i] >= 0x20u8 by {
            if i >= prev.len() {
                assert(json_escape(s)[i] == e[i - prev.len()]);
            } else {
                assert(json_escape(s)[i] == prev[i]);
            }
        }
    }
}

/// A string without double quotes, backslashes or control bytes is its own
/// escape.
pub proof fn lemma_json_escape_plain(s: Seq<u8>)
    requires
        forall|i: int| 0 <= i < s.len() ==> s[i] >= 0x20u8 && s[i] != 0x22u8 && s[i] != 0x5cu8,
    ensures
        json_escape(s) == s,
    decreases s.len(),
{
    if s.len() > 0 {
        lemma_json_escape_plain(s.drop_last());
        assert(s.drop_last().push(s.last()) =~= s);
    }
}

/// The JSON value that stands for the query: `null` when there is none,
/// else the query as a JSON string.
pub open spec fn query_json(query: Option<Seq<u8>>) -> Seq<u8> {
    match query {
        Some(q) => json_string(q),
        None => BODY_NO_QUERY.spec_bytes(),
    }
}

/// The body of the response to a request whose URL has the given scheme,
/// path and query: the JSON object
/// `{"ok":false,"error":"unity_smoke_handler","scheme":S,"path":P,"query":Q}`
/// where `S` and `P` are the scheme and the path as JSON strings and `Q` is
/// the query as a JSON string or `null`.
pub open spec fn smoke_body(scheme: Seq<u8>, path: Seq<u8>, query: Option<Seq<u8>>) -> Seq<u8> {
    BODY_BEFORE_SCHEME.spec_bytes() + json_string(scheme) + BODY_BEFORE_PATH.spec_bytes()
        + json_string(path) + BODY_BEFORE_QUERY.spec_bytes() + query_json(query)
        + BODY_END.spec_bytes()
}

/// The bytes of an optional string.
pub open spec fn option_bytes(s: Option<&str>) -> Option<Seq<u8>> {
    match s {
        Some(q) => Some(q.spec_bytes()),
        None => None,
    }
}

/// What the handler answers: a status line, the body's media type and the
/// body.
pub struct SmokeResponse {
    pub status_code: u16,
    pub status_text: Vec<u8>,
    pub content_type: &'static str,
    pub body: Vec<u8>,
}

/// Handler for the `unity://` scheme. It holds no state.
pub struct UnitySmokeProtocolHandler {}

impl Default for UnitySmokeProtocolHandler {
    fn default() -> (r: Self)
        ensures
            r == (UnitySmokeProtocolHandler {}),
    {
        UnitySmokeProtocolHandler {  }
    }
}

proof fn lemma_json_escape_push(s: Seq<u8>, b: u8)
    ensures
        json_escape(s.push(b)) == json_escape(s) + json_escaped_byte(b),
{
    assert(s.push(b).drop_last() =~= s);
}

/// The lowercase hexadecimal digit of `n`.
fn hex_digit_of(n: u8) -> (r: u8)
    requires
        n < 16,
    ensures
        r == hex_digit(n),
{
    if n < 10 {
        0x30u8 + n
    } else {
        0x61u8 + n - 10
    }
}

/// Appends `bytes` to the end of `out`.
fn append_bytes(out: &mut Vec<u8>, bytes: &[u8])
    ensures
        final(out)@ == old(out)@ + bytes@,
{
    let mut i: usize = 0;
    while i < bytes.len()
        invariant
            i <= bytes@.len(),
            out@ == old(out)@ + bytes@.subrange(0, i as int),
        decreases bytes@.len() - i,
    {
        out.push(bytes[i]);
        i = i + 1;
        assert(bytes@.subrange(0, i as int) =~= bytes@.subrange(0, i - 1 as int).push(bytes@[i - 1]));
    }
    assert(bytes@.subrange(0, bytes@.len() as int) =~= bytes@);
}

/// Appends `text` to the end of `out` as a JSON string: in double quotes,
/// escaped.
fn append_json_string(out: &mut Vec<u8>, text: &[u8])
    ensures
        final(out)@ == old(out)@ + json_string(text@),
{
    out.push(0x22u8);
    let ghost start = out@;
    let mut i: usize = 0;
    while i < text.len()
        invariant
            i <= text@.len(),
            out@ == start + json_escape(text@.subrange(0, i as int)),
        decreases text@.len() - i,
    {
        let b = text[i];
        proof {
            assert(text@.subrange(0, i + 1 as int) =~= text@.subrange(0, i as int).push(b));
            lemma_json_escape_push(text@.subrange(0, i as int), b);
        }
        if b == 0x22u8 || b == 0x5cu8 {
            out.push(0x5cu8);
            out.push(b);
            assert(json_escaped_byte(b) =~= seq![0x5cu8, b]);
        } else if b < 0x20u8 {
            out.push(0x5cu8);
            out.push(0x75u8);
            out.push(0x30u8);
            out.push(0x30u8);
            out.push(hex_digit_of(b / 16));
            out.push(hex_digit_of(b % 16));
            assert(json_escaped_byte(b) =~= seq![
                0x5cu8,
                0x75u8,
                0x30u8,
                0x30u8,
                hex_digit(b / 16),
                hex_digit(b % 16),
            ]);
        } else {
            out.push(b);
            assert(json_escaped_byte(b) =~= seq![b]);
        }
        i = i + 1;
    }
    assert(text@.subrange(0, text@.len() as int) =~= text@);
    out.push(0x22u8);
    assert(out@ =~= old(out)@ + json_string(text@));
}

/// The body of the response to a request whose URL has the given scheme,
/// path and query.
pub fn smoke_response_body(scheme: &str, path: &str, query: Option<&str>) -> (r: Vec<u8>)
    ensures
        r@ == smoke_body(scheme.spec_bytes(), path.spec_bytes(), option_bytes(query)),
        r@ == BODY_BEFORE_SCHEME.spec_bytes() + json_string(scheme.spec_bytes())
                + BODY_BEFORE_PATH.spec_bytes() + json_string(path.spec_bytes())
                + BODY_BEFORE_QUERY.spec_bytes() + query_json(option_bytes(query))
                + BODY_END.spec_bytes(),
{
    let mut out: Vec<u8> = Vec::new();
    append_bytes(&mut out, BODY_BEFORE_SCHEME.as_bytes());
    append_json_string(&mut out, scheme.as_bytes());
    append_bytes(&mut out, BODY_BEFORE_PATH.as_bytes());
    append_json_string(&mut out, path.as_bytes());
    append_bytes(&mut out, BODY_BEFORE_QUERY.as_bytes());
    match query {
        Some(q) => {
            append_json_string(&mut out, q.as_bytes());
        },
        None => {
            append_bytes(&mut out, BODY_NO_QUERY.as_bytes());
        },
    }
    append_bytes(&mut out, BODY_END.as_bytes());
    proof {
        let ghost q = option_bytes(query);
        assert(out@ =~= smoke_body(scheme.spec_bytes(), path.spec_bytes(), q));
    }
    out
}

impl UnitySmokeProtocolHandler {
    /// Responses of this handler may be fetched.
    pub fn is_fetchable(&self) -> (r: bool)
        ensures
            r,
    {
        true
    }

    /// The scheme is treated as a secure context.
    pub fn is_secure(&self) -> (r: bool)
        ensures
            r,
    {
        true
    }

    /// The response to a request whose URL has the given scheme, path and
    /// query: always `503 smoke-stub`, of type `application/json`, with the
    /// JSON body that `smoke_body` describes.
    pub fn load(&self, scheme: &str, path: &str, query: Option<&str>) -> (r: SmokeResponse)
        ensures
            r.status_code == 503,
            r.status_text@ == SMOKE_STATUS_TEXT.spec_bytes(),
            r.content_type == SMOKE_CONTENT_TYPE,
            r.body@ == smoke_body(scheme.spec_bytes(), path.spec_bytes(), option_bytes(query)),
            r.body@ == BODY_BEFORE_SCHEME.spec_bytes() + json_string(scheme.spec_bytes())
                    + BODY_BEFORE_PATH.spec_bytes() + json_string(path.spec_bytes())
                    + BODY_BEFORE_QUERY.spec_bytes() + query_json(option_bytes(query))
                    + BODY_END.spec_bytes(),
    {
        let body = smoke_response_body(scheme, path, query);
        let mut status_text: Vec<u8> = Vec::new();
        append_bytes(&mut status_text, SMOKE_STATUS_TEXT.as_bytes());
        SmokeResponse {
            status_code: SMOKE_STATUS_CODE,
            status_text,
            content_type: SMOKE_CONTENT_TYPE,
            body,
        }
    }
}

/// The value of a lowercase hexadecimal digit.
pub open spec fn hex_value(d: u8) -> int {
    if 0x30u8 <= d <= 0x39u8 {
        d - 0x30
    } else {
        d - 0x61 + 10
    }
}

/// How a JSON reader decodes the inside of a string written with the
/// escapes this handler uses: `\"` and `\\` stand for the escaped byte,
/// `\u00XX` for the byte with that hexadecimal value; any other byte
/// stands for itself.
pub open spec fn json_unescape(s: Seq<u8>) -> Seq<u8>
    decreases s.len(),
{
    if s.len() == 0 {
        Seq::empty()
    } else if s[0] == 0x5cu8 && s.len() >= 2 && (s[1] == 0x22u8 || s[1] == 0x5cu8) {
        seq![s[1]] + json_unescape(s.subrange(2, s.len() as int))
    } else if s[0] == 0x5cu8 && s.len() >= 6 && s[1] == 0x75u8 {
        seq![(hex_value(s[4]) * 16 + hex_value(s[5])) as u8] + json_unescape(
            s.subrange(6, s.len() as int),
        )
    } else {
        seq![s[0]] + json_unescape(s.drop_first())
    }
}

/// Escaping distributes over concatenation.
pub proof fn lemma_json_escape_concat(a: Seq<u8>, b: Seq<u8>)
    ensures
        json_escape(a + b) == json_escape(a) + json_escape(b),
    decreases b.len(),
{
    if b.len() == 0 {
        assert(a + b =~= a);
        assert(json_escape(b) =~= Seq::<u8>::empty());
        assert(json_escape(a) + json_escape(b) =~= json_escape(a));
    } else {
        lemma_json_escape_concat(a, b.drop_last());
        assert((a + b).drop_last() =~= a + b.drop_last());
        assert((a + b).last() == b.last());
        assert(json_escape(a + b) =~= json_escape(a) + json_escape(b.drop_last()) + json_escaped_byte(
            b.last(),
        ));
    }
}

proof fn lemma_json_escape_front(s: Seq<u8>)
    requires
        s.len() > 0,
    ensures
        json_escape(s) == json_escaped_byte(s[0]) + json_escape(s.drop_first()),
{
    let head = seq![s[0]];
    assert(head + s.drop_first() =~= s);
    lemma_json_escape_concat(head, s.drop_first());
    assert(head.drop_last() =~= Seq::<u8>::empty());
    assert(head.last() == s[0]);
    assert(json_escape(head.drop_last()) =~= Seq::<u8>::empty());
    assert(json_escape(head) =~= json_escaped_byte(s[0]));
}

proof fn lemma_unescape_escaped_byte(b: u8, rest: Seq<u8>)
    ensures
        json_unescape(json_escaped_byte(b) + rest) == seq![b] + json_unescape(rest),
{
    let e = json_escaped_byte(b) + rest;
    if b == 0x22u8 || b == 0x5cu8 {
        assert(e.subrange(2, e.len() as int) =~= rest);
    } else if b < 0x20u8 {
        assert(e.subrange(6, e.len() as int) =~= rest);
        assert(e[4] == hex_digit(b / 16) && e[5] == hex_digit(b % 16));
        assert(hex_value(hex_digit(b / 16)) == b / 16);
        assert(hex_value(hex_digit(b % 16)) == b % 16);
        assert((b / 16) * 16 + b % 16 == b);
    } else {
        assert(e.drop_first() =~= rest);
    }
}

/// Decoding an escaped string gives back the string, byte for byte: nothing
/// is dropped, added or changed by the escaping.
pub proof fn lemma_json_unescape_escape(s: Seq<u8>)
    ensures
        json_unescape(json_escape(s)) == s,
    decreases s.len(),
{
    if s.len() == 0 {
        assert(json_escape(s) =~= Seq::<u8>::empty());
    } else {
        lemma_json_escape_front(s);
        lemma_unescape_escaped_byte(s[0], json_escape(s.drop_first()));
        lemma_json_unescape_escape(s.drop_first());
        assert(seq![s[0]] + s.drop_first() =~= s);
    }
}

/// The body holds the scheme, the path and the query, each as a JSON
/// string that decodes to exactly the given bytes, between the fixed keys:
/// `{"ok":false,"error":"unity_smoke_handler","scheme":` scheme `,"path":`
/// path `,"query":` query-or-null `}`.
pub proof fn lemma_smoke_body_echoes_url(scheme: Seq<u8>, path: Seq<u8>, query: Option<Seq<u8>>)
    ensures
        smoke_body(scheme, path, query) == BODY_BEFORE_SCHEME.spec_bytes() + seq![0x22u8]
            + json_escape(scheme) + seq![0x22u8] + BODY_BEFORE_PATH.spec_bytes() + seq![0x22u8]
            + json_escape(path) + seq![0x22u8] + BODY_BEFORE_QUERY.spec_bytes() + (match query {
            Some(q) => seq![0x22u8] + json_escape(q) + seq![0x22u8],
            None => BODY_NO_QUERY.spec_bytes(),
        }) + BODY_END.spec_bytes(),
        json_unescape(json_escape(scheme)) == scheme,
        json_unescape(json_escape(path)) == path,
        query matches Some(q) ==> json_unescape(json_escape(q)) == q,
{
    lemma_json_unescape_escape(scheme);
    lemma_json_unescape_escape(path);
    if let Some(q) = query {
        lemma_json_unescape_escape(q);
    }
    assert(smoke_body(scheme, path, query) =~= BODY_BEFORE_SCHEME.spec_bytes() + seq![0x22u8]
        + json_escape(scheme) + seq![0x22u8] + BODY_BEFORE_PATH.spec_bytes() + seq![0x22u8]
        + json_escape(path) + seq![0x22u8] + BODY_BEFORE_QUERY.spec_bytes() + (match query {
        Some(q) => seq![0x22u8] + json_escape(q) + seq![0x22u8],
        None => BODY_NO_QUERY.spec_bytes(),
    }) + BODY_END.spec_bytes());
}

/// A path of plain bytes (no double quote, backslash or control byte) is
/// echoed verbatim: the body holds its bytes unchanged between the quotes
/// after `"path":`.
pub proof fn lemma_smoke_body_plain_path(scheme: Seq<u8>, path: Seq<u8>, query: Option<Seq<u8>>)
    requires
        forall|i: int|
            0 <= i < path.len() ==> path[i] >= 0x20u8 && path[i] != 0x22u8 && path[i] != 0x5cu8,
    ensures
        smoke_body(scheme, path, query) == BODY_BEFORE_SCHEME.spec_bytes() + json_string(scheme)
            + BODY_BEFORE_PATH.spec_bytes() + seq![0x22u8] + path + seq![0x22u8]
            + BODY_BEFORE_QUERY.spec_bytes() + query_json(query) + BODY_END.spec_bytes(),
{
    lemma_json_escape_plain(path);
    assert(smoke_body(scheme, path, query) =~= BODY_BEFORE_SCHEME.spec_bytes() + json_string(scheme)
        + BODY_BEFORE_PATH.spec_bytes() + seq![0x22u8] + path + seq![0x22u8]
        + BODY_BEFORE_QUERY.spec_bytes() + query_json(query) + BODY_END.spec_bytes());
}

} // verus!
