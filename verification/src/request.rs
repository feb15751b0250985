//! The opening request of a client: the URL checked and turned into a
//! handshake request, and the configured headers checked and added to it.
use vstd::prelude::*;
use vstd::utf8::encode_utf8;
use tokio_tungstenite::tungstenite::client::IntoClientRequest;
use tokio_tungstenite::tungstenite::http::header::{HeaderName, HeaderValue};
use tokio_tungstenite::tungstenite::http::Request;
use crate::types::{config_headers, headers_view, ErrorStatus, NativeClientConfig, NativeError};

verus! {

#[verifier::external_type_specification]
#[verifier::external_body]
#[verifier::reject_recursive_types(T)]
pub struct ExRequest<T>(Request<T>);

#[verifier::external_type_specification]
#[verifier::external_body]
pub struct ExHeaderName(HeaderName);

#[verifier::external_type_specification]
#[verifier::external_body]
pub struct ExHeaderValue(HeaderValue);

/// What turning a URL into a handshake request gives: when the URL is
/// accepted, the text of the request's URI and the bytes of its Host header;
/// else the text of the error. Both depend on the URL alone.
pub uninterp spec fn client_request_outcome(url: Seq<char>) -> Result<(Seq<char>, Seq<u8>), Seq<char>>;

/// The text of the URI that a request is for.
pub uninterp spec fn request_uri(r: Request<()>) -> Seq<char>;

/// The headers that a request holds: each name, in lower case, with its
/// values in order.
pub uninterp spec fn request_headers(r: Request<()>) -> Map<Seq<char>, Seq<Seq<u8>>>;

/// The text of a header name, in lower case.
pub uninterp spec fn header_name_text(n: HeaderName) -> Seq<char>;

/// The bytes of a header value.
pub uninterp spec fn header_value_bytes(v: HeaderValue) -> Seq<u8>;

/// The largest number of distinct header names that a request may already
/// hold for one more to be added without fail.
pub const SAFE_HEADER_COUNT: usize = 6552;

/// Whether a character may stand in a header name (an HTTP token character).
pub open spec fn is_token_char(c: char) -> bool {
    ||| ('0' <= c && c <= '9')
    ||| ('a' <= c && c <= 'z')
    ||| ('A' <= c && c <= 'Z')
    ||| c == '!' || c == '#' || c == '$' || c == '%' || c == '&' || c == '\''
    ||| c == '*' || c == '+' || c == '-' || c == '.' || c == '^' || c == '_'
    ||| c == '`' || c == '|' || c == '~'
}

/// Whether a header name is accepted: one to 65535 token characters.
pub open spec fn header_name_accepted(name: Seq<char>) -> bool {
    &&& 1 <= name.len() <= 65535
    &&& forall|i: int| 0 <= i < name.len() ==> is_token_char(#[trigger] name[i])
}

/// Whether a header value is accepted: no control character but the tab.
pub open spec fn header_value_accepted(value: Seq<char>) -> bool {
    forall|i: int|
        0 <= i < value.len() ==> ((#[trigger] value[i]) == '\t' || (value[i] as u32 >= 32
            && value[i] as u32 != 127))
}

/// A character in lower case, when it is an ASCII capital letter.
pub open spec fn ascii_lower(c: char) -> char {
    if 'A' <= c && c <= 'Z' {
        ((c as u32) + 32) as char
    } else {
        c
    }
}

/// A text with its ASCII capital letters in lower case.
pub open spec fn ascii_lowercase(s: Seq<char>) -> Seq<char> {
    s.map_values(|c: char| ascii_lower(c))
}

/// The headers of a handshake request whose Host header is `host`: the Host,
/// Connection, Upgrade, Sec-WebSocket-Version and Sec-WebSocket-Key headers,
/// each once; the key is random.
pub open spec fn handshake_headers(h: Map<Seq<char>, Seq<Seq<u8>>>, host: Seq<u8>) -> bool {
    &&& h.dom() == set!["host"@, "connection"@, "upgrade"@, "sec-websocket-version"@, "sec-websocket-key"@]
    &&& h["host"@] == seq![host]
    &&& h["connection"@] == seq![encode_utf8("Upgrade"@)]
    &&& h["upgrade"@] == seq![encode_utf8("websocket"@)]
    &&& h["sec-websocket-version"@] == seq![encode_utf8("13"@)]
    &&& h["sec-websocket-key"@].len() == 1
}

/// Headers with the given ones set in order: each name, in lower case, then
/// holds the given value alone.
pub open spec fn with_headers(h: Map<Seq<char>, Seq<Seq<u8>>>, headers: Seq<(Seq<char>, Seq<char>)>) -> Map<
    Seq<char>,
    Seq<Seq<u8>>,
>
    decreases headers.len(),
{
    if headers.len() == 0 {
        h
    } else {
        with_headers(h, headers.drop_last()).insert(
            ascii_lowercase(headers.last().0),
            seq![encode_utf8(headers.last().1)],
        )
    }
}

/// The first refusal among the headers from index `i` on: the name of a
/// header is checked before its value.
pub open spec fn header_failure_from(headers: Seq<(Seq<char>, Seq<char>)>, i: int) -> Option<
    Seq<char>,
>
    decreases headers.len() - i,
{
    if i < 0 || i >= headers.len() {
        None
    } else if !header_name_accepted(headers[i].0) {
        Some("invalid HTTP header name"@)
    } else if !header_value_accepted(headers[i].1) {
        Some("failed to parse header value"@)
    } else {
        header_failure_from(headers, i + 1)
    }
}

/// The first refusal among a list of headers, if any.
pub open spec fn header_failure(headers: Seq<(Seq<char>, Seq<char>)>) -> Option<Seq<char>> {
    header_failure_from(headers, 0)
}

/// Whether a request is the handshake for the given URI and Host header with
/// the given headers set on it in order.
pub open spec fn dials(
    q: Request<()>,
    uri: Seq<char>,
    host: Seq<u8>,
    headers: Seq<(Seq<char>, Seq<char>)>,
) -> bool {
    &&& request_uri(q) == uri
    &&& exists|h0: Map<Seq<char>, Seq<Seq<u8>>>|
        handshake_headers(h0, host) && request_headers(q) == #[trigger] with_headers(h0, headers)
}

/// What building the opening request for a URL and headers gives: refused
/// with the URL's error, else with the first refused header's error; when
/// nothing is refused, a request that [`dials`] the URL's URI and host with
/// the headers, or, only past a few thousand headers, a size failure.
pub open spec fn request_built(url: Seq<char>, headers: Seq<(Seq<char>, Seq<char>)>, r: Result<
    Request<()>,
    NativeError,
>) -> bool {
    &&& r matches Err(e) ==> e.status == ErrorStatus::InvalidArg
    &&& match client_request_outcome(url) {
        Err(u) => r matches Err(e) && e.reason@ == u,
        Ok((uri, host)) => match header_failure(headers) {
            Some(f) => r matches Err(e) && e.reason@ == f,
            None => {
                &&& headers.len() + 5 <= SAFE_HEADER_COUNT ==> r is Ok
                &&& r matches Ok(q) ==> dials(q, uri, host, headers)
                &&& r matches Err(e) ==> e.reason@ == "max size reached"@
            },
        },
    }
}

/// Calls tungstenite's `IntoClientRequest::into_client_request` on a `&str`.
/// Whether the URL is accepted, the URI and Host header of the request and
/// the text of the error depend on the URL alone and are named by
/// `client_request_outcome`. The request holds exactly the five handshake
/// headers; its Sec-WebSocket-Key is random and its value is not stated.
#[verifier::external_body]
fn into_client_request(url: &str) -> (r: Result<Request<()>, String>)
    ensures
        match r {
            Ok(q) => client_request_outcome(url@) matches Ok((uri, host)) && request_uri(q) == uri
                && handshake_headers(request_headers(q), host),
            Err(e) => client_request_outcome(url@) == Err::<(Seq<char>, Seq<u8>), Seq<char>>(e@),
        },
{
    match url.into_client_request() {
        Ok(request) => Ok(request),
        Err(error) => Err(error.to_string()),
    }
}

/// Calls `http::HeaderName`'s `FromStr::from_str` (through `str::parse`). It
/// accepts exactly the names of one to 65535 token characters, and gives the
/// name in lower case; its error reads "invalid HTTP header name".
#[verifier::external_body]
fn parse_header_name(name: &str) -> (r: Result<HeaderName, String>)
    ensures
        r is Ok <==> header_name_accepted(name@),
        r matches Ok(n) ==> header_name_text(n) == ascii_lowercase(name@),
        r matches Err(e) ==> e@ == "invalid HTTP header name"@,
{
    match name.parse::<HeaderName>() {
        Ok(parsed) => Ok(parsed),
        Err(error) => Err(error.to_string()),
    }
}

/// Calls `http::HeaderValue`'s `FromStr::from_str` (through `str::parse`). It
/// accepts exactly the values whose every byte is the tab or at least 32 and
/// not 127, and keeps the bytes of the text; its error reads "failed to parse
/// header value".
#[verifier::external_body]
fn parse_header_value(value: &str) -> (r: Result<HeaderValue, String>)
    ensures
        r is Ok <==> header_value_accepted(value@),
        r matches Ok(v) ==> header_value_bytes(v) == encode_utf8(value@),
        r matches Err(e) ==> e@ == "failed to parse header value"@,
{
    match value.parse::<HeaderValue>() {
        Ok(parsed) => Ok(parsed),
        Err(error) => Err(error.to_string()),
    }
}

/// Calls `http::HeaderMap::try_insert` on the headers of a request. On success
/// the name then holds the value alone; on failure ("max size reached") the
/// headers are unchanged. It does not fail while the request holds at most
/// `SAFE_HEADER_COUNT` distinct names: the map only fails to grow past 32768
/// slots, which takes more than a fifth of them in use. The URI is untouched.
#[verifier::external_body]
fn try_insert_header(request: &mut Request<()>, name: HeaderName, value: HeaderValue) -> (r: Result<
    (),
    String,
>)
    ensures
        request_uri(*final(request)) == request_uri(*old(request)),
        request_headers(*final(request)).dom().finite() == request_headers(*old(request)).dom().finite(),
        match r {
            Ok(()) => request_headers(*final(request)) == request_headers(*old(request)).insert(
                header_name_text(name),
                seq![header_value_bytes(value)],
            ),
            Err(e) => request_headers(*final(request)) == request_headers(*old(request))
                && e@ == "max size reached"@,
        },
        request_headers(*old(request)).dom().finite() && request_headers(*old(request)).dom().len()
            <= SAFE_HEADER_COUNT ==> r is Ok,
{
    match request.headers_mut().try_insert(name, value) {
        Ok(_) => Ok(()),
        Err(error) => Err(error.to_string()),
    }
}

proof fn lemma_header_failure_step(headers: Seq<(Seq<char>, Seq<char>)>, i: int)
    requires
        0 <= i < headers.len(),
        header_name_accepted(headers[i].0),
        header_value_accepted(headers[i].1),
    ensures
        header_failure_from(headers, i) == header_failure_from(headers, i + 1),
{
}

proof fn lemma_with_headers_step(
    h: Map<Seq<char>, Seq<Seq<u8>>>,
    headers: Seq<(Seq<char>, Seq<char>)>,
    k: int,
)
    requires
        0 <= k < headers.len(),
    ensures
        with_headers(h, headers.take(k + 1)) == with_headers(h, headers.take(k)).insert(
            ascii_lowercase(headers[k].0),
            seq![encode_utf8(headers[k].1)],
        ),
{
    assert(headers.take(k + 1).drop_last() =~= headers.take(k));
}

proof fn lemma_handshake_size(h: Map<Seq<char>, Seq<Seq<u8>>>, host: Seq<u8>)
    requires
        handshake_headers(h, host),
    ensures
        h.dom().finite(),
        h.dom().len() <= 5,
{
    let s0 = Set::<Seq<char>>::empty();
    let s1 = s0.insert("host"@);
    let s2 = s1.insert("connection"@);
    let s3 = s2.insert("upgrade"@);
    let s4 = s3.insert("sec-websocket-version"@);
    let s5 = s4.insert("sec-websocket-key"@);
    assert(s5 == h.dom());
    assert(s1.len() <= 1);
    assert(s2.len() <= 2);
    assert(s3.len() <= 3);
    assert(s4.len() <= 4);
    assert(s5.len() <= 5);
}

/// Adds a client's configured headers to the request that its URL gave, in
/// order, after checking them all. A refused URL is reported as an invalid
/// argument with the URL's error; otherwise the first header whose name or
/// value is refused is, with the parser's error; otherwise each header is set
/// on the request, and only a request grown past `SAFE_HEADER_COUNT` names
/// may be refused as too large.
pub fn apply_headers(request: Result<Request<()>, String>, headers: &Vec<(String, String)>) -> (r:
    Result<Request<()>, NativeError>)
    ensures
        r matches Err(e) ==> e.status == ErrorStatus::InvalidArg,
        match request {
            Err(u) => r matches Err(e) && e.reason@ == u@,
            Ok(q0) => match header_failure(headers_view(headers@)) {
                Some(f) => r matches Err(e) && e.reason@ == f,
                None => {
                    &&& (request_headers(q0).dom().finite() && request_headers(q0).dom().len()
                        + headers@.len() <= SAFE_HEADER_COUNT ==> r is Ok)
                    &&& (r matches Ok(q) ==> request_uri(q) == request_uri(q0) && request_headers(q)
                        == with_headers(request_headers(q0), headers_view(headers@)))
                    &&& (r matches Err(e) ==> e.reason@ == "max size reached"@)
                },
            },
        },
{
    let mut req = match request {
        Ok(ok) => ok,
        Err(error) => {
            return Err(NativeError::invalid_arg(error));
        },
    };
    let ghost q0 = req;
    let ghost hv = headers_view(headers@);
    let mut parsed: Vec<(HeaderName, HeaderValue)> = Vec::new();
    let mut i: usize = 0;
    while i < headers.len()
        invariant
            i <= headers.len(),
            hv == headers_view(headers@),
            request == Ok::<Request<()>, String>(q0),
            req == q0,
            header_failure(hv) == header_failure_from(hv, i as int),
            parsed@.len() == i,
            forall|j: int|
                0 <= j < i ==> header_name_text((#[trigger] parsed@[j]).0) == ascii_lowercase(hv[j].0)
                    && header_value_bytes(parsed@[j].1) == encode_utf8(hv[j].1),
        decreases headers.len() - i,
    {
        let name = parse_header_name(headers[i].0.as_str());
        let name = match name {
            Ok(n) => n,
            Err(error) => {
                return Err(NativeError::invalid_arg(error));
            },
        };
        let value = parse_header_value(headers[i].1.as_str());
        let value = match value {
            Ok(v) => v,
            Err(error) => {
                return Err(NativeError::invalid_arg(error));
            },
        };
        proof {
            lemma_header_failure_step(hv, i as int);
        }
        parsed.push((name, value));
        i = i + 1;
    }
    let ghost all = parsed@;
    let n = parsed.len();
    let mut k: usize = 0;
    assert(hv.take(0) =~= Seq::<(Seq<char>, Seq<char>)>::empty());
    while k < n
        invariant
            k <= n,
            n == headers@.len(),
            hv == headers_view(headers@),
            request == Ok::<Request<()>, String>(q0),
            header_failure(hv) is None,
            all.len() == n,
            parsed@ == all.subrange(k as int, n as int),
            forall|j: int|
                0 <= j < n ==> header_name_text((#[trigger] all[j]).0) == ascii_lowercase(hv[j].0)
                    && header_value_bytes(all[j].1) == encode_utf8(hv[j].1),
            request_uri(req) == request_uri(q0),
            request_headers(req) == with_headers(request_headers(q0), hv.take(k as int)),
            request_headers(q0).dom().finite() ==> request_headers(req).dom().finite()
                && request_headers(req).dom().len() <= request_headers(q0).dom().len() + k,
        decreases n - k,
    {
        let (name, value) = parsed.remove(0);
        assert(name == all[k as int].0 && value == all[k as int].1);
        let ghost before = request_headers(req);
        let inserted = try_insert_header(&mut req, name, value);
        match inserted {
            Ok(()) => {},
            Err(error) => {
                return Err(NativeError::invalid_arg(error));
            },
        }
        proof {
            lemma_with_headers_step(request_headers(q0), hv, k as int);
            if request_headers(q0).dom().finite() {
                assert(request_headers(req).dom() == before.dom().insert(ascii_lowercase(hv[k as int].0)));
            }
            assert(parsed@ =~= all.subrange(k + 1, n as int));
        }
        k = k + 1;
    }
    assert(hv.take(n as int) =~= hv);
    Ok(req)
}

/// The handshake request for a client's URL and options, or why it is
/// refused (see [`request_built`]).
pub fn connect_request(url: &str, config: &Option<NativeClientConfig>) -> (r: Result<
    Request<()>,
    NativeError,
>)
    ensures
        request_built(url@, config_headers(*config), r),
{
    let request = into_client_request(url);
    let ghost initial = request;
    let empty: Vec<(String, String)> = Vec::new();
    let headers: &Vec<(String, String)> = match config {
        Some(cfg) => match cfg.headers() {
            Some(h) => h,
            None => &empty,
        },
        None => &empty,
    };
    assert(headers_view(headers@) =~= config_headers(*config));
    let r = apply_headers(request, headers);
    proof {
        let hv = config_headers(*config);
        if let Ok(q0) = initial {
            let host = client_request_outcome(url@)->Ok_0.1;
            lemma_handshake_size(request_headers(q0), host);
            if r is Ok {
                let q = r->Ok_0;
                assert(handshake_headers(request_headers(q0), host));
                assert(request_headers(q) == with_headers(request_headers(q0), hv));
            }
        }
    }
    r
}

} // verus!
