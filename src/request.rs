//! The request head: what httparse makes of the received bytes, and the
//! request that the rest of the handler works on.
use vstd::prelude::*;
use vstd::utf8::{decode_utf8, valid_utf8};

use crate::text::{eq_ignore_ascii_case, same_text_ignore_ascii_case};

verus! {

/// One header line of a request head.
#[derive(Clone, Debug)]
pub struct HeaderField {
    pub name: String,
    pub value: Vec<u8>,
}

/// A complete request head: method, path and headers, in order.
#[derive(Clone, Debug)]
pub struct HttpHead {
    pub method: String,
    pub path: String,
    pub headers: Vec<HeaderField>,
}

pub open spec fn headers_view(hs: Seq<HeaderField>) -> Seq<(Seq<char>, Seq<u8>)> {
    hs.map_values(|h: HeaderField| (h.name@, h.value@))
}

impl View for HttpHead {
    type V = (Seq<char>, Seq<char>, Seq<(Seq<char>, Seq<u8>)>);

    open spec fn view(&self) -> Self::V {
        (self.method@, self.path@, headers_view(self.headers@))
    }
}

/// What httparse makes of a buffer: the head of a complete request, or
/// nothing for a partial or malformed one.
pub uninterp spec fn http_head_of(buf: Seq<u8>) -> Option<(Seq<char>, Seq<char>, Seq<(Seq<char>, Seq<u8>)>)>;

/// Relies on httparse's `Request::parse`, given room for sixteen headers:
/// `Complete` yields the method, path and headers it parsed; `Partial` and
/// an error yield `None`. The outcome depends on the bytes alone.
#[verifier::external_body]
fn parse_head(buf: &[u8]) -> (r: Option<HttpHead>)
    ensures
        match r {
            Some(h) => http_head_of(buf@) == Some(h@),
            None => http_head_of(buf@) is None,
        },
{
    let mut headers = [httparse::EMPTY_HEADER; 16];
    let mut request = httparse::Request::new(&mut headers);
    match request.parse(buf) {
        Ok(httparse::Status::Complete(_)) => Some(HttpHead {
            method: request.method.unwrap_or("").to_string(),
            path: request.path.unwrap_or("").to_string(),
            headers: request.headers.iter().map(
                |h| HeaderField { name: h.name.to_string(), value: h.value.to_vec() },
            ).collect(),
        }),
        Ok(httparse::Status::Partial) => None,
        Err(_) => None,
    }
}

/// Relies on `std::str::from_utf8`: it accepts exactly the well-formed UTF-8
/// byte strings, and the text is the one they encode.
#[verifier::external_body]
fn text_from_utf8(bytes: &[u8]) -> (r: Option<String>)
    ensures
        r is Some <==> valid_utf8(bytes@),
        r matches Some(s) ==> s@ == decode_utf8(bytes@),
{
    std::str::from_utf8(bytes).ok().map(|s| s.to_string())
}

/// The header a trusted proxy uses to pass on the client's address.
pub open spec fn is_real_ip_header(name: Seq<char>) -> bool {
    eq_ignore_ascii_case(name, "X-Real-IP"@)
}

/// The value of the first client-address header, if any.
pub open spec fn real_ip_value(hs: Seq<(Seq<char>, Seq<u8>)>) -> Option<Seq<u8>>
    decreases hs.len(),
{
    if hs.len() == 0 {
        None
    } else if is_real_ip_header(hs[0].0) {
        Some(hs[0].1)
    } else {
        real_ip_value(hs.drop_first())
    }
}

#[derive(Debug, PartialEq, Eq, Structural)]
pub enum ParseError {
    /// The bytes are not a complete request head.
    Malformed,
    /// The client-address header is not UTF-8 text.
    BadHeaderValue,
}

/// The request as the handler sees it.
#[derive(Clone, Debug)]
pub struct ParsedRequest {
    pub method: String,
    pub path: String,
    /// The client address that a proxy forwarded, if it did.
    pub real_ip: Option<String>,
}

pub ghost struct RequestSpec {
    pub method: Seq<char>,
    pub path: Seq<char>,
    pub real_ip: Option<Seq<char>>,
}

impl View for ParsedRequest {
    type V = RequestSpec;

    open spec fn view(&self) -> RequestSpec {
        RequestSpec {
            method: self.method@,
            path: self.path@,
            real_ip: match self.real_ip {
                Some(ip) => Some(ip@),
                None => None,
            },
        }
    }
}

pub open spec fn result_view(r: Result<ParsedRequest, ParseError>) -> Result<RequestSpec, ParseError> {
    match r {
        Ok(p) => Ok(p@),
        Err(e) => Err(e),
    }
}

/// The request a head stands for: its method and path, and the decoded
/// value of its first client-address header.
pub open spec fn request_of_head(h: (Seq<char>, Seq<char>, Seq<(Seq<char>, Seq<u8>)>)) -> Result<
    RequestSpec,
    ParseError,
> {
    match real_ip_value(h.2) {
        None => Ok(RequestSpec { method: h.0, path: h.1, real_ip: None }),
        Some(v) => if valid_utf8(v) {
            Ok(RequestSpec { method: h.0, path: h.1, real_ip: Some(decode_utf8(v)) })
        } else {
            Err(ParseError::BadHeaderValue)
        },
    }
}

/// The request that received bytes stand for.
pub open spec fn parsed_request_of(buf: Seq<u8>) -> Result<RequestSpec, ParseError> {
    match http_head_of(buf) {
        Some(h) => request_of_head(h),
        None => Err(ParseError::Malformed),
    }
}

/// The position of the first client-address header.
fn real_ip_index(headers: &Vec<HeaderField>) -> (r: Option<usize>)
    ensures
        match r {
            Some(k) => k < headers@.len() && real_ip_value(headers_view(headers@)) == Some(
                headers@[k as int].value@,
            ),
            None => real_ip_value(headers_view(headers@)) is None,
        },
{
    let ghost hv = headers_view(headers@);
    let mut i: usize = 0;
    assert(hv.subrange(0, hv.len() as int) =~= hv);
    while i < headers.len()
        invariant
            hv == headers_view(headers@),
            i <= headers@.len(),
            real_ip_value(hv) == real_ip_value(hv.subrange(i as int, hv.len() as int)),
        decreases headers.len() - i,
    {
        let ghost rest = hv.subrange(i as int, hv.len() as int);
        assert(rest[0] == hv[i as int]);
        if same_text_ignore_ascii_case(headers[i].name.as_str(), "X-Real-IP") {
            return Some(i);
        }
        assert(rest.drop_first() =~= hv.subrange(i + 1, hv.len() as int));
        i = i + 1;
    }
    assert(hv.subrange(i as int, hv.len() as int).len() == 0);
    None
}

impl ParsedRequest {
    /// Builds the request from a parsed head. Fails with `BadHeaderValue`
    /// exactly when the first client-address header is not UTF-8.
    pub fn from_head(head: HttpHead) -> (r: Result<ParsedRequest, ParseError>)
        ensures
            result_view(r) == request_of_head(head@),
    {
        let ghost h = head@;
        match real_ip_index(&head.headers) {
            None => Ok(ParsedRequest { method: head.method, path: head.path, real_ip: None }),
            Some(k) => {
                let decoded = text_from_utf8(head.headers[k].value.as_slice());
                match decoded {
                    Some(ip) => Ok(
                        ParsedRequest { method: head.method, path: head.path, real_ip: Some(ip) },
                    ),
                    None => Err(ParseError::BadHeaderValue),
                }
            },
        }
    }

    /// Parses the received bytes. `Malformed` when they are not a complete
    /// request head; otherwise as `from_head`.
    pub fn parse(buffer: &[u8]) -> (r: Result<ParsedRequest, ParseError>)
        ensures
            result_view(r) == parsed_request_of(buffer@),
    {
        match parse_head(buffer) {
            Some(head) => Self::from_head(head),
            None => Err(ParseError::Malformed),
        }
    }
}

} // verus!
