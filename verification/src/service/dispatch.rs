//! The HTTP request that carries a signed call: where it goes, its headers
//! and its body.

use vstd::prelude::*;
use vstd::string::StringExecFns;
use vstd::string::StringSliceAdditionalSpecFns;
use vstd::utf8::encode_utf8;
use crate::clock::utc_date_text;
use crate::error::ApiError;
use crate::service::signing::request_authorization;
use crate::service::tc_request::RequestView;
use crate::text::decimal_text;

verus! {

/// One HTTP header.
#[derive(Debug, Clone, PartialEq, Eq)]
pub struct Header {
    pub name: String,
    pub value: String,
}

/// A header as two character sequences.
pub struct HeaderView {
    pub name: Seq<char>,
    pub value: Seq<char>,
}

impl View for Header {
    type V = HeaderView;

    open spec fn view(&self) -> HeaderView {
        HeaderView { name: self.name@, value: self.value@ }
    }
}

/// The headers of a list, each by its view.
pub open spec fn header_views(headers: Seq<Header>) -> Seq<HeaderView> {
    headers.map_values(|header: Header| header@)
}

/// A signed call as it goes over the wire: an HTTPS `POST` of `body` to
/// `url` with `headers`.
#[derive(Debug, Clone, PartialEq, Eq)]
pub struct OutboundRequest {
    pub url: String,
    pub headers: Vec<Header>,
    pub body: String,
}

/// An outbound request as sequences.
pub struct OutboundView {
    pub url: Seq<char>,
    pub headers: Seq<HeaderView>,
    pub body: Seq<char>,
}

impl View for OutboundRequest {
    type V = OutboundView;

    open spec fn view(&self) -> OutboundView {
        OutboundView { url: self.url@, headers: header_views(self.headers@), body: self.body@ }
    }
}

/// Whether `bytes` may stand as the value of an HTTP header: each byte is a
/// tab, or at least a space and not the delete character.
pub open spec fn is_header_value(bytes: Seq<u8>) -> bool {
    forall|i: int|
        0 <= i < bytes.len() ==> {
            let byte = #[trigger] bytes[i];
            byte >= 32 && byte != 127 || byte == 9
        }
}

/// Whether every header of the list has a value that HTTP accepts.
pub open spec fn all_values_accepted(headers: Seq<HeaderView>) -> bool {
    forall|i: int|
        0 <= i < headers.len() ==> is_header_value(encode_utf8((#[trigger] headers[i]).value))
}

/// Whether header `i` is the first of the list whose value HTTP does not
/// accept.
pub open spec fn is_first_rejected(headers: Seq<HeaderView>, i: int) -> bool {
    &&& 0 <= i < headers.len()
    &&& !is_header_value(encode_utf8(headers[i].value))
    &&& all_values_accepted(headers.take(i))
}

/// Whether the list has a header of the given name.
pub open spec fn has_header(headers: Seq<HeaderView>, name: Seq<char>) -> bool {
    exists|i: int| 0 <= i < headers.len() && (#[trigger] headers[i]).name == name
}

/// Where a request for `host` is sent.
pub open spec fn request_url(host: Seq<char>) -> Seq<char> {
    "https://"@ + host + "/"@
}

/// The headers that are sent in any case, in their order.
pub open spec fn fixed_headers(request: RequestView, authorization: Seq<char>, timestamp: int) -> Seq<
    HeaderView,
> {
    seq![
        HeaderView { name: "Authorization"@, value: authorization },
        HeaderView { name: "Content-Type"@, value: "application/json; charset=utf-8"@ },
        HeaderView { name: "Host"@, value: request.host },
        HeaderView { name: "X-TC-Action"@, value: request.action },
        HeaderView { name: "X-TC-Timestamp"@, value: decimal_text(timestamp) },
        HeaderView { name: "X-TC-Version"@, value: request.version },
        HeaderView { name: "X-TC-Region"@, value: request.region },
    ]
}

/// The headers of a request: the fixed ones, and `X-TC-Token` after them
/// where the request has a session token.
pub open spec fn request_headers(request: RequestView, authorization: Seq<char>, timestamp: int) -> Seq<
    HeaderView,
> {
    if request.token.len() == 0 {
        fixed_headers(request, authorization, timestamp)
    } else {
        fixed_headers(request, authorization, timestamp).push(
            HeaderView { name: "X-TC-Token"@, value: request.token },
        )
    }
}

/// The outbound request of a call with the given `Authorization` header.
pub open spec fn outbound(request: RequestView, authorization: Seq<char>, timestamp: int) -> OutboundView {
    OutboundView {
        url: request_url(request.host),
        headers: request_headers(request, authorization, timestamp),
        body: request.payload,
    }
}

/// Whether `r` is what building the outbound request of a call gives: the
/// request, where HTTP accepts the value of every header; else the name of
/// the first header whose value it does not accept.
pub open spec fn is_outbound_result(
    r: Result<OutboundRequest, ApiError>,
    request: RequestView,
    authorization: Seq<char>,
    timestamp: int,
) -> bool {
    let headers = request_headers(request, authorization, timestamp);
    match r {
        Ok(out) => out@ == outbound(request, authorization, timestamp) && all_values_accepted(
            headers,
        ),
        Err(ApiError::InvalidHeaderValue { name }) => exists|i: int|
            #[trigger] is_first_rejected(headers, i) && name@ == headers[i].name,
        Err(_) => false,
    }
}

/// Whether `r` is what preparing a call for the time `timestamp` gives: the
/// call is signed for the UTC day of that time and built as an outbound
/// request; a time without a calendar day cannot be signed.
pub open spec fn is_prepared(
    r: Result<OutboundRequest, ApiError>,
    request: RequestView,
    timestamp: int,
) -> bool {
    match utc_date_text(timestamp) {
        Some(date) => is_outbound_result(
            r,
            request,
            request_authorization(request, date, timestamp),
            timestamp,
        ),
        None => r matches Err(ApiError::SigningPrecondition),
    }
}

#[verifier::external_type_specification]
#[verifier::external_body]
pub struct ExInvalidHeaderValue(reqwest::header::InvalidHeaderValue);

/// `reqwest::header::HeaderValue::from_str`, for its verdict alone: the
/// text is accepted when each of its bytes is a tab, or at least a space
/// and not the delete character.
#[verifier::external_body]
pub(crate) fn validate_header_value(value: &str) -> (r: Result<(), reqwest::header::InvalidHeaderValue>)
    ensures
        r is Ok <==> is_header_value(value.spec_bytes()),
{
    match reqwest::header::HeaderValue::from_str(value) {
        Ok(_) => Ok(()),
        Err(error) => Err(error),
    }
}

/// A header of the given name and value.
pub fn header(name: &str, value: &str) -> (header: Header)
    ensures
        header@ == (HeaderView { name: name@, value: value@ }),
{
    Header { name: String::from_str(name), value: String::from_str(value) }
}

/// The first header of the list whose value HTTP does not accept.
pub fn first_rejected(headers: &Vec<Header>) -> (r: Option<usize>)
    ensures
        r is None <==> all_values_accepted(header_views(headers@)),
        r matches Some(i) ==> is_first_rejected(header_views(headers@), i as int),
{
    let ghost views = header_views(headers@);
    let mut i: usize = 0;
    while i < headers.len()
        invariant
            i <= headers@.len(),
            views == header_views(headers@),
            all_values_accepted(views.take(i as int)),
        decreases headers@.len() - i,
    {
        match validate_header_value(headers[i].value.as_str()) {
            Ok(_) => {},
            Err(_) => {
                assert(views[i as int].value == headers@[i as int].value@);
                return Some(i);
            },
        }
        assert forall|j: int| 0 <= j < i + 1 implies is_header_value(
            encode_utf8((#[trigger] views.take(i + 1)[j]).value),
        ) by {
            if j < i {
                assert(views.take(i as int)[j] == views.take(i + 1)[j]);
            }
        }
        i += 1;
    }
    assert(views.take(i as int) =~= views);
    None
}

/// The session token travels if and only if there is one: the headers of
/// a request hold `X-TC-Token` exactly when its token is not empty.
pub proof fn lemma_token_header_iff_token(
    request: RequestView,
    authorization: Seq<char>,
    timestamp: int,
)
    ensures
        has_header(request_headers(request, authorization, timestamp), "X-TC-Token"@)
            <==> request.token.len() > 0,
{
    reveal_strlit("X-TC-Token");
    reveal_strlit("Authorization");
    reveal_strlit("Content-Type");
    reveal_strlit("Host");
    reveal_strlit("X-TC-Action");
    reveal_strlit("X-TC-Timestamp");
    reveal_strlit("X-TC-Version");
    reveal_strlit("X-TC-Region");
    let headers = request_headers(request, authorization, timestamp);
    if request.token.len() > 0 {
        assert(headers[7].name == "X-TC-Token"@);
    } else {
        assert forall|i: int| 0 <= i < headers.len() implies (#[trigger] headers[i]).name
            != "X-TC-Token"@ by {
            assert(headers[i].name.len() != 10 || headers[i].name[3] != 'C'
                || headers[i].name[5] != 'T');
        }
    }
}

} // verus!
