//! The TC3-HMAC-SHA256 signature as mathematics: the text that is signed,
//! the chain of keys, and the header that carries the result.

use vstd::prelude::*;
use vstd::utf8::encode_utf8;
use crate::digest::hmac_sha256;
use crate::digest::sha256;
use crate::encoding::hex_text;
use crate::service::tc_request::RequestView;
use crate::text::decimal_text;
use crate::text::lowercase;

verus! {

/// One line of the canonical header block: name, colon, value, newline.
pub open spec fn header_line(name: Seq<char>, value: Seq<char>) -> Seq<char> {
    name + ":"@ + value + "\n"@
}

/// The canonical header block: the lines of `content-type`, `host` and
/// `x-tc-action`, in that order, the action in lowercase.
pub open spec fn canonical_headers(host: Seq<char>, action: Seq<char>) -> Seq<char> {
    header_line("content-type"@, "application/json; charset=utf-8"@) + header_line("host"@, host)
        + header_line("x-tc-action"@, lowercase(action))
}

/// The names of the signed headers.
pub open spec fn signed_headers() -> Seq<char> {
    "content-type;host;x-tc-action"@
}

/// Lowercase hexadecimal SHA-256 digest of the UTF-8 bytes of `text`.
pub open spec fn hashed(text: Seq<char>) -> Seq<char> {
    hex_text(sha256(encode_utf8(text)))
}

/// The canonical request: method `POST`, path `/`, an empty query string,
/// the canonical header block, the signed header names and the hash of the
/// payload, joined by newlines.
pub open spec fn canonical_request(host: Seq<char>, action: Seq<char>, payload: Seq<char>) -> Seq<
    char,
> {
    "POST"@ + "\n"@ + "/"@ + "\n"@ + ""@ + "\n"@ + canonical_headers(host, action) + "\n"@
        + signed_headers() + "\n"@ + hashed(payload)
}

/// The credential scope, which binds a signature to a day and a service.
pub open spec fn credential_scope(date: Seq<char>, service: Seq<char>) -> Seq<char> {
    date + "/"@ + service + "/tc3_request"@
}

/// The text that the final HMAC is taken of.
pub open spec fn string_to_sign(
    service: Seq<char>,
    canonical_request: Seq<char>,
    date: Seq<char>,
    timestamp: int,
) -> Seq<char> {
    "TC3-HMAC-SHA256"@ + "\n"@ + decimal_text(timestamp) + "\n"@ + credential_scope(date, service)
        + "\n"@ + hashed(canonical_request)
}

/// The key of the day: the HMAC of the date under `TC3` followed by the
/// secret key.
pub open spec fn secret_date(secret_key: Seq<char>, date: Seq<char>) -> Seq<u8> {
    hmac_sha256(encode_utf8("TC3"@ + secret_key), encode_utf8(date))
}

/// The key of the day and the service.
pub open spec fn secret_service(secret_key: Seq<char>, date: Seq<char>, service: Seq<char>) -> Seq<
    u8,
> {
    hmac_sha256(secret_date(secret_key, date), encode_utf8(service))
}

/// The key that signs requests of the day and the service.
pub open spec fn secret_signing(secret_key: Seq<char>, date: Seq<char>, service: Seq<char>) -> Seq<
    u8,
> {
    hmac_sha256(secret_service(secret_key, date, service), encode_utf8("tc3_request"@))
}

/// The signature: lowercase hexadecimal HMAC of the string to sign under
/// the signing key.
pub open spec fn signature(
    secret_key: Seq<char>,
    service: Seq<char>,
    string_to_sign: Seq<char>,
    date: Seq<char>,
) -> Seq<char> {
    hex_text(hmac_sha256(secret_signing(secret_key, date, service), encode_utf8(string_to_sign)))
}

/// The value of the `Authorization` header.
pub open spec fn authorization(
    secret_id: Seq<char>,
    service: Seq<char>,
    signature: Seq<char>,
    date: Seq<char>,
) -> Seq<char> {
    "TC3-HMAC-SHA256"@ + " Credential="@ + secret_id + "/"@ + credential_scope(date, service)
        + ", SignedHeaders="@ + signed_headers() + ", Signature="@ + signature
}

/// The signature of a request for a day and a time: the canonical request
/// is put into the string to sign, and that is signed.
pub open spec fn request_signature(request: RequestView, date: Seq<char>, timestamp: int) -> Seq<
    char,
> {
    signature(
        request.secret_key,
        request.service,
        string_to_sign(
            request.service,
            canonical_request(request.host, request.action, request.payload),
            date,
            timestamp,
        ),
        date,
    )
}

/// The `Authorization` header of a request for a day and a time.
pub open spec fn request_authorization(request: RequestView, date: Seq<char>, timestamp: int) -> Seq<
    char,
> {
    authorization(
        request.secret_id,
        request.service,
        request_signature(request, date, timestamp),
        date,
    )
}

/// The number of newline characters in `text`.
pub open spec fn newline_count(text: Seq<char>) -> nat
    decreases text.len(),
{
    if text.len() == 0 {
        0
    } else {
        newline_count(text.drop_last()) + if text.last() == '\n' {
            1nat
        } else {
            0nat
        }
    }
}

/// Newlines add up over a concatenation.
pub proof fn lemma_newline_count_concat(left: Seq<char>, right: Seq<char>)
    ensures
        newline_count(left + right) == newline_count(left) + newline_count(right),
    decreases right.len(),
{
    if right.len() == 0 {
        assert(left + right =~= left);
    } else {
        lemma_newline_count_concat(left, right.drop_last());
        assert((left + right).drop_last() =~= left + right.drop_last());
    }
}

/// A text without a newline character counts none.
pub proof fn lemma_newline_free(text: Seq<char>)
    requires
        forall|i: int| 0 <= i < text.len() ==> text[i] != '\n',
    ensures
        newline_count(text) == 0,
    decreases text.len(),
{
    if text.len() > 0 {
        lemma_newline_free(text.drop_last());
    }
}

/// A header line of a name and a value without newlines holds one newline,
/// at its end.
pub proof fn lemma_header_line_has_one_newline(name: Seq<char>, value: Seq<char>)
    requires
        newline_count(name) == 0,
        newline_count(value) == 0,
    ensures
        newline_count(header_line(name, value)) == 1,
        header_line(name, value).last() == '\n',
{
    reveal_strlit(":");
    reveal_strlit("\n");
    lemma_newline_free(":"@);
    assert(newline_count("\n"@) == 1) by {
        lemma_newline_free("\n"@.drop_last());
    }
    lemma_newline_count_concat(name, ":"@);
    lemma_newline_count_concat(name + ":"@, value);
    lemma_newline_count_concat(name + ":"@ + value, "\n"@);
}

/// The signature is a function of the payload, the host, the action, the
/// day, the time, the secret key and the service, and of nothing else: two
/// requests that agree in these have the same signature.
pub proof fn lemma_signature_is_determined(
    first: RequestView,
    second: RequestView,
    date: Seq<char>,
    timestamp: int,
)
    requires
        first.payload == second.payload,
        first.host == second.host,
        first.action == second.action,
        first.secret_key == second.secret_key,
        first.service == second.service,
    ensures
        request_signature(first, date, timestamp) == request_signature(second, date, timestamp),
{
}

/// The canonical header block is three header lines, `content-type`, `host`
/// and `x-tc-action` in this order, whatever the case of the action: it
/// holds the action in lowercase only, and where neither the host nor the
/// lowercase action holds a newline, the block has exactly three of them,
/// one at the end of each line.
pub proof fn lemma_canonical_headers_are_three_lines(host: Seq<char>, action: Seq<char>)
    requires
        newline_count(host) == 0,
        newline_count(lowercase(action)) == 0,
    ensures
        canonical_headers(host, action) == header_line(
            "content-type"@,
            "application/json; charset=utf-8"@,
        ) + header_line("host"@, host) + header_line("x-tc-action"@, lowercase(action)),
        newline_count(header_line("content-type"@, "application/json; charset=utf-8"@)) == 1,
        newline_count(header_line("host"@, host)) == 1,
        newline_count(header_line("x-tc-action"@, lowercase(action))) == 1,
        newline_count(canonical_headers(host, action)) == 3,
{
    let first = header_line("content-type"@, "application/json; charset=utf-8"@);
    let second = header_line("host"@, host);
    let third = header_line("x-tc-action"@, lowercase(action));
    reveal_strlit("content-type");
    reveal_strlit("application/json; charset=utf-8");
    reveal_strlit("host");
    reveal_strlit("x-tc-action");
    lemma_newline_free("content-type"@);
    lemma_newline_free("application/json; charset=utf-8"@);
    lemma_newline_free("host"@);
    lemma_newline_free("x-tc-action"@);
    lemma_header_line_has_one_newline("content-type"@, "application/json; charset=utf-8"@);
    lemma_header_line_has_one_newline("host"@, host);
    lemma_header_line_has_one_newline("x-tc-action"@, lowercase(action));
    lemma_newline_count_concat(first, second);
    lemma_newline_count_concat(first + second, third);
}

/// Two actions that differ in case alone give the same canonical header
/// block.
pub proof fn lemma_canonical_headers_ignore_case(
    host: Seq<char>,
    first: Seq<char>,
    second: Seq<char>,
)
    requires
        lowercase(first) == lowercase(second),
    ensures
        canonical_headers(host, first) == canonical_headers(host, second),
{
}

} // verus!
