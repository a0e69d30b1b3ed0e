//! A request to the Tencent Cloud API and the steps that sign it.

use vstd::prelude::*;
use vstd::string::StringExecFns;
use vstd::string::StringSliceAdditionalSpecFns;
use crate::digest::hmac_sha256_tag;
use crate::digest::sha256_digest;
use crate::encoding::hex_decode;
use crate::encoding::hex_encode;
use crate::encoding::lemma_hex_round_trip;
use crate::clock::current_timestamp;
use crate::clock::utc_date;
use crate::error::ApiError;
use crate::service::dispatch;
use crate::service::dispatch::Header;
use crate::service::dispatch::OutboundRequest;
use crate::service::signing;
use crate::text::decimal;
use crate::text::to_lowercase;

verus! {

/// One call of the API: who calls, what is called, and the JSON document
/// that is sent. The payload is signed and sent as it stands.
#[derive(Debug)]
pub struct TencentCloudRequest {
    secret_id: String,
    secret_key: String,
    service: String,
    host: String,
    region: String,
    action: String,
    version: String,
    payload: String,
    token: String,
}

/// What a request holds, as character sequences.
pub struct RequestView {
    pub secret_id: Seq<char>,
    pub secret_key: Seq<char>,
    pub service: Seq<char>,
    pub host: Seq<char>,
    pub region: Seq<char>,
    pub action: Seq<char>,
    pub version: Seq<char>,
    pub payload: Seq<char>,
    pub token: Seq<char>,
}

impl View for TencentCloudRequest {
    type V = RequestView;

    closed spec fn view(&self) -> RequestView {
        RequestView {
            secret_id: self.secret_id@,
            secret_key: self.secret_key@,
            service: self.service@,
            host: self.host@,
            region: self.region@,
            action: self.action@,
            version: self.version@,
            payload: self.payload@,
            token: self.token@,
        }
    }
}

fn header_line_text(name: &str, value: &str) -> (line: String)
    ensures
        line@ == signing::header_line(name@, value@),
{
    let mut line = String::from_str(name);
    line.append(":");
    line.append(value);
    line.append("\n");
    line
}

fn credential_scope_text(date: &str, service: &str) -> (scope: String)
    ensures
        scope@ == signing::credential_scope(date@, service@),
{
    let mut scope = String::from_str(date);
    scope.append("/");
    scope.append(service);
    scope.append("/tc3_request");
    scope
}

fn hashed_text(text: &str) -> (hash: String)
    ensures
        hash@ == signing::hashed(text@),
{
    let digest = sha256_digest(text.as_bytes());
    hex_encode(digest.as_slice())
}

impl TencentCloudRequest {
    /// A request of the given parts. An empty `token` stands for no
    /// session token.
    pub fn new(
        secret_id: String,
        secret_key: String,
        service: String,
        host: String,
        region: String,
        action: String,
        version: String,
        payload: String,
        token: String,
    ) -> (request: Self)
        ensures
            request@ == (RequestView {
                secret_id: secret_id@,
                secret_key: secret_key@,
                service: service@,
                host: host@,
                region: region@,
                action: action@,
                version: version@,
                payload: payload@,
                token: token@,
            }),
    {
        Self { secret_id, secret_key, service, host, region, action, version, payload, token }
    }

    /// The canonical form of the request, which is what gets signed.
    pub fn create_canonical_request(&self) -> (r: Result<String, ApiError>)
        ensures
            r matches Ok(text) && text@ == signing::canonical_request(
                self@.host,
                self@.action,
                self@.payload,
            ),
    {
        let action = to_lowercase(self.action.as_str());
        let mut canonical_headers = header_line_text(
            "content-type",
            "application/json; charset=utf-8",
        );
        canonical_headers.append(header_line_text("host", self.host.as_str()).as_str());
        canonical_headers.append(header_line_text("x-tc-action", action.as_str()).as_str());
        let hashed_request_payload = hashed_text(self.payload.as_str());

        let mut text = String::from_str("POST");
        text.append("\n");
        text.append("/");
        text.append("\n");
        text.append("");
        text.append("\n");
        text.append(canonical_headers.as_str());
        text.append("\n");
        text.append("content-type;host;x-tc-action");
        text.append("\n");
        text.append(hashed_request_payload.as_str());
        Ok(text)
    }

    /// The string to sign for a canonical request, a day and a time.
    pub fn create_string_to_sign(&self, canonical_request: &str, date: &str, timestamp: i64) -> (r:
        Result<String, ApiError>)
        ensures
            r matches Ok(text) && text@ == signing::string_to_sign(
                self@.service,
                canonical_request@,
                date@,
                timestamp as int,
            ),
    {
        let scope = credential_scope_text(date, self.service.as_str());
        let hashed_canonical_request = hashed_text(canonical_request);

        let mut text = String::from_str("TC3-HMAC-SHA256");
        text.append("\n");
        text.append(decimal(timestamp).as_str());
        text.append("\n");
        text.append(scope.as_str());
        text.append("\n");
        text.append(hashed_canonical_request.as_str());
        Ok(text)
    }

    /// The signature of `string_to_sign` for the day `date`.
    ///
    /// Each key of the chain is written as hexadecimal text and read back
    /// before it keys the next HMAC.
    pub fn calculate_signature(&self, string_to_sign: &str, date: &str) -> (r: Result<
        String,
        ApiError,
    >)
        ensures
            r matches Ok(text) && text@ == signing::signature(
                self@.secret_key,
                self@.service,
                string_to_sign@,
                date@,
            ),
            r matches Ok(text) && text@.len() == 64,
    {
        let mut first_key = String::from_str("TC3");
        first_key.append(self.secret_key.as_str());

        let secret_date = hex_of_hmac(first_key.as_str().as_bytes(), date.as_bytes())?;
        proof {
            lemma_hex_round_trip(signing::secret_date(self@.secret_key, date@));
        }
        let secret_service = hex_of_hmac(
            key_of_hex(secret_date.as_str())?.as_slice(),
            self.service.as_str().as_bytes(),
        )?;
        proof {
            lemma_hex_round_trip(signing::secret_service(self@.secret_key, date@, self@.service));
        }
        let secret_signing = hex_of_hmac(
            key_of_hex(secret_service.as_str())?.as_slice(),
            "tc3_request".as_bytes(),
        )?;
        proof {
            lemma_hex_round_trip(signing::secret_signing(self@.secret_key, date@, self@.service));
        }
        let text = hex_of_hmac(
            key_of_hex(secret_signing.as_str())?.as_slice(),
            string_to_sign.as_bytes(),
        )?;
        Ok(text)
    }

    /// The value of the `Authorization` header for a signature.
    pub fn create_authorization(&self, signature: &str, date: &str) -> (r: Result<
        String,
        ApiError,
    >)
        ensures
            r matches Ok(text) && text@ == signing::authorization(
                self@.secret_id,
                self@.service,
                signature@,
                date@,
            ),
    {
        let scope = credential_scope_text(date, self.service.as_str());

        let mut text = String::from_str("TC3-HMAC-SHA256");
        text.append(" Credential=");
        text.append(self.secret_id.as_str());
        text.append("/");
        text.append(scope.as_str());
        text.append(", SignedHeaders=");
        text.append("content-type;host;x-tc-action");
        text.append(", Signature=");
        text.append(signature);
        Ok(text)
    }

    /// The `Authorization` header of the request for the day `date` and the
    /// time `timestamp`: the canonical request, the string to sign, the
    /// signature and the header, one after the other.
    pub fn sign(&self, date: &str, timestamp: i64) -> (r: Result<String, ApiError>)
        ensures
            r matches Ok(text) && text@ == signing::request_authorization(
                self@,
                date@,
                timestamp as int,
            ),
    {
        let canonical_request = self.create_canonical_request()?;
        let string_to_sign = self.create_string_to_sign(
            canonical_request.as_str(),
            date,
            timestamp,
        )?;
        let signature = self.calculate_signature(string_to_sign.as_str(), date)?;
        self.create_authorization(signature.as_str(), date)
    }

    /// The headers that go out with the request, in their order.
    pub fn request_headers(&self, authorization: &str, timestamp: i64) -> (headers: Vec<Header>)
        ensures
            dispatch::header_views(headers@) == dispatch::request_headers(
                self@,
                authorization@,
                timestamp as int,
            ),
    {
        let mut headers: Vec<Header> = Vec::new();
        headers.push(dispatch::header("Authorization", authorization));
        headers.push(dispatch::header("Content-Type", "application/json; charset=utf-8"));
        headers.push(dispatch::header("Host", self.host.as_str()));
        headers.push(dispatch::header("X-TC-Action", self.action.as_str()));
        headers.push(dispatch::header("X-TC-Timestamp", decimal(timestamp).as_str()));
        headers.push(dispatch::header("X-TC-Version", self.version.as_str()));
        headers.push(dispatch::header("X-TC-Region", self.region.as_str()));
        if !self.token.as_str().is_empty() {
            headers.push(dispatch::header("X-TC-Token", self.token.as_str()));
        }
        assert(dispatch::header_views(headers@) =~= dispatch::request_headers(
            self@,
            authorization@,
            timestamp as int,
        ));
        headers
    }

    /// The HTTP request that carries the call under the given
    /// `Authorization` header, ready to be sent.
    ///
    /// It is refused where a header value holds a byte that HTTP does not
    /// accept; the error names the first such header.
    pub fn outbound_request(&self, authorization: &str, timestamp: i64) -> (r: Result<
        OutboundRequest,
        ApiError,
    >)
        ensures
            dispatch::is_outbound_result(r, self@, authorization@, timestamp as int),
    {
        let headers = self.request_headers(authorization, timestamp);
        match dispatch::first_rejected(&headers) {
            Some(i) => {
                let name = headers[i].name.clone();
                assert(dispatch::header_views(headers@)[i as int].name == headers@[i as int].name@);
                Err(ApiError::InvalidHeaderValue { name })
            },
            None => {
                let mut url = String::from_str("https://");
                url.append(self.host.as_str());
                url.append("/");
                Ok(OutboundRequest { url, headers, body: self.payload.clone() })
            },
        }
    }

    /// The signed HTTP request of the call at the time `timestamp`, in
    /// seconds since the Unix epoch. The day of the signature is the UTC
    /// day of that time.
    pub fn prepare(&self, timestamp: i64) -> (r: Result<OutboundRequest, ApiError>)
        ensures
            dispatch::is_prepared(r, self@, timestamp as int),
    {
        match utc_date(timestamp) {
            Some(date) => {
                let authorization = self.sign(date.as_str(), timestamp)?;
                self.outbound_request(authorization.as_str(), timestamp)
            },
            None => Err(ApiError::SigningPrecondition),
        }
    }

    /// The signed HTTP request of the call at the present time, as the
    /// clock of this machine tells it.
    pub fn prepare_now(&self) -> (r: Result<OutboundRequest, ApiError>)
        ensures
            exists|timestamp: i64| #[trigger] dispatch::is_prepared(r, self@, timestamp as int),
    {
        let timestamp = current_timestamp();
        let r = self.prepare(timestamp);
        assert(dispatch::is_prepared(r, self@, timestamp as int));
        r
    }
}

/// The envelope of every response of the API.
#[derive(Debug)]
pub struct TencentCloudResponse<T> {
    pub response: TencentCloudResponseDeatil<T>,
}

/// What the envelope holds: the error of a call that failed, the id of the
/// request, and the result of a call that succeeded. On the wire the fields
/// of the result stand beside the other two.
#[derive(Debug)]
pub struct TencentCloudResponseDeatil<T> {
    pub error: Option<TencentCloudResponseError>,
    pub request_id: String,
    pub data: Option<T>,
}

/// The error of a call as the provider reports it.
#[derive(Debug)]
pub struct TencentCloudResponseError {
    pub code: String,
    pub message: String,
}

/// An error of the provider as character sequences.
pub struct ErrorView {
    pub code: Seq<char>,
    pub message: Seq<char>,
}

/// An envelope as mathematics, over the view of the result.
pub struct DetailView<V> {
    pub error: Option<ErrorView>,
    pub request_id: Seq<char>,
    pub data: Option<V>,
}

impl View for TencentCloudResponseError {
    type V = ErrorView;

    open spec fn view(&self) -> ErrorView {
        ErrorView { code: self.code@, message: self.message@ }
    }
}

impl<T: View> View for TencentCloudResponseDeatil<T> {
    type V = DetailView<T::V>;

    open spec fn view(&self) -> DetailView<T::V> {
        DetailView {
            error: match self.error {
                Some(error) => Some(error@),
                None => None,
            },
            request_id: self.request_id@,
            data: match self.data {
                Some(data) => Some(data@),
                None => None,
            },
        }
    }
}

impl<T: View> View for TencentCloudResponse<T> {
    type V = DetailView<T::V>;

    open spec fn view(&self) -> DetailView<T::V> {
        self.response@
    }
}

impl TencentCloudResponseError {
    /// The code and the message in one line.
    pub fn to_string(&self) -> (text: String)
        ensures
            text@ == self.code@ + ": "@ + self.message@,
    {
        let mut text = self.code.clone();
        text.append(": ");
        text.append(self.message.as_str());
        text
    }
}

/// The HMAC-SHA256 tag of `message` under `key`, as hexadecimal text.
fn hex_of_hmac(key: &[u8], message: &[u8]) -> (r: Result<String, ApiError>)
    ensures
        r matches Ok(text) && text@ == crate::encoding::hex_text(
            crate::digest::hmac_sha256(key@, message@),
        ),
        r matches Ok(text) && text@.len() == 64,
{
    match hmac_sha256_tag(key, message) {
        Ok(tag) => Ok(hex_encode(tag.as_slice())),
        Err(_) => Err(ApiError::SigningPrecondition),
    }
}

/// The bytes of a key that was written as hexadecimal text.
fn key_of_hex(text: &str) -> (r: Result<Vec<u8>, ApiError>)
    ensures
        r is Ok <==> crate::encoding::is_hex(text.spec_bytes()),
        r matches Ok(key) ==> key@ == crate::encoding::hex_bytes(text.spec_bytes()),
{
    match hex_decode(text) {
        Ok(key) => Ok(key),
        Err(_) => Err(ApiError::SigningPrecondition),
    }
}

} // verus!
