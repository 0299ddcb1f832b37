//! The data of a Tencent Cloud CDN call: credentials, requests, responses and
//! errors, the headers that a signed call carries, and how a reply is read.
use crate::calendar::timestamp_in_range;
use crate::signing::{authorization_of, build_authorization};
use crate::text::{decimal, is_blank, is_blank_str, decimal_string};
use vstd::prelude::*;

verus! {

/// Signature algorithm named in the string to sign and in `Authorization`.
pub const ALGORITHM: &'static str = "TC3-HMAC-SHA256";

/// Media type of every request body.
pub const CONTENT_TYPE_JSON: &'static str = "application/json; charset=utf-8";

/// Address that every request is posted to.
pub const ENDPOINT: &'static str = "https://cdn.tencentcloudapi.com/";

/// Host of `ENDPOINT`, sent in the `host` header and signed.
pub const HOST_NAME: &'static str = "cdn.tencentcloudapi.com";

/// Service name in the credential scope.
pub const SERVICE: &'static str = "cdn";

/// Names of the signed headers, in signing order.
pub const SIGNED_HEADERS: &'static str = "content-type;host";

/// Last component of the credential scope.
pub const TERMINATOR: &'static str = "tc3_request";

/// API version sent in `X-TC-Version`.
pub const VERSION: &'static str = "2018-06-06";

/// Action name of a directory purge.
pub const PURGE_PATH_CACHE_ACTION: &'static str = "PurgePathCache";

/// Action name of a URL purge.
pub const PURGE_URLS_CACHE_ACTION: &'static str = "PurgeUrlsCache";

/// Action name of a URL prefetch.
pub const PUSH_URLS_CACHE_ACTION: &'static str = "PushUrlsCache";

/// The error type of `serde_json`.
#[verifier::external_type_specification]
#[verifier::external_body]
pub struct ExSerdeJsonError(serde_json::Error);

/// The error type of `reqwest`.
#[verifier::external_type_specification]
#[verifier::external_body]
pub struct ExReqwestError(reqwest::Error);

/// Key pair and region that requests are signed and routed with.
#[derive(Debug, Clone)]
pub struct TencentCloudCredentials {
    pub secret_id: String,
    pub secret_key: String,
    pub region: String,
}

/// Body of a `PurgePathCache` call.
#[derive(Debug, Clone)]
pub struct PurgePathCacheRequest {
    pub paths: Vec<String>,
    pub flush_type: String,
    pub url_encode: Option<bool>,
    pub area: Option<String>,
}

/// Body of a `PurgeUrlsCache` call.
#[derive(Debug, Clone)]
pub struct PurgeUrlsCacheRequest {
    pub urls: Vec<String>,
    pub url_encode: Option<bool>,
    pub area: Option<String>,
}

/// One custom header that a prefetch sends to the origin.
#[derive(Debug, Clone)]
pub struct HttpHeader {
    pub name: String,
    pub value: String,
}

impl View for HttpHeader {
    type V = (Seq<char>, Seq<char>);

    open spec fn view(&self) -> (Seq<char>, Seq<char>) {
        (self.name@, self.value@)
    }
}

/// Body of a `PushUrlsCache` call.
#[derive(Debug, Clone)]
pub struct PushUrlsCacheRequest {
    pub urls: Vec<String>,
    pub user_agent: Option<String>,
    pub area: Option<String>,
    pub layer: Option<String>,
    pub parse_m3u8: Option<bool>,
    pub disable_range: Option<bool>,
    pub headers: Option<Vec<HttpHeader>>,
    pub url_encode: Option<bool>,
}

/// What a successful call answers: the task and the request it was given.
#[derive(Debug, Clone)]
pub struct PurgePathCacheResponse {
    pub task_id: String,
    pub request_id: String,
}

impl PartialEq for PurgePathCacheResponse {
    fn eq(&self, other: &Self) -> (r: bool) {
        self.task_id == other.task_id && self.request_id == other.request_id
    }
}

impl vstd::std_specs::cmp::PartialEqSpecImpl for PurgePathCacheResponse {
    open spec fn obeys_eq_spec() -> bool {
        true
    }

    open spec fn eq_spec(&self, other: &Self) -> bool {
        self.task_id@ == other.task_id@ && self.request_id@ == other.request_id@
    }
}

impl Eq for PurgePathCacheResponse {
}

/// An error that the API itself reported.
#[derive(Debug, Clone)]
pub struct TencentCloudApiError {
    pub code: String,
    pub message: String,
    pub request_id: Option<String>,
}

/// Everything that can go wrong in a call.
#[derive(Debug)]
pub enum ContentDeliveryError {
    Api(TencentCloudApiError),
    Crypto(String),
    Http(reqwest::Error),
    InvalidTimestamp(u64),
    ResponseParse { status: u16, body: String, source: serde_json::Error },
    SerializeRequest(serde_json::Error),
    UnexpectedResponse { status: u16, body: String },
}

/// The `Error` object of a reply.
#[derive(Debug, Clone)]
pub struct TencentCloudErrorBody {
    pub code: String,
    pub message: String,
}

/// The `Response` object of a reply; each field may be absent.
#[derive(Debug, Clone)]
pub struct TencentCloudEnvelopeBody {
    pub error: Option<TencentCloudErrorBody>,
    pub request_id: Option<String>,
    pub task_id: Option<String>,
}

/// A reply as the API frames it: `{"Response": {...}}`.
#[derive(Debug, Clone)]
pub struct TencentCloudEnvelope {
    pub response: TencentCloudEnvelopeBody,
}

impl ContentDeliveryError {
    /// Whether the message of this error quotes the text of an underlying error.
    pub open spec fn has_source(&self) -> bool {
        self is Http || self is ResponseParse || self is SerializeRequest
    }
}

/// The message of `err`; `source` is the text of the underlying `reqwest` or
/// `serde_json` error, which only `Http`, `ResponseParse` and `SerializeRequest` quote.
pub open spec fn error_message(err: ContentDeliveryError, source: Seq<char>) -> Seq<char> {
    match err {
        ContentDeliveryError::Api(api) => match api.request_id {
            Some(request_id) => "Tencent Cloud API error "@ + api.code@ + ": "@ + api.message@
                + " (request_id="@ + request_id@ + ")"@,
            None => "Tencent Cloud API error "@ + api.code@ + ": "@ + api.message@,
        },
        ContentDeliveryError::Crypto(message) => "failed to compute Tencent Cloud signature: "@
            + message@,
        ContentDeliveryError::Http(_) => "HTTP request to Tencent Cloud failed: "@ + source,
        ContentDeliveryError::InvalidTimestamp(timestamp) => "timestamp "@ + decimal(
            timestamp as nat,
        ) + " is out of range for UTC date conversion"@,
        ContentDeliveryError::ResponseParse { status, body, source: _ } =>
            "failed to parse Tencent Cloud response (status "@ + decimal(status as nat) + "): "@
            + source + "; body="@ + body@,
        ContentDeliveryError::SerializeRequest(_) => "failed to serialize PurgePathCache request: "@
            + source,
        ContentDeliveryError::UnexpectedResponse { status, body } =>
            "unexpected Tencent Cloud response (status "@ + decimal(status as nat) + "): "@ + body@,
    }
}

/// Renders a `reqwest::Error` by its `Display` impl. Nothing is stated of the text.
#[verifier::external_body]
fn http_error_text(err: &reqwest::Error) -> String {
    err.to_string()
}

/// Renders a `serde_json::Error` by its `Display` impl. Nothing is stated of the text.
#[verifier::external_body]
fn json_error_text(err: &serde_json::Error) -> String {
    err.to_string()
}

impl ContentDeliveryError {
    /// The message of this error, given the text of its underlying error.
    pub fn message_with_source(&self, source: &str) -> (message: String)
        ensures
            message@ == error_message(*self, source@),
    {
        match self {
            ContentDeliveryError::Api(api) => {
                let mut m = String::from_str("Tencent Cloud API error ");
                m.append(api.code.as_str());
                m.append(": ");
                m.append(api.message.as_str());
                match &api.request_id {
                    Some(request_id) => {
                        m.append(" (request_id=");
                        m.append(request_id.as_str());
                        m.append(")");
                    },
                    None => {},
                }
                m
            },
            ContentDeliveryError::Crypto(message) => {
                let mut m = String::from_str("failed to compute Tencent Cloud signature: ");
                m.append(message.as_str());
                m
            },
            ContentDeliveryError::Http(_) => {
                let mut m = String::from_str("HTTP request to Tencent Cloud failed: ");
                m.append(source);
                m
            },
            ContentDeliveryError::InvalidTimestamp(timestamp) => {
                let mut m = String::from_str("timestamp ");
                let digits = decimal_string(*timestamp);
                m.append(digits.as_str());
                m.append(" is out of range for UTC date conversion");
                m
            },
            ContentDeliveryError::ResponseParse { status, body, source: _ } => {
                let mut m = String::from_str("failed to parse Tencent Cloud response (status ");
                let digits = decimal_string(*status as u64);
                m.append(digits.as_str());
                m.append("): ");
                m.append(source);
                m.append("; body=");
                m.append(body.as_str());
                m
            },
            ContentDeliveryError::SerializeRequest(_) => {
                let mut m = String::from_str("failed to serialize PurgePathCache request: ");
                m.append(source);
                m
            },
            ContentDeliveryError::UnexpectedResponse { status, body } => {
                let mut m = String::from_str("unexpected Tencent Cloud response (status ");
                let digits = decimal_string(*status as u64);
                m.append(digits.as_str());
                m.append("): ");
                m.append(body.as_str());
                m
            },
        }
    }

    /// The message of this error, as its `Display` impl would print it. The text
    /// of an underlying `reqwest` or `serde_json` error is whatever that crate prints.
    pub fn message(&self) -> (message: String)
        ensures
            exists|source: Seq<char>| message@ == error_message(*self, source),
            !self.has_source() ==> message@ == error_message(*self, Seq::empty()),
    {
        let source = match self {
            ContentDeliveryError::Http(err) => http_error_text(err),
            ContentDeliveryError::ResponseParse { source, .. } => json_error_text(source),
            ContentDeliveryError::SerializeRequest(err) => json_error_text(err),
            _ => String::new(),
        };
        self.message_with_source(source.as_str())
    }
}

/// How a reply reads: the reported error if there is one, else the task and
/// request ids if both are present, else an unexpected reply.
pub open spec fn response_outcome(
    status: u16,
    body: Seq<char>,
    envelope: TencentCloudEnvelope,
    res: Result<PurgePathCacheResponse, ContentDeliveryError>,
) -> bool {
    match envelope.response.error {
        Some(error) => res matches Err(ContentDeliveryError::Api(api)) && api.code@ == error.code@
            && api.message@ == error.message@ && api.request_id == envelope.response.request_id,
        None => match (envelope.response.task_id, envelope.response.request_id) {
            (Some(task_id), Some(request_id)) => res matches Ok(response) && response.task_id
                == task_id && response.request_id == request_id,
            _ => res matches Err(ContentDeliveryError::UnexpectedResponse { status: s, body: b })
                && s == status && b@ == body,
        },
    }
}

/// Reads a reply of status `status` and text `body`, given what parsing `body`
/// as JSON gave. A body that does not parse is a `ResponseParse` error that
/// keeps the status, the body and the parser's error.
pub fn parse_response(
    status: u16,
    body: &str,
    parsed: Result<TencentCloudEnvelope, serde_json::Error>,
) -> (res: Result<PurgePathCacheResponse, ContentDeliveryError>)
    ensures
        match parsed {
            Ok(envelope) => response_outcome(status, body@, envelope, res),
            Err(parse_error) => res matches Err(
                ContentDeliveryError::ResponseParse { status: s, body: b, source },
            ) && s == status && b@ == body@ && source == parse_error,
        },
{
    let envelope = match parsed {
        Ok(envelope) => envelope,
        Err(source) => {
            return Err(
                ContentDeliveryError::ResponseParse { status, body: body.to_owned(), source },
            );
        },
    };
    let response = envelope.response;
    if let Some(error) = response.error {
        return Err(
            ContentDeliveryError::Api(
                TencentCloudApiError {
                    code: error.code,
                    message: error.message,
                    request_id: response.request_id,
                },
            ),
        );
    }
    match (response.task_id, response.request_id) {
        (Some(task_id), Some(request_id)) => Ok(PurgePathCacheResponse { task_id, request_id }),
        _ => Err(ContentDeliveryError::UnexpectedResponse { status, body: body.to_owned() }),
    }
}

/// The headers of a signed call of `action` with body `payload` at `timestamp`,
/// as (name, value) pairs in the order they are sent; `X-TC-Region` comes last
/// and only when the region is not blank.
pub open spec fn request_headers(
    credentials: TencentCloudCredentials,
    action: Seq<char>,
    payload: Seq<char>,
    timestamp: u64,
) -> Seq<(Seq<char>, Seq<char>)> {
    let fixed = seq![
        ("authorization"@, authorization_of(credentials.secret_id@, credentials.secret_key@, payload, timestamp)),
        ("content-type"@, CONTENT_TYPE_JSON@),
        ("host"@, HOST_NAME@),
        ("X-TC-Action"@, action),
        ("X-TC-Timestamp"@, decimal(timestamp as nat)),
        ("X-TC-Version"@, VERSION@),
    ];
    if is_blank(credentials.region@) {
        fixed
    } else {
        fixed.push(("X-TC-Region"@, credentials.region@))
    }
}

/// Appends a header to `headers`.
fn push_header(headers: &mut Vec<HttpHeader>, name: &str, value: String)
    ensures
        final(headers)@.map_values(|h: HttpHeader| h@) == old(headers)@.map_values(
            |h: HttpHeader| h@,
        ).push((name@, value@)),
{
    let ghost before = headers@;
    headers.push(HttpHeader { name: name.to_owned(), value });
    assert(headers@.map_values(|h: HttpHeader| h@) =~= before.map_values(|h: HttpHeader| h@).push(
        (name@, value@),
    ));
}

/// The headers that a call of `action` with body `payload` at `timestamp`
/// carries, the `authorization` header signed from `credentials`. Fails with
/// `InvalidTimestamp` exactly when the timestamp has no calendar date.
pub fn build_request_headers(
    credentials: &TencentCloudCredentials,
    action: &str,
    payload: &str,
    timestamp: u64,
) -> (res: Result<Vec<HttpHeader>, ContentDeliveryError>)
    ensures
        match res {
            Ok(headers) => timestamp_in_range(timestamp) && headers@.map_values(|h: HttpHeader| h@)
                == request_headers(*credentials, action@, payload@, timestamp),
            Err(err) => !timestamp_in_range(timestamp) && err
                == ContentDeliveryError::InvalidTimestamp(timestamp),
        },
{
    let authorization = build_authorization(credentials, payload, timestamp)?;
    let mut headers: Vec<HttpHeader> = Vec::new();
    push_header(&mut headers, "authorization", authorization);
    push_header(&mut headers, "content-type", CONTENT_TYPE_JSON.to_owned());
    push_header(&mut headers, "host", HOST_NAME.to_owned());
    push_header(&mut headers, "X-TC-Action", action.to_owned());
    push_header(&mut headers, "X-TC-Timestamp", decimal_string(timestamp));
    push_header(&mut headers, "X-TC-Version", VERSION.to_owned());
    if !is_blank_str(credentials.region.as_str()) {
        push_header(&mut headers, "X-TC-Region", credentials.region.clone());
    }
    Ok(headers)
}

} // verus!
