//! The command line's own rules: what each option accepts, how a custom
//! header is read, and which call each command makes with which data.
use crate::content_delivery::{
    HttpHeader, PurgePathCacheRequest, PurgePathCacheResponse, PurgeUrlsCacheRequest,
    PushUrlsCacheRequest, TencentCloudCredentials,
};
use crate::text::{
    has_prefix, is_blank, is_blank_str, split_once, split_once_str, starts_with_str, str_equals,
    trim, trim_str,
};
use vstd::prelude::*;
use vstd::utf8::encode_utf8;

verus! {

/// How a directory purge treats cached resources.
#[derive(Clone, Copy, Debug, PartialEq, Eq, Structural)]
pub enum FlushType {
    /// Refresh only resources that changed.
    Flush,
    /// Refresh every resource.
    Delete,
}

/// The API's name for a flush type.
pub open spec fn flush_type_value(flush_type: FlushType) -> Seq<char> {
    match flush_type {
        FlushType::Flush => "flush"@,
        FlushType::Delete => "delete"@,
    }
}

impl FlushType {
    /// The API's name for this flush type.
    pub fn as_api_value(self) -> (value: &'static str)
        ensures
            value@ == flush_type_value(self),
    {
        match self {
            FlushType::Flush => "flush",
            FlushType::Delete => "delete",
        }
    }
}

/// Message of a URL without an accepted scheme.
pub open spec fn url_scheme_message() -> Seq<char> {
    "value must start with http:// or https://"@
}

/// Accepts a value that starts with `http://` or `https://`, unchanged.
pub fn validate_url_with_scheme(value: &str) -> (res: Result<String, String>)
    ensures
        match res {
            Ok(v) => v@ == value@ && (has_prefix(value@, "http://"@) || has_prefix(
                value@,
                "https://"@,
            )),
            Err(message) => message@ == url_scheme_message() && !has_prefix(value@, "http://"@)
                && !has_prefix(value@, "https://"@),
        },
{
    if starts_with_str(value, "http://") || starts_with_str(value, "https://") {
        Ok(value.to_owned())
    } else {
        Err("value must start with http:// or https://".to_owned())
    }
}

/// Accepts a value that is not blank, unchanged; otherwise the message names the field.
pub fn validate_non_empty(field_name: &str, value: &str) -> (res: Result<String, String>)
    ensures
        match res {
            Ok(v) => v@ == value@ && !is_blank(value@),
            Err(message) => message@ == field_name@ + " must not be empty"@ && is_blank(value@),
        },
{
    if is_blank_str(value) {
        let mut message = field_name.to_owned();
        message.append(" must not be empty");
        Err(message)
    } else {
        Ok(value.to_owned())
    }
}

/// Accepts a SecretId that is not blank.
pub fn validate_secret_id(value: &str) -> (res: Result<String, String>)
    ensures
        match res {
            Ok(v) => v@ == value@ && !is_blank(value@),
            Err(message) => message@ == "SecretId"@ + " must not be empty"@ && is_blank(value@),
        },
{
    validate_non_empty("SecretId", value)
}

/// Accepts a SecretKey that is not blank.
pub fn validate_secret_key(value: &str) -> (res: Result<String, String>)
    ensures
        match res {
            Ok(v) => v@ == value@ && !is_blank(value@),
            Err(message) => message@ == "SecretKey"@ + " must not be empty"@ && is_blank(value@),
        },
{
    validate_non_empty("SecretKey", value)
}

/// Accepts a region that is not blank.
pub fn validate_region(value: &str) -> (res: Result<String, String>)
    ensures
        match res {
            Ok(v) => v@ == value@ && !is_blank(value@),
            Err(message) => message@ == "Region"@ + " must not be empty"@ && is_blank(value@),
        },
{
    validate_non_empty("Region", value)
}

/// The prefetch areas that the API knows.
pub open spec fn is_push_area(value: Seq<char>) -> bool {
    value == "mainland"@ || value == "overseas"@ || value == "global"@
}

/// Accepts `mainland`, `overseas` or `global`, unchanged.
pub fn validate_push_area(value: &str) -> (res: Result<String, String>)
    ensures
        match res {
            Ok(v) => v@ == value@ && is_push_area(value@),
            Err(message) => message@ == "area must be one of mainland, overseas, or global"@
                && !is_push_area(value@),
        },
{
    if str_equals(value, "mainland") || str_equals(value, "overseas") || str_equals(
        value,
        "global",
    ) {
        Ok(value.to_owned())
    } else {
        Err("area must be one of mainland, overseas, or global".to_owned())
    }
}

/// Accepts `middle`, the one prefetch layer that the API supports, unchanged.
pub fn validate_push_layer(value: &str) -> (res: Result<String, String>)
    ensures
        match res {
            Ok(v) => v@ == value@ && value@ == "middle"@,
            Err(message) => message@ == "layer must be middle"@ && value@ != "middle"@,
        },
{
    if str_equals(value, "middle") {
        Ok(value.to_owned())
    } else {
        Err("layer must be middle".to_owned())
    }
}

/// Longest header name accepted, in UTF-8 bytes.
pub const MAX_HEADER_NAME_BYTES: usize = 128;

/// Longest header value accepted, in UTF-8 bytes.
pub const MAX_HEADER_VALUE_BYTES: usize = 1024;

/// How a `NAME:VALUE` argument reads: split at the first `:`, both sides
/// trimmed, then each side checked in turn; `Ok` holds (name, value).
pub open spec fn header_outcome(s: Seq<char>) -> Result<(Seq<char>, Seq<char>), Seq<char>> {
    match split_once(s, ':') {
        None => Err("header must be in NAME:VALUE format"@),
        Some((raw_name, raw_value)) => {
            let name = trim(raw_name);
            let value = trim(raw_value);
            if name.len() == 0 {
                Err("header name must not be empty"@)
            } else if value.len() == 0 {
                Err("header value must not be empty"@)
            } else if encode_utf8(name).len() > MAX_HEADER_NAME_BYTES {
                Err("header name must not exceed 128 bytes"@)
            } else if encode_utf8(value).len() > MAX_HEADER_VALUE_BYTES {
                Err("header value must not exceed 1024 bytes"@)
            } else {
                Ok((name, value))
            }
        },
    }
}

/// Reads a custom header written as `NAME:VALUE`.
pub fn parse_http_header(value: &str) -> (res: Result<HttpHeader, String>)
    ensures
        match header_outcome(value@) {
            Ok((name, header_value)) => res matches Ok(h) && h.name@ == name && h.value@
                == header_value,
            Err(message) => res matches Err(m) && m@ == message,
        },
{
    let (raw_name, raw_value) = match split_once_str(value, ':') {
        Some(parts) => parts,
        None => {
            return Err("header must be in NAME:VALUE format".to_owned());
        },
    };
    let name = trim_str(raw_name);
    let header_value = trim_str(raw_value);
    if name.is_empty() {
        return Err("header name must not be empty".to_owned());
    }
    if header_value.is_empty() {
        return Err("header value must not be empty".to_owned());
    }
    if name.as_bytes().len() > MAX_HEADER_NAME_BYTES {
        return Err("header name must not exceed 128 bytes".to_owned());
    }
    if header_value.as_bytes().len() > MAX_HEADER_VALUE_BYTES {
        return Err("header value must not exceed 1024 bytes".to_owned());
    }
    Ok(HttpHeader { name: name.to_owned(), value: header_value.to_owned() })
}

/// Options of `purge-path-cache`.
#[derive(Debug, Clone)]
pub struct PurgePathCacheArgs {
    pub secret_id: String,
    pub secret_key: String,
    pub region: String,
    pub paths: Vec<String>,
    pub flush_type: FlushType,
    pub url_encode: Option<bool>,
    pub area: Option<String>,
}

/// Options of `purge-urls-cache`.
#[derive(Debug, Clone)]
pub struct PurgeUrlsCacheArgs {
    pub secret_id: String,
    pub secret_key: String,
    pub urls: Vec<String>,
    pub url_encode: Option<bool>,
    pub area: Option<String>,
}

/// Options of `push-urls-cache`.
#[derive(Debug, Clone)]
pub struct PushUrlsCacheArgs {
    pub secret_id: String,
    pub secret_key: String,
    pub urls: Vec<String>,
    pub user_agent: Option<String>,
    pub area: Option<String>,
    pub layer: Option<String>,
    pub parse_m3u8: Option<bool>,
    pub disable_range: Option<bool>,
    pub headers: Vec<HttpHeader>,
    pub url_encode: Option<bool>,
}

/// A command of the command line.
#[derive(Debug, Clone)]
pub enum Command {
    /// Submit a directory purge task.
    PurgePathCache(PurgePathCacheArgs),
    /// Submit a URL purge task.
    PurgeUrlsCache(PurgeUrlsCacheArgs),
    /// Submit a URL prefetch task.
    PushUrlsCache(PushUrlsCacheArgs),
}

/// A call ready to be made: which task, with which credentials and body.
#[derive(Debug, Clone)]
pub enum Submission {
    PurgePathCache { credentials: TencentCloudCredentials, request: PurgePathCacheRequest },
    PurgeUrlsCache { credentials: TencentCloudCredentials, request: PurgeUrlsCacheRequest },
    PushUrlsCache { credentials: TencentCloudCredentials, request: PushUrlsCacheRequest },
}

/// Most custom headers that a prefetch may carry.
pub const MAX_PUSH_HEADERS: usize = 20;

/// `submission` is the directory purge that `args` describe.
pub open spec fn purge_path_cache_plan(args: PurgePathCacheArgs, submission: Submission) -> bool {
    submission matches Submission::PurgePathCache { credentials, request } && {
        &&& credentials.secret_id == args.secret_id
        &&& credentials.secret_key == args.secret_key
        &&& credentials.region == args.region
        &&& request.paths == args.paths
        &&& request.flush_type@ == flush_type_value(args.flush_type)
        &&& request.url_encode == args.url_encode
        &&& request.area == args.area
    }
}

/// The directory purge that `purge-path-cache` submits: the credentials carry
/// the region, the flush type goes by its API name.
pub fn run_purge_path_cache(args: PurgePathCacheArgs) -> (submission: Submission)
    ensures
        purge_path_cache_plan(args, submission),
        submission matches Submission::PurgePathCache { credentials, request } && {
            &&& credentials.secret_id@ == args.secret_id@
            &&& credentials.secret_key@ == args.secret_key@
            &&& credentials.region@ == args.region@
            &&& request.paths@ == args.paths@
            &&& (args.flush_type == FlushType::Flush ==> request.flush_type@ == "flush"@)
            &&& (args.flush_type == FlushType::Delete ==> request.flush_type@ == "delete"@)
            &&& request.url_encode == args.url_encode
            &&& request.area == args.area
        },
{
    let credentials = TencentCloudCredentials {
        secret_id: args.secret_id,
        secret_key: args.secret_key,
        region: args.region,
    };
    let request = PurgePathCacheRequest {
        paths: args.paths,
        flush_type: args.flush_type.as_api_value().to_owned(),
        url_encode: args.url_encode,
        area: args.area,
    };
    Submission::PurgePathCache { credentials, request }
}

/// `submission` is the URL purge that `args` describe.
pub open spec fn purge_urls_cache_plan(args: PurgeUrlsCacheArgs, submission: Submission) -> bool {
    submission matches Submission::PurgeUrlsCache { credentials, request } && {
        &&& credentials.secret_id == args.secret_id
        &&& credentials.secret_key == args.secret_key
        &&& credentials.region@ == Seq::<char>::empty()
        &&& request.urls == args.urls
        &&& request.url_encode == args.url_encode
        &&& request.area == args.area
    }
}

/// The URL purge that `purge-urls-cache` submits; it names no region.
pub fn run_purge_urls_cache(args: PurgeUrlsCacheArgs) -> (submission: Submission)
    ensures
        purge_urls_cache_plan(args, submission),
        submission matches Submission::PurgeUrlsCache { credentials, request } && {
            &&& credentials.secret_id@ == args.secret_id@
            &&& credentials.secret_key@ == args.secret_key@
            &&& credentials.region@.len() == 0
            &&& request.urls@ == args.urls@
            &&& request.url_encode == args.url_encode
            &&& request.area == args.area
        },
{
    let credentials = TencentCloudCredentials {
        secret_id: args.secret_id,
        secret_key: args.secret_key,
        region: String::new(),
    };
    let request = PurgeUrlsCacheRequest {
        urls: args.urls,
        url_encode: args.url_encode,
        area: args.area,
    };
    Submission::PurgeUrlsCache { credentials, request }
}

/// `res` is what `push-urls-cache` with `args` gives: a refusal when there are
/// more than `MAX_PUSH_HEADERS` custom headers, else the URL prefetch that
/// `args` describe, with no `Headers` field when there are none.
pub open spec fn push_urls_cache_outcome(args: PushUrlsCacheArgs, res: Result<Submission, String>) -> bool {
    if args.headers.len() > MAX_PUSH_HEADERS {
        res matches Err(message) && message@ == "at most 20 custom headers can be specified"@
    } else {
        res matches Ok(Submission::PushUrlsCache { credentials, request }) && {
            &&& credentials.secret_id == args.secret_id
            &&& credentials.secret_key == args.secret_key
            &&& credentials.region@ == Seq::<char>::empty()
            &&& request.urls == args.urls
            &&& request.user_agent == args.user_agent
            &&& request.area == args.area
            &&& request.layer == args.layer
            &&& request.parse_m3u8 == args.parse_m3u8
            &&& request.disable_range == args.disable_range
            &&& request.headers == (if args.headers.len() == 0 {
                None
            } else {
                Some(args.headers)
            })
            &&& request.url_encode == args.url_encode
        }
    }
}

/// The URL prefetch that `push-urls-cache` submits; it names no region. More
/// than `MAX_PUSH_HEADERS` custom headers are refused; none at all are sent as
/// no `Headers` field.
pub fn run_push_urls_cache(args: PushUrlsCacheArgs) -> (res: Result<Submission, String>)
    ensures
        push_urls_cache_outcome(args, res),
        res is Ok <==> args.headers.len() <= MAX_PUSH_HEADERS,
        res matches Ok(submission) ==> submission matches Submission::PushUrlsCache {
            credentials,
            request,
        } && {
            &&& credentials.secret_id@ == args.secret_id@
            &&& credentials.secret_key@ == args.secret_key@
            &&& credentials.region@.len() == 0
            &&& request.urls@ == args.urls@
            &&& request.user_agent == args.user_agent
            &&& request.area == args.area
            &&& request.layer == args.layer
            &&& request.parse_m3u8 == args.parse_m3u8
            &&& request.disable_range == args.disable_range
            &&& (args.headers.len() == 0 ==> request.headers is None)
            &&& (args.headers.len() > 0 ==> request.headers == Some(args.headers))
            &&& request.url_encode == args.url_encode
        },
{
    if args.headers.len() > MAX_PUSH_HEADERS {
        return Err("at most 20 custom headers can be specified".to_owned());
    }
    let credentials = TencentCloudCredentials {
        secret_id: args.secret_id,
        secret_key: args.secret_key,
        region: String::new(),
    };
    let headers = if args.headers.len() == 0 {
        None
    } else {
        Some(args.headers)
    };
    let request = PushUrlsCacheRequest {
        urls: args.urls,
        user_agent: args.user_agent,
        area: args.area,
        layer: args.layer,
        parse_m3u8: args.parse_m3u8,
        disable_range: args.disable_range,
        headers,
        url_encode: args.url_encode,
    };
    Ok(Submission::PushUrlsCache { credentials, request })
}

/// The call that `command` asks for, or why it cannot be made.
pub fn run(command: Command) -> (res: Result<Submission, String>)
    ensures
        match command {
            Command::PurgePathCache(args) => res matches Ok(submission) && purge_path_cache_plan(
                args,
                submission,
            ),
            Command::PurgeUrlsCache(args) => res matches Ok(submission) && purge_urls_cache_plan(
                args,
                submission,
            ),
            Command::PushUrlsCache(args) => push_urls_cache_outcome(args, res),
        },
{
    match command {
        Command::PurgePathCache(args) => Ok(run_purge_path_cache(args)),
        Command::PurgeUrlsCache(args) => Ok(run_purge_urls_cache(args)),
        Command::PushUrlsCache(args) => run_push_urls_cache(args),
    }
}

impl Submission {
    /// The command-line name of the task.
    pub open spec fn spec_command_name(&self) -> Seq<char> {
        match self {
            Submission::PurgePathCache { .. } => "purge-path-cache"@,
            Submission::PurgeUrlsCache { .. } => "purge-urls-cache"@,
            Submission::PushUrlsCache { .. } => "push-urls-cache"@,
        }
    }

    /// The command-line name of the task.
    pub fn command_name(&self) -> (name: &'static str)
        ensures
            name@ == self.spec_command_name(),
    {
        match self {
            Submission::PurgePathCache { .. } => "purge-path-cache",
            Submission::PurgeUrlsCache { .. } => "purge-urls-cache",
            Submission::PushUrlsCache { .. } => "push-urls-cache",
        }
    }
}

/// The line printed when a task was accepted.
pub open spec fn success_line(command_name: Seq<char>, task_id: Seq<char>, request_id: Seq<char>) -> Seq<char> {
    command_name + " submitted successfully. task_id="@ + task_id + ", request_id="@ + request_id
}

/// The line printed when `command_name` was accepted with `response`.
pub fn success_message(command_name: &str, response: &PurgePathCacheResponse) -> (line: String)
    ensures
        line@ == success_line(command_name@, response.task_id@, response.request_id@),
{
    let mut line = command_name.to_owned();
    line.append(" submitted successfully. task_id=");
    line.append(response.task_id.as_str());
    line.append(", request_id=");
    line.append(response.request_id.as_str());
    line
}

} // verus!
