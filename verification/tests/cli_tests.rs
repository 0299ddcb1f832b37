use tccli::cli::{
    parse_http_header, run, run_purge_path_cache, run_purge_urls_cache, run_push_urls_cache,
    success_message, validate_non_empty, validate_push_area, validate_push_layer,
    validate_region, validate_secret_id, validate_secret_key, validate_url_with_scheme, Command,
    FlushType, PurgePathCacheArgs, PurgeUrlsCacheArgs, PushUrlsCacheArgs, Submission,
};
use tccli::content_delivery::{HttpHeader, PurgePathCacheResponse};

#[test]
fn flush_type_api_values() {
    assert_eq!(FlushType::Flush.as_api_value(), "flush");
    assert_eq!(FlushType::Delete.as_api_value(), "delete");
}

#[test]
fn url_scheme_validation() {
    assert_eq!(validate_url_with_scheme("http://a/"), Ok("http://a/".to_owned()));
    assert_eq!(validate_url_with_scheme("https://a/b"), Ok("https://a/b".to_owned()));
    for bad in ["ftp://a", "HTTP://a", "https:/a", "", " https://a"] {
        assert_eq!(
            validate_url_with_scheme(bad),
            Err("value must start with http:// or https://".to_owned())
        );
    }
}

#[test]
fn non_empty_validation() {
    assert_eq!(validate_non_empty("Field", " x "), Ok(" x ".to_owned()));
    assert_eq!(validate_non_empty("Field", " \t"), Err("Field must not be empty".to_owned()));
    assert_eq!(validate_secret_id(""), Err("SecretId must not be empty".to_owned()));
    assert_eq!(validate_secret_key("\u{3000}"), Err("SecretKey must not be empty".to_owned()));
    assert_eq!(validate_region("  "), Err("Region must not be empty".to_owned()));
    assert_eq!(validate_region("ap-shanghai"), Ok("ap-shanghai".to_owned()));
    assert_eq!(validate_secret_id("AKID"), Ok("AKID".to_owned()));
    assert_eq!(validate_secret_key("k"), Ok("k".to_owned()));
}

#[test]
fn push_area_validation() {
    for ok in ["mainland", "overseas", "global"] {
        assert_eq!(validate_push_area(ok), Ok(ok.to_owned()));
    }
    for bad in ["Mainland", "", "global "] {
        assert_eq!(
            validate_push_area(bad),
            Err("area must be one of mainland, overseas, or global".to_owned())
        );
    }
}

#[test]
fn push_layer_validation() {
    assert_eq!(validate_push_layer("middle"), Ok("middle".to_owned()));
    assert_eq!(validate_push_layer("edge"), Err("layer must be middle".to_owned()));
}

fn header(name: &str, value: &str) -> (String, String) {
    (name.to_owned(), value.to_owned())
}

fn parsed(s: &str) -> Result<(String, String), String> {
    parse_http_header(s).map(|h| (h.name, h.value))
}

#[test]
fn header_parsing() {
    assert_eq!(parsed("X-Test: 1"), Ok(header("X-Test", "1")));
    assert_eq!(parsed(" Accept : a:b "), Ok(header("Accept", "a:b")));
    assert_eq!(parsed("no colon"), Err("header must be in NAME:VALUE format".to_owned()));
    assert_eq!(parsed("  : v"), Err("header name must not be empty".to_owned()));
    assert_eq!(parsed("n:  "), Err("header value must not be empty".to_owned()));
    assert_eq!(parsed(":"), Err("header name must not be empty".to_owned()));
}

#[test]
fn header_length_limits_are_in_bytes() {
    let name_128 = "n".repeat(128);
    assert!(parsed(&format!("{name_128}:v")).is_ok());
    assert_eq!(
        parsed(&format!("{name_128}x:v")),
        Err("header name must not exceed 128 bytes".to_owned())
    );
    let wide = "é".repeat(65);
    assert_eq!(parsed(&format!("{wide}:v")), Err("header name must not exceed 128 bytes".to_owned()));
    let value_1024 = "v".repeat(1024);
    assert!(parsed(&format!("n:{value_1024}")).is_ok());
    assert_eq!(
        parsed(&format!("n:{value_1024}v")),
        Err("header value must not exceed 1024 bytes".to_owned())
    );
}

#[test]
fn header_written_back_reparses() {
    for s in [" X-A : b : c ", "k:\u{3000}v\t", "Name:Value"] {
        let (name, value) = parsed(s).unwrap();
        assert_eq!(parsed(&format!("{name}:{value}")), Ok((name, value)));
    }
}

fn owned(v: &[&str]) -> Vec<String> {
    v.iter().map(|s| s.to_string()).collect()
}

#[test]
fn purge_path_cache_plan() {
    let args = PurgePathCacheArgs {
        secret_id: "id".to_owned(),
        secret_key: "key".to_owned(),
        region: "ap-guangzhou".to_owned(),
        paths: owned(&["https://a/b/"]),
        flush_type: FlushType::Delete,
        url_encode: Some(true),
        area: None,
    };
    match run_purge_path_cache(args) {
        Submission::PurgePathCache { credentials, request } => {
            assert_eq!(credentials.secret_id, "id");
            assert_eq!(credentials.secret_key, "key");
            assert_eq!(credentials.region, "ap-guangzhou");
            assert_eq!(request.paths, owned(&["https://a/b/"]));
            assert_eq!(request.flush_type, "delete");
            assert_eq!(request.url_encode, Some(true));
            assert_eq!(request.area, None);
        }
        other => panic!("unexpected {other:?}"),
    }
}

#[test]
fn purge_urls_cache_plan() {
    let args = PurgeUrlsCacheArgs {
        secret_id: "id".to_owned(),
        secret_key: "key".to_owned(),
        urls: owned(&["http://a/x.js"]),
        url_encode: None,
        area: Some("overseas".to_owned()),
    };
    match run_purge_urls_cache(args) {
        Submission::PurgeUrlsCache { credentials, request } => {
            assert_eq!(credentials.region, "");
            assert_eq!(request.urls, owned(&["http://a/x.js"]));
            assert_eq!(request.area.as_deref(), Some("overseas"));
        }
        other => panic!("unexpected {other:?}"),
    }
}

fn push_args(headers: usize) -> PushUrlsCacheArgs {
    PushUrlsCacheArgs {
        secret_id: "id".to_owned(),
        secret_key: "key".to_owned(),
        urls: owned(&["https://a/big.bin"]),
        user_agent: Some("ua".to_owned()),
        area: Some("global".to_owned()),
        layer: Some("middle".to_owned()),
        parse_m3u8: Some(false),
        disable_range: Some(true),
        headers: (0..headers)
            .map(|i| HttpHeader { name: format!("H{i}"), value: "v".to_owned() })
            .collect(),
        url_encode: None,
    }
}

#[test]
fn push_urls_cache_plan() {
    match run_push_urls_cache(push_args(0)).unwrap() {
        Submission::PushUrlsCache { credentials, request } => {
            assert_eq!(credentials.region, "");
            assert!(request.headers.is_none());
            assert_eq!(request.user_agent.as_deref(), Some("ua"));
            assert_eq!(request.layer.as_deref(), Some("middle"));
            assert_eq!(request.parse_m3u8, Some(false));
            assert_eq!(request.disable_range, Some(true));
        }
        other => panic!("unexpected {other:?}"),
    }
    match run_push_urls_cache(push_args(20)).unwrap() {
        Submission::PushUrlsCache { request, .. } => {
            let hs = request.headers.unwrap();
            assert_eq!(hs.len(), 20);
            assert_eq!(hs[19].name, "H19");
        }
        other => panic!("unexpected {other:?}"),
    }
}

#[test]
fn push_urls_cache_refuses_too_many_headers() {
    assert_eq!(
        run_push_urls_cache(push_args(21)).unwrap_err(),
        "at most 20 custom headers can be specified"
    );
}

#[test]
fn run_dispatches_each_command() {
    let path = run(Command::PurgePathCache(PurgePathCacheArgs {
        secret_id: "i".to_owned(),
        secret_key: "k".to_owned(),
        region: "r".to_owned(),
        paths: owned(&["https://a/"]),
        flush_type: FlushType::Flush,
        url_encode: None,
        area: None,
    }))
    .unwrap();
    assert_eq!(path.command_name(), "purge-path-cache");
    let urls = run(Command::PurgeUrlsCache(PurgeUrlsCacheArgs {
        secret_id: "i".to_owned(),
        secret_key: "k".to_owned(),
        urls: owned(&["https://a/x"]),
        url_encode: None,
        area: None,
    }))
    .unwrap();
    assert_eq!(urls.command_name(), "purge-urls-cache");
    assert_eq!(run(Command::PushUrlsCache(push_args(1))).unwrap().command_name(), "push-urls-cache");
    assert!(run(Command::PushUrlsCache(push_args(25))).is_err());
}

#[test]
fn success_line() {
    let response =
        PurgePathCacheResponse { task_id: "t-1".to_owned(), request_id: "r-1".to_owned() };
    assert_eq!(
        success_message("purge-path-cache", &response),
        "purge-path-cache submitted successfully. task_id=t-1, request_id=r-1"
    );
}
