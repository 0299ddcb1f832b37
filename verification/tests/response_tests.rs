use tccli::content_delivery::{
    parse_response, ContentDeliveryError, PurgePathCacheResponse, TencentCloudApiError,
    TencentCloudEnvelope, TencentCloudEnvelopeBody, TencentCloudErrorBody,
};

fn envelope(
    error: Option<(&str, &str)>,
    request_id: Option<&str>,
    task_id: Option<&str>,
) -> TencentCloudEnvelope {
    TencentCloudEnvelope {
        response: TencentCloudEnvelopeBody {
            error: error.map(|(c, m)| TencentCloudErrorBody { code: c.to_owned(), message: m.to_owned() }),
            request_id: request_id.map(str::to_owned),
            task_id: task_id.map(str::to_owned),
        },
    }
}

fn json_error() -> serde_json::Error {
    serde_json::from_str::<serde_json::Value>("{").unwrap_err()
}

#[test]
fn response_with_both_ids_is_ok() {
    let r = parse_response(200, "{...}", Ok(envelope(None, Some("req-1"), Some("task-1")))).unwrap();
    assert_eq!(
        r,
        PurgePathCacheResponse { task_id: "task-1".to_owned(), request_id: "req-1".to_owned() }
    );
}

#[test]
fn response_error_takes_precedence() {
    let r = parse_response(
        200,
        "b",
        Ok(envelope(Some(("AuthFailure", "bad signature")), Some("req-2"), Some("task-2"))),
    );
    match r {
        Err(ContentDeliveryError::Api(api)) => {
            assert_eq!(api.code, "AuthFailure");
            assert_eq!(api.message, "bad signature");
            assert_eq!(api.request_id.as_deref(), Some("req-2"));
        }
        other => panic!("unexpected {other:?}"),
    }
}

#[test]
fn response_error_without_request_id() {
    match parse_response(400, "b", Ok(envelope(Some(("C", "M")), None, None))) {
        Err(ContentDeliveryError::Api(api)) => assert_eq!(api.request_id, None),
        other => panic!("unexpected {other:?}"),
    }
}

#[test]
fn response_missing_ids_is_unexpected() {
    for (req, task) in [(None, Some("t")), (Some("r"), None), (None, None)] {
        match parse_response(502, "gateway", Ok(envelope(None, req, task))) {
            Err(ContentDeliveryError::UnexpectedResponse { status, body }) => {
                assert_eq!(status, 502);
                assert_eq!(body, "gateway");
            }
            other => panic!("unexpected {other:?}"),
        }
    }
}

#[test]
fn response_that_does_not_parse() {
    match parse_response(500, "not json", Err(json_error())) {
        Err(ContentDeliveryError::ResponseParse { status, body, source }) => {
            assert_eq!(status, 500);
            assert_eq!(body, "not json");
            assert!(source.is_eof());
        }
        other => panic!("unexpected {other:?}"),
    }
}

#[test]
fn message_of_api_error() {
    let with_id = ContentDeliveryError::Api(TencentCloudApiError {
        code: "C".to_owned(),
        message: "M".to_owned(),
        request_id: Some("R".to_owned()),
    });
    assert_eq!(with_id.message(), "Tencent Cloud API error C: M (request_id=R)");
    let without_id = ContentDeliveryError::Api(TencentCloudApiError {
        code: "C".to_owned(),
        message: "M".to_owned(),
        request_id: None,
    });
    assert_eq!(without_id.message(), "Tencent Cloud API error C: M");
}

#[test]
fn message_of_plain_errors() {
    assert_eq!(
        ContentDeliveryError::Crypto("Invalid Length".to_owned()).message(),
        "failed to compute Tencent Cloud signature: Invalid Length"
    );
    assert_eq!(
        ContentDeliveryError::InvalidTimestamp(18446744073709551615).message(),
        "timestamp 18446744073709551615 is out of range for UTC date conversion"
    );
    assert_eq!(
        ContentDeliveryError::UnexpectedResponse { status: 404, body: "nope".to_owned() }.message(),
        "unexpected Tencent Cloud response (status 404): nope"
    );
}

#[test]
fn message_of_errors_with_sources() {
    let e = json_error();
    let text = e.to_string();
    assert_eq!(
        ContentDeliveryError::SerializeRequest(json_error()).message(),
        format!("failed to serialize PurgePathCache request: {text}")
    );
    assert_eq!(
        ContentDeliveryError::ResponseParse { status: 0, body: "{".to_owned(), source: e }.message(),
        format!("failed to parse Tencent Cloud response (status 0): {text}; body={{")
    );
    let client = reqwest::blocking::Client::new();
    let http = client.get("not a url").build().unwrap_err();
    let http_text = http.to_string();
    assert_eq!(
        ContentDeliveryError::Http(http).message(),
        format!("HTTP request to Tencent Cloud failed: {http_text}")
    );
}

#[test]
fn message_with_given_source() {
    assert_eq!(
        ContentDeliveryError::SerializeRequest(json_error()).message_with_source("boom"),
        "failed to serialize PurgePathCache request: boom"
    );
}
