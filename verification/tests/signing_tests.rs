use tccli::calendar::utc_date_from_timestamp;
use tccli::content_delivery::{
    build_request_headers, ContentDeliveryError, TencentCloudCredentials,
};
use tccli::signing::{
    build_authorization, build_canonical_request, build_signature, build_string_to_sign,
    hmac_sha256, sha256_hex,
};

const PAYLOAD: &str = r#"{"Paths":["https://example.com/a/"],"FlushType":"flush"}"#;
const TIMESTAMP: u64 = 1551113065;
const CANONICAL: &str = "POST\n/\n\ncontent-type:application/json; charset=utf-8\nhost:cdn.tencentcloudapi.com\n\ncontent-type;host\n0b38ede4b51d63abd90c6a59e634488c463969341bcfdecdfc0a683967b3022d";
const STRING_TO_SIGN: &str = "TC3-HMAC-SHA256\n1551113065\n2019-02-25/cdn/tc3_request\n59151e4147b73307a8fe36bf60abe9f8f35021b0c90136a4d1aa688cde330897";
const SIGNATURE: &str = "668a251d186050573ff82f35c6fa880f130bc2cd3a96d048e2e17d4ec547ccaa";
const AUTHORIZATION: &str = "TC3-HMAC-SHA256 Credential=AKIDEXAMPLE/2019-02-25/cdn/tc3_request, SignedHeaders=content-type;host, Signature=668a251d186050573ff82f35c6fa880f130bc2cd3a96d048e2e17d4ec547ccaa";

fn credentials(region: &str) -> TencentCloudCredentials {
    TencentCloudCredentials {
        secret_id: "AKIDEXAMPLE".to_owned(),
        secret_key: "Gu5t9xGARNpq86cd98joQYCN3EXAMPLE".to_owned(),
        region: region.to_owned(),
    }
}

#[test]
fn sha256_hex_of_empty_and_abc() {
    assert_eq!(
        sha256_hex(""),
        "e3b0c44298fc1c149afbf4c8996fb92427ae41e4649b934ca495991b7852b855"
    );
    assert_eq!(
        sha256_hex("abc"),
        "ba7816bf8f01cfea414140de5dae2223b00361a396177a9cb410ff61f20015ad"
    );
}

#[test]
fn hmac_sha256_matches_rfc4231_case_2() {
    let tag = hmac_sha256(b"Jefe", "what do ya want for nothing?").unwrap();
    let expected: Vec<u8> = vec![
        0x5b, 0xdc, 0xc1, 0x46, 0xbf, 0x60, 0x75, 0x4e, 0x6a, 0x04, 0x24, 0x26, 0x08, 0x95, 0x75,
        0xc7, 0x5a, 0x00, 0x3f, 0x08, 0x9d, 0x27, 0x39, 0x83, 0x9d, 0xec, 0x58, 0xb9, 0x64, 0xec,
        0x38, 0x43,
    ];
    assert_eq!(tag, expected);
}

#[test]
fn hmac_sha256_accepts_empty_and_long_keys() {
    assert_eq!(hmac_sha256(b"", "x").unwrap().len(), 32);
    assert_eq!(hmac_sha256(&[7u8; 200], "x").unwrap().len(), 32);
}

#[test]
fn canonical_request_layout() {
    assert_eq!(build_canonical_request("cdn.tencentcloudapi.com", PAYLOAD), CANONICAL);
}

#[test]
fn string_to_sign_layout() {
    let hashed = sha256_hex(CANONICAL);
    assert_eq!(
        build_string_to_sign(TIMESTAMP, "2019-02-25/cdn/tc3_request", &hashed),
        STRING_TO_SIGN
    );
}

#[test]
fn signature_matches_reference() {
    let sig = build_signature("Gu5t9xGARNpq86cd98joQYCN3EXAMPLE", "2019-02-25", "cdn", STRING_TO_SIGN)
        .unwrap();
    assert_eq!(sig, SIGNATURE);
    assert_eq!(sig.len(), 64);
    assert!(sig.chars().all(|c| c.is_ascii_digit() || ('a'..='f').contains(&c)));
}

#[test]
fn authorization_matches_reference() {
    let auth = build_authorization(&credentials(""), PAYLOAD, TIMESTAMP).unwrap();
    assert_eq!(auth, AUTHORIZATION);
}

#[test]
fn authorization_depends_on_payload_and_key() {
    let a = build_authorization(&credentials(""), PAYLOAD, TIMESTAMP).unwrap();
    let b = build_authorization(&credentials(""), "{}", TIMESTAMP).unwrap();
    assert_ne!(a, b);
    let mut other = credentials("");
    other.secret_key.push('!');
    let c = build_authorization(&other, PAYLOAD, TIMESTAMP).unwrap();
    assert_ne!(a, c);
}

#[test]
fn authorization_rejects_timestamp_without_date() {
    match build_authorization(&credentials(""), PAYLOAD, 253402300800) {
        Err(ContentDeliveryError::InvalidTimestamp(t)) => assert_eq!(t, 253402300800),
        other => panic!("unexpected {other:?}"),
    }
}

#[test]
fn utc_dates_of_timestamps() {
    assert_eq!(utc_date_from_timestamp(0).unwrap(), "1970-01-01");
    assert_eq!(utc_date_from_timestamp(TIMESTAMP).unwrap(), "2019-02-25");
    assert_eq!(utc_date_from_timestamp(253402300799).unwrap(), "9999-12-31");
    assert_eq!(utc_date_from_timestamp(u64::MAX).unwrap(), "1969-12-31");
    assert_eq!(utc_date_from_timestamp(18446744042694457316).unwrap(), "0987-03-04");
    assert_eq!(utc_date_from_timestamp(18446744011525056016).unwrap(), "-001-06-15");
    assert_eq!(utc_date_from_timestamp(18446743696004434816).unwrap(), "-9999-01-01");
}

#[test]
fn utc_date_out_of_range() {
    for t in [253402300800u64, 18446743696004434815, 1u64 << 63] {
        match utc_date_from_timestamp(t) {
            Err(ContentDeliveryError::InvalidTimestamp(v)) => assert_eq!(v, t),
            other => panic!("unexpected {other:?}"),
        }
    }
}

#[test]
fn date_layout_is_yyyy_mm_dd() {
    let d = utc_date_from_timestamp(86400 * 40).unwrap();
    assert_eq!(d, "1970-02-10");
    assert_eq!(d.len(), 10);
    assert_eq!(&d[4..5], "-");
    assert_eq!(&d[7..8], "-");
}

#[test]
fn request_headers_with_region() {
    let headers = build_request_headers(&credentials("ap-shanghai"), "PurgePathCache", PAYLOAD, TIMESTAMP)
        .unwrap();
    let pairs: Vec<(String, String)> =
        headers.into_iter().map(|h| (h.name, h.value)).collect();
    let expected: Vec<(String, String)> = vec![
        ("authorization", AUTHORIZATION),
        ("content-type", "application/json; charset=utf-8"),
        ("host", "cdn.tencentcloudapi.com"),
        ("X-TC-Action", "PurgePathCache"),
        ("X-TC-Timestamp", "1551113065"),
        ("X-TC-Version", "2018-06-06"),
        ("X-TC-Region", "ap-shanghai"),
    ]
    .into_iter()
    .map(|(a, b)| (a.to_owned(), b.to_owned()))
    .collect();
    assert_eq!(pairs, expected);
}

#[test]
fn request_headers_without_blank_region() {
    for region in ["", "  ", "\t\u{3000}"] {
        let headers =
            build_request_headers(&credentials(region), "PushUrlsCache", PAYLOAD, TIMESTAMP).unwrap();
        assert_eq!(headers.len(), 6);
        assert!(headers.iter().all(|h| h.name != "X-TC-Region"));
        assert_eq!(headers[3].value, "PushUrlsCache");
    }
}

#[test]
fn request_headers_invalid_timestamp() {
    assert!(matches!(
        build_request_headers(&credentials("x"), "PurgePathCache", PAYLOAD, 1u64 << 62),
        Err(ContentDeliveryError::InvalidTimestamp(t)) if t == 1u64 << 62
    ));
}

#[test]
fn dates_follow_timestamps_in_order() {
    let stamps = [0u64, 86399, 86400, 951782400, 951868799, 951868800, 1551113065, 4102444800, 253402214400, 253402300799];
    let dates: Vec<String> = stamps.iter().map(|&t| utc_date_from_timestamp(t).unwrap()).collect();
    for d in &dates {
        assert_eq!(d.len(), 10);
    }
    for w in dates.windows(2) {
        assert!(w[0] <= w[1]);
    }
    assert_eq!(dates[0], dates[1]);
    assert_eq!(dates[3], "2000-02-29");
    assert_eq!(dates[4], dates[3]);
    assert_eq!(dates[5], "2000-03-01");
    assert_eq!(dates[8], dates[9]);
}
