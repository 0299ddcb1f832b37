//! TC3-HMAC-SHA256 request signing: the canonical request, the string to
//! sign, the derived signing key and the `Authorization` header.
use crate::calendar::{
    days_from_civil, format_date, is_valid_date, signed_timestamp, timestamp_in_range, unix_day,
    utc_date, utc_date_from_timestamp,
};
use crate::content_delivery::{
    ContentDeliveryError, TencentCloudCredentials, ALGORITHM, CONTENT_TYPE_JSON, HOST_NAME,
    SERVICE, SIGNED_HEADERS, TERMINATOR,
};
use crate::crypto::{
    hex_encode, hex_lower, is_lower_hex_digit, hmac_sha256_of, hmac_sha256_tag, invalid_length_text, sha256_digest,
    sha256_of,
};
use crate::text::{decimal, decimal_string};
use vstd::prelude::*;
use vstd::utf8::encode_utf8;

verus! {

/// Lowercase hex of the SHA-256 digest of the UTF-8 bytes of `value`.
pub open spec fn sha256_hex_of(value: Seq<char>) -> Seq<char> {
    hex_lower(sha256_of(encode_utf8(value)))
}

/// The canonical headers: `content-type` and `host`, each on a line of its own.
pub open spec fn canonical_headers(host: Seq<char>) -> Seq<char> {
    "content-type:"@ + CONTENT_TYPE_JSON@ + "\nhost:"@ + host + "\n"@
}

/// The canonical request of a `POST /` with no query string and `payload` as body.
pub open spec fn canonical_request(host: Seq<char>, payload: Seq<char>) -> Seq<char> {
    "POST\n/\n\n"@ + canonical_headers(host) + "\n"@ + SIGNED_HEADERS@ + "\n"@ + sha256_hex_of(
        payload,
    )
}

/// The credential scope `date/service/tc3_request`.
pub open spec fn credential_scope(date: Seq<char>) -> Seq<char> {
    date + "/"@ + SERVICE@ + "/"@ + TERMINATOR@
}

/// The string to sign: algorithm, timestamp, scope and hashed canonical request, one per line.
pub open spec fn string_to_sign(
    timestamp: u64,
    credential_scope: Seq<char>,
    hashed_canonical_request: Seq<char>,
) -> Seq<char> {
    ALGORITHM@ + "\n"@ + decimal(timestamp as nat) + "\n"@ + credential_scope + "\n"@
        + hashed_canonical_request
}

/// The key that signs for `date`, `service` and `tc3_request`, derived from `secret_key` by
/// three chained HMACs.
pub open spec fn signing_key(secret_key: Seq<char>, date: Seq<char>, service: Seq<char>) -> Seq<u8> {
    let secret_date = hmac_sha256_of(encode_utf8("TC3"@ + secret_key), encode_utf8(date));
    let secret_service = hmac_sha256_of(secret_date, encode_utf8(service));
    hmac_sha256_of(secret_service, encode_utf8(TERMINATOR@))
}

/// The signature: lowercase hex of the HMAC of the string to sign under the signing key.
pub open spec fn signature_of(
    secret_key: Seq<char>,
    date: Seq<char>,
    service: Seq<char>,
    string_to_sign: Seq<char>,
) -> Seq<char> {
    hex_lower(hmac_sha256_of(signing_key(secret_key, date, service), encode_utf8(string_to_sign)))
}

/// The `Authorization` header of a call with body `payload` made at `timestamp`.
pub open spec fn authorization_of(
    secret_id: Seq<char>,
    secret_key: Seq<char>,
    payload: Seq<char>,
    timestamp: u64,
) -> Seq<char> {
    let date = utc_date(timestamp);
    let scope = credential_scope(date);
    let to_sign = string_to_sign(
        timestamp,
        scope,
        sha256_hex_of(canonical_request(HOST_NAME@, payload)),
    );
    ALGORITHM@ + " Credential="@ + secret_id + "/"@ + scope + ", SignedHeaders="@ + SIGNED_HEADERS@
        + ", Signature="@ + signature_of(secret_key, date, SERVICE@, to_sign)
}

/// The `Authorization` header of a call with body `payload` made at
/// `timestamp`, dated `date`: the credential scope `date/cdn/tc3_request` and
/// the key `HMAC(HMAC(HMAC(HMAC("TC3" + secret_key, date), "cdn"), "tc3_request")`
/// that signs the string to sign, all written out.
pub open spec fn authorization_on(
    secret_id: Seq<char>,
    secret_key: Seq<char>,
    payload: Seq<char>,
    timestamp: u64,
    date: Seq<char>,
) -> Seq<char> {
    let scope = date + "/cdn/tc3_request"@;
    let hashed_request = hex_lower(
        sha256_of(
            encode_utf8(
                "POST\n/\n\ncontent-type:application/json; charset=utf-8\nhost:cdn.tencentcloudapi.com\n\ncontent-type;host\n"@
                    + hex_lower(sha256_of(encode_utf8(payload))),
            ),
        ),
    );
    let to_sign = "TC3-HMAC-SHA256\n"@ + decimal(timestamp as nat) + "\n"@ + scope + "\n"@
        + hashed_request;
    let key_date = hmac_sha256_of(encode_utf8("TC3"@ + secret_key), encode_utf8(date));
    let key_service = hmac_sha256_of(key_date, encode_utf8("cdn"@));
    let key_signing = hmac_sha256_of(key_service, encode_utf8("tc3_request"@));
    "TC3-HMAC-SHA256 Credential="@ + secret_id + "/"@ + scope
        + ", SignedHeaders=content-type;host, Signature="@ + hex_lower(
        hmac_sha256_of(key_signing, encode_utf8(to_sign)),
    )
}

/// `authorization_of` is the header written out by `authorization_on`, dated
/// by `utc_date`.
pub proof fn lemma_authorization_written_out(
    secret_id: Seq<char>,
    secret_key: Seq<char>,
    payload: Seq<char>,
    timestamp: u64,
)
    ensures
        authorization_of(secret_id, secret_key, payload, timestamp) == authorization_on(
            secret_id,
            secret_key,
            payload,
            timestamp,
            utc_date(timestamp),
        ),
{
    reveal_strlit("TC3-HMAC-SHA256");
    reveal_strlit("application/json; charset=utf-8");
    reveal_strlit("cdn.tencentcloudapi.com");
    reveal_strlit("cdn");
    reveal_strlit("content-type;host");
    reveal_strlit("tc3_request");
    reveal_strlit("content-type:");
    reveal_strlit("\nhost:");
    reveal_strlit("\n");
    reveal_strlit("/");
    reveal_strlit("POST\n/\n\n");
    reveal_strlit("POST\n/\n\ncontent-type:application/json; charset=utf-8\nhost:cdn.tencentcloudapi.com\n\ncontent-type;host\n");
    reveal_strlit("/cdn/tc3_request");
    reveal_strlit("TC3-HMAC-SHA256\n");
    reveal_strlit(" Credential=");
    reveal_strlit(", SignedHeaders=");
    reveal_strlit(", Signature=");
    reveal_strlit("TC3-HMAC-SHA256 Credential=");
    reveal_strlit(", SignedHeaders=content-type;host, Signature=");
    let date = utc_date(timestamp);
    let hashed_payload = hex_lower(sha256_of(encode_utf8(payload)));
    assert(canonical_request(HOST_NAME@, payload) =~= "POST\n/\n\ncontent-type:application/json; charset=utf-8\nhost:cdn.tencentcloudapi.com\n\ncontent-type;host\n"@
        + hashed_payload);
    assert(credential_scope(date) =~= date + "/cdn/tc3_request"@);
    assert(encode_utf8(SERVICE@) == encode_utf8("cdn"@));
    assert(encode_utf8(TERMINATOR@) == encode_utf8("tc3_request"@));
    let hashed = sha256_hex_of(canonical_request(HOST_NAME@, payload));
    assert(string_to_sign(timestamp, credential_scope(date), hashed) =~= "TC3-HMAC-SHA256\n"@
        + decimal(timestamp as nat) + "\n"@ + (date + "/cdn/tc3_request"@) + "\n"@ + hashed);
    let sig = signature_of(secret_key, date, SERVICE@, string_to_sign(timestamp, credential_scope(date), hashed));
    assert(authorization_of(secret_id, secret_key, payload, timestamp) =~= "TC3-HMAC-SHA256 Credential="@ + secret_id + "/"@ + (date + "/cdn/tc3_request"@)
        + ", SignedHeaders=content-type;host, Signature="@ + sig);
}

/// Lowercase hex of the SHA-256 digest of `value`.
pub fn sha256_hex(value: &str) -> (hex: String)
    ensures
        hex@ == sha256_hex_of(value@),
        hex@.len() == 64,
        forall|i: int| 0 <= i < 64 ==> is_lower_hex_digit(#[trigger] hex@[i]),
{
    let digest = sha256_digest(value.as_bytes());
    proof {
        crate::crypto::lemma_hex_lower_len(digest@);
        crate::crypto::lemma_hex_lower_digits(digest@);
    }
    hex_encode(digest.as_slice())
}

/// HMAC-SHA256 of the UTF-8 bytes of `message` under `key`. It never fails: HMAC
/// takes keys of any length.
pub fn hmac_sha256(key: &[u8], message: &str) -> (res: Result<Vec<u8>, ContentDeliveryError>)
    ensures
        res matches Ok(tag) && tag@ == hmac_sha256_of(key@, encode_utf8(message@)) && tag@.len()
            == 32,
{
    match hmac_sha256_tag(key, message.as_bytes()) {
        Ok(tag) => Ok(tag),
        Err(err) => Err(ContentDeliveryError::Crypto(invalid_length_text(&err))),
    }
}

/// The canonical request for a `POST /` to `host` with body `payload`.
pub fn build_canonical_request(host: &str, payload: &str) -> (request: String)
    ensures
        request@ == canonical_request(host@, payload@),
{
    let mut headers = String::from_str("content-type:");
    headers.append(CONTENT_TYPE_JSON);
    headers.append("\nhost:");
    headers.append(host);
    headers.append("\n");
    let hashed_request_payload = sha256_hex(payload);
    let mut request = String::from_str("POST\n/\n\n");
    request.append(headers.as_str());
    request.append("\n");
    request.append(SIGNED_HEADERS);
    request.append("\n");
    request.append(hashed_request_payload.as_str());
    request
}

/// The string to sign for `timestamp`, `credential_scope` and the hashed canonical request.
pub fn build_string_to_sign(timestamp: u64, credential_scope: &str, hashed_canonical_request: &str) -> (s: String)
    ensures
        s@ == string_to_sign(timestamp, credential_scope@, hashed_canonical_request@),
{
    let mut s = String::from_str(ALGORITHM);
    s.append("\n");
    let digits = decimal_string(timestamp);
    s.append(digits.as_str());
    s.append("\n");
    s.append(credential_scope);
    s.append("\n");
    s.append(hashed_canonical_request);
    s
}

/// The signature of `string_to_sign`: 64 lowercase hex digits of the HMAC under the key
/// derived from `secret_key`, `date` and `service`.
pub fn build_signature(secret_key: &str, date: &str, service: &str, string_to_sign: &str) -> (res: Result<String, ContentDeliveryError>)
    ensures
        res matches Ok(signature) && signature@ == signature_of(
            secret_key@,
            date@,
            service@,
            string_to_sign@,
        ) && signature@.len() == 64 && forall|i: int|
            0 <= i < 64 ==> is_lower_hex_digit(#[trigger] signature@[i]),
{
    let mut key = String::from_str("TC3");
    key.append(secret_key);
    let secret_date = hmac_sha256(key.as_str().as_bytes(), date)?;
    let secret_service = hmac_sha256(secret_date.as_slice(), service)?;
    let secret_signing = hmac_sha256(secret_service.as_slice(), TERMINATOR)?;
    let signature = hmac_sha256(secret_signing.as_slice(), string_to_sign)?;
    proof {
        crate::crypto::lemma_hex_lower_len(signature@);
        crate::crypto::lemma_hex_lower_digits(signature@);
    }
    Ok(hex_encode(signature.as_slice()))
}

/// The `Authorization` header for a call with body `payload` at `timestamp`. Fails with
/// `InvalidTimestamp` exactly when the timestamp has no calendar date.
pub fn build_authorization(credentials: &TencentCloudCredentials, payload: &str, timestamp: u64) -> (res: Result<String, ContentDeliveryError>)
    ensures
        match res {
            Ok(authorization) => timestamp_in_range(timestamp) && authorization@ == authorization_of(
                credentials.secret_id@,
                credentials.secret_key@,
                payload@,
                timestamp,
            ),
            Err(err) => !timestamp_in_range(timestamp) && err
                == ContentDeliveryError::InvalidTimestamp(timestamp),
        },
        res matches Ok(authorization) ==> forall|date: (int, int, int)|
            is_valid_date(date.0, date.1, date.2) && #[trigger] days_from_civil(
                date.0,
                date.1,
                date.2,
            ) == unix_day(signed_timestamp(timestamp) as int) ==> authorization@
                == authorization_on(
                credentials.secret_id@,
                credentials.secret_key@,
                payload@,
                timestamp,
                format_date(date),
            ),
{
    proof {
        crate::laws::lemma_authorization_dated_by_timestamp(
            credentials.secret_id@,
            credentials.secret_key@,
            payload@,
            timestamp,
        );
    }
    let date = utc_date_from_timestamp(timestamp)?;
    let mut credential_scope = date.clone();
    credential_scope.append("/");
    credential_scope.append(SERVICE);
    credential_scope.append("/");
    credential_scope.append(TERMINATOR);
    let canonical_request = build_canonical_request(HOST_NAME, payload);
    let hashed_canonical_request = sha256_hex(canonical_request.as_str());
    let string_to_sign = build_string_to_sign(
        timestamp,
        credential_scope.as_str(),
        hashed_canonical_request.as_str(),
    );
    let signature = build_signature(
        credentials.secret_key.as_str(),
        date.as_str(),
        SERVICE,
        string_to_sign.as_str(),
    )?;
    let mut authorization = String::from_str(ALGORITHM);
    authorization.append(" Credential=");
    authorization.append(credentials.secret_id.as_str());
    authorization.append("/");
    authorization.append(credential_scope.as_str());
    authorization.append(", SignedHeaders=");
    authorization.append(SIGNED_HEADERS);
    authorization.append(", Signature=");
    authorization.append(signature.as_str());
    Ok(authorization)
}

} // verus!
