//! The hash, MAC and hex primitives that request signing is built from.
//! Each is a call into `sha2`, `hmac` or `hex`; what is believed of those calls
//! is stated on the wrappers below.
use hmac::Mac;
use sha2::Digest;
use vstd::prelude::*;

verus! {

/// The SHA-256 digest of `data`, as `sha2::Sha256` computes it.
pub uninterp spec fn sha256_of(data: Seq<u8>) -> Seq<u8>;

/// The HMAC-SHA256 tag of `message` under `key`, as `hmac::Hmac<sha2::Sha256>` computes it.
pub uninterp spec fn hmac_sha256_of(key: Seq<u8>, message: Seq<u8>) -> Seq<u8>;

/// The lowercase hexadecimal digit for `n` (which is below sixteen).
pub open spec fn hex_digit(n: int) -> char {
    if n < 10 {
        crate::text::digit_char(n)
    } else if n == 10 {
        'a'
    } else if n == 11 {
        'b'
    } else if n == 12 {
        'c'
    } else if n == 13 {
        'd'
    } else if n == 14 {
        'e'
    } else {
        'f'
    }
}

/// The lowercase hexadecimal rendering of `data`: two digits per byte, high
/// nibble first.
pub open spec fn hex_lower(data: Seq<u8>) -> Seq<char>
    decreases data.len(),
{
    if data.len() == 0 {
        Seq::empty()
    } else {
        seq![hex_digit(data[0] as int / 16), hex_digit(data[0] as int % 16)] + hex_lower(data.drop_first())
    }
}

/// Hex renders each byte as two characters.
pub proof fn lemma_hex_lower_len(data: Seq<u8>)
    ensures
        hex_lower(data).len() == 2 * data.len(),
    decreases data.len(),
{
    if data.len() > 0 {
        lemma_hex_lower_len(data.drop_first());
    }
}

/// `c` is one of `0123456789abcdef`.
pub open spec fn is_lower_hex_digit(c: char) -> bool {
    ('0' as u32 <= c as u32 <= '9' as u32) || ('a' as u32 <= c as u32 <= 'f' as u32)
}

/// Hex renders bytes with lowercase hexadecimal digits only.
pub proof fn lemma_hex_lower_digits(data: Seq<u8>)
    ensures
        forall|i: int| 0 <= i < hex_lower(data).len() ==> is_lower_hex_digit(#[trigger] hex_lower(data)[i]),
    decreases data.len(),
{
    if data.len() > 0 {
        lemma_hex_lower_digits(data.drop_first());
        let head = seq![hex_digit(data[0] as int / 16), hex_digit(data[0] as int % 16)];
        let tail = hex_lower(data.drop_first());
        assert forall|i: int| 0 <= i < hex_lower(data).len() implies is_lower_hex_digit(
            #[trigger] hex_lower(data)[i],
        ) by {
            if i >= 2 {
                assert(hex_lower(data)[i] == tail[i - 2]);
            } else {
                assert(hex_lower(data)[i] == head[i]);
            }
        }
    }
}

/// The error type of `hmac::Mac::new_from_slice`.
#[verifier::external_type_specification]
#[verifier::external_body]
pub struct ExInvalidLength(hmac::digest::InvalidLength);

/// Calls `sha2::Sha256::digest` (trait `sha2::Digest`) on `data` and copies the
/// digest out. Trusted: the result is `sha256_of(data)` and is 32 bytes long
/// (the output size of `Sha256` is `U32`).
#[verifier::external_body]
pub(crate) fn sha256_digest(data: &[u8]) -> (res: Vec<u8>)
    ensures
        res@ == sha256_of(data@),
        res@.len() == 32,
{
    sha2::Sha256::digest(data).to_vec()
}

/// Calls `hmac::Mac::new_from_slice` for `Hmac<Sha256>`, then `update` with
/// `message` and `finalize`, and copies the tag out. Trusted: the result is
/// `Ok`, since `HmacCore::new_from_slice` in hmac 0.12 accepts a key of any
/// length (longer keys are hashed); the tag is `hmac_sha256_of(key, message)`
/// and is 32 bytes long.
#[verifier::external_body]
pub(crate) fn hmac_sha256_tag(key: &[u8], message: &[u8]) -> (res: Result<Vec<u8>, hmac::digest::InvalidLength>)
    ensures
        res is Ok,
        res matches Ok(tag) ==> tag@ == hmac_sha256_of(key@, message@) && tag@.len() == 32,
{
    match <hmac::Hmac<sha2::Sha256> as Mac>::new_from_slice(key) {
        Ok(mut mac) => {
            mac.update(message);
            Ok(mac.finalize().into_bytes().to_vec())
        },
        Err(err) => Err(err),
    }
}

/// Renders `err` by its `Display` impl (`crypto_common::InvalidLength`), which
/// writes the fixed text `Invalid Length`.
#[verifier::external_body]
pub(crate) fn invalid_length_text(err: &hmac::digest::InvalidLength) -> (text: String)
    ensures
        text@ == "Invalid Length"@,
{
    err.to_string()
}

/// Calls `hex::encode` on `data`. Trusted: the result is `hex_lower(data)`
/// (hex 0.4 maps each byte to two characters of `0123456789abcdef`, high
/// nibble first).
#[verifier::external_body]
pub(crate) fn hex_encode(data: &[u8]) -> (text: String)
    ensures
        text@ == hex_lower(data@),
{
    hex::encode(data)
}

} // verus!
