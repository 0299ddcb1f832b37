# tccli

A client for Tencent Cloud CDN cache tasks (directory purge, URL purge, URL
prefetch), written in Verus.

- `src/` is the verified library:
  - `text.rs`: whitespace, trimming, splitting and decimal rendering over `Seq<char>`;
  - `crypto.rs`: SHA-256, HMAC-SHA256 and hex, as calls into `sha2`, `hmac` and `hex`;
  - `calendar.rs`: the proleptic Gregorian calendar and the UTC `YYYY-MM-DD` date of a
    Unix timestamp, through `time`;
  - `signing.rs`: TC3-HMAC-SHA256 signing, from canonical request to `Authorization`;
  - `content_delivery.rs`: requests, replies and errors, the signed header list,
    and how a reply is read;
  - `clock.rs`: the current Unix time;
  - `cli.rs`: option validation, `NAME:VALUE` header parsing and the call each
    command makes;
  - `laws.rs`: properties that span functions (trimming, header round trip,
    decimal round trip, date layout and order).
- `app/` is the `tccli-rs` binary: argument parsing with `clap`, JSON with
  `serde`, HTTPS with `reqwest`.
- `tests/` runs the library on concrete values.
