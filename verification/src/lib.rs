//! A client library for Tencent Cloud CDN cache tasks: request signing
//! (TC3-HMAC-SHA256), response interpretation and command-line validation.
pub mod text;
pub mod crypto;
pub mod calendar;
pub mod content_delivery;
pub mod signing;
pub mod clock;
pub mod cli;
pub mod laws;
