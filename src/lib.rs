//! Client-side protocol layer for a cookie-authenticated JSON web API:
//! identifier normalisation, the response envelope, header and request
//! construction, and derivation of download URLs.

pub mod text;
pub mod urls;
pub mod error;
pub mod envelope;
pub mod ids;
pub mod bookmark;
pub mod illust;
pub mod headers;
pub mod session;
pub mod cookies;
