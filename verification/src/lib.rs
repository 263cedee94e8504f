//! Verified core of a small static-file HTTP server with WebSocket upgrade,
//! and of the feed utilities beside it.
//!
//! The library holds the pure logic: the request-head grammar, the
//! case-insensitive header map, the WebSocket handshake engine (key
//! validation and accept-token derivation), the request router that decides
//! among rejection, upgrade and file serving, the chunked byte stream that
//! carries a file's content to a response body, and the record selection of
//! the calendar and ID-list utilities. The surrounding process — sockets,
//! files, the connection tasks, the fetch-and-store edges — lives outside
//! and hands the library plain values.

pub mod feed;
pub mod handshake;
pub mod headers;
pub mod http;
pub mod ids;
pub mod router;
pub mod stream;
