//! WebSocket handshake engine: accept-token derivation per RFC 6455.

use crate::headers::Headers;
use vstd::prelude::*;
use vstd::string::StringExecFns;

verus! {

/// The fixed GUID that RFC 6455 appends to the client's key before hashing.
pub open spec fn websocket_magic() -> Seq<char> {
    "258EAFA5-E914-47DA-95CA-C5AB0DC85B11"@
}

/// The RFC 6455 GUID as a string slice.
pub fn websocket_magic_str() -> (r: &'static str)
    ensures
        r@ == websocket_magic(),
{
    "258EAFA5-E914-47DA-95CA-C5AB0DC85B11"
}

/// The SHA-1 digest of a string's UTF-8 bytes, named but not written out.
pub uninterp spec fn sha1_of(s: Seq<char>) -> Seq<u8>;

/// The base64 encoding (standard alphabet, padded) of a byte string, named
/// but not written out.
pub uninterp spec fn base64_of(b: Seq<u8>) -> Seq<char>;

/// Relies on `sha1::Sha1` (`update`, `digest`): the SHA-1 digest of the
/// string's UTF-8 bytes, a function of the string alone; SHA-1 digests are
/// 20 bytes long.
#[verifier::external_body]
fn sha1_digest(s: &str) -> (r: Vec<u8>)
    ensures
        r@ == sha1_of(s@),
        r@.len() == 20,
{
    let mut h = sha1::Sha1::new();
    h.update(s.as_bytes());
    h.digest().bytes().to_vec()
}

/// Relies on `base64::encode`: the standard base64 encoding of the bytes,
/// a function of the bytes alone.
#[verifier::external_body]
fn base64_encode(b: &[u8]) -> (r: String)
    ensures
        r@ == base64_of(b@),
{
    base64::encode(b)
}

/// What `Sec-WebSocket-Accept` must carry for a client key (RFC 6455):
/// base64 of the SHA-1 digest of the key followed by the fixed GUID.
pub open spec fn accept_token_of(key: Seq<char>) -> Seq<char> {
    base64_of(sha1_of(key + websocket_magic()))
}

/// Derive the `Sec-WebSocket-Accept` value for a client key. The result is a
/// function of the key alone, so equal keys always yield equal tokens.
pub fn compute_accept_token(key: &str) -> (r: String)
    ensures
        r@ == accept_token_of(key@),
{
    let mut s = key.to_owned();
    s.append(websocket_magic_str());
    let digest = sha1_digest(s.as_str());
    base64_encode(digest.as_slice())
}

/// Why an upgrade request was turned away.
#[derive(Clone, Copy, PartialEq, Eq, Structural, Debug)]
pub enum Rejection {
    /// The request carries no `Sec-WebSocket-Key`.
    MissingKey,
    /// The request names a `Sec-WebSocket-Version` other than `13`.
    UnsupportedVersion,
}

/// The name of the header that asks for a protocol switch.
pub open spec fn upgrade_header_name() -> Seq<char> {
    "Upgrade"@
}

/// The name of the header that carries the client's key.
pub open spec fn key_header() -> Seq<char> {
    "Sec-WebSocket-Key"@
}

/// The name of the header that carries the protocol version.
pub open spec fn version_header() -> Seq<char> {
    "Sec-WebSocket-Version"@
}

/// Check an upgrade request's handshake headers. A request without a
/// `Sec-WebSocket-Key` is turned away as `MissingKey`; one that names a
/// `Sec-WebSocket-Version` other than exactly `"13"` as
/// `UnsupportedVersion`; every other request yields its raw key.
pub fn validate_upgrade_request(headers: &Headers) -> (r: Result<String, Rejection>)
    ensures
        match r {
            Ok(key) => {
                &&& headers.lookup(key_header()) == Some(key@)
                &&& (headers.lookup(version_header()) is None || headers.lookup(version_header())
                    == Some("13"@))
            },
            Err(Rejection::MissingKey) => headers.lookup(key_header()) is None,
            Err(Rejection::UnsupportedVersion) => {
                &&& headers.lookup(key_header()) is Some
                &&& headers.lookup(version_header()) is Some
                &&& headers.lookup(version_header()) != Some("13"@)
            },
        },
{
    let key = match headers.get("Sec-WebSocket-Key") {
        Some(k) => k.clone(),
        None => {
            return Err(Rejection::MissingKey);
        },
    };
    match headers.get("Sec-WebSocket-Version") {
        Some(v) => {
            let thirteen: String = "13".to_owned();
            if *v == thirteen {
                Ok(key)
            } else {
                Err(Rejection::UnsupportedVersion)
            }
        },
        None => Ok(key),
    }
}

} // verus!
