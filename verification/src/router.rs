//! Request router: classify one request as a rejection, a WebSocket upgrade,
//! or a file to serve, and pin down the response that each case gets.

use crate::handshake::accept_token_of;
use crate::handshake::compute_accept_token;
use crate::handshake::key_header;
use crate::handshake::upgrade_header_name;
use crate::handshake::validate_upgrade_request;
use crate::handshake::version_header;
use crate::handshake::Rejection;
use crate::headers::Header;
use crate::headers::Headers;
use vstd::prelude::*;
use vstd::string::StrSliceExecFns;
use vstd::string::StringExecFns;

verus! {

/// The request method: `GET`, or anything else.
#[derive(Clone, Copy, PartialEq, Eq, Structural, Debug)]
pub enum Method {
    Get,
    Other,
}

/// One inbound request, already parsed: method, raw path, headers.
pub struct Request {
    pub method: Method,
    pub path: String,
    pub headers: Headers,
}

/// A response the server has decided on: status, headers, fixed body.
/// A streamed file body stays empty here; the stream supplies it.
pub struct ResponsePlan {
    pub status: u16,
    pub headers: Vec<Header>,
    pub body: String,
}

/// The terminal outcome of routing one request.
pub enum Routed {
    /// Answer with this response and do nothing else.
    Plain(ResponsePlan),
    /// Send the 101 response in `plan`, then hand the connection over.
    Upgrade { key: String, plan: ResponsePlan },
    /// Try to open `path`; on success stream it with `content_type`,
    /// otherwise answer not-found.
    File { path: String, content_type: Option<String> },
}

/// The MIME type, if any, that the lookup table gives for a file extension,
/// named but not written out.
pub uninterp spec fn mime_of(ext: Seq<char>) -> Option<Seq<char>>;

/// Relies on `mime_guess::from_ext` (`first_raw`): the first MIME type the
/// crate's fixed table holds for the extension, a function of the extension
/// alone.
#[verifier::external_body]
fn guess_content_type(ext: &str) -> (r: Option<String>)
    ensures
        match r {
            Some(ct) => mime_of(ext@) == Some(ct@),
            None => mime_of(ext@) is None,
        },
{
    mime_guess::from_ext(ext).first_raw().map(|m| m.to_string())
}

/// Where the extension of `p`'s final `/`-separated segment starts, scanning
/// down from position `i`: the position just past the segment's last `.`,
/// unless that dot opens the segment (a hidden file has no extension).
pub open spec fn extension_start(p: Seq<char>, i: int) -> Option<int>
    decreases i,
{
    if i <= 0 || i > p.len() {
        None
    } else if p[i - 1] == '/' {
        None
    } else if p[i - 1] == '.' {
        if i - 1 == 0 || p[i - 2] == '/' {
            None
        } else {
            Some(i)
        }
    } else {
        extension_start(p, i - 1)
    }
}

/// The extension of the path's final segment: the text after that segment's
/// last `.`, if the segment has one beyond its first character.
pub open spec fn extension_of(p: Seq<char>) -> Option<Seq<char>> {
    match extension_start(p, p.len() as int) {
        Some(k) => Some(p.subrange(k, p.len() as int)),
        None => None,
    }
}

/// Compute the extension of a path, as `extension_of` describes it.
pub fn extension_of_path(p: &str) -> (r: Option<String>)
    ensures
        match r {
            Some(e) => extension_of(p@) == Some(e@),
            None => extension_of(p@) is None,
        },
{
    let n = p.unicode_len();
    let mut i: usize = n;
    while i > 0
        invariant
            n == p@.len(),
            i <= n,
            extension_start(p@, n as int) == extension_start(p@, i as int),
        decreases i,
    {
        let c = p.get_char(i - 1);
        if c == '/' {
            return None;
        }
        if c == '.' {
            if i - 1 == 0 {
                return None;
            }
            let before = p.get_char(i - 2);
            if before == '/' {
                return None;
            }
            let e = p.substring_char(i, n).to_owned();
            return Some(e);
        }
        i = i - 1;
    }
    None
}

/// A response with a fixed body and no headers.
fn fixed_plan(status: u16, body: &str) -> (r: ResponsePlan)
    ensures
        r.status == status,
        r.headers@.len() == 0,
        r.body@ == body@,
{
    ResponsePlan { status, headers: Vec::new(), body: body.to_owned() }
}

/// The answer to a request whose method is not `GET`.
pub fn method_not_allowed_plan() -> (r: ResponsePlan)
    ensures
        r.status == 405,
        r.headers@.len() == 0,
        r.body@ == "Only GET Allowed!"@,
{
    fixed_plan(405, "Only GET Allowed!")
}

/// The answer when the requested file cannot be opened.
pub fn not_found_plan() -> (r: ResponsePlan)
    ensures
        r.status == 404,
        r.headers@.len() == 0,
        r.body@ == "Not Found"@,
{
    fixed_plan(404, "Not Found")
}

/// The answer when the requested file opened: a 200 whose body the caller
/// streams, with a `Content-Type` header exactly when a type is known.
pub fn found_file_plan(content_type: Option<String>) -> (r: ResponsePlan)
    ensures
        r.status == 200,
        r.body@.len() == 0,
        match content_type {
            Some(ct) => r.headers@.len() == 1 && r.headers@[0].name@ == "Content-Type"@
                && r.headers@[0].value@ == ct@,
            None => r.headers@.len() == 0,
        },
{
    let mut headers: Vec<Header> = Vec::new();
    match content_type {
        Some(ct) => {
            headers.push(Header { name: "Content-Type".to_owned(), value: ct });
        },
        None => {},
    }
    ResponsePlan { status: 200, headers, body: String::new() }
}

/// The 101 response that commits to a WebSocket upgrade.
fn upgrade_plan(accept: String) -> (r: ResponsePlan)
    ensures
        r.status == 101,
        r.body@ == "Switching protocols"@,
        r.headers@.len() == 3,
        r.headers@[0].name@ == "Upgrade"@ && r.headers@[0].value@ == "websocket"@,
        r.headers@[1].name@ == "Connection"@ && r.headers@[1].value@ == "Upgrade"@,
        r.headers@[2].name@ == "Sec-WebSocket-Accept"@ && r.headers@[2].value@ == accept@,
{
    let mut headers: Vec<Header> = Vec::new();
    headers.push(Header { name: "Upgrade".to_owned(), value: "websocket".to_owned() });
    headers.push(Header { name: "Connection".to_owned(), value: "Upgrade".to_owned() });
    headers.push(Header { name: "Sec-WebSocket-Accept".to_owned(), value: accept });
    ResponsePlan { status: 101, headers, body: "Switching protocols".to_owned() }
}

/// Classify one request against a static root.
///
/// A non-`GET` method is answered 405 whatever else the request holds. A
/// `GET` carrying an `Upgrade` header goes through handshake validation: a
/// missing key or a wrong version is answered 400 with a fixed diagnostic,
/// and a valid handshake yields the 101 plan whose `Sec-WebSocket-Accept`
/// is the accept token of the request's key. Any other `GET` is a file
/// request: the served path is the root with the raw request path appended,
/// and the content type is whatever the MIME table holds for the path's
/// extension.
///
/// Known limitation, kept deliberately: the request path is appended as it
/// came, with no canonicalization or containment check, so a path holding
/// parent-directory segments can name a file outside the root.
pub fn route(req: &Request, root: &str) -> (r: Routed)
    requires
        req.path@.len() > 0,
        req.path@[0] == '/',
    ensures
        req.method is Other ==> (r matches Routed::Plain(p) && p.status == 405 && p.body@
            == "Only GET Allowed!"@ && p.headers@.len() == 0),
        req.method is Get && req.headers.lookup(upgrade_header_name()) is Some
            && req.headers.lookup(key_header()) is None ==> (r matches Routed::Plain(p)
            && p.status == 400 && p.body@ == "Missing Sec-WebSocket-Key"@ && p.headers@.len()
            == 0),
        req.method is Get && req.headers.lookup(upgrade_header_name()) is Some
            && req.headers.lookup(key_header()) is Some && req.headers.lookup(version_header())
            is Some && req.headers.lookup(version_header()) != Some("13"@) ==> (r matches
        Routed::Plain(p) && p.status == 400 && p.body@ == "Unknown WebSocket version"@
            && p.headers@.len() == 0),
        req.method is Get && req.headers.lookup(upgrade_header_name()) is Some
            && req.headers.lookup(key_header()) is Some && (req.headers.lookup(version_header())
            is None || req.headers.lookup(version_header()) == Some("13"@)) ==> (r matches
        Routed::Upgrade { key, plan } && Some(key@) == req.headers.lookup(key_header())
            && plan.status == 101 && plan.body@ == "Switching protocols"@ && plan.headers@.len()
            == 3 && plan.headers@[0].name@ == "Upgrade"@ && plan.headers@[0].value@
            == "websocket"@ && plan.headers@[1].name@ == "Connection"@ && plan.headers@[1].value@
            == "Upgrade"@ && plan.headers@[2].name@ == "Sec-WebSocket-Accept"@
            && plan.headers@[2].value@ == accept_token_of(key@)),
        req.method is Get && req.headers.lookup(upgrade_header_name()) is None ==> (r matches
        Routed::File { path, content_type } && path@ == root@ + req.path@ && (match extension_of(
            req.path@,
        ) {
            Some(e) => (match content_type {
                Some(ct) => mime_of(e) == Some(ct@),
                None => mime_of(e) is None,
            }),
            None => content_type is None,
        })),
{
    match req.method {
        Method::Other => Routed::Plain(method_not_allowed_plan()),
        Method::Get => {
            if req.headers.contains("Upgrade") {
                match validate_upgrade_request(&req.headers) {
                    Ok(key) => {
                        let accept = compute_accept_token(key.as_str());
                        let plan = upgrade_plan(accept);
                        Routed::Upgrade { key, plan }
                    },
                    Err(Rejection::MissingKey) => Routed::Plain(
                        fixed_plan(400, "Missing Sec-WebSocket-Key"),
                    ),
                    Err(Rejection::UnsupportedVersion) => Routed::Plain(
                        fixed_plan(400, "Unknown WebSocket version"),
                    ),
                }
            } else {
                let content_type = match extension_of_path(req.path.as_str()) {
                    Some(ext) => guess_content_type(ext.as_str()),
                    None => None,
                };
                let path = root.to_owned().concat(req.path.as_str());
                Routed::File { path, content_type }
            }
        },
    }
}

} // verus!
