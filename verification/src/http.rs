//! The request-head grammar: a request line `METHOD SP TARGET ...`, then one
//! header per line, a name and a value split at the first colon.

use crate::headers::Header;
use crate::headers::Headers;
use crate::ids::decoded_ids;
use crate::ids::parse_ids;
use crate::ids::split_lines;
use crate::router::Method;
use crate::router::Request;
use vstd::prelude::*;
use vstd::string::StrSliceExecFns;

verus! {

/// The position of the first `c` at or after `i`, or the end.
pub open spec fn index_of_from(s: Seq<char>, i: int, c: char) -> int
    decreases s.len() - i,
{
    if i < 0 || i >= s.len() {
        s.len() as int
    } else if s[i] == c {
        i
    } else {
        index_of_from(s, i + 1, c)
    }
}

/// Find the first `c` at or after `start`, as `index_of_from` describes.
fn find_char_from(s: &str, start: usize, c: char) -> (r: usize)
    ensures
        r == index_of_from(s@, start as int, c),
        r <= s@.len(),
        start <= s@.len() ==> start <= r,
{
    let n = s.unicode_len();
    if start >= n {
        return n;
    }
    let mut i: usize = start;
    while i < n
        invariant
            start <= i <= n,
            n == s@.len(),
            index_of_from(s@, start as int, c) == index_of_from(s@, i as int, c),
        decreases n - i,
    {
        if s.get_char(i) == c {
            return i;
        }
        i += 1;
    }
    n
}

/// Linear white space inside a header line.
pub open spec fn is_lws(c: char) -> bool {
    c == ' ' || c == '\t'
}

/// The first position at or after `i` that holds no white space; the end
/// when only white space is left.
pub open spec fn skip_lws(s: Seq<char>, i: int) -> int
    decreases s.len() - i,
{
    if i < 0 || i >= s.len() {
        s.len() as int
    } else if is_lws(s[i]) {
        skip_lws(s, i + 1)
    } else {
        i
    }
}

/// One past the last position before `i` that holds no white space; zero
/// when only white space comes before `i`.
pub open spec fn rskip_lws(s: Seq<char>, i: int) -> int
    decreases i,
{
    if i <= 0 {
        0
    } else if is_lws(s[i - 1]) {
        rskip_lws(s, i - 1)
    } else {
        i
    }
}

/// The text with white space stripped from both ends.
pub open spec fn trimmed(s: Seq<char>) -> Seq<char> {
    let a = skip_lws(s, 0);
    let b = rskip_lws(s, s.len() as int);
    if a < b {
        s.subrange(a, b)
    } else {
        Seq::empty()
    }
}

/// Whether position `i` of `s` holds white space.
fn lws_at(s: &str, i: usize) -> (r: bool)
    requires
        i < s@.len(),
    ensures
        r == is_lws(s@[i as int]),
{
    let c = s.get_char(i);
    c == ' ' || c == '\t'
}

/// Strip white space from both ends, as `trimmed` describes.
fn trim_text(s: &str) -> (r: String)
    ensures
        r@ == trimmed(s@),
{
    let n = s.unicode_len();
    let mut a: usize = 0;
    while a < n && lws_at(s, a)
        invariant
            a <= n,
            n == s@.len(),
            skip_lws(s@, 0) == skip_lws(s@, a as int),
        decreases n - a,
    {
        a += 1;
    }
    let mut b: usize = n;
    while b > 0 && lws_at(s, b - 1)
        invariant
            b <= n,
            n == s@.len(),
            rskip_lws(s@, n as int) == rskip_lws(s@, b as int),
        decreases b,
    {
        b -= 1;
    }
    if a < b {
        s.substring_char(a, b).to_owned()
    } else {
        String::new()
    }
}

/// The method and target texts of a request line `METHOD SP TARGET ...`:
/// the text before the first space, and the text between the first space and
/// the next one; nothing when there is no space or the target is empty.
pub open spec fn request_line_parts(line: Seq<char>) -> Option<(Seq<char>, Seq<char>)> {
    let sp1 = index_of_from(line, 0, ' ');
    if sp1 >= line.len() {
        None
    } else {
        let sp2 = index_of_from(line, sp1 + 1, ' ');
        if sp2 == sp1 + 1 {
            None
        } else {
            Some((line.subrange(0, sp1), line.subrange(sp1 + 1, sp2)))
        }
    }
}

/// A target without its query part: everything before the first `?`.
pub open spec fn strip_query(target: Seq<char>) -> Seq<char> {
    target.subrange(0, index_of_from(target, 0, '?'))
}

/// Parse a request line: the method — `GET`, or anything else — and the
/// target's path with its query part stripped.
pub fn parse_request_line(line: &str) -> (r: Option<(Method, String)>)
    ensures
        match r {
            Some(mp) => {
                &&& request_line_parts(line@) matches Some(parts)
                &&& (mp.0 is Get <==> parts.0 == "GET"@)
                &&& mp.1@ == strip_query(parts.1)
            },
            None => request_line_parts(line@) is None,
        },
{
    let n = line.unicode_len();
    let sp1 = find_char_from(line, 0, ' ');
    if sp1 >= n {
        return None;
    }
    let sp2 = find_char_from(line, sp1 + 1, ' ');
    if sp2 == sp1 + 1 {
        return None;
    }
    let method_text = line.substring_char(0, sp1);
    let target = line.substring_char(sp1 + 1, sp2);
    let method = if method_text.to_owned() == "GET".to_owned() {
        Method::Get
    } else {
        Method::Other
    };
    let q = find_char_from(target, 0, '?');
    let path = target.substring_char(0, q).to_owned();
    Some((method, path))
}

/// The name and value of one header line, split at the first colon and each
/// stripped of surrounding white space; nothing when the line has no colon.
pub open spec fn header_line_parts(line: Seq<char>) -> Option<(Seq<char>, Seq<char>)> {
    let colon = index_of_from(line, 0, ':');
    if colon >= line.len() {
        None
    } else {
        Some(
            (
                trimmed(line.subrange(0, colon)),
                trimmed(line.subrange(colon + 1, line.len() as int)),
            ),
        )
    }
}

/// Parse one header line, as `header_line_parts` describes it.
pub fn parse_header_line(line: &str) -> (r: Option<Header>)
    ensures
        match r {
            Some(h) => header_line_parts(line@) == Some((h.name@, h.value@)),
            None => header_line_parts(line@) is None,
        },
{
    let n = line.unicode_len();
    let colon = find_char_from(line, 0, ':');
    if colon >= n {
        return None;
    }
    let name = trim_text(line.substring_char(0, colon));
    let value = trim_text(line.substring_char(colon + 1, n));
    Some(Header { name, value })
}

/// The decodable lines of a request head.
pub open spec fn head_lines(head: Seq<u8>) -> Seq<Seq<char>> {
    decoded_ids(split_lines(head))
}

/// The header entries that a head's lines after the first yield, in order;
/// a line without a colon — the blank line among them — yields none.
pub open spec fn header_entries(lines: Seq<Seq<char>>) -> Seq<(Seq<char>, Seq<char>)>
    decreases lines.len(),
{
    if lines.len() == 0 {
        Seq::empty()
    } else {
        let rest = header_entries(lines.drop_last());
        match header_line_parts(lines.last()) {
            Some(p) => rest.push(p),
            None => rest,
        }
    }
}

/// The name and value texts of each header entry, in order.
pub open spec fn entry_views(entries: Seq<Header>) -> Seq<(Seq<char>, Seq<char>)> {
    entries.map_values(|h: Header| (h.name@, h.value@))
}

/// Parse a whole request head: the first decodable line is the request line,
/// and every later line with a colon is a header. Nothing comes back when no
/// line decodes or the request line is malformed.
pub fn parse_request_head(head: &Vec<u8>) -> (r: Option<Request>)
    ensures
        match r {
            Some(req) => {
                &&& head_lines(head@).len() > 0
                &&& request_line_parts(head_lines(head@)[0]) matches Some(parts)
                &&& (req.method is Get <==> parts.0 == "GET"@)
                &&& req.path@ == strip_query(parts.1)
                &&& entry_views(req.headers.entries@) == header_entries(
                    head_lines(head@).drop_first(),
                )
            },
            None => head_lines(head@).len() == 0 || request_line_parts(head_lines(head@)[0])
                is None,
        },
{
    let lines = parse_ids(head);
    let ghost lv = head_lines(head@);
    proof {
        assert(lines@.map_values(|s: String| s@) == lv);
    }
    if lines.len() == 0 {
        return None;
    }
    let (method, path) = match parse_request_line(lines[0].as_str()) {
        Some(mp) => mp,
        None => {
            return None;
        },
    };
    let mut headers = Headers::new();
    proof {
        assert(entry_views(headers.entries@) =~= header_entries(lv.subrange(1, 1)));
    }
    let mut i: usize = 1;
    while i < lines.len()
        invariant
            1 <= i <= lines@.len(),
            lv == lines@.map_values(|s: String| s@),
            entry_views(headers.entries@) == header_entries(lv.subrange(1, i as int)),
        decreases lines@.len() - i,
    {
        proof {
            assert(lv.subrange(1, i + 1).drop_last() =~= lv.subrange(1, i as int));
            assert(lv.subrange(1, i + 1).last() == lines@[i as int]@);
        }
        let ghost before = entry_views(headers.entries@);
        match parse_header_line(lines[i].as_str()) {
            Some(h) => {
                let ghost pair = (h.name@, h.value@);
                headers.push(h.name, h.value);
                proof {
                    assert(entry_views(headers.entries@) =~= before.push(pair));
                }
            },
            None => {},
        }
        i += 1;
    }
    proof {
        assert(lv.subrange(1, lv.len() as int) =~= lv.drop_first());
    }
    Some(Request { method, path, headers })
}

} // verus!
