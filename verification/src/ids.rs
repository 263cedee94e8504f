//! The newline-delimited ID list: split a fetched byte string into lines and
//! keep the ones that decode as text.

use vstd::prelude::*;
use vstd::utf8::decode_utf8;
use vstd::utf8::valid_utf8;

verus! {

/// A line with a final carriage return stripped; one that ends otherwise is
/// kept whole.
pub open spec fn strip_cr(line: Seq<u8>) -> Seq<u8> {
    if line.len() > 0 && line.last() == 13 {
        line.drop_last()
    } else {
        line
    }
}

/// The lines of `data` from position `i` on, with `cur` the part of the
/// current line already passed: a line feed ends a line (and eats a final
/// carriage return); whatever is left at the end is a line only if non-empty.
pub open spec fn lines_acc(data: Seq<u8>, i: int, cur: Seq<u8>) -> Seq<Seq<u8>>
    decreases data.len() - i,
{
    if i < 0 || i >= data.len() {
        if cur.len() == 0 {
            Seq::empty()
        } else {
            seq![cur]
        }
    } else if data[i] == 10 {
        seq![strip_cr(cur)] + lines_acc(data, i + 1, Seq::empty())
    } else {
        lines_acc(data, i + 1, cur.push(data[i]))
    }
}

/// The lines of a byte string, as a line-oriented reader hands them out.
pub open spec fn split_lines(data: Seq<u8>) -> Seq<Seq<u8>> {
    lines_acc(data, 0, Seq::empty())
}

/// The lines that are valid UTF-8, decoded, in order; the rest are dropped.
pub open spec fn decoded_ids(lines: Seq<Seq<u8>>) -> Seq<Seq<char>>
    decreases lines.len(),
{
    if lines.len() == 0 {
        Seq::empty()
    } else {
        let rest = decoded_ids(lines.drop_last());
        if valid_utf8(lines.last()) {
            rest.push(decode_utf8(lines.last()))
        } else {
            rest
        }
    }
}

/// Relies on `String::from_utf8`: it succeeds exactly on valid UTF-8, and
/// the resulting string holds the decoded characters.
#[verifier::external_body]
fn string_from_utf8(bytes: Vec<u8>) -> (r: Option<String>)
    ensures
        match r {
            Some(s) => valid_utf8(bytes@) && s@ == decode_utf8(bytes@),
            None => !valid_utf8(bytes@),
        },
{
    String::from_utf8(bytes).ok()
}

/// Split a byte string into its lines, as `split_lines` describes them.
pub fn split_id_lines(data: &Vec<u8>) -> (r: Vec<Vec<u8>>)
    ensures
        r@.map_values(|l: Vec<u8>| l@) == split_lines(data@),
{
    let mut out: Vec<Vec<u8>> = Vec::new();
    let mut cur: Vec<u8> = Vec::new();
    let mut i: usize = 0;
    proof {
        assert(out@.map_values(|l: Vec<u8>| l@) + lines_acc(data@, 0, cur@) =~= split_lines(
            data@,
        ));
    }
    while i < data.len()
        invariant
            i <= data@.len(),
            split_lines(data@) == out@.map_values(|l: Vec<u8>| l@) + lines_acc(
                data@,
                i as int,
                cur@,
            ),
        decreases data@.len() - i,
    {
        let ghost cur_before = cur@;
        let ghost out_before = out@.map_values(|l: Vec<u8>| l@);
        let b = data[i];
        if b == 10 {
            if cur.len() > 0 && cur[cur.len() - 1] == 13 {
                cur.pop();
            }
            proof {
                assert(cur@ =~= strip_cr(cur_before));
            }
            out.push(cur);
            cur = Vec::new();
            proof {
                assert(out@.map_values(|l: Vec<u8>| l@) =~= out_before.push(strip_cr(
                    cur_before,
                )));
                assert(out@.map_values(|l: Vec<u8>| l@) + lines_acc(data@, i + 1, cur@)
                    =~= out_before + (seq![strip_cr(cur_before)] + lines_acc(
                    data@,
                    i + 1,
                    Seq::empty(),
                )));
            }
        } else {
            cur.push(b);
        }
        i += 1;
    }
    if cur.len() > 0 {
        let ghost out_before = out@.map_values(|l: Vec<u8>| l@);
        let ghost cur_last = cur@;
        out.push(cur);
        proof {
            assert(out@.map_values(|l: Vec<u8>| l@) =~= out_before.push(cur_last));
            assert(out@.map_values(|l: Vec<u8>| l@) =~= out_before + seq![cur_last]);
        }
    } else {
        proof {
            assert(out@.map_values(|l: Vec<u8>| l@) + lines_acc(data@, i as int, cur@)
                =~= out@.map_values(|l: Vec<u8>| l@));
        }
    }
    out
}

/// Parse a newline-delimited ID list: its lines, in order, each line that is
/// valid UTF-8 decoded to a string and every other line dropped.
pub fn parse_ids(data: &Vec<u8>) -> (r: Vec<String>)
    ensures
        r@.map_values(|s: String| s@) == decoded_ids(split_lines(data@)),
{
    let lines = split_id_lines(data);
    let ghost line_views = lines@.map_values(|l: Vec<u8>| l@);
    let mut out: Vec<String> = Vec::new();
    let mut i: usize = 0;
    proof {
        assert(out@.map_values(|s: String| s@) =~= decoded_ids(line_views.take(0)));
    }
    while i < lines.len()
        invariant
            i <= lines@.len(),
            line_views == lines@.map_values(|l: Vec<u8>| l@),
            out@.map_values(|s: String| s@) == decoded_ids(line_views.take(i as int)),
        decreases lines@.len() - i,
    {
        let ghost out_before = out@.map_values(|s: String| s@);
        proof {
            assert(line_views.take(i + 1).drop_last() =~= line_views.take(i as int));
            assert(line_views.take(i + 1).last() == lines@[i as int]@);
        }
        let line = lines[i].clone();
        proof {
            assert(line@ == lines@[i as int]@);
        }
        match string_from_utf8(line) {
            Some(s) => {
                out.push(s);
                proof {
                    assert(out@.map_values(|s2: String| s2@) =~= out_before.push(decode_utf8(
                        lines@[i as int]@,
                    )));
                }
            },
            None => {},
        }
        i += 1;
    }
    proof {
        assert(line_views.take(i as int) =~= line_views);
    }
    out
}

} // verus!
