//! A case-insensitive header map: names compare with ASCII letters folded,
//! values stay exact, and a lookup returns the first matching entry.

use vstd::prelude::*;
use vstd::string::StrSliceExecFns;

verus! {

/// One header line: a name and a value.
pub struct Header {
    pub name: String,
    pub value: String,
}

/// The headers of one request or response, in the order they arrived.
pub struct Headers {
    pub entries: Vec<Header>,
}

/// An ASCII capital letter folded to lower case; every other character kept.
pub open spec fn lower_char(c: char) -> char {
    if 65 <= c as u32 && c as u32 <= 90 {
        (((c as u32) + 32) as u8) as char
    } else {
        c
    }
}

/// A string with every ASCII capital letter folded to lower case.
pub open spec fn lower_seq(s: Seq<char>) -> Seq<char> {
    s.map(|i: int, c: char| lower_char(c))
}

/// The value of the first entry at or after position `i` whose name equals
/// `name` up to ASCII case.
pub open spec fn lookup_from(entries: Seq<Header>, i: int, name: Seq<char>) -> Option<Seq<char>>
    decreases entries.len() - i,
{
    if i < 0 || i >= entries.len() {
        None
    } else if lower_seq(entries[i].name@) == lower_seq(name) {
        Some(entries[i].value@)
    } else {
        lookup_from(entries, i + 1, name)
    }
}

/// Fold one character to lower case, as `lower_char` describes.
pub fn fold_char(c: char) -> (r: char)
    ensures
        r == lower_char(c),
{
    let x = c as u32;
    if 65 <= x && x <= 90 {
        ((x + 32) as u8) as char
    } else {
        c
    }
}

/// Whether two strings are equal once ASCII capitals are folded to lower case.
pub fn names_match(a: &str, b: &str) -> (r: bool)
    ensures
        r == (lower_seq(a@) == lower_seq(b@)),
{
    let alen = a.unicode_len();
    let blen = b.unicode_len();
    if alen != blen {
        return false;
    }
    let mut i: usize = 0;
    while i < alen
        invariant
            alen == a@.len(),
            blen == b@.len(),
            alen == blen,
            i <= alen,
            forall|j: int| 0 <= j < i ==> lower_char(a@[j]) == lower_char(b@[j]),
        decreases alen - i,
    {
        let ca = fold_char(a.get_char(i));
        let cb = fold_char(b.get_char(i));
        if ca != cb {
            proof {
                assert(lower_seq(a@)[i as int] != lower_seq(b@)[i as int]);
            }
            return false;
        }
        i += 1;
    }
    proof {
        assert(lower_seq(a@) =~= lower_seq(b@));
    }
    true
}

impl Headers {
    /// The value of the first header whose name equals `name` up to ASCII
    /// case, if any.
    pub open spec fn lookup(&self, name: Seq<char>) -> Option<Seq<char>> {
        lookup_from(self.entries@, 0, name)
    }

    /// An empty header map.
    pub fn new() -> (r: Headers)
        ensures
            r.entries@.len() == 0,
    {
        Headers { entries: Vec::new() }
    }

    /// Add one header at the end.
    pub fn push(&mut self, name: String, value: String)
        ensures
            final(self).entries@ == old(self).entries@.push((Header { name, value })),
    {
        self.entries.push(Header { name, value });
    }

    /// Look a header up by name, ASCII-case-insensitively.
    pub fn get<'a>(&'a self, name: &str) -> (r: Option<&'a String>)
        ensures
            match r {
                Some(v) => self.lookup(name@) == Some(v@),
                None => self.lookup(name@) is None,
            },
    {
        let mut i: usize = 0;
        while i < self.entries.len()
            invariant
                i <= self.entries@.len(),
                lookup_from(self.entries@, 0, name@) == lookup_from(self.entries@, i as int, name@),
            decreases self.entries@.len() - i,
    {
            if names_match(self.entries[i].name.as_str(), name) {
                return Some(&self.entries[i].value);
            }
            i += 1;
        }
        None
    }

    /// Whether some header has this name, ASCII-case-insensitively.
    pub fn contains(&self, name: &str) -> (r: bool)
        ensures
            r == (self.lookup(name@) is Some),
    {
        match self.get(name) {
            Some(_) => true,
            None => false,
        }
    }
}

} // verus!
