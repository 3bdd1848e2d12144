use vstd::prelude::*;
use vstd::string::StringSliceAdditionalSpecFns;

verus! {

/// A parser key: the first three bytes of a word, upper-cased.
/// Bytes past `len` are zero.
#[derive(Clone, Copy, PartialEq, Eq, Structural, Debug)]
pub struct Tag {
    pub len: u8,
    pub b0: u8,
    pub b1: u8,
    pub b2: u8,
}

pub open spec fn is_space(c: u8) -> bool {
    c == 32 || c == 9 || c == 10 || c == 12 || c == 13
}

pub open spec fn upper(c: u8) -> u8 {
    if 97 <= c <= 122 { (c - 32) as u8 } else { c }
}

pub open spec fn byte_at(w: Seq<u8>, i: int) -> u8 {
    if i < w.len() && i < 3 { upper(w[i]) } else { 0 }
}

/// The tag of a word: its first three bytes (all of it when shorter), upper-cased.
pub open spec fn tag_of_word(w: Seq<u8>) -> Tag {
    Tag {
        len: if w.len() > 3 { 3 } else { w.len() as u8 },
        b0: byte_at(w, 0),
        b1: byte_at(w, 1),
        b2: byte_at(w, 2),
    }
}

pub open spec fn tag3(a: char, b: char, c: char) -> Tag {
    Tag { len: 3, b0: a as u8, b1: b as u8, b2: c as u8 }
}

pub open spec fn tag2(a: char, b: char) -> Tag {
    Tag { len: 2, b0: a as u8, b1: b as u8, b2: 0 }
}

pub open spec fn tag1(a: char) -> Tag {
    Tag { len: 1, b0: a as u8, b1: 0, b2: 0 }
}

pub fn upper_byte(c: u8) -> (r: u8)
    ensures
        r == upper(c),
{
    if 97 <= c && c <= 122 { c - 32 } else { c }
}

impl Tag {
    /// The tag of `b[start..end]`.
    pub fn of_range(b: &[u8], start: usize, end: usize) -> (t: Tag)
        requires
            start <= end <= b@.len(),
        ensures
            t == tag_of_word(b@.subrange(start as int, end as int)),
    {
        let n = end - start;
        let b0 = if n > 0 { upper_byte(b[start]) } else { 0 };
        let b1 = if n > 1 { upper_byte(b[start + 1]) } else { 0 };
        let b2 = if n > 2 { upper_byte(b[start + 2]) } else { 0 };
        Tag { len: if n > 3 { 3 } else { n as u8 }, b0, b1, b2 }
    }

    /// The tag of a single word.
    pub fn of(s: &str) -> (t: Tag)
        ensures
            t == tag_of_word(s.spec_bytes()),
    {
        let b = s.as_bytes();
        let t = Tag::of_range(b, 0, b.len());
        assert(b@.subrange(0, b@.len() as int) =~= b@);
        t
    }

    pub fn is3(&self, a: char, b: char, c: char) -> (r: bool)
        ensures
            r == (*self == tag3(a, b, c)),
    {
        self.len == 3 && self.b0 == a as u8 && self.b1 == b as u8 && self.b2 == c as u8
    }

    pub fn is2(&self, a: char, b: char) -> (r: bool)
        ensures
            r == (*self == tag2(a, b)),
    {
        self.len == 2 && self.b0 == a as u8 && self.b1 == b as u8 && self.b2 == 0
    }

    pub fn is1(&self, a: char) -> (r: bool)
        ensures
            r == (*self == tag1(a)),
    {
        self.len == 1 && self.b0 == a as u8 && self.b1 == 0 && self.b2 == 0
    }
}

} // verus!
