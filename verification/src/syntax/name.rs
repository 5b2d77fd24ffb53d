//! Identifiers, and paths of identifiers separated by `::`.

use vstd::prelude::*;
use vstd::string::*;
use crate::syntax::util::{
    ascii_slice, byte_at, is_ident_follow, is_ident_follow_byte, is_ident_start,
    is_ident_start_byte, padded, parsed, parsed_view, spec_one_of, spec_padded,
};
use crate::syntax::error::{complete, result_view, spec_complete, ParseError};

verus! {

/// An identifier, as it stands in the source text.
#[derive(Debug, Clone, Copy, PartialEq, Eq)]
pub struct Name<'a> {
    pub contents: &'a str,
}

impl<'a> View for Name<'a> {
    type V = Seq<u8>;

    open spec fn view(&self) -> Seq<u8> {
        self.contents.spec_bytes()
    }
}

/// The offset of the first byte at or after `p` that cannot continue an
/// identifier.
pub open spec fn spec_ident_tail(s: Seq<u8>, p: int) -> int
    decreases s.len() - p,
{
    if 0 <= p < s.len() && is_ident_follow(s[p]) {
        spec_ident_tail(s, p + 1)
    } else {
        p
    }
}

/// An identifier at `p`: a letter or underscore, then as many letters,
/// underscores and digits as follow.
pub open spec fn spec_name(s: Seq<u8>, p: int) -> Option<(Seq<u8>, int)> {
    if 0 <= p < s.len() && is_ident_start(s[p]) {
        let end = spec_ident_tail(s, p + 1);
        Some((s.subrange(p, end), end))
    } else {
        None
    }
}

/// The segments of a path that follow its first one, from `p`: each is
/// `::`, with any whitespace around it, and an identifier. `acc` holds the
/// segments read so far.
pub open spec fn spec_name_path_rest(s: Seq<u8>, p: int, acc: Seq<Seq<u8>>) -> (Seq<Seq<u8>>, int)
    decreases s.len() - p,
{
    match spec_padded(s, p, "::".spec_bytes()) {
        Some(q) => match spec_name(s, q) {
            Some((name, end)) => if p < end <= s.len() {
                spec_name_path_rest(s, end, acc.push(name))
            } else {
                (acc, p)
            },
            None => (acc, p),
        },
        None => (acc, p),
    }
}

/// A path at `p`: one identifier or more, separated by `::`.
pub open spec fn spec_name_path(s: Seq<u8>, p: int) -> Option<(Seq<Seq<u8>>, int)> {
    match spec_name(s, p) {
        Some((first, q)) => Some(spec_name_path_rest(s, q, seq![first])),
        None => None,
    }
}

/// A name is the longest identifier that starts at `p`: its first byte
/// is a letter or an underscore, each byte after it is a letter, an
/// underscore or a digit, and the byte after the name is none of these.
pub proof fn law_name_is_maximal(s: Seq<u8>, p: int)
    ensures
        spec_name(s, p) matches Some((name, end)) ==> {
            &&& 0 <= p < end <= s.len()
            &&& name == s.subrange(p, end)
            &&& is_ident_start(s[p])
            &&& forall|k: int| p < k < end ==> is_ident_follow(#[trigger] s[k])
            &&& end < s.len() ==> !is_ident_follow(s[end])
        },
        spec_name(s, p) is Some <==> 0 <= p < s.len() && is_ident_start(s[p]),
{
    if 0 <= p < s.len() && is_ident_start(s[p]) {
        lemma_ident_tail(s, p + 1);
    }
}

/// The bytes that may continue an identifier go as far as they go and no
/// further.
pub proof fn lemma_ident_tail(s: Seq<u8>, p: int)
    requires
        0 <= p <= s.len(),
    ensures
        p <= spec_ident_tail(s, p) <= s.len(),
        forall|k: int| p <= k < spec_ident_tail(s, p) ==> is_ident_follow(#[trigger] s[k]),
        spec_ident_tail(s, p) < s.len() ==> !is_ident_follow(s[spec_ident_tail(s, p)]),
    decreases s.len() - p,
{
    if p < s.len() && is_ident_follow(s[p]) {
        lemma_ident_tail(s, p + 1);
    }
}

/// One byte that may start an identifier.
pub fn ident_start_parser(src: &str, pos: usize) -> (r: Option<(u8, usize)>)
    ensures
        parsed(r) == spec_one_of(src.spec_bytes(), pos as int, |b: u8| is_ident_start(b)),
{
    match byte_at(src, pos) {
        Some(b) => if is_ident_start_byte(b) {
            Some((b, pos + 1))
        } else {
            None
        },
        None => None,
    }
}

/// One byte that may continue an identifier.
pub fn ident_follow_parser(src: &str, pos: usize) -> (r: Option<(u8, usize)>)
    ensures
        parsed(r) == spec_one_of(src.spec_bytes(), pos as int, |b: u8| is_ident_follow(b)),
{
    match byte_at(src, pos) {
        Some(b) => if is_ident_follow_byte(b) {
            Some((b, pos + 1))
        } else {
            None
        },
        None => None,
    }
}

impl<'a> Name<'a> {
    /// An identifier at `pos`.
    pub fn parser(src: &'a str, pos: usize) -> (r: Option<(Name<'a>, usize)>)
        ensures
            parsed_view(r) == spec_name(src.spec_bytes(), pos as int),
            r matches Some((_, end)) ==> pos < end <= src.len(),
    {
        let bytes = src.as_bytes();
        if pos >= bytes.len() || !is_ident_start_byte(bytes[pos]) {
            return None;
        }
        let mut end: usize = pos + 1;
        while end < bytes.len() && is_ident_follow_byte(bytes[end])
            invariant
                bytes@ == src.spec_bytes(),
                pos < end <= bytes.len(),
                spec_ident_tail(bytes@, pos + 1) == spec_ident_tail(bytes@, end as int),
                forall|k: int| pos <= k < end ==> bytes@[k] < 0x80,
            decreases bytes.len() - end,
        {
            end = end + 1;
        }
        let contents = ascii_slice(src, pos, end);
        Some((Name { contents }, end))
    }

    /// The whole of `src` as one identifier.
    pub fn parse(src: &'a str) -> (r: Result<Name<'a>, ParseError>)
        ensures
            result_view(r) == spec_complete(
                spec_name(src.spec_bytes(), 0),
                src.spec_bytes().len() as int,
            ),
    {
        complete(Name::parser(src, 0), src.as_bytes().len())
    }
}

/// A path of identifiers separated by `::`. It has at least one segment.
#[derive(Debug, PartialEq, Eq)]
pub struct NamePath<'a> {
    pub parts: Vec<Name<'a>>,
}

impl<'a> View for NamePath<'a> {
    type V = Seq<Seq<u8>>;

    open spec fn view(&self) -> Seq<Seq<u8>> {
        Seq::new(self.parts@.len(), |i: int| self.parts@[i]@)
    }
}

impl<'a> Clone for NamePath<'a> {
    fn clone(&self) -> (r: Self)
        ensures
            r@ == self@,
            r.parts@ == self.parts@,
    {
        let mut parts: Vec<Name<'a>> = Vec::new();
        let mut i: usize = 0;
        while i < self.parts.len()
            invariant
                i <= self.parts@.len(),
                parts@ == self.parts@.subrange(0, i as int),
            decreases self.parts@.len() - i,
        {
            parts.push(self.parts[i]);
            proof {
                assert(parts@ =~= self.parts@.subrange(0, i + 1));
            }
            i = i + 1;
        }
        proof {
            assert(parts@ =~= self.parts@);
        }
        NamePath { parts }
    }
}

impl<'a> NamePath<'a> {
    /// A path at `pos`.
    pub fn parser(src: &'a str, pos: usize) -> (r: Option<(NamePath<'a>, usize)>)
        ensures
            parsed_view(r) == spec_name_path(src.spec_bytes(), pos as int),
            r matches Some((path, end)) ==> pos < end <= src.len() && path.parts@.len() > 0,
    {
        let (first, start) = match Name::parser(src, pos) {
            Some(found) => found,
            None => { return None; },
        };
        let mut parts: Vec<Name<'a>> = Vec::new();
        parts.push(first);
        let mut end: usize = start;
        proof {
            assert(Seq::new(parts@.len(), |i: int| parts@[i]@) =~= seq![first@]);
        }
        let mut done = false;
        while !done
            invariant
                pos < end <= src.len(),
                parts@.len() > 0,
                spec_name_path(src.spec_bytes(), pos as int) == Some(
                    spec_name_path_rest(
                        src.spec_bytes(),
                        end as int,
                        Seq::new(parts@.len(), |i: int| parts@[i]@),
                    ),
                ),
                done ==> spec_name_path_rest(
                    src.spec_bytes(),
                    end as int,
                    Seq::new(parts@.len(), |i: int| parts@[i]@),
                ) == (Seq::new(parts@.len(), |i: int| parts@[i]@), end as int),
            decreases src.len() - end, if done { 0int } else { 1int },
        {
            let ghost acc = Seq::new(parts@.len(), |i: int| parts@[i]@);
            match padded(src, end, "::") {
                Some(q) => match Name::parser(src, q) {
                    Some((name, next)) => {
                        parts.push(name);
                        proof {
                            assert(Seq::new(parts@.len(), |i: int| parts@[i]@) =~= acc.push(name@));
                        }
                        end = next;
                    },
                    None => {
                        done = true;
                    },
                },
                None => {
                    done = true;
                },
            }
        }
        let path = NamePath { parts };
        proof {
            assert(path@ =~= Seq::new(parts@.len(), |i: int| parts@[i]@));
        }
        Some((path, end))
    }

    /// The whole of `src` as one path.
    pub fn parse(src: &'a str) -> (r: Result<NamePath<'a>, ParseError>)
        ensures
            result_view(r) == spec_complete(
                spec_name_path(src.spec_bytes(), 0),
                src.spec_bytes().len() as int,
            ),
    {
        complete(NamePath::parser(src, 0), src.as_bytes().len())
    }

    /// True when the path has exactly one segment.
    pub fn is_single(&self) -> (r: bool)
        ensures
            r == (self@.len() == 1),
    {
        self.parts.len() == 1
    }
}

} // verus!
