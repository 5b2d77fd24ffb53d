//! Lexical primitives: byte classes, and the matchers that every grammar
//! rule is built from.
//!
//! A matcher looks at the source text at a byte offset. It either succeeds
//! and gives the offset just past what it consumed, or fails and consumes
//! nothing.

use vstd::prelude::*;
use vstd::string::*;
use vstd::utf8::*;

verus! {

/// Space, tab, newline or carriage return.
pub open spec fn is_whitespace(b: u8) -> bool {
    b == ' ' as u8 || b == '\t' as u8 || b == '\n' as u8 || b == '\r' as u8
}

/// A lowercase letter from `a` to `z`.
pub open spec fn is_lowercase(b: u8) -> bool {
    'a' as u8 <= b <= 'z' as u8
}

/// An uppercase letter from `A` to `Z`.
pub open spec fn is_uppercase(b: u8) -> bool {
    'A' as u8 <= b <= 'Z' as u8
}

/// A decimal digit.
pub open spec fn is_dec_digit(b: u8) -> bool {
    '0' as u8 <= b <= '9' as u8
}

/// A binary digit.
pub open spec fn is_bin_digit(b: u8) -> bool {
    b == '0' as u8 || b == '1' as u8
}

/// An octal digit.
pub open spec fn is_oct_digit(b: u8) -> bool {
    '0' as u8 <= b <= '7' as u8
}

/// A hexadecimal digit, in either case.
pub open spec fn is_hex_digit(b: u8) -> bool {
    is_dec_digit(b) || ('a' as u8 <= b <= 'f' as u8) || ('A' as u8 <= b <= 'F' as u8)
}

/// The result of an executable matcher, with its offset as a mathematical
/// integer, so that it can be compared with what the grammar says.
pub open spec fn parsed<T>(r: Option<(T, usize)>) -> Option<(T, int)> {
    match r {
        Some((t, end)) => Some((t, end as int)),
        None => None,
    }
}

/// As `parsed`, for a matcher that gives a syntax tree: the tree is taken
/// by its view.
pub open spec fn parsed_view<T: View>(r: Option<(T, usize)>) -> Option<(T::V, int)> {
    match r {
        Some((t, end)) => Some((t@, end as int)),
        None => None,
    }
}

/// As `parsed`, for a matcher that gives nothing but the offset.
pub open spec fn parsed_end(r: Option<usize>) -> Option<int> {
    match r {
        Some(end) => Some(end as int),
        None => None,
    }
}

/// The byte at offset `p`, if the text is that long.
pub open spec fn spec_byte_at(s: Seq<u8>, p: int) -> Option<u8> {
    if 0 <= p < s.len() {
        Some(s[p])
    } else {
        None
    }
}

/// One byte of the class `class` at `p`.
pub open spec fn spec_one_of(s: Seq<u8>, p: int, class: spec_fn(u8) -> bool) -> Option<(u8, int)> {
    if 0 <= p < s.len() && class(s[p]) {
        Some((s[p], p + 1))
    } else {
        None
    }
}

/// The offset of the first byte at or after `p` that is not whitespace.
pub open spec fn spec_whitespace(s: Seq<u8>, p: int) -> int
    decreases s.len() - p,
{
    if 0 <= p < s.len() && is_whitespace(s[p]) {
        spec_whitespace(s, p + 1)
    } else {
        p
    }
}

/// The byte `b` at `p`.
pub open spec fn spec_just_byte(s: Seq<u8>, p: int, b: u8) -> Option<int> {
    if 0 <= p < s.len() && s[p] == b {
        Some(p + 1)
    } else {
        None
    }
}

/// The bytes `lit` at `p`.
pub open spec fn spec_just(s: Seq<u8>, p: int, lit: Seq<u8>) -> Option<int> {
    if 0 <= p && p + lit.len() <= s.len() && s.subrange(p, p + lit.len()) == lit {
        Some(p + lit.len())
    } else {
        None
    }
}

/// The byte `b` with any whitespace before and after it.
pub open spec fn spec_padded_byte(s: Seq<u8>, p: int, b: u8) -> Option<int> {
    match spec_just_byte(s, spec_whitespace(s, p), b) {
        Some(q) => Some(spec_whitespace(s, q)),
        None => None,
    }
}

/// The bytes `lit` with any whitespace before and after them.
pub open spec fn spec_padded(s: Seq<u8>, p: int, lit: Seq<u8>) -> Option<int> {
    match spec_just(s, spec_whitespace(s, p), lit) {
        Some(q) => Some(spec_whitespace(s, q)),
        None => None,
    }
}

/// A byte that may start an identifier: a letter or an underscore.
pub open spec fn is_ident_start(b: u8) -> bool {
    is_lowercase(b) || is_uppercase(b) || b == '_' as u8
}

/// A byte that may continue an identifier: a letter, an underscore or a
/// decimal digit.
pub open spec fn is_ident_follow(b: u8) -> bool {
    is_ident_start(b) || is_dec_digit(b)
}

/// The word `word` at `p`, not followed by a byte that would continue an
/// identifier.
pub open spec fn spec_keyword(s: Seq<u8>, p: int, word: Seq<u8>) -> Option<int> {
    match spec_just(s, p, word) {
        Some(q) => if q < s.len() && is_ident_follow(s[q]) {
            None
        } else {
            Some(q)
        },
        None => None,
    }
}

/// The items of a list that follow one already read, from `p`: each is a
/// comma, with any whitespace around it, and what `item` reads after it. A
/// comma after the last item is taken too. `acc` holds the items read so
/// far.
pub open spec fn spec_list_rest<T>(
    s: Seq<u8>,
    p: int,
    item: spec_fn(int) -> Option<(T, int)>,
    acc: Seq<T>,
) -> (Seq<T>, int)
    decreases s.len() - p,
{
    match spec_padded_byte(s, p, ',' as u8) {
        Some(q) => match item(q) {
            Some((t, r)) => if advances(s, p, r) {
                spec_list_rest(s, r, item, acc.push(t))
            } else {
                (acc, q)
            },
            None => (acc, q),
        },
        None => (acc, p),
    }
}

/// A list at `p`: no item, or items read by `item` and separated by
/// commas.
pub open spec fn spec_list<T>(s: Seq<u8>, p: int, item: spec_fn(int) -> Option<(T, int)>) -> (
    Seq<T>,
    int,
) {
    match item(p) {
        Some((first, q)) => spec_list_rest(s, q, item, seq![first]),
        None => (seq![], p),
    }
}

/// A list between the bytes `open` and `close`, each with any whitespace
/// around it.
pub open spec fn spec_delimited_list<T>(
    s: Seq<u8>,
    p: int,
    open: u8,
    item: spec_fn(int) -> Option<(T, int)>,
    close: u8,
) -> Option<(Seq<T>, int)> {
    match spec_padded_byte(s, p, open) {
        Some(q) => {
            let (items, r) = spec_list(s, q, item);
            match spec_padded_byte(s, r, close) {
                Some(end) => Some((items, end)),
                None => None,
            }
        },
        None => None,
    }
}

/// The word `word` as a keyword, with any whitespace around it.
pub open spec fn spec_padded_keyword(s: Seq<u8>, p: int, word: Seq<u8>) -> Option<int> {
    match spec_keyword(s, spec_whitespace(s, p), word) {
        Some(q) => Some(spec_whitespace(s, q)),
        None => None,
    }
}

/// The word `word` as a keyword, and any whitespace after it.
pub open spec fn spec_keyword_then_whitespace(s: Seq<u8>, p: int, word: Seq<u8>) -> Option<int> {
    match spec_keyword(s, p, word) {
        Some(q) => Some(spec_whitespace(s, q)),
        None => None,
    }
}

/// A semicolon with any whitespace around it.
pub open spec fn spec_terminal_semicolon(s: Seq<u8>, p: int) -> Option<int> {
    spec_padded_byte(s, p, ';' as u8)
}

/// True when `q` lies beyond `p` and within the text. A rule asks this of
/// the offset that another rule gave before it goes on from there, so
/// that it can be seen to end. It holds of every offset that a rule gives
/// for what it has read, as the parsers show of every text.
pub open spec fn advances(s: Seq<u8>, p: int, q: int) -> bool {
    p < q <= s.len()
}

/// True when `q` lies at or beyond `p` and within the text.
pub open spec fn within(s: Seq<u8>, p: int, q: int) -> bool {
    p <= q <= s.len()
}

/// The first of two results that is a match.
pub open spec fn spec_or<T>(a: Option<T>, b: Option<T>) -> Option<T> {
    if a is Some {
        a
    } else {
        b
    }
}

/// The bytes `lit` at `p`, read as `tag`.
pub open spec fn spec_tagged<T>(s: Seq<u8>, p: int, lit: Seq<u8>, tag: T) -> Option<(T, int)> {
    match spec_just(s, p, lit) {
        Some(q) => Some((tag, q)),
        None => None,
    }
}

/// The byte `b` at `p`, read as `tag`.
pub open spec fn spec_tagged_byte<T>(s: Seq<u8>, p: int, b: u8, tag: T) -> Option<(T, int)> {
    match spec_just_byte(s, p, b) {
        Some(q) => Some((tag, q)),
        None => None,
    }
}

/// What `inner` matched, with any whitespace before and after it.
pub open spec fn spec_pad<T>(s: Seq<u8>, inner: Option<(T, int)>) -> Option<(T, int)> {
    match inner {
        Some((t, q)) => Some((t, spec_whitespace(s, q))),
        None => None,
    }
}

/// True when `b` is space, tab, newline or carriage return.
pub fn is_whitespace_byte(b: u8) -> (r: bool)
    ensures
        r == is_whitespace(b),
{
    b == ' ' as u8 || b == '\t' as u8 || b == '\n' as u8 || b == '\r' as u8
}

/// True when `b` may start an identifier.
pub fn is_ident_start_byte(b: u8) -> (r: bool)
    ensures
        r == is_ident_start(b),
{
    ('a' as u8 <= b && b <= 'z' as u8) || ('A' as u8 <= b && b <= 'Z' as u8) || b == '_' as u8
}

/// True when `b` may continue an identifier.
pub fn is_ident_follow_byte(b: u8) -> (r: bool)
    ensures
        r == is_ident_follow(b),
{
    is_ident_start_byte(b) || ('0' as u8 <= b && b <= '9' as u8)
}

/// The byte at `pos`, if the text is that long.
pub fn byte_at(src: &str, pos: usize) -> (r: Option<u8>)
    ensures
        r == spec_byte_at(src.spec_bytes(), pos as int),
        r is Some ==> pos < src.len(),
{
    let bytes = src.as_bytes();
    if pos < bytes.len() {
        Some(bytes[pos])
    } else {
        None
    }
}

/// One whitespace byte.
pub fn whitespace_char_parser(src: &str, pos: usize) -> (r: Option<usize>)
    ensures
        parsed_end(r) == spec_just_class(src.spec_bytes(), pos as int, |b: u8| is_whitespace(b)),
{
    match byte_at(src, pos) {
        Some(b) => if is_whitespace_byte(b) {
            Some(pos + 1)
        } else {
            None
        },
        None => None,
    }
}

/// One byte of the class `class` at `p`, dropped.
pub open spec fn spec_just_class(s: Seq<u8>, p: int, class: spec_fn(u8) -> bool) -> Option<int> {
    match spec_one_of(s, p, class) {
        Some((_, q)) => Some(q),
        None => None,
    }
}

/// Any run of whitespace, an empty one too. Never fails.
pub fn whitespace_parser(src: &str, pos: usize) -> (end: usize)
    ensures
        end as int == spec_whitespace(src.spec_bytes(), pos as int),
        pos <= end,
        pos <= src.len() ==> end <= src.len(),
{
    let bytes = src.as_bytes();
    let mut end: usize = pos;
    while end < bytes.len() && is_whitespace_byte(bytes[end])
        invariant
            bytes@ == src.spec_bytes(),
            pos <= end,
            pos <= bytes.len() ==> end <= bytes.len(),
            spec_whitespace(bytes@, pos as int) == spec_whitespace(bytes@, end as int),
        decreases bytes.len() - end,
    {
        end = end + 1;
    }
    end
}

/// One lowercase letter.
pub fn lowercase_parser(src: &str, pos: usize) -> (r: Option<(u8, usize)>)
    ensures
        parsed(r) == spec_one_of(src.spec_bytes(), pos as int, |b: u8| is_lowercase(b)),
{
    match byte_at(src, pos) {
        Some(b) => if 'a' as u8 <= b && b <= 'z' as u8 {
            Some((b, pos + 1))
        } else {
            None
        },
        None => None,
    }
}

/// One uppercase letter.
pub fn uppercase_parser(src: &str, pos: usize) -> (r: Option<(u8, usize)>)
    ensures
        parsed(r) == spec_one_of(src.spec_bytes(), pos as int, |b: u8| is_uppercase(b)),
{
    match byte_at(src, pos) {
        Some(b) => if 'A' as u8 <= b && b <= 'Z' as u8 {
            Some((b, pos + 1))
        } else {
            None
        },
        None => None,
    }
}

/// One decimal digit.
pub fn dec_digit_parser(src: &str, pos: usize) -> (r: Option<(u8, usize)>)
    ensures
        parsed(r) == spec_one_of(src.spec_bytes(), pos as int, |b: u8| is_dec_digit(b)),
{
    match byte_at(src, pos) {
        Some(b) => if '0' as u8 <= b && b <= '9' as u8 {
            Some((b, pos + 1))
        } else {
            None
        },
        None => None,
    }
}

/// One binary digit.
pub fn bin_digit_parser(src: &str, pos: usize) -> (r: Option<(u8, usize)>)
    ensures
        parsed(r) == spec_one_of(src.spec_bytes(), pos as int, |b: u8| is_bin_digit(b)),
{
    match byte_at(src, pos) {
        Some(b) => if b == '0' as u8 || b == '1' as u8 {
            Some((b, pos + 1))
        } else {
            None
        },
        None => None,
    }
}

/// One octal digit.
pub fn oct_digit_parser(src: &str, pos: usize) -> (r: Option<(u8, usize)>)
    ensures
        parsed(r) == spec_one_of(src.spec_bytes(), pos as int, |b: u8| is_oct_digit(b)),
{
    match byte_at(src, pos) {
        Some(b) => if '0' as u8 <= b && b <= '7' as u8 {
            Some((b, pos + 1))
        } else {
            None
        },
        None => None,
    }
}

/// One hexadecimal digit.
pub fn hex_digit_parser(src: &str, pos: usize) -> (r: Option<(u8, usize)>)
    ensures
        parsed(r) == spec_one_of(src.spec_bytes(), pos as int, |b: u8| is_hex_digit(b)),
{
    match byte_at(src, pos) {
        Some(b) => if ('0' as u8 <= b && b <= '9' as u8) || ('a' as u8 <= b && b <= 'f' as u8) || (
        'A' as u8 <= b && b <= 'F' as u8) {
            Some((b, pos + 1))
        } else {
            None
        },
        None => None,
    }
}

/// The byte `b` at `pos`.
pub fn just_byte(src: &str, pos: usize, b: u8) -> (r: Option<usize>)
    ensures
        parsed_end(r) == spec_just_byte(src.spec_bytes(), pos as int, b),
        r matches Some(end) ==> pos < end <= src.len(),
{
    match byte_at(src, pos) {
        Some(c) => if c == b {
            Some(pos + 1)
        } else {
            None
        },
        None => None,
    }
}

/// The text `lit` at `pos`.
pub fn just(src: &str, pos: usize, lit: &str) -> (r: Option<usize>)
    ensures
        parsed_end(r) == spec_just(src.spec_bytes(), pos as int, lit.spec_bytes()),
        r matches Some(end) ==> pos <= end <= src.len(),
{
    let bytes = src.as_bytes();
    let want = lit.as_bytes();
    if pos > bytes.len() || want.len() > bytes.len() - pos {
        return None;
    }
    let mut i: usize = 0;
    while i < want.len()
        invariant
            bytes@ == src.spec_bytes(),
            want@ == lit.spec_bytes(),
            pos + want.len() <= bytes.len(),
            i <= want.len(),
            bytes@.subrange(pos as int, pos + i) == want@.subrange(0, i as int),
        decreases want.len() - i,
    {
        if bytes[pos + i] != want[i] {
            proof {
                let whole = bytes@.subrange(pos as int, pos + want.len());
                assert(whole[i as int] == bytes@[pos + i]);
            }
            return None;
        }
        proof {
            assert(bytes@.subrange(pos as int, pos + i + 1) =~= bytes@.subrange(
                pos as int,
                pos + i,
            ).push(bytes@[pos + i]));
            assert(want@.subrange(0, i + 1) =~= want@.subrange(0, i as int).push(want@[i as int]));
        }
        i = i + 1;
    }
    proof {
        assert(want@.subrange(0, want.len() as int) =~= want@);
    }
    Some(pos + want.len())
}

/// The byte `b` with any whitespace around it.
pub fn padded_byte(src: &str, pos: usize, b: u8) -> (r: Option<usize>)
    ensures
        parsed_end(r) == spec_padded_byte(src.spec_bytes(), pos as int, b),
        r matches Some(end) ==> pos < end <= src.len(),
{
    let start = whitespace_parser(src, pos);
    match just_byte(src, start, b) {
        Some(q) => Some(whitespace_parser(src, q)),
        None => None,
    }
}

/// The text `lit` with any whitespace around it.
pub fn padded(src: &str, pos: usize, lit: &str) -> (r: Option<usize>)
    ensures
        parsed_end(r) == spec_padded(src.spec_bytes(), pos as int, lit.spec_bytes()),
        r matches Some(end) ==> pos <= end <= src.len(),
{
    let start = whitespace_parser(src, pos);
    match just(src, start, lit) {
        Some(q) => Some(whitespace_parser(src, q)),
        None => None,
    }
}

/// The word `word` at `pos`, where no identifier byte follows it.
pub fn keyword(src: &str, pos: usize, word: &str) -> (r: Option<usize>)
    ensures
        parsed_end(r) == spec_keyword(src.spec_bytes(), pos as int, word.spec_bytes()),
        r matches Some(end) ==> pos <= end <= src.len(),
{
    match just(src, pos, word) {
        Some(q) => match byte_at(src, q) {
            Some(b) => if is_ident_follow_byte(b) {
                None
            } else {
                Some(q)
            },
            None => Some(q),
        },
        None => None,
    }
}

/// The word `word` as a keyword, with any whitespace around it.
pub fn padded_keyword(src: &str, pos: usize, word: &str) -> (r: Option<usize>)
    ensures
        parsed_end(r) == spec_padded_keyword(src.spec_bytes(), pos as int, word.spec_bytes()),
        r matches Some(end) ==> pos <= end <= src.len(),
{
    let start = whitespace_parser(src, pos);
    match keyword(src, start, word) {
        Some(q) => Some(whitespace_parser(src, q)),
        None => None,
    }
}

/// The word `word` as a keyword, and any whitespace after it.
pub fn keyword_then_whitespace(src: &str, pos: usize, word: &str) -> (r: Option<usize>)
    ensures
        parsed_end(r) == spec_keyword_then_whitespace(
            src.spec_bytes(),
            pos as int,
            word.spec_bytes(),
        ),
        r matches Some(end) ==> pos <= end <= src.len(),
{
    match keyword(src, pos, word) {
        Some(q) => Some(whitespace_parser(src, q)),
        None => None,
    }
}

/// A semicolon with any whitespace around it: the end of a statement.
pub fn terminal_semicolon_parser(src: &str, pos: usize) -> (r: Option<usize>)
    ensures
        parsed_end(r) == spec_terminal_semicolon(src.spec_bytes(), pos as int),
        r matches Some(end) ==> pos < end <= src.len(),
{
    padded_byte(src, pos, ';' as u8)
}

/// Whitespace is skipped as far as it goes and no further: every byte
/// that is skipped is whitespace, and the byte where skipping stops is
/// none.
pub proof fn law_whitespace_is_maximal(s: Seq<u8>, p: int)
    requires
        0 <= p <= s.len(),
    ensures
        p <= spec_whitespace(s, p) <= s.len(),
        forall|k: int| p <= k < spec_whitespace(s, p) ==> is_whitespace(#[trigger] s[k]),
        spec_whitespace(s, p) < s.len() ==> !is_whitespace(s[spec_whitespace(s, p)]),
    decreases s.len() - p,
{
    if p < s.len() && is_whitespace(s[p]) {
        law_whitespace_is_maximal(s, p + 1);
    }
}

/// A keyword is a word of its own: the text goes on with the word, and
/// no letter, digit or underscore follows it.
pub proof fn law_keyword_is_a_word(s: Seq<u8>, p: int, word: Seq<u8>)
    ensures
        spec_keyword(s, p, word) matches Some(end) ==> end == p + word.len() && s.subrange(p, end)
            == word && (end == s.len() || !is_ident_follow(s[end])),
{
}

/// In valid UTF-8 the byte after an ASCII byte starts a character.
pub proof fn lemma_boundary_after_ascii(bytes: Seq<u8>, k: int)
    requires
        valid_utf8(bytes),
        0 <= k < bytes.len(),
        bytes[k] < 0x80,
    ensures
        is_char_boundary(bytes, k),
        is_char_boundary(bytes, k + 1),
{
    is_char_boundary_iff_not_is_continuation_byte(bytes, k);
    valid_utf8_split(bytes, k);
    let tail = bytes.subrange(k, bytes.len() as int);
    assert(tail[0] == bytes[k]);
    assert(valid_first_scalar(tail) && valid_utf8(pop_first_scalar(tail)));
    assert(length_of_first_scalar(tail) == 1);
    let rest = bytes.subrange(k + 1, bytes.len() as int);
    assert(pop_first_scalar(tail) =~= rest);
    if k + 1 == bytes.len() {
        is_char_boundary_start_end_of_seq(bytes);
    } else {
        assert(rest[0] == bytes[k + 1]);
        assert(valid_first_scalar(rest));
        is_char_boundary_iff_not_is_continuation_byte(bytes, k + 1);
    }
}

/// The part of `src` from `from` up to `to`, where that part is ASCII and
/// not empty.
pub fn ascii_slice<'a>(src: &'a str, from: usize, to: usize) -> (r: &'a str)
    requires
        from < to <= src.len(),
        forall|k: int| from <= k < to ==> src.spec_bytes()[k] < 0x80,
    ensures
        r.spec_bytes() == src.spec_bytes().subrange(from as int, to as int),
{
    proof {
        let bytes = src.spec_bytes();
        encode_utf8_valid_utf8(src@);
        lemma_boundary_after_ascii(bytes, from as int);
        lemma_boundary_after_ascii(bytes, to - 1);
    }
    let (head, _) = src.split_at(to);
    proof {
        let bytes = src.spec_bytes();
        let hb = head.spec_bytes();
        encode_utf8_valid_utf8(head@);
        assert(hb[from as int] == bytes[from as int]);
        is_char_boundary_iff_not_is_continuation_byte(hb, from as int);
    }
    let (_, tail) = head.split_at(from);
    proof {
        assert(tail.spec_bytes() =~= src.spec_bytes().subrange(from as int, to as int));
    }
    tail
}

} // verus!
