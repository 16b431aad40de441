//! Text as sequences of characters: conversions between strings and
//! character vectors, searching, splitting, trimming and decimal numbers.

use vstd::prelude::*;

verus! {

/// The characters of a string, in order.
pub fn chars_of(s: &str) -> (chars: Vec<char>)
    ensures
        chars@ == s@,
{
    let mut chars: Vec<char> = Vec::new();
    for c in it: s.chars()
        invariant
            it.seq() == s@,
            chars@ == it.seq().take(it.index()),
    {
        chars.push(c);
    }
    chars
}

/// `String::from_iter` over the characters of a slice: the string that
/// holds exactly those characters, in order.
#[verifier::external_body]
pub(crate) fn string_of(chars: &[char]) -> (s: String)
    ensures
        s@ == chars@,
{
    String::from_iter(chars.iter())
}

/// A copy of the elements of `v` from `from` up to `to`.
pub fn subvec<T: Copy>(v: &[T], from: usize, to: usize) -> (part: Vec<T>)
    requires
        from <= to <= v@.len(),
    ensures
        part@ == v@.subrange(from as int, to as int),
{
    let mut part: Vec<T> = Vec::new();
    let mut i: usize = from;
    while i < to
        invariant
            from <= i <= to <= v@.len(),
            part@ == v@.subrange(from as int, i as int),
        decreases to - i,
    {
        part.push(v[i]);
        i += 1;
    }
    part
}

/// Whether two strings hold the same characters.
pub fn same_text(a: &str, b: &str) -> (same: bool)
    ensures
        same == (a@ == b@),
{
    let x = a.as_bytes();
    let y = b.as_bytes();
    proof {
        vstd::utf8::encode_utf8_decode_utf8(a@);
        vstd::utf8::encode_utf8_decode_utf8(b@);
    }
    if x.len() != y.len() {
        return false;
    }
    let mut i: usize = 0;
    while i < x.len()
        invariant
            i <= x@.len(),
            x@.len() == y@.len(),
            x@.subrange(0, i as int) == y@.subrange(0, i as int),
            x@ == vstd::utf8::encode_utf8(a@),
            y@ == vstd::utf8::encode_utf8(b@),
            vstd::utf8::decode_utf8(x@) == a@,
            vstd::utf8::decode_utf8(y@) == b@,
        decreases x@.len() - i,
    {
        if x[i] != y[i] {
            return false;
        }
        assert(x@.subrange(0, i + 1) == x@.subrange(0, i as int).push(x@[i as int]));
        assert(y@.subrange(0, i + 1) == y@.subrange(0, i as int).push(y@[i as int]));
        i += 1;
    }
    assert(x@ == x@.subrange(0, i as int));
    assert(y@ == y@.subrange(0, i as int));
    true
}

/// The characters with the Unicode property `White_Space`.
pub open spec fn is_whitespace(c: char) -> bool {
    let n = c as u32;
    ||| 0x09 <= n <= 0x0D
    ||| n == 0x20
    ||| n == 0x85
    ||| n == 0xA0
    ||| n == 0x1680
    ||| 0x2000 <= n <= 0x200A
    ||| n == 0x2028
    ||| n == 0x2029
    ||| n == 0x202F
    ||| n == 0x205F
    ||| n == 0x3000
}

pub fn char_is_whitespace(c: char) -> (b: bool)
    ensures
        b == is_whitespace(c),
{
    let n: u32 = c as u32;
    (0x09 <= n && n <= 0x0D) || n == 0x20 || n == 0x85 || n == 0xA0 || n == 0x1680 || (0x2000
        <= n && n <= 0x200A) || n == 0x2028 || n == 0x2029 || n == 0x202F || n == 0x205F || n
        == 0x3000
}

/// The first index at or after `from` at which `s` holds `x`, or the length
/// of `s` if there is none.
pub open spec fn find_from<T>(s: Seq<T>, x: T, from: int) -> int
    decreases s.len() - from,
{
    if from < 0 || from >= s.len() {
        s.len() as int
    } else if s[from] == x {
        from
    } else {
        find_from(s, x, from + 1)
    }
}

pub proof fn lemma_find_from<T>(s: Seq<T>, x: T, from: int)
    requires
        0 <= from <= s.len(),
    ensures
        from <= find_from(s, x, from) <= s.len(),
        find_from(s, x, from) < s.len() ==> s[find_from(s, x, from)] == x,
        forall|k: int| from <= k < find_from(s, x, from) ==> s[k] != x,
    decreases s.len() - from,
{
    if from < s.len() && s[from] != x {
        lemma_find_from(s, x, from + 1);
    }
}

/// A position `at` that holds `x`, with no `x` between `from` and `at`, is
/// the one that the search from `from` finds.
pub proof fn lemma_find_from_is<T>(s: Seq<T>, x: T, from: int, at: int)
    requires
        0 <= from <= at <= s.len(),
        at < s.len() ==> s[at] == x,
        forall|k: int| from <= k < at ==> s[k] != x,
    ensures
        find_from(s, x, from) == at,
    decreases at - from,
{
    if from < at {
        lemma_find_from_is(s, x, from + 1, at);
    }
}

pub fn find_char(s: &[char], c: char, from: usize) -> (at: usize)
    requires
        from <= s@.len(),
    ensures
        at == find_from(s@, c, from as int),
        from <= at <= s@.len(),
{
    let mut i: usize = from;
    while i < s.len() && s[i] != c
        invariant
            from <= i <= s@.len(),
            find_from(s@, c, from as int) == find_from(s@, c, i as int),
        decreases s@.len() - i,
    {
        i += 1;
    }
    i
}

pub fn find_byte(s: &[u8], b: u8, from: usize) -> (at: usize)
    requires
        from <= s@.len(),
    ensures
        at == find_from(s@, b, from as int),
        from <= at <= s@.len(),
{
    let mut i: usize = from;
    while i < s.len() && s[i] != b
        invariant
            from <= i <= s@.len(),
            find_from(s@, b, from as int) == find_from(s@, b, i as int),
        decreases s@.len() - i,
    {
        i += 1;
    }
    i
}

/// The lower-case form of a text, as `str::to_lowercase` gives it.
pub uninterp spec fn lowercase(s: Seq<char>) -> Seq<char>;

/// `str::to_lowercase`: the lower-case equivalent of the text, by the rules
/// of Unicode. Nothing more is claimed of it than that it depends on the
/// text alone.
#[verifier::external_body]
pub(crate) fn to_lowercase(s: &str) -> (lower: String)
    ensures
        lower@ == lowercase(s@),
{
    s.to_lowercase()
}

/// The texts of a sequence of strings.
pub open spec fn texts(v: Seq<String>) -> Seq<Seq<char>> {
    Seq::new(v.len(), |i: int| v[i]@)
}

/// The pieces into which the separator `sep` cuts the part of `s` that
/// starts at `from`: one more than there are separators.
pub open spec fn pieces_from(s: Seq<char>, sep: char, from: int) -> Seq<Seq<char>>
    decreases s.len() - from,
{
    if from < 0 || from > s.len() {
        Seq::empty()
    } else {
        let end = find_from(s, sep, from);
        proof {
            lemma_find_from(s, sep, from);
        }
        if end >= s.len() {
            seq![s.subrange(from, s.len() as int)]
        } else {
            seq![s.subrange(from, end)] + pieces_from(s, sep, end + 1)
        }
    }
}

/// The segments of a path from `from` on: the pieces between slashes that
/// are not empty.
pub open spec fn segments_from(path: Seq<char>, from: int) -> Seq<Seq<char>>
    decreases path.len() - from,
{
    if from < 0 || from >= path.len() {
        Seq::empty()
    } else {
        let end = find_from(path, '/', from);
        proof {
            lemma_find_from(path, '/', from);
        }
        let rest = if end < path.len() {
            segments_from(path, end + 1)
        } else {
            Seq::empty()
        };
        if end > from {
            seq![path.subrange(from, end)] + rest
        } else {
            rest
        }
    }
}

/// The segments of a path.
pub open spec fn segments(path: Seq<char>) -> Seq<Seq<char>> {
    segments_from(path, 0)
}

/// The segments of a path are its pieces between slashes that are not
/// empty, in their order.
pub proof fn lemma_segments_are_pieces(path: Seq<char>, from: int)
    requires
        0 <= from <= path.len(),
    ensures
        segments_from(path, from) == pieces_from(path, '/', from).filter(
            |piece: Seq<char>| piece.len() > 0,
        ),
    decreases path.len() - from,
{
    let kept = |piece: Seq<char>| piece.len() > 0;
    let end = find_from(path, '/', from);
    lemma_find_from(path, '/', from);
    let piece = path.subrange(from, end);
    let none = Seq::<Seq<char>>::empty();
    none.lemma_filter_prepend(piece, kept);
    assert(none.filter(kept) == none) by {
        reveal(Seq::filter);
    }
    if end >= path.len() {
        assert(pieces_from(path, '/', from) == seq![piece]);
        assert(seq![piece] + none == seq![piece]);
        if from >= path.len() {
            assert(piece.len() == 0);
        }
        assert(segments_from(path, from) =~= seq![piece].filter(kept));
    } else {
        let rest = pieces_from(path, '/', end + 1);
        lemma_segments_are_pieces(path, end + 1);
        rest.lemma_filter_prepend(piece, kept);
        assert(pieces_from(path, '/', from) == seq![piece] + rest);
        assert(segments_from(path, from) =~= (seq![piece] + rest).filter(kept));
    }
}

/// Cuts a text at every separator.
pub fn split_text(s: &[char], sep: char) -> (pieces: Vec<String>)
    ensures
        texts(pieces@) == pieces_from(s@, sep, 0),
{
    let mut pieces: Vec<String> = Vec::new();
    let mut from: usize = 0;
    loop
        invariant_except_break
            from <= s@.len(),
            texts(pieces@) + pieces_from(s@, sep, from as int) == pieces_from(s@, sep, 0),
        ensures
            texts(pieces@) == pieces_from(s@, sep, 0),
        decreases s@.len() - from,
    {
        let end = find_char(s, sep, from);
        let piece = string_of(vstd::slice::slice_subrange(s, from, end));
        let ghost before = texts(pieces@);
        pieces.push(piece);
        assert(texts(pieces@) == before.push(s@.subrange(from as int, end as int)));
        if end >= s.len() {
            assert(before.push(s@.subrange(from as int, end as int)) == before + pieces_from(
                s@,
                sep,
                from as int,
            ));
            break ;
        }
        assert(before.push(s@.subrange(from as int, end as int)) + pieces_from(
            s@,
            sep,
            end + 1,
        ) == before + pieces_from(s@, sep, from as int));
        from = end + 1;
    }
    pieces
}

/// The segments of a path: its pieces between slashes, without the empty
/// ones.
pub fn separate_path_segments(path: &str) -> (found: Vec<String>)
    ensures
        texts(found@) == segments(path@),
{
    let chars = chars_of(path);
    let s = chars.as_slice();
    let mut found: Vec<String> = Vec::new();
    let mut from: usize = 0;
    while from < s.len()
        invariant
            from <= s@.len(),
            s@ == path@,
            texts(found@) + segments_from(s@, from as int) == segments_from(s@, 0),
        decreases s@.len() - from,
    {
        let end = find_char(s, '/', from);
        if end > from {
            let piece = string_of(vstd::slice::slice_subrange(s, from, end));
            let ghost before = texts(found@);
            found.push(piece);
            assert(texts(found@) == before.push(s@.subrange(from as int, end as int)));
            assert(before.push(s@.subrange(from as int, end as int)) + segments_from(
                s@,
                end + 1,
            ) == before + segments_from(s@, from as int));
        }
        assert(segments_from(s@, s@.len() as int) == Seq::<Seq<char>>::empty());
        from = if end < s.len() {
            end + 1
        } else {
            end
        };
    }
    assert(texts(found@) + Seq::<Seq<char>>::empty() == texts(found@));
    found
}

/// The character that writes a digit.
pub open spec fn digit_char(d: nat) -> char {
    if d == 0 {
        '0'
    } else if d == 1 {
        '1'
    } else if d == 2 {
        '2'
    } else if d == 3 {
        '3'
    } else if d == 4 {
        '4'
    } else if d == 5 {
        '5'
    } else if d == 6 {
        '6'
    } else if d == 7 {
        '7'
    } else if d == 8 {
        '8'
    } else {
        '9'
    }
}

/// A number written in decimal, without leading zeros.
pub open spec fn decimal(n: nat) -> Seq<char>
    decreases n,
{
    if n < 10 {
        seq![digit_char(n)]
    } else {
        decimal(n / 10).push(digit_char(n % 10))
    }
}

fn digit_of(d: usize) -> (c: char)
    requires
        d < 10,
    ensures
        c == digit_char(d as nat),
{
    if d == 0 {
        '0'
    } else if d == 1 {
        '1'
    } else if d == 2 {
        '2'
    } else if d == 3 {
        '3'
    } else if d == 4 {
        '4'
    } else if d == 5 {
        '5'
    } else if d == 6 {
        '6'
    } else if d == 7 {
        '7'
    } else if d == 8 {
        '8'
    } else {
        '9'
    }
}

fn push_decimal(n: usize, out: &mut Vec<char>)
    ensures
        final(out)@ == old(out)@ + decimal(n as nat),
    decreases n,
{
    if n >= 10 {
        push_decimal(n / 10, out);
    }
    out.push(digit_of(n % 10));
    assert(out@ == old(out)@ + decimal(n as nat));
}

/// A number written in decimal.
pub fn decimal_text(n: usize) -> (text: String)
    ensures
        text@ == decimal(n as nat),
{
    let mut chars: Vec<char> = Vec::new();
    push_decimal(n, &mut chars);
    assert(chars@ == decimal(n as nat));
    string_of(chars.as_slice())
}

/// The digit that a character writes, if it writes one.
pub open spec fn digit_value(c: char) -> Option<nat> {
    if '0' <= c <= '9' {
        Some((c as u32 - '0' as u32) as nat)
    } else {
        None
    }
}

/// Whether the characters of `s` from `from` on are digits.
pub open spec fn all_digits(s: Seq<char>, from: int) -> bool {
    forall|i: int| from <= i < s.len() ==> digit_value(#[trigger] s[i]) is Some
}

/// The number that the digits of `s` from `from` up to `to` write.
pub open spec fn digits_upto(s: Seq<char>, from: int, to: int) -> nat
    decreases to - from,
{
    if to <= from {
        0
    } else {
        digits_upto(s, from, to - 1) * 10 + digit_value(s[to - 1]).unwrap_or(0)
    }
}

/// The number that a text writes in decimal: digits, with or without a plus
/// sign before them. Any other text writes none.
pub open spec fn parse_decimal(s: Seq<char>) -> Option<nat> {
    let from: int = if s.len() > 0 && s[0] == '+' {
        1
    } else {
        0
    };
    if from < s.len() && all_digits(s, from) {
        Some(digits_upto(s, from, s.len() as int))
    } else {
        None
    }
}

proof fn lemma_digits_grow(s: Seq<char>, from: int, a: int, b: int)
    requires
        from <= a <= b,
    ensures
        digits_upto(s, from, a) <= digits_upto(s, from, b),
    decreases b - a,
{
    if a < b {
        lemma_digits_grow(s, from, a, b - 1);
        assert(digits_upto(s, from, b - 1) <= digits_upto(s, from, b - 1) * 10) by (nonlinear_arith);
    }
}

/// Reads a number that fits the machine: the number that the text writes in
/// decimal, if it writes one and the number is small enough.
pub fn parse_usize(s: &str) -> (n: Option<usize>)
    ensures
        n == match parse_decimal(s@) {
            Some(v) => if v <= usize::MAX {
                Some(v as usize)
            } else {
                None
            },
            None => None,
        },
{
    let chars = chars_of(s);
    let from: usize = if chars.len() > 0 && chars[0] == '+' {
        1
    } else {
        0
    };
    if from >= chars.len() {
        return None;
    }
    let mut i: usize = from;
    while i < chars.len()
        invariant
            from <= i <= chars@.len(),
            chars@ == s@,
            from == (if s@.len() > 0 && s@[0] == '+' {
                1int
            } else {
                0int
            }),
            forall|j: int| from <= j < i ==> digit_value(#[trigger] chars@[j]) is Some,
        decreases chars@.len() - i,
    {
        let c = chars[i];
        if !('0' <= c && c <= '9') {
            assert(digit_value(chars@[i as int]) is None);
            assert(!all_digits(s@, from as int));
            return None;
        }
        i += 1;
    }
    assert(all_digits(chars@, from as int));
    let mut value: usize = 0;
    let mut k: usize = from;
    while k < chars.len()
        invariant
            from <= k <= chars@.len(),
            from < chars@.len(),
            chars@ == s@,
            from == (if s@.len() > 0 && s@[0] == '+' {
                1int
            } else {
                0int
            }),
            all_digits(chars@, from as int),
            value == digits_upto(chars@, from as int, k as int),
        decreases chars@.len() - k,
    {
        let c = chars[k];
        assert(digit_value(chars@[k as int]) is Some);
        let d: usize = (c as u32 - '0' as u32) as usize;
        proof {
            lemma_digits_grow(chars@, from as int, k + 1, chars@.len() as int);
            assert(digit_value(c) == Some(d as nat));
            assert(digits_upto(chars@, from as int, k + 1) == value * 10 + d);
        }
        if value > (usize::MAX - d) / 10 {
            assert(value * 10 + d > usize::MAX) by (nonlinear_arith)
                requires
                    value > (usize::MAX - d) / 10,
                    d <= usize::MAX,
            ;
            return None;
        }
        assert(value * 10 + d <= usize::MAX) by (nonlinear_arith)
            requires
                value <= (usize::MAX - d) / 10,
                d <= usize::MAX,
        ;
        value = value * 10 + d;
        k += 1;
    }
    Some(value)
}

/// Adds bytes to the end of a vector.
pub fn append_bytes(out: &mut Vec<u8>, bytes: &[u8])
    ensures
        final(out)@ == old(out)@ + bytes@,
{
    let mut i: usize = 0;
    while i < bytes.len()
        invariant
            i <= bytes@.len(),
            out@ == old(out)@ + bytes@.subrange(0, i as int),
        decreases bytes@.len() - i,
    {
        out.push(bytes[i]);
        i += 1;
    }
    assert(bytes@.subrange(0, i as int) == bytes@);
}

/// `core::str::from_utf8`: the bytes as a text, if they are UTF-8. The text
/// has exactly those bytes.
#[verifier::external_body]
pub(crate) fn utf8_text(bytes: &[u8]) -> (text: Option<&str>)
    ensures
        text is Some == vstd::utf8::valid_utf8(bytes@),
        text matches Some(t) ==> vstd::utf8::encode_utf8(t@) == bytes@,
{
    core::str::from_utf8(bytes).ok()
}

/// Reads bytes as a text.
pub fn decode_text(bytes: &[u8]) -> (text: Option<Vec<char>>)
    ensures
        text is Some == vstd::utf8::valid_utf8(bytes@),
        text matches Some(t) ==> t@ == vstd::utf8::decode_utf8(bytes@),
{
    match utf8_text(bytes) {
        Some(t) => {
            proof {
                vstd::utf8::encode_utf8_decode_utf8(t@);
            }
            Some(chars_of(t))
        },
        None => None,
    }
}

/// The first index at or after `from` that does not hold white space, or
/// the length of `s`.
pub open spec fn skip_whitespace(s: Seq<char>, from: int) -> int
    decreases s.len() - from,
{
    if from < 0 || from >= s.len() {
        s.len() as int
    } else if is_whitespace(s[from]) {
        skip_whitespace(s, from + 1)
    } else {
        from
    }
}

/// The first index at or after `from` that holds white space, or the length
/// of `s`.
pub open spec fn skip_word(s: Seq<char>, from: int) -> int
    decreases s.len() - from,
{
    if from < 0 || from >= s.len() {
        s.len() as int
    } else if is_whitespace(s[from]) {
        from
    } else {
        skip_word(s, from + 1)
    }
}

/// The end of `s` without the white space before `to`, not going below
/// `floor`.
pub open spec fn skip_back_whitespace(s: Seq<char>, floor: int, to: int) -> int
    decreases to - floor,
{
    if to <= floor || to > s.len() {
        floor
    } else if is_whitespace(s[to - 1]) {
        skip_back_whitespace(s, floor, to - 1)
    } else {
        to
    }
}

/// A text without the white space at its ends.
pub open spec fn trim(s: Seq<char>) -> Seq<char> {
    let from = skip_whitespace(s, 0);
    s.subrange(from, skip_back_whitespace(s, from, s.len() as int))
}

pub fn skip_whitespace_at(s: &[char], from: usize) -> (at: usize)
    requires
        from <= s@.len(),
    ensures
        at == skip_whitespace(s@, from as int),
        from <= at <= s@.len(),
{
    let mut i: usize = from;
    while i < s.len() && char_is_whitespace(s[i])
        invariant
            from <= i <= s@.len(),
            skip_whitespace(s@, from as int) == skip_whitespace(s@, i as int),
        decreases s@.len() - i,
    {
        i += 1;
    }
    i
}

pub fn skip_word_at(s: &[char], from: usize) -> (at: usize)
    requires
        from <= s@.len(),
    ensures
        at == skip_word(s@, from as int),
        from <= at <= s@.len(),
{
    let mut i: usize = from;
    while i < s.len() && !char_is_whitespace(s[i])
        invariant
            from <= i <= s@.len(),
            skip_word(s@, from as int) == skip_word(s@, i as int),
        decreases s@.len() - i,
    {
        i += 1;
    }
    i
}

/// A text without the white space at its ends.
pub fn trim_text(s: &[char]) -> (trimmed: Vec<char>)
    ensures
        trimmed@ == trim(s@),
{
    let from = skip_whitespace_at(s, 0);
    let mut to: usize = s.len();
    while to > from && char_is_whitespace(s[to - 1])
        invariant
            from <= to <= s@.len(),
            skip_back_whitespace(s@, from as int, s@.len() as int) == skip_back_whitespace(
                s@,
                from as int,
                to as int,
            ),
        decreases to - from,
    {
        to -= 1;
    }
    subvec(s, from, to)
}

/// The text that bytes are read as when what is not UTF-8 in them is
/// replaced, as `String::from_utf8_lossy` gives it.
pub uninterp spec fn lossy_text(bytes: Seq<u8>) -> Seq<char>;

/// `String::from_utf8_lossy`: the bytes as a text, with a replacement
/// character for every part that is not UTF-8. Bytes that are UTF-8 are
/// read as they are.
#[verifier::external_body]
pub(crate) fn utf8_lossy(bytes: &[u8]) -> (text: String)
    ensures
        text@ == lossy_text(bytes@),
        vstd::utf8::valid_utf8(bytes@) ==> text@ == vstd::utf8::decode_utf8(bytes@),
{
    String::from_utf8_lossy(bytes).into_owned()
}

} // verus!
