//! What the encoder of HTTP/1.1 and the parser of HTTP/1.1 hold of each
//! other: the headers and the body that were written are the headers and the
//! body that are read.

use crate::encoder::alpha::{encoded, header_line, header_lines, status_line};
use crate::list_map::{distinct_keys, key_index, lemma_key_index_is, listing_insert};
use crate::parser::alpha::{head_end, line_end, MAX_HEADER_SIZE};
use crate::request::HeaderName;
use crate::response::ResponseView;
use crate::text::{
    decimal, digit_char, digit_value, digits_upto, is_whitespace, lemma_find_from_is,
    lowercase, parse_decimal, skip_back_whitespace, skip_whitespace, trim,
};
use vstd::prelude::*;
use vstd::utf8::{encode_scalar, encode_utf8};

verus! {

/// The encoding of two texts, one after the other, is the encoding of the
/// first followed by the encoding of the second.
pub proof fn lemma_encode_concat(a: Seq<char>, b: Seq<char>)
    ensures
        encode_utf8(a + b) == encode_utf8(a) + encode_utf8(b),
    decreases a.len(),
{
    if a.len() == 0 {
        assert(a + b == b);
        assert(encode_utf8(a) + encode_utf8(b) == encode_utf8(b));
    } else {
        lemma_encode_concat(a.drop_first(), b);
        assert((a + b).drop_first() == a.drop_first() + b);
        assert((a + b)[0] == a[0]);
        assert(encode_scalar(a[0] as u32) + (encode_utf8(a.drop_first()) + encode_utf8(b)) == (
        encode_scalar(a[0] as u32) + encode_utf8(a.drop_first())) + encode_utf8(b));
    }
}

/// A byte below 128 in the encoding of a character is the character itself.
pub proof fn lemma_low_byte_of_scalar(c: char, i: int)
    requires
        0 <= i < encode_scalar(c as u32).len(),
        encode_scalar(c as u32)[i] < 128,
    ensures
        (c as u32) < 128,
        encode_scalar(c as u32)[i] == c as u32,
{
    let s = c as u32;
    vstd::utf8::char_is_scalar(c);
    let t1: u8 = ((s >> 6) & 0x1F) as u8;
    let t2: u8 = ((s >> 12) & 0x0F) as u8;
    let t3: u8 = ((s >> 18) & 0x7) as u8;
    let t4: u8 = (s & 0x3F) as u8;
    let t5: u8 = ((s >> 6) & 0x3F) as u8;
    let t6: u8 = ((s >> 12) & 0x3F) as u8;
    assert(0xC0u8 | t1 >= 128) by (bit_vector);
    assert(0xE0u8 | t2 >= 128) by (bit_vector);
    assert(0xF0u8 | t3 >= 128) by (bit_vector);
    assert(0x80u8 | t4 >= 128) by (bit_vector);
    assert(0x80u8 | t5 >= 128) by (bit_vector);
    assert(0x80u8 | t6 >= 128) by (bit_vector);
    assert(s <= 0x7F ==> (s & 0x7F) == s) by (bit_vector);
}

/// A byte below 128 that occurs in the encoding of a text is one of its
/// characters.
pub proof fn lemma_low_byte_is_char(chars: Seq<char>, j: int)
    requires
        0 <= j < encode_utf8(chars).len(),
        encode_utf8(chars)[j] < 128,
    ensures
        exists|i: int| 0 <= i < chars.len() && #[trigger] chars[i] as u32 == encode_utf8(chars)[j],
    decreases chars.len(),
{
    if chars.len() > 0 {
        let head = encode_scalar(chars[0] as u32);
        let rest = chars.drop_first();
        if j < head.len() {
            lemma_low_byte_of_scalar(chars[0], j);
            assert(chars[0] as u32 == encode_utf8(chars)[j]);
        } else {
            assert(encode_utf8(chars)[j] == encode_utf8(rest)[j - head.len()]);
            lemma_low_byte_is_char(rest, j - head.len());
            let i = choose|i: int|
                0 <= i < rest.len() && #[trigger] rest[i] as u32 == encode_utf8(rest)[j - head.len()];
            assert(chars[i + 1] == rest[i]);
        }
    }
}

/// Where a text lacks a character below 128, its encoding lacks the byte of
/// that character.
pub proof fn lemma_absent_char_absent_byte(chars: Seq<char>, c: char)
    requires
        (c as u32) < 128,
        forall|i: int| 0 <= i < chars.len() ==> chars[i] != c,
    ensures
        forall|j: int| 0 <= j < encode_utf8(chars).len() ==> #[trigger] encode_utf8(chars)[j] != c as u8,
{
    assert forall|j: int| 0 <= j < encode_utf8(chars).len() implies #[trigger] encode_utf8(
        chars,
    )[j] != c as u8 by {
        if encode_utf8(chars)[j] == c as u8 {
            lemma_low_byte_is_char(chars, j);
            let i = choose|i: int|
                0 <= i < chars.len() && #[trigger] chars[i] as u32 == encode_utf8(chars)[j];
            assert(chars[i] as u32 == c as u32);
            vstd::utf8::char_u32_cast(chars[i], chars[i] as u32);
            vstd::utf8::char_u32_cast(c, c as u32);
        }
    }
}

/// The digits of a number are digits.
pub proof fn lemma_decimal_is_digits(n: nat)
    ensures
        decimal(n).len() > 0,
        forall|i: int| 0 <= i < decimal(n).len() ==> '0' <= #[trigger] decimal(n)[i] <= '9',
    decreases n,
{
    if n >= 10 {
        lemma_decimal_is_digits(n / 10);
    }
}

/// What digits write does not depend on what follows them.
pub proof fn lemma_digits_of_prefix(s: Seq<char>, t: Seq<char>, n: int)
    requires
        0 <= n <= s.len(),
        n <= t.len(),
        forall|i: int| 0 <= i < n ==> s[i] == t[i],
    ensures
        digits_upto(s, 0, n) == digits_upto(t, 0, n),
    decreases n,
{
    if n > 0 {
        lemma_digits_of_prefix(s, t, n - 1);
    }
}

/// A number that is written in decimal is read back as itself.
pub proof fn lemma_decimal_round_trip(n: nat)
    ensures
        parse_decimal(decimal(n)) == Some(n),
    decreases n,
{
    lemma_decimal_is_digits(n);
    let s = decimal(n);
    assert(s[0] != '+');
    assert forall|i: int| 0 <= i < s.len() implies digit_value(#[trigger] s[i]) is Some by {}
    lemma_decimal_value(n);
}

/// The digits of a number write the number.
pub proof fn lemma_decimal_value(n: nat)
    ensures
        digits_upto(decimal(n), 0, decimal(n).len() as int) == n,
    decreases n,
{
    if n < 10 {
        assert(digits_upto(decimal(n), 0, 0) == 0);
        assert(digit_value(digit_char(n)) == Some(n));
    } else {
        lemma_decimal_value(n / 10);
        let front = decimal(n / 10);
        let s = decimal(n);
        assert(s == front.push(digit_char(n % 10)));
        lemma_digits_of_prefix(s, front, front.len() as int);
        assert(digit_value(digit_char(n % 10)) == Some(n % 10));
        assert(digits_upto(s, 0, s.len() as int) == digits_upto(s, 0, s.len() - 1) * 10 + n % 10);
    }
}

/// Whether a header comes back from the wire as it went: its name has no
/// colon and no line feed and is read as the same header, its value has no
/// line feed and no white space at its ends, and its line is not too long.
pub open spec fn wire_safe(name: HeaderName, value: Seq<char>) -> bool {
    &&& forall|i: int| 0 <= i < name.name().len() ==> name.name()[i] != ':' && name.name()[i] != '\n'
    &&& forall|i: int| 0 <= i < value.len() ==> value[i] != '\n'
    &&& value.len() == 0 || (!is_whitespace(value.first()) && !is_whitespace(value.last()))
    &&& HeaderName::from_name(lowercase(trim(name.name()))) == name
    &&& header_line(name.name(), value).len() <= MAX_HEADER_SIZE
}

/// The bytes of the colon and the space, and of the end of a line.
pub proof fn lemma_separators()
    ensures
        encode_utf8(": "@) == seq![58u8, 32u8],
        encode_utf8("\r\n"@) == seq![13u8, 10u8],
        encode_utf8(seq![' ']) == seq![32u8],
{
    reveal_strlit(": ");
    reveal_strlit("\r\n");
    assert(vstd::utf8::is_ascii_chars(": "@));
    assert(vstd::utf8::is_ascii_chars("\r\n"@));
    assert(vstd::utf8::is_ascii_chars(seq![' ']));
    vstd::utf8::is_ascii_chars_encode_utf8(": "@);
    vstd::utf8::is_ascii_chars_encode_utf8("\r\n"@);
    vstd::utf8::is_ascii_chars_encode_utf8(seq![' ']);
    assert(encode_utf8(": "@) =~= seq![58u8, 32u8]);
    assert(encode_utf8("\r\n"@) =~= seq![13u8, 10u8]);
    assert(encode_utf8(seq![' ']) =~= seq![32u8]);
}

/// A line that stands at `at` in some bytes, and that has its only line
/// feed at its end, is the line that the parser cuts out there.
pub proof fn lemma_line_in_context(data: Seq<u8>, at: int, line: Seq<u8>)
    requires
        0 <= at,
        at + line.len() <= data.len(),
        data.subrange(at, at + line.len()) == line,
        line.len() > 0,
        line.last() == 10u8,
        forall|k: int| 0 <= k < line.len() - 1 ==> line[k] != 10u8,
    ensures
        line_end(data, at) == at + line.len(),
{
    assert forall|k: int| at <= k < at + line.len() - 1 implies data[k] != 10u8 by {
        assert(data[k] == line[k - at]);
    }
    assert(data[at + line.len() - 1] == line[line.len() - 1]);
    lemma_find_from_is(data, 10u8, at, at + line.len() - 1);
}

/// A text without white space at its ends comes back when it is trimmed
/// with a space before it and the end of a line behind it.
pub proof fn lemma_trim_padded(value: Seq<char>)
    requires
        value.len() == 0 || (!is_whitespace(value.first()) && !is_whitespace(value.last())),
    ensures
        trim(seq![' '] + value + seq!['\r', '\n']) == value,
{
    let p = seq![' '] + value + seq!['\r', '\n'];
    let n = p.len() as int;
    assert(p[0] == ' ');
    assert(p[n - 1] == '\n');
    assert(p[n - 2] == '\r');
    if value.len() == 0 {
        assert(n == 3);
        assert(skip_whitespace(p, 3) == 3);
        assert(skip_whitespace(p, 2) == 3);
        assert(skip_whitespace(p, 1) == 3);
        assert(skip_whitespace(p, 0) == 3);
        assert(p.subrange(3, 3) =~= value);
    } else {
        assert(p[1] == value[0]);
        assert(p[n - 3] == value[value.len() - 1]);
        assert(skip_whitespace(p, 1) == 1);
        assert(skip_whitespace(p, 0) == 1);
        assert(skip_back_whitespace(p, 1, n - 2) == n - 2);
        assert(skip_back_whitespace(p, 1, n - 1) == n - 2);
        assert(skip_back_whitespace(p, 1, n) == n - 2);
        assert(p.subrange(1, n - 2) =~= value);
    }
}

/// The line that the encoder writes for a header that is safe for the wire
/// has its only line feed at its end, and the parser reads it as that
/// header, put into the headers that were read before.
pub proof fn lemma_line_round_trip(
    name: HeaderName,
    value: Seq<char>,
    headers: Seq<(HeaderName, Seq<char>)>,
)
    requires
        wire_safe(name, value),
    ensures
        header_line(name.name(), value).len() >= 4,
        header_line(name.name(), value).last() == 10u8,
        forall|k: int|
            0 <= k < header_line(name.name(), value).len() - 1 ==> header_line(name.name(), value)[k]
                != 10u8,
        crate::parser::alpha::header_line(header_line(name.name(), value), headers) == Ok::<
            Seq<(HeaderName, Seq<char>)>,
            crate::parser::HttpParserError,
        >(listing_insert(headers, name, value)),
{
    lemma_separators();
    let n = encode_utf8(name.name());
    let v = encode_utf8(value);
    let line = header_line(name.name(), value);
    assert(line == n + seq![58u8, 32u8] + v + seq![13u8, 10u8]);
    assert(line.len() == n.len() + v.len() + 4);
    lemma_absent_char_absent_byte(name.name(), ':');
    lemma_absent_char_absent_byte(name.name(), '\n');
    lemma_absent_char_absent_byte(value, '\n');
    assert forall|k: int| 0 <= k < line.len() - 1 implies line[k] != 10u8 by {
        if k < n.len() {
            assert(line[k] == n[k]);
        } else if k < n.len() + 2 {
        } else if k < n.len() + 2 + v.len() {
            assert(line[k] == v[k - n.len() - 2]);
        }
    }
    assert forall|k: int| 0 <= k < n.len() implies line[k] != 58u8 by {
        assert(line[k] == n[k]);
    }
    assert(line[n.len() as int] == 58u8);
    lemma_find_from_is(line, 58u8, 0, n.len() as int);
    let colon = n.len() as int;
    assert(line.subrange(0, colon) =~= n);
    let padded = seq![' '] + value + seq!['\r', '\n'];
    reveal_strlit("\r\n");
    assert("\r\n"@ =~= seq!['\r', '\n']);
    lemma_encode_concat(seq![' '], value);
    lemma_encode_concat(seq![' '] + value, seq!['\r', '\n']);
    assert(line.subrange(colon + 1, line.len() as int) =~= encode_utf8(padded));
    vstd::utf8::encode_utf8_valid_utf8(name.name());
    vstd::utf8::encode_utf8_valid_utf8(padded);
    vstd::utf8::encode_utf8_decode_utf8(name.name());
    vstd::utf8::encode_utf8_decode_utf8(padded);
    lemma_trim_padded(value);
}

/// The lines of the first `m` headers stand at the start of the lines of
/// the first `n`.
pub proof fn lemma_lines_prefix(headers: Seq<(HeaderName, Seq<char>)>, m: int, n: int)
    requires
        0 <= m <= n <= headers.len(),
    ensures
        header_lines(headers, m).len() <= header_lines(headers, n).len(),
        header_lines(headers, n).subrange(0, header_lines(headers, m).len() as int) == header_lines(
            headers,
            m,
        ),
    decreases n - m,
{
    if m < n {
        lemma_lines_prefix(headers, m, n - 1);
        let shorter = header_lines(headers, n - 1);
        let longer = header_lines(headers, n);
        assert(longer == shorter + header_line(headers[n - 1].0.name(), headers[n - 1].1));
        assert(longer.subrange(0, header_lines(headers, m).len() as int) =~= shorter.subrange(
            0,
            header_lines(headers, m).len() as int,
        ));
    } else {
        assert(header_lines(headers, n).subrange(0, header_lines(headers, n).len() as int)
            =~= header_lines(headers, n));
    }
}

/// Whether every header comes back from the wire as it went.
pub open spec fn all_wire_safe(headers: Seq<(HeaderName, Seq<char>)>) -> bool {
    forall|i: int| 0 <= i < headers.len() ==> wire_safe((#[trigger] headers[i]).0, headers[i].1)
}

/// Where the lines of all headers stand at `start` in some bytes, with an
/// empty line behind them, the parser reads the headers back from the line
/// of the header at `i` on, and finds the end of the head behind the empty
/// line.
pub proof fn lemma_lines_read_back(
    bytes: Seq<u8>,
    start: int,
    headers: Seq<(HeaderName, Seq<char>)>,
    i: int,
)
    requires
        distinct_keys(headers),
        all_wire_safe(headers),
        0 <= i <= headers.len(),
        0 <= start,
        start + header_lines(headers, headers.len() as int).len() + 2 <= bytes.len(),
        bytes.subrange(start, start + header_lines(headers, headers.len() as int).len())
            == header_lines(headers, headers.len() as int),
        bytes[start + header_lines(headers, headers.len() as int).len()] == 13u8,
        bytes[start + header_lines(headers, headers.len() as int).len() + 1] == 10u8,
    ensures
        crate::parser::alpha::header_lines(
            bytes,
            start + header_lines(headers, i).len(),
            headers.take(i),
        ) == Ok::<Seq<(HeaderName, Seq<char>)>, crate::parser::HttpParserError>(headers),
        head_end(bytes, start + header_lines(headers, i).len()) == start + header_lines(
            headers,
            headers.len() as int,
        ).len() + 2,
    decreases headers.len() - i,
{
    let n = headers.len() as int;
    let all = header_lines(headers, n);
    let at = start + header_lines(headers, i).len();
    lemma_lines_prefix(headers, i, n);
    if i == n {
        assert(headers.take(n) =~= headers);
        assert(bytes[at] != 10u8);
        lemma_find_from_is(bytes, 10u8, at, at + 1);
        assert(line_end(bytes, at) == at + 2);
    } else {
        let name = headers[i].0;
        let value = headers[i].1;
        let line = header_line(name.name(), value);
        lemma_lines_prefix(headers, i + 1, n);
        assert(header_lines(headers, i + 1) == header_lines(headers, i) + line);
        assert(wire_safe(name, value));
        lemma_line_round_trip(name, value, headers.take(i));
        assert(bytes.subrange(at, at + line.len()) =~= line) by {
            assert forall|k: int| 0 <= k < line.len() implies bytes[at + k] == line[k] by {
                assert(bytes[at + k] == bytes.subrange(start, start + all.len())[at - start + k]);
                assert(all[at - start + k] == all.subrange(
                    0,
                    header_lines(headers, i + 1).len() as int,
                )[at - start + k]);
            }
        }
        lemma_line_in_context(bytes, at, line);
        assert(key_index(headers.take(i), name, 0) == i) by {
            assert forall|j: int| 0 <= j < i implies (#[trigger] headers.take(i)[j]).0 != name by {
                assert(headers[j].0 != headers[i].0);
            }
            lemma_key_index_is(headers.take(i), name, 0, i);
        }
        assert(listing_insert(headers.take(i), name, value) =~= headers.take(i + 1));
        lemma_lines_read_back(bytes, start, headers, i + 1);
    }
}

/// The status line has its only line feed at its end.
pub proof fn lemma_status_line(code: nat)
    ensures
        status_line(code).len() > 0,
        status_line(code).last() == 10u8,
        forall|k: int| 0 <= k < status_line(code).len() - 1 ==> status_line(code)[k] != 10u8,
{
    lemma_separators();
    lemma_decimal_is_digits(code);
    reveal_strlit("HTTP/1.1 ");
    let a = encode_utf8("HTTP/1.1 "@);
    let d = encode_utf8(decimal(code));
    assert(forall|i: int| 0 <= i < "HTTP/1.1 "@.len() ==> "HTTP/1.1 "@[i] != '\n');
    lemma_absent_char_absent_byte("HTTP/1.1 "@, '\n');
    lemma_absent_char_absent_byte(decimal(code), '\n');
    let line = status_line(code);
    assert(line == a + d + seq![13u8, 10u8]);
    assert forall|k: int| 0 <= k < line.len() - 1 implies line[k] != 10u8 by {
        if k < a.len() {
            assert(line[k] == a[k]);
        } else if k < a.len() + d.len() {
            assert(line[k] == d[k - a.len()]);
        }
    }
}

/// Round trip: what the encoder writes, the parser reads. In the bytes of a
/// response whose headers are all safe for the wire and set once, the first
/// line is the status line, the header lines behind it are read as the
/// headers of the response, in their order, and what stands behind the head
/// is the body.
pub proof fn lemma_round_trip(response: ResponseView)
    requires
        distinct_keys(response.headers),
        all_wire_safe(response.headers),
    ensures
        ({
            let bytes = encoded(response);
            let first = line_end(bytes, 0);
            &&& bytes.subrange(0, first) == status_line(response.status.spec_code() as nat)
            &&& crate::parser::alpha::header_lines(bytes, first, Seq::empty()) == Ok::<
                Seq<(HeaderName, Seq<char>)>,
                crate::parser::HttpParserError,
            >(response.headers)
            &&& bytes.subrange(head_end(bytes, first), bytes.len() as int) == response.body
        }),
{
    lemma_separators();
    let code = response.status.spec_code() as nat;
    let status = status_line(code);
    let headers = response.headers;
    let lines = header_lines(headers, headers.len() as int);
    let bytes = encoded(response);
    assert(bytes == status + lines + seq![13u8, 10u8] + response.body);
    lemma_status_line(code);
    assert(bytes.subrange(0, status.len() as int) =~= status);
    lemma_line_in_context(bytes, 0, status);
    let first = status.len() as int;
    assert(bytes.subrange(first, first + lines.len()) =~= lines);
    assert(bytes[first + lines.len()] == 13u8);
    assert(bytes[first + lines.len() + 1] == 10u8);
    lemma_lines_read_back(bytes, first, headers, 0);
    assert(headers.take(0) =~= Seq::<(HeaderName, Seq<char>)>::empty());
    assert(header_lines(headers, 0).len() == 0);
    assert(bytes.subrange(first + lines.len() + 2, bytes.len() as int) =~= response.body);
}

} // verus!
