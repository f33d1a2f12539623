//! Reading characters and lines from the bytes a source yields: UTF-8
//! characters one at a time, and lines ended by a line feed.

use vstd::prelude::*;
use vstd::utf8::*;
use crate::bytes::{occurs_at, lemma_occurs_at_concat};

verus! {

/// Why a character could not be read.
#[derive(Debug, Clone, Copy, PartialEq, Eq, Structural)]
pub enum Error {
    /// A byte that cannot start a character, or a continuation byte that is
    /// not one.
    InvalidByte(u8),
    /// The source ended inside a character.
    InputTruncated,
}

/// The number of bytes of a character its leading byte announces, 0 where
/// it is no leading byte.
pub open spec fn char_width(a: u8) -> int {
    if a & 0b1000_0000 == 0 {
        1
    } else if a & 0b1110_0000 == 0b1100_0000 {
        2
    } else if a & 0b1111_0000 == 0b1110_0000 {
        3
    } else if a & 0b1111_1000 == 0b1111_0000 {
        4
    } else {
        0
    }
}

/// The first of the continuation bytes at positions `k` to `w` (excluded)
/// that is missing or is not one.
pub open spec fn bad_continuation(b: Seq<u8>, k: int, w: int) -> Option<Error>
    decreases w - k,
{
    if k >= w {
        None
    } else if k >= b.len() {
        Some(Error::InputTruncated)
    } else if b[k] & 0b1100_0000 != 0b1000_0000 {
        Some(Error::InvalidByte(b[k]))
    } else {
        bad_continuation(b, k + 1, w)
    }
}

/// The value of the character of width `w` at the start of `b`.
pub open spec fn char_value(b: Seq<u8>, w: int) -> u32 {
    if w == 1 {
        b[0] as u32
    } else if w == 2 {
        codepoint_width_2(b[0], b[1])
    } else if w == 3 {
        codepoint_width_3(b[0], b[1], b[2])
    } else {
        codepoint_width_4(b[0], b[1], b[2], b[3])
    }
}

/// Reading one character from a source that yields the bytes `b`: none
/// where it yields nothing, else the value of the character (overlong
/// forms are taken as they are) and the number of bytes it took.
pub open spec fn spec_read_char(b: Seq<u8>) -> Result<Option<(u32, int)>, Error> {
    if b.len() == 0 {
        Ok(None)
    } else {
        let w = char_width(b[0]);
        if w == 0 {
            Err(Error::InvalidByte(b[0]))
        } else {
            match bad_continuation(b, 1, w) {
                Some(e) => Err(e),
                None => Ok(Some((char_value(b, w), w))),
            }
        }
    }
}

/// Whether reading a character stops on a value that is no character (a
/// surrogate, or past `0x10FFFF`).
pub open spec fn read_char_panics(b: Seq<u8>) -> bool {
    spec_read_char(b) matches Ok(Some((v, _))) && !is_scalar(v)
}

/// `char::from_u32`: the character whose scalar value is `v`, and none where
/// `v` is a surrogate or past `0x10FFFF`, as its documentation says.
#[verifier::external_body]
fn char_from_u32(v: u32) -> (r: Option<char>)
    ensures
        is_scalar(v) <==> r is Some,
        r matches Some(c) ==> c as u32 == v,
{
    char::from_u32(v)
}

/// `String::push`: the string with `c` appended, as its documentation says.
#[verifier::external_body]
pub(crate) fn push_char(s: &mut String, c: char)
    ensures
        final(s)@ == old(s)@.push(c),
{
    s.push(c)
}

/// The six value bits of the continuation byte at position `k`.
fn continuation(b: &[u8], k: usize) -> (r: Result<u32, Error>)
    ensures
        k >= b@.len() ==> r == Err::<u32, Error>(Error::InputTruncated),
        k < b@.len() ==> (b@[k as int] & 0b1100_0000 != 0b1000_0000 <==> r is Err),
        k < b@.len() ==> (r matches Err(e) ==> e == Error::InvalidByte(b@[k as int])),
        k < b@.len() ==> (r matches Ok(v) ==> v == continuation_bits(b@[k as int])),
{
    if k >= b.len() {
        return Err(Error::InputTruncated);
    }
    let byte = b[k];
    if byte & 0b1100_0000 == 0b1000_0000 {
        Ok((byte & 0b0011_1111) as u32)
    } else {
        Err(Error::InvalidByte(byte))
    }
}

/// Reads one character from the bytes a source yields, as
/// `spec_read_char` says: the character and the number of bytes it took.
pub fn read_char(b: &[u8]) -> (r: Result<Option<(char, usize)>, Error>)
    requires
        !read_char_panics(b@),
    ensures
        match spec_read_char(b@) {
            Ok(None) => r == Ok::<Option<(char, usize)>, Error>(None),
            Ok(Some((v, w))) => r matches Ok(Some((c, n))) && c as u32 == v && n == w,
            Err(e) => r == Err::<Option<(char, usize)>, Error>(e),
        },
{
    if b.len() == 0 {
        return Ok(None);
    }
    let a8 = b[0];
    let ghost bs = b@;
    proof {
        reveal_with_fuel(bad_continuation, 4);
    }
    let (v, w): (u32, usize) = if a8 & 0b1000_0000 == 0 {
        (a8 as u32, 1)
    } else if a8 & 0b1110_0000 == 0b1100_0000 {
        let x = match continuation(b, 1) {
            Ok(x) => x,
            Err(e) => {
                return Err(e);
            },
        };
        (((a8 & 0b0001_1111) as u32) << 6 | x, 2)
    } else if a8 & 0b1111_0000 == 0b1110_0000 {
        let x = match continuation(b, 1) {
            Ok(x) => x,
            Err(e) => {
                return Err(e);
            },
        };
        let y = match continuation(b, 2) {
            Ok(y) => y,
            Err(e) => {
                return Err(e);
            },
        };
        (((a8 & 0b0000_1111) as u32) << 12 | x << 6 | y, 3)
    } else if a8 & 0b1111_1000 == 0b1111_0000 {
        let x = match continuation(b, 1) {
            Ok(x) => x,
            Err(e) => {
                return Err(e);
            },
        };
        let y = match continuation(b, 2) {
            Ok(y) => y,
            Err(e) => {
                return Err(e);
            },
        };
        let z = match continuation(b, 3) {
            Ok(z) => z,
            Err(e) => {
                return Err(e);
            },
        };
        (((a8 & 0b0000_0111) as u32) << 18 | x << 12 | y << 6 | z, 4)
    } else {
        return Err(Error::InvalidByte(a8));
    };
    proof {
        reveal_with_fuel(bad_continuation, 4);
        assert(spec_read_char(bs) == Ok::<Option<(u32, int)>, Error>(Some((v, w as int))));
    }
    match char_from_u32(v) {
        Some(c) => Ok(Some((c, w))),
        None => Ok(None),
    }
}

/// Reading a line from position `p` on, the characters read so far being
/// `acc`: carriage returns are dropped, a line feed ends the line (and is
/// taken), and so does the end of the bytes. The line and the position
/// after it.
pub open spec fn spec_read_line_utf8(b: Seq<u8>, p: int, acc: Seq<char>) -> Result<
    (Seq<char>, int),
    Error,
>
    decreases b.len() - p,
{
    if p < 0 || p > b.len() {
        Ok((acc, p))
    } else {
        match spec_read_char(b.subrange(p, b.len() as int)) {
            Ok(None) => Ok((acc, p)),
            Ok(Some((v, w))) => {
                if w <= 0 || p + w > b.len() {
                    Ok((acc, p))
                } else if v == 13 {
                    spec_read_line_utf8(b, p + w, acc)
                } else if v == 10 {
                    Ok((acc, p + w))
                } else {
                    spec_read_line_utf8(b, p + w, acc.push(v as char))
                }
            },
            Err(e) => Err(e),
        }
    }
}

/// Whether reading a line from position `p` on meets a value that is no
/// character.
pub open spec fn line_utf8_panics(b: Seq<u8>, p: int) -> bool
    decreases b.len() - p,
{
    if p < 0 || p > b.len() {
        false
    } else {
        let rest = b.subrange(p, b.len() as int);
        read_char_panics(rest) || match spec_read_char(rest) {
            Ok(Some((v, w))) => {
                if w <= 0 || p + w > b.len() || v == 10 {
                    false
                } else {
                    line_utf8_panics(b, p + w)
                }
            },
            _ => false,
        }
    }
}

/// The width of a character read is at most what is left of the bytes.
proof fn lemma_read_char_width(b: Seq<u8>)
    ensures
        spec_read_char(b) matches Ok(Some((v, w))) ==> 1 <= w <= 4 && w <= b.len(),
{
    reveal_with_fuel(bad_continuation, 4);
}

/// Reads a line of UTF-8 characters from the bytes a source yields, as
/// `spec_read_line_utf8` says: the line and the number of bytes taken.
pub fn read_line_utf8(b: &[u8]) -> (r: Result<(String, usize), Error>)
    requires
        !line_utf8_panics(b@, 0),
    ensures
        match spec_read_line_utf8(b@, 0, Seq::empty()) {
            Ok((s, n)) => r matches Ok((l, m)) && l@ == s && m == n,
            Err(e) => r == Err::<(String, usize), Error>(e),
        },
{
    let mut l = String::new();
    let mut p: usize = 0;
    loop
        invariant_except_break
            p <= b@.len(),
            spec_read_line_utf8(b@, 0, Seq::empty()) == spec_read_line_utf8(b@, p as int, l@),
            !line_utf8_panics(b@, p as int),
        ensures
            spec_read_line_utf8(b@, 0, Seq::empty()) == Ok::<(Seq<char>, int), Error>(
                (l@, p as int),
            ),
        decreases b@.len() - p,
    {
        let rest = &b[p..b.len()];
        proof {
            assert(rest@ =~= b@.subrange(p as int, b@.len() as int));
            lemma_read_char_width(rest@);
        }
        match read_char(rest) {
            Ok(Some((c, w))) => {
                let v = c as u32;
                if v == 13 {
                    p += w;
                } else if v == 10 {
                    p += w;
                    break;
                } else {
                    push_char(&mut l, c);
                    p += w;
                    proof {
                        vstd::utf8::char_u32_cast(c, v);
                    }
                }
            },
            Ok(None) => {
                break;
            },
            Err(e) => {
                return Err(e);
            },
        }
    }
    Ok((l, p))
}

/// Reading a line of single-byte characters from position `p` on: each
/// byte is the character of that value; carriage returns are dropped, a
/// line feed ends the line (and is taken), and so does the end of the
/// bytes.
pub open spec fn spec_read_line(b: Seq<u8>, p: int, acc: Seq<char>) -> (Seq<char>, int)
    decreases b.len() - p,
{
    if p < 0 || p >= b.len() {
        (acc, p)
    } else if b[p] == 13 {
        spec_read_line(b, p + 1, acc)
    } else if b[p] == 10 {
        (acc, p + 1)
    } else {
        spec_read_line(b, p + 1, acc.push(b[p] as char))
    }
}

/// Reads a line of single-byte characters from the bytes a source yields,
/// as `spec_read_line` says: the line and the number of bytes taken.
pub fn read_line(b: &[u8]) -> (r: (String, usize))
    ensures
        (r.0@, r.1 as int) == spec_read_line(b@, 0, Seq::empty()),
{
    let mut l = String::new();
    let mut p: usize = 0;
    while p < b.len()
        invariant_except_break
            p <= b@.len(),
            spec_read_line(b@, 0, Seq::empty()) == spec_read_line(b@, p as int, l@),
        ensures
            spec_read_line(b@, 0, Seq::empty()) == (l@, p as int),
        decreases b@.len() - p,
    {
        let x = b[p];
        if x == 13 {
            p += 1;
        } else if x == 10 {
            p += 1;
            break;
        } else {
            push_char(&mut l, x as char);
            p += 1;
        }
    }
    (l, p)
}

/// The byte classes of the reader are those of UTF-8.
proof fn lemma_byte_classes(b: u8)
    by (bit_vector)
    ensures
        (b & 0x80 == 0) <==> (0x00 <= b <= 0x7f),
        (b & 0x80 != 0 && b & 0xe0 == 0xc0) <==> (0xc0 <= b <= 0xdf),
        (b & 0x80 != 0 && b & 0xe0 != 0xc0 && b & 0xf0 == 0xe0) <==> (0xe0 <= b <= 0xef),
        (b & 0x80 != 0 && b & 0xe0 != 0xc0 && b & 0xf0 != 0xe0 && b & 0xf8 == 0xf0) <==> (0xf0 <= b
            <= 0xf7),
        (b & 0xc0 == 0x80) <==> (0x80 <= b <= 0xbf),
        b <= 0x7f ==> b & 0x7f == b,
{
}

/// A character in UTF-8, whatever follows it, reads back as that
/// character, taking its bytes.
pub proof fn lemma_read_char_encoded(c: char, rest: Seq<u8>)
    ensures
        spec_read_char(encode_scalar(c as u32) + rest) == Ok::<Option<(u32, int)>, Error>(
            Some((c as u32, encode_scalar(c as u32).len() as int)),
        ),
        !read_char_panics(encode_scalar(c as u32) + rest),
{
    let e = encode_scalar(c as u32);
    let b = e + rest;
    encode_utf8_first_scalar(seq![c]);
    assert(seq![c].drop_first() =~= Seq::<char>::empty());
    assert(encode_utf8(Seq::<char>::empty()) =~= Seq::<u8>::empty());
    assert(seq![c][0] == c);
    assert(encode_utf8(seq![c]) =~= e + encode_utf8(Seq::<char>::empty()));
    assert(encode_utf8(seq![c]) =~= e);
    char_is_scalar(c);
    assert forall|i: int| 0 <= i < e.len() implies b[i] == e[i] by {}
    lemma_byte_classes(e[0]);
    if e.len() > 1 {
        lemma_byte_classes(e[1]);
    }
    if e.len() > 2 {
        lemma_byte_classes(e[2]);
    }
    if e.len() > 3 {
        lemma_byte_classes(e[3]);
    }
    reveal_with_fuel(bad_continuation, 4);
    let w = e.len() as int;
    assert(valid_first_scalar(e));
    assert(decode_first_codepoint(e) == c as u32);
    assert(length_of_first_codepoint(e) == w);
    assert(char_width(b[0]) == w);
    assert(bad_continuation(b, 1, w) is None);
    assert(char_value(b, w) == decode_first_codepoint(e));
}

/// The characters of `s` from position `p` on, each in UTF-8, then a line
/// feed, read back as a line.
proof fn lemma_read_line_at(b: Seq<u8>, p: int, s: Seq<char>, acc: Seq<char>)
    requires
        occurs_at(b, p, encode_utf8(s) + seq![10u8]),
        forall|i: int| 0 <= i < s.len() ==> s[i] != '\r' && s[i] != '\n',
    ensures
        spec_read_line_utf8(b, p, acc) == Ok::<(Seq<char>, int), Error>(
            (acc + s, p + encode_utf8(s).len() + 1),
        ),
        !line_utf8_panics(b, p),
    decreases s.len(),
{
    let tail = b.subrange(p, b.len() as int);
    if s.len() == 0 {
        assert(encode_utf8(s) =~= Seq::<u8>::empty());
        assert(tail[0] == 10);
        lemma_byte_classes(10u8);
        assert(acc + s =~= acc);
    } else {
        let c = s[0];
        let e = encode_scalar(c as u32);
        let s2 = s.drop_first();
        assert(encode_utf8(s) == e + encode_utf8(s2));
        assert(encode_utf8(s) + seq![10u8] =~= e + (encode_utf8(s2) + seq![10u8]));
        lemma_occurs_at_concat(b, p, e, encode_utf8(s2) + seq![10u8]);
        let after = tail.subrange(e.len() as int, tail.len() as int);
        assert(tail =~= e + after);
        lemma_read_char_encoded(c, after);
        assert forall|i: int| 0 <= i < s2.len() implies s2[i] != '\r' && s2[i] != '\n' by {
            assert(s2[i] == s[i + 1]);
        }
        lemma_read_line_at(b, p + e.len(), s2, acc.push(c));
        assert(c != '\r' && c != '\n');
        char_is_scalar(c);
        if (c as u32) == 13 {
            vstd::utf8::char_u32_cast(c, 13);
            vstd::utf8::char_u32_cast('\r', 13);
        }
        if (c as u32) == 10 {
            vstd::utf8::char_u32_cast(c, 10);
            vstd::utf8::char_u32_cast('\n', 10);
        }
        vstd::utf8::char_u32_cast(c, c as u32);
        assert(acc.push(c) + s2 =~= acc + s);
    }
}

/// A line in UTF-8 (no carriage return or line feed among its characters)
/// followed by a line feed, whatever comes after, reads back as that line,
/// taking the line feed too.
pub proof fn lemma_read_line_utf8_encoded(s: Seq<char>, rest: Seq<u8>)
    requires
        forall|i: int| 0 <= i < s.len() ==> s[i] != '\r' && s[i] != '\n',
    ensures
        spec_read_line_utf8(encode_utf8(s) + seq![10u8] + rest, 0, Seq::empty()) == Ok::<
            (Seq<char>, int),
            Error,
        >((s, encode_utf8(s).len() + 1int)),
        !line_utf8_panics(encode_utf8(s) + seq![10u8] + rest, 0),
{
    let b = encode_utf8(s) + seq![10u8] + rest;
    assert(b.subrange(0, encode_utf8(s).len() + 1int) =~= encode_utf8(s) + seq![10u8]);
    lemma_read_line_at(b, 0, s, Seq::empty());
    assert(Seq::<char>::empty() + s =~= s);
}

} // verus!
