//! Device values of the switcher: colours written as hexadecimal.

use vstd::prelude::*;
use vstd::string::StringSliceAdditionalSpecFns;
use vstd::utf8::*;
use crate::text::push_char;

verus! {

/// Why hexadecimal digits could not be read.
#[derive(Debug, Clone, Copy, PartialEq, Eq, Structural)]
pub enum HexError {
    InvalidDigit,
    /// Fewer bytes than a colour needs.
    TooShort,
}

/// The value of a hexadecimal digit byte (either case).
pub open spec fn hex_digit_value(b: u8) -> Option<u8> {
    if 48 <= b <= 57 {
        Some((b - 48) as u8)
    } else if 97 <= b <= 102 {
        Some((b - 87) as u8)
    } else if 65 <= b <= 70 {
        Some((b - 55) as u8)
    } else {
        None
    }
}

/// Two bytes read as a number in base 16, as `u8::from_str_radix` reads
/// them: two digits, or a plus sign and one digit.
pub open spec fn hex_pair(x: u8, y: u8) -> Option<u8> {
    if x == 43 {
        hex_digit_value(y)
    } else {
        match (hex_digit_value(x), hex_digit_value(y)) {
            (Some(a), Some(b)) => Some((a * 16 + b) as u8),
            _ => None,
        }
    }
}

/// The bytes that pairs of bytes from position `i` on read as, or `None`
/// where a pair does not read.
pub open spec fn decode_hex_from(b: Seq<u8>, i: int) -> Option<Seq<u8>>
    decreases b.len() - i,
{
    if i < 0 || i + 1 >= b.len() {
        Some(Seq::empty())
    } else {
        match hex_pair(b[i], b[i + 1]) {
            None => None,
            Some(v) => match decode_hex_from(b, i + 2) {
                Some(r) => Some(seq![v] + r),
                None => None,
            },
        }
    }
}

/// Whether `decode_hex` can cut the string into pairs of bytes: an even
/// number of bytes, each pair made of whole characters.
pub open spec fn hex_cuttable(s: Seq<char>) -> bool {
    let b = encode_utf8(s);
    &&& b.len() % 2 == 0
    &&& forall|k: int| 0 <= k <= b.len() && k % 2 == 0 ==> is_char_boundary(b, k)
}

fn hex_digit(b: u8) -> (r: Option<u8>)
    ensures
        r == hex_digit_value(b),
{
    if 48 <= b && b <= 57 {
        Some(b - 48)
    } else if 97 <= b && b <= 102 {
        Some(b - 87)
    } else if 65 <= b && b <= 70 {
        Some(b - 55)
    } else {
        None
    }
}

/// Reads a string of hexadecimal pairs, as `decode_hex_from` says.
pub fn decode_hex(s: &str) -> (r: Result<Vec<u8>, HexError>)
    requires
        hex_cuttable(s@),
    ensures
        match decode_hex_from(s.spec_bytes(), 0) {
            Some(v) => r matches Ok(x) && x@ == v,
            None => r == Err::<Vec<u8>, HexError>(HexError::InvalidDigit),
        },
{
    let b = s.as_bytes();
    let mut out: Vec<u8> = Vec::new();
    let mut i: usize = 0;
    while i + 1 < b.len()
        invariant
            b@ == s.spec_bytes(),
            i <= b@.len(),
            i % 2 == 0,
            b@.len() % 2 == 0,
            decode_hex_from(b@, 0) == match decode_hex_from(b@, i as int) {
                Some(r) => Some(out@ + r),
                None => None,
            },
        decreases b@.len() - i,
    {
        let v = if b[i] == 43 {
            hex_digit(b[i + 1])
        } else {
            match (hex_digit(b[i]), hex_digit(b[i + 1])) {
                (Some(x), Some(y)) => Some(x * 16 + y),
                _ => None,
            }
        };
        match v {
            None => {
                return Err(HexError::InvalidDigit);
            },
            Some(v) => {
                proof {
                    assert(out@.push(v) + decode_hex_from(b@, i + 2).unwrap() =~= out@ + (seq![v]
                        + decode_hex_from(b@, i + 2).unwrap()));
                }
                out.push(v);
            },
        }
        i += 2;
    }
    proof {
        assert(out@ + Seq::<u8>::empty() =~= out@);
    }
    Ok(out)
}

/// A colour with a white channel.
#[derive(Debug, Clone, Copy, PartialEq, Eq, Structural)]
pub struct RGBW {
    pub r: u8,
    pub g: u8,
    pub b: u8,
    pub w: u8,
}

/// The lower-case hexadecimal digit of a value below 16.
pub open spec fn hex_char(d: u8) -> char {
    if d < 10 {
        ((48 + d) as u8) as char
    } else {
        ((87 + d) as u8) as char
    }
}

/// A byte as two lower-case hexadecimal digits.
pub open spec fn hex2(x: u8) -> Seq<char> {
    seq![hex_char(x / 16), hex_char(x % 16)]
}

fn push_hex2(s: &mut String, x: u8)
    ensures
        final(s)@ == old(s)@ + hex2(x),
{
    let hi = x / 16;
    let lo = x % 16;
    let c1 = if hi < 10 {
        (48 + hi) as char
    } else {
        (87 + hi) as char
    };
    let c2 = if lo < 10 {
        (48 + lo) as char
    } else {
        (87 + lo) as char
    };
    let ghost s0 = s@;
    push_char(s, c1);
    push_char(s, c2);
    proof {
        assert(s@ =~= s0 + hex2(x));
    }
}

impl RGBW {
    /// The colour as eight lower-case hexadecimal digits: red, green, blue,
    /// white.
    pub fn to_string(&self) -> (r: String)
        ensures
            r@ == hex2(self.r) + hex2(self.g) + hex2(self.b) + hex2(self.w),
    {
        let mut s = String::new();
        push_hex2(&mut s, self.r);
        push_hex2(&mut s, self.g);
        push_hex2(&mut s, self.b);
        push_hex2(&mut s, self.w);
        s
    }

    /// Reads a colour from hexadecimal pairs: its first four bytes are red,
    /// green, blue and white.
    pub fn from_str(input: &str) -> (r: Result<RGBW, HexError>)
        requires
            hex_cuttable(input@),
            decode_hex_from(input.spec_bytes(), 0) matches Some(v) ==> v.len() >= 4,
        ensures
            match decode_hex_from(input.spec_bytes(), 0) {
                Some(v) => r == Ok::<RGBW, HexError>(RGBW { r: v[0], g: v[1], b: v[2], w: v[3] }),
                None => r == Err::<RGBW, HexError>(HexError::InvalidDigit),
            },
    {
        let v = match decode_hex(input) {
            Ok(v) => v,
            Err(e) => {
                return Err(e);
            },
        };
        Ok(RGBW { r: v[0], g: v[1], b: v[2], w: v[3] })
    }
}

/// Whether all characters of a string are ASCII.
pub open spec fn all_ascii(s: Seq<char>) -> bool {
    forall|i: int| 0 <= i < s.len() ==> (s[i] as u32) < 0x80
}

proof fn lemma_low7(x: u32)
    by (bit_vector)
    requires
        x < 0x80,
    ensures
        x & 0x7f == x,
{
}

/// An ASCII string is its own UTF-8 encoding, and every position of it is
/// a character boundary.
proof fn lemma_ascii_encoding(s: Seq<char>)
    requires
        all_ascii(s),
    ensures
        encode_utf8(s) == Seq::new(s.len(), |i: int| (s[i] as u32) as u8),
        forall|k: int| 0 <= k <= s.len() ==> is_char_boundary(encode_utf8(s), k),
    decreases s.len(),
{
    broadcast use encode_utf8_valid_utf8;

    let b = encode_utf8(s);
    if s.len() == 0 {
        assert(b =~= Seq::new(s.len(), |i: int| (s[i] as u32) as u8));
    } else {
        let t = s.drop_first();
        assert forall|i: int| 0 <= i < t.len() implies (t[i] as u32) < 0x80 by {
            assert(t[i] == s[i + 1]);
        }
        lemma_ascii_encoding(t);
        let c = s[0] as u32;
        lemma_low7(c);
        assert(encode_scalar(c) == seq![c as u8]);
        assert(b == seq![c as u8] + encode_utf8(t));
        assert forall|i: int| 0 <= i < s.len() implies b[i] == (s[i] as u32) as u8 by {
            if i > 0 {
                assert(b[i] == encode_utf8(t)[i - 1]);
                assert(t[i - 1] == s[i]);
            }
        }
        assert(b =~= Seq::new(s.len(), |i: int| (s[i] as u32) as u8));
        assert(length_of_first_scalar(b) == 1);
        assert(pop_first_scalar(b) =~= encode_utf8(t));
        assert forall|k: int| 0 <= k <= s.len() implies is_char_boundary(b, k) by {
            if k > 0 {
                assert(is_char_boundary(encode_utf8(t), k - 1));
            }
        }
    }
}

/// A hexadecimal digit written reads back as its value.
proof fn lemma_hex_char(d: u8)
    requires
        d < 16,
    ensures
        (hex_char(d) as u32) < 0x80,
        ((hex_char(d) as u32) as u8) != 43,
        hex_digit_value((hex_char(d) as u32) as u8) == Some(d),
{
}

/// A byte written as two hexadecimal digits reads back.
proof fn lemma_hex2(x: u8)
    ensures
        all_ascii(hex2(x)),
        hex_pair((hex2(x)[0] as u32) as u8, (hex2(x)[1] as u32) as u8) == Some(x),
{
    lemma_hex_char(x / 16);
    lemma_hex_char(x % 16);
}

/// The colour round trip: `RGBW::to_string` writes a string that
/// `decode_hex` reads as the four channels and `RGBW::from_str` reads as
/// the same colour (and both can be handed that string).
pub proof fn lemma_rgbw_roundtrip(c: RGBW)
    ensures
        ({
            let s = hex2(c.r) + hex2(c.g) + hex2(c.b) + hex2(c.w);
            &&& hex_cuttable(s)
            &&& decode_hex_from(encode_utf8(s), 0) == Some(seq![c.r, c.g, c.b, c.w])
        }),
{
    let s = hex2(c.r) + hex2(c.g) + hex2(c.b) + hex2(c.w);
    lemma_hex2(c.r);
    lemma_hex2(c.g);
    lemma_hex2(c.b);
    lemma_hex2(c.w);
    assert(all_ascii(s)) by {
        assert forall|i: int| 0 <= i < s.len() implies (s[i] as u32) < 0x80 by {
            if i < 2 {
                assert(s[i] == hex2(c.r)[i]);
            } else if i < 4 {
                assert(s[i] == hex2(c.g)[i - 2]);
            } else if i < 6 {
                assert(s[i] == hex2(c.b)[i - 4]);
            } else {
                assert(s[i] == hex2(c.w)[i - 6]);
            }
        }
    }
    lemma_ascii_encoding(s);
    let b = encode_utf8(s);
    assert(b.len() == 8);
    assert(b[0] == (hex2(c.r)[0] as u32) as u8 && b[1] == (hex2(c.r)[1] as u32) as u8);
    assert(b[2] == (hex2(c.g)[0] as u32) as u8 && b[3] == (hex2(c.g)[1] as u32) as u8);
    assert(b[4] == (hex2(c.b)[0] as u32) as u8 && b[5] == (hex2(c.b)[1] as u32) as u8);
    assert(b[6] == (hex2(c.w)[0] as u32) as u8 && b[7] == (hex2(c.w)[1] as u32) as u8);
    assert(decode_hex_from(b, 8) == Some(Seq::<u8>::empty()));
    assert(decode_hex_from(b, 6) =~= Some(seq![c.w]));
    assert(decode_hex_from(b, 4) =~= Some(seq![c.b, c.w]));
    assert(decode_hex_from(b, 2) =~= Some(seq![c.g, c.b, c.w]));
    assert(decode_hex_from(b, 0) =~= Some(seq![c.r, c.g, c.b, c.w]));
}

/// Bytes as hexadecimal: two lower-case digits for each, in order.
pub open spec fn hex_of(v: Seq<u8>) -> Seq<char>
    decreases v.len(),
{
    if v.len() == 0 {
        Seq::empty()
    } else {
        hex_of(v.drop_last()) + hex2(v.last())
    }
}

/// The characters of `hex_of`: two for each byte, all ASCII.
proof fn lemma_hex_of_chars(v: Seq<u8>)
    ensures
        hex_of(v).len() == 2 * v.len(),
        all_ascii(hex_of(v)),
        forall|i: int|
            0 <= i < v.len() ==> hex_pair(
                (#[trigger] hex_of(v)[2 * i] as u32) as u8,
                (hex_of(v)[2 * i + 1] as u32) as u8,
            ) == Some(v[i]),
    decreases v.len(),
{
    if v.len() > 0 {
        let d = v.drop_last();
        lemma_hex_of_chars(d);
        lemma_hex2(v.last());
        let s = hex_of(v);
        assert(s == hex_of(d) + hex2(v.last()));
        assert forall|k: int| 0 <= k < s.len() implies (s[k] as u32) < 0x80 by {
            if k < hex_of(d).len() {
                assert(s[k] == hex_of(d)[k]);
            } else {
                assert(s[k] == hex2(v.last())[k - hex_of(d).len()]);
            }
        }
        assert forall|i: int| 0 <= i < v.len() implies hex_pair(
            (#[trigger] s[2 * i] as u32) as u8,
            (s[2 * i + 1] as u32) as u8,
        ) == Some(v[i]) by {
            if i < d.len() {
                assert(s[2 * i] == hex_of(d)[2 * i]);
                assert(s[2 * i + 1] == hex_of(d)[2 * i + 1]);
                assert(v[i] == d[i]);
            } else {
                assert(s[2 * i] == hex2(v.last())[0]);
                assert(s[2 * i + 1] == hex2(v.last())[1]);
            }
        }
    }
}

/// The pairs from the `i`-th on read as the bytes from the `i`-th on.
proof fn lemma_decode_hex_of_from(v: Seq<u8>, b: Seq<u8>, i: int)
    requires
        0 <= i <= v.len(),
        b.len() == 2 * v.len(),
        forall|j: int| 0 <= j < v.len() ==> hex_pair(#[trigger] b[2 * j], b[2 * j + 1]) == Some(v[j]),
    ensures
        decode_hex_from(b, 2 * i) == Some(v.skip(i)),
    decreases v.len() - i,
{
    if i < v.len() {
        lemma_decode_hex_of_from(v, b, i + 1);
        assert(hex_pair(b[2 * i], b[2 * i + 1]) == Some(v[i]));
        assert(seq![v[i]] + v.skip(i + 1) =~= v.skip(i));
    } else {
        assert(v.skip(i) =~= Seq::<u8>::empty());
    }
}

/// The hexadecimal round trip: bytes written as two hexadecimal digits
/// each, `decode_hex` can be handed and reads back as the same bytes.
pub proof fn lemma_decode_hex_of(v: Seq<u8>)
    ensures
        hex_cuttable(hex_of(v)),
        decode_hex_from(encode_utf8(hex_of(v)), 0) == Some(v),
{
    let s = hex_of(v);
    lemma_hex_of_chars(v);
    lemma_ascii_encoding(s);
    let b = encode_utf8(s);
    assert(b.len() == 2 * v.len());
    assert forall|j: int| 0 <= j < v.len() implies hex_pair(#[trigger] b[2 * j], b[2 * j + 1])
        == Some(v[j]) by {
        assert(b[2 * j] == (s[2 * j] as u32) as u8);
        assert(b[2 * j + 1] == (s[2 * j + 1] as u32) as u8);
    }
    lemma_decode_hex_of_from(v, b, 0);
    assert(v.skip(0) =~= v);
    assert(b.len() % 2 == 0);
}

/// The bytes that a string of hexadecimal digit pairs stands for: each
/// pair read as its high digit times 16 plus its low digit, either case.
pub open spec fn hex_pairs_value(b: Seq<u8>) -> Seq<u8> {
    Seq::new(
        b.len() / 2,
        |j: int|
            (hex_digit_value(b[2 * j]).unwrap() * 16 + hex_digit_value(b[2 * j + 1]).unwrap()) as u8,
    )
}

/// Every string of an even number of hexadecimal digits, upper case, lower
/// case or mixed, can be handed to `decode_hex` and reads as the bytes its
/// pairs stand for.
pub proof fn lemma_decode_hex_digits(s: Seq<char>)
    requires
        s.len() % 2 == 0,
        forall|k: int|
            0 <= k < s.len() ==> (#[trigger] s[k] as u32) < 0x80 && hex_digit_value(
                (s[k] as u32) as u8,
            ) is Some,
    ensures
        hex_cuttable(s),
        decode_hex_from(encode_utf8(s), 0) == Some(hex_pairs_value(encode_utf8(s))),
{
    assert(all_ascii(s)) by {
        assert forall|i: int| 0 <= i < s.len() implies (s[i] as u32) < 0x80 by {
            assert((s[i] as u32) < 0x80);
        }
    }
    lemma_ascii_encoding(s);
    let b = encode_utf8(s);
    let v = hex_pairs_value(b);
    assert(b.len() == s.len());
    assert forall|j: int| 0 <= j < v.len() implies hex_pair(#[trigger] b[2 * j], b[2 * j + 1])
        == Some(v[j]) by {
        assert(b[2 * j] == (s[2 * j] as u32) as u8);
        assert(b[2 * j + 1] == (s[2 * j + 1] as u32) as u8);
        assert(hex_digit_value(b[2 * j]) is Some);
        assert(hex_digit_value(b[2 * j + 1]) is Some);
    }
    lemma_decode_hex_of_from(v, b, 0);
    assert(v.skip(0) =~= v);
}

/// What `String::from_utf8_lossy` makes of some bytes, a function of the
/// bytes alone (the contract names it).
pub uninterp spec fn utf8_lossy(b: Seq<u8>) -> Seq<char>;

/// `String::from_utf8_lossy`: the text of the bytes, each invalid sequence
/// replaced by U+FFFD; as its documentation says, valid UTF-8 is decoded
/// with nothing replaced.
#[verifier::external_body]
pub fn from_utf8_lossy(b: &[u8]) -> (r: String)
    ensures
        r@ == utf8_lossy(b@),
        valid_utf8(b@) ==> r@ == decode_utf8(b@),
{
    String::from_utf8_lossy(b).into_owned()
}

/// Whether `decode_hex` can be handed the string, as `hex_cuttable` says.
pub fn is_hex_cuttable(s: &str) -> (r: bool)
    ensures
        r == hex_cuttable(s@),
{
    let n = s.as_bytes().len();
    proof {
        assert(s.spec_bytes() == encode_utf8(s@));
    }
    if n % 2 != 0 {
        return false;
    }
    let mut k: usize = 0;
    while k < n
        invariant
            n == encode_utf8(s@).len(),
            n % 2 == 0,
            k % 2 == 0,
            k <= n,
            forall|j: int| 0 <= j < k && j <= n && j % 2 == 0 ==> is_char_boundary(encode_utf8(s@), j),
        decreases n - k,
    {
        if !s.is_char_boundary(k) {
            return false;
        }
        k = k + 2;
    }
    proof {
        encode_utf8_valid_utf8(s@);
        is_char_boundary_start_end_of_seq(encode_utf8(s@));
    }
    true
}

} // verus!
