//! HTTP/1.1 messages: header sets, numbers in header values, status lines,
//! and the headers of a connection's response.

use vstd::prelude::*;
use vstd::string::{StrSliceExecFns, StringExecFns, StringSliceAdditionalSpecFns};
use vstd::utf8::*;
use crate::text::push_char;

verus! {

/// The characters of a string.
pub fn chars_of(s: &str) -> (r: Vec<char>)
    ensures
        r@ == s@,
{
    let n = s.unicode_len();
    let mut v: Vec<char> = Vec::new();
    let mut i: usize = 0;
    while i < n
        invariant
            i <= n,
            n == s@.len(),
            v@ == s@.take(i as int),
        decreases n - i,
    {
        v.push(s.get_char(i));
        i += 1;
        proof {
            assert(v@ =~= s@.take(i as int));
        }
    }
    proof {
        assert(s@.take(n as int) =~= s@);
    }
    v
}

/// The string of some characters.
pub fn string_of(cs: &[char]) -> (r: String)
    ensures
        r@ == cs@,
{
    let mut r = String::new();
    let mut i: usize = 0;
    while i < cs.len()
        invariant
            i <= cs@.len(),
            r@ == cs@.take(i as int),
        decreases cs@.len() - i,
    {
        push_char(&mut r, cs[i]);
        i += 1;
        proof {
            assert(r@ =~= cs@.take(i as int));
        }
    }
    proof {
        assert(cs@.take(cs@.len() as int) =~= cs@);
    }
    r
}

/// An ASCII capital letter as a small letter; any other character as it is.
pub open spec fn ascii_lower(c: char) -> char {
    if 'A' <= c <= 'Z' {
        ((c as u32) + 32) as char
    } else {
        c
    }
}

/// A string with its ASCII capital letters made small.
pub open spec fn lower(s: Seq<char>) -> Seq<char> {
    s.map_values(|c: char| ascii_lower(c))
}

/// `str::to_ascii_lowercase`, as `lower` says.
pub fn to_ascii_lowercase(s: &str) -> (r: String)
    ensures
        r@ == lower(s@),
{
    let cs = chars_of(s);
    let mut r = String::new();
    let mut i: usize = 0;
    while i < cs.len()
        invariant
            i <= cs@.len(),
            cs@ == s@,
            r@ == lower(s@.take(i as int)),
        decreases cs@.len() - i,
    {
        let c = cs[i];
        let v = c as u32;
        let d = if 65 <= v && v <= 90 {
            ((v + 32) as u8) as char
        } else {
            c
        };
        proof {
            assert(d == ascii_lower(c));
        }
        push_char(&mut r, d);
        i += 1;
        proof {
            assert(r@ =~= lower(s@.take(i as int)));
        }
    }
    proof {
        assert(s@.take(cs@.len() as int) =~= s@);
    }
    r
}

/// Whether a character is a decimal digit.
pub open spec fn is_digit(c: char) -> bool {
    '0' <= c <= '9'
}

/// The value of a string of decimal digits.
pub open spec fn digits_value(s: Seq<char>) -> nat
    decreases s.len(),
{
    if s.len() == 0 {
        0
    } else {
        digits_value(s.drop_last()) * 10 + ((s.last() as int - 48) as nat)
    }
}

/// A string without its leading plus sign, where it has one.
pub open spec fn without_plus(s: Seq<char>) -> Seq<char> {
    if s.len() > 0 && s[0] == '+' {
        s.drop_first()
    } else {
        s
    }
}

/// The value of at least one decimal digit, where it is at most `max`.
pub open spec fn spec_parse_digits(d: Seq<char>, max: nat) -> Option<nat> {
    if d.len() > 0 && (forall|i: int| 0 <= i < d.len() ==> is_digit(#[trigger] d[i]))
        && digits_value(d) <= max {
        Some(digits_value(d))
    } else {
        None
    }
}

/// What `str::parse` gives for an unsigned integer type whose largest
/// value is `max`: an optional plus sign then at least one decimal digit,
/// of value at most `max`.
pub open spec fn spec_parse_unsigned(s: Seq<char>, max: nat) -> Option<nat> {
    spec_parse_digits(without_plus(s), max)
}

/// The value of a prefix of digits is at most that of the whole.
proof fn lemma_digits_prefix(s: Seq<char>, k: int)
    requires
        0 <= k <= s.len(),
        forall|i: int| 0 <= i < s.len() ==> is_digit(#[trigger] s[i]),
    ensures
        digits_value(s.take(k)) <= digits_value(s),
    decreases s.len() - k,
{
    if k < s.len() {
        lemma_digits_prefix(s, k + 1);
        assert(s.take(k + 1).drop_last() =~= s.take(k));
        assert(is_digit(s[k]));
    } else {
        assert(s.take(k) =~= s);
    }
}

/// Parses an unsigned decimal number no larger than `max`, as
/// `spec_parse_unsigned` says.
pub fn parse_unsigned(s: &str, max: u64) -> (r: Option<u64>)
    ensures
        match spec_parse_unsigned(s@, max as nat) {
            Some(v) => r == Some(v as u64),
            None => r is None,
        },
{
    let cs = chars_of(s);
    let start: usize = if cs.len() > 0 && cs[0] == '+' {
        1
    } else {
        0
    };
    let ghost d = without_plus(s@);
    proof {
        assert(d =~= cs@.skip(start as int));
    }
    if cs.len() == start {
        return None;
    }
    let mut v: u64 = 0;
    let mut i: usize = start;
    while i < cs.len()
        invariant
            start <= i <= cs@.len(),
            cs@ == s@,
            d == cs@.skip(start as int),
            d == without_plus(s@),
            forall|j: int| 0 <= j < i - start ==> is_digit(#[trigger] d[j]),
            v == digits_value(d.take(i - start)),
            v <= max,
        decreases cs@.len() - i,
    {
        let c = cs[i];
        if !('0' <= c && c <= '9') {
            proof {
                assert(d[i - start] == c);
                assert(!is_digit(d[i - start]));
            }
            return None;
        }
        let x = (c as u32 - 48) as u64;
        proof {
            assert(d.take(i - start + 1).drop_last() =~= d.take(i - start));
            assert(d[i - start] == c);
        }
        if x > max || v > (max - x) / 10 {
            proof {
                assert(v * 10 + x > max) by (nonlinear_arith)
                    requires
                        x > max || v > (max - x) / 10,
                        x < 10,
                        v >= 0,
                ;
                assert(digits_value(d.take(i - start + 1)) > max);
                if forall|j: int| 0 <= j < d.len() ==> is_digit(#[trigger] d[j]) {
                    lemma_digits_prefix(d, i - start + 1);
                }
            }
            return None;
        }
        proof {
            assert(v * 10 + x <= max) by (nonlinear_arith)
                requires
                    v <= (max - x) / 10,
                    x <= max,
            ;
        }
        v = v * 10 + x;
        i += 1;
    }
    proof {
        assert(d.take(d.len() as int) =~= d);
    }
    Some(v)
}

/// The content of a header set: per lower-cased name, the headers given
/// under it (their names as given, and their values), in order.
pub type HeaderEntries = Seq<(Seq<char>, Seq<(Seq<char>, Seq<char>)>)>;

/// The position of the entry of lower-cased name `k`, or -1.
pub open spec fn find_entry(es: HeaderEntries, k: Seq<char>) -> int
    decreases es.len(),
{
    if es.len() == 0 {
        -1
    } else if es.last().0 == k {
        es.len() - 1
    } else {
        find_entry(es.drop_last(), k)
    }
}

/// The headers of an HTTP message, grouped by lower-cased name, and the
/// content length they announce.
#[derive(Debug)]
pub struct HttpHeaders {
    pub headers: Vec<(String, Vec<(String, String)>)>,
    content_length: usize,
}

impl View for HttpHeaders {
    type V = (HeaderEntries, usize);

    closed spec fn view(&self) -> (HeaderEntries, usize) {
        (
            self.headers@.map_values(
                |e: (String, Vec<(String, String)>)|
                    (e.0@, e.1@.map_values(|h: (String, String)| (h.0@, h.1@))),
            ),
            self.content_length,
        )
    }
}

/// The entries after a header `key: val` is added: to the entry of its
/// lower-cased name, or to a new entry.
pub open spec fn add_header(es: HeaderEntries, key: Seq<char>, val: Seq<char>) -> HeaderEntries {
    let k = lower(key);
    let i = find_entry(es, k);
    if i >= 0 {
        es.update(i, (k, es[i].1.push((key, val))))
    } else {
        es.push((k, seq![(key, val)]))
    }
}

/// The content length after a header `key: val` is added: the value, read
/// as a number (0 where it is none), where the name is `content-length` in
/// any case.
pub open spec fn content_length_after(cl: usize, key: Seq<char>, val: Seq<char>) -> usize {
    if lower(key) == "content-length"@ {
        match spec_parse_unsigned(val, usize::MAX as nat) {
            Some(v) => v as usize,
            None => 0,
        }
    } else {
        cl
    }
}

/// The value of the first header given under the name `key`, in any case.
pub open spec fn first_header(es: HeaderEntries, key: Seq<char>) -> Option<Seq<char>> {
    let i = find_entry(es, lower(key));
    if i >= 0 && es[i].1.len() > 0 {
        Some(es[i].1[0].1)
    } else {
        None
    }
}

/// Where an entry's name is found, it is there.
proof fn lemma_find_entry(es: HeaderEntries, k: Seq<char>)
    ensures
        -1 <= find_entry(es, k) < es.len(),
        find_entry(es, k) >= 0 ==> es[find_entry(es, k)].0 == k,
        find_entry(es, k) < 0 ==> forall|j: int| 0 <= j < es.len() ==> es[j].0 != k,
    decreases es.len(),
{
    if es.len() > 0 {
        lemma_find_entry(es.drop_last(), k);
        if es.last().0 != k {
            assert forall|j: int| 0 <= j < es.len() - 1 implies es[j] == es.drop_last()[j] by {}
        }
    }
}

/// Each lower-cased name has one entry at most.
pub open spec fn headers_wf(es: HeaderEntries) -> bool {
    forall|i: int, j: int| 0 <= i < j < es.len() ==> #[trigger] es[i].0 != #[trigger] es[j].0
}

/// Adding a header keeps each name in one entry: a name already there gets
/// the header in its entry, a new name gets a new entry.
pub proof fn lemma_add_header_keeps_wf(es: HeaderEntries, key: Seq<char>, val: Seq<char>)
    requires
        headers_wf(es),
    ensures
        headers_wf(add_header(es, key, val)),
        find_entry(es, lower(key)) >= 0 ==> add_header(es, key, val).len() == es.len(),
        find_entry(es, lower(key)) < 0 ==> add_header(es, key, val).len() == es.len() + 1,
{
    let k = lower(key);
    lemma_find_entry(es, k);
    let r = add_header(es, key, val);
    assert forall|i: int, j: int| 0 <= i < j < r.len() implies #[trigger] r[i].0 != #[trigger] r[j].0 by {
        if j < es.len() {
            assert(r[i].0 == es[i].0 && r[j].0 == es[j].0);
        } else {
            assert(r[i].0 == es[i].0);
        }
    }
}

impl HttpHeaders {
    pub fn new() -> (r: Self)
        ensures
            r@ == (Seq::<(Seq<char>, Seq<(Seq<char>, Seq<char>)>)>::empty(), 0usize),
    {
        let r = HttpHeaders { headers: Vec::new(), content_length: 0 };
        proof {
            assert(r@.0 =~= Seq::<(Seq<char>, Seq<(Seq<char>, Seq<char>)>)>::empty());
        }
        r
    }

    /// Adds the header `key: val`.
    pub fn header(&mut self, key: &str, val: &str)
        ensures
            final(self)@.0 == add_header(old(self)@.0, key@, val@),
            final(self)@.1 == content_length_after(old(self)@.1, key@, val@),
    {
        self.header_str(key, String::from_str(val));
    }

    /// Adds the header `key: val`; a `content-length` header (in any case)
    /// also sets the content length.
    pub fn header_str(&mut self, key: &str, val: String)
        ensures
            final(self)@.0 == add_header(old(self)@.0, key@, val@),
            final(self)@.1 == content_length_after(old(self)@.1, key@, val@),
    {
        let k = to_ascii_lowercase(key);
        let cl = String::from_str("content-length");
        proof {
            reveal_strlit("content-length");
        }
        if k == cl {
            self.content_length = match parse_unsigned(val.as_str(), usize::MAX as u64) {
                Some(l) => l as usize,
                None => 0,
            };
        }
        let ghost es = self@.0;
        let n = self.headers.len();
        let mut j: usize = n;
        let mut found: Option<usize> = None;
        proof {
            assert(es.take(n as int) =~= es);
        }
        while j > 0
            invariant_except_break
                j <= n,
                n == self.headers@.len(),
                self@.0 == es,
                find_entry(es, k@) == find_entry(es.take(j as int), k@),
                found is None,
            ensures
                self@.0 == es,
                n == self.headers@.len(),
                match found {
                    Some(x) => x == find_entry(es, k@) && x < n,
                    None => find_entry(es, k@) == -1,
                },
            decreases j,
        {
            proof {
                assert(es.take(j as int).drop_last() =~= es.take(j - 1));
                assert(es[j - 1].0 == self.headers@[j - 1].0@);
            }
            if self.headers[j - 1].0 == k {
                found = Some(j - 1);
                break;
            }
            j -= 1;
        }
        let ghost key_v = key@;
        let ghost val_v = val@;
        match found {
            Some(x) => {
                let ghost h0 = self.headers@;
                let (ek, mut ev) = self.headers.remove(x);
                let ghost ev0 = ev@;
                let kk = String::from_str(key);
                ev.push((kk, val));
                let ghost ev1 = ev@;
                let ghost ekv = ek@;
                self.headers.insert(x, (ek, ev));
                proof {
                    lemma_find_entry(es, k@);
                    assert(h0[x as int].1@ == ev0);
                    assert(ekv == k@);
                    assert(self.headers@[x as int].1@ == ev1);
                    assert(ev1.len() == ev0.len() + 1);
                    assert(ev1[ev0.len() as int].0@ == key_v && ev1[ev0.len() as int].1@ == val_v);
                    assert(forall|m: int| 0 <= m < ev0.len() ==> ev1[m] == ev0[m]);
                    assert(ev1.map_values(|h: (String, String)| (h.0@, h.1@)) =~= ev0.map_values(
                        |h: (String, String)| (h.0@, h.1@),
                    ).push((key_v, val_v)));
                    assert forall|m: int| 0 <= m < n && m != x implies self.headers@[m] == h0[m] by {}
                    assert(self@.0 =~= add_header(es, key_v, val_v));
                }
            },
            None => {
                let mut ev: Vec<(String, String)> = Vec::new();
                let kk = String::from_str(key);
                ev.push((kk, val));
                proof {
                    assert(ev@.map_values(|h: (String, String)| (h.0@, h.1@)) =~= seq![
                        (key_v, val_v),
                    ]);
                }
                let ghost h0 = self.headers@;
                self.headers.push((k, ev));
                proof {
                    assert(self.headers@ == h0.push(self.headers@.last()));
                    assert(self@.0 =~= add_header(es, key_v, val_v));
                }
            },
        }
    }
}

impl HttpHeaders {
    /// The value of the first header given under the name `key`, in any
    /// case.
    pub fn get_header(&self, key: &str) -> (r: Option<&str>)
        ensures
            match first_header(self@.0, key@) {
                Some(v) => r matches Some(x) && x@ == v,
                None => r is None,
            },
    {
        let k = to_ascii_lowercase(key);
        let ghost es = self@.0;
        let n = self.headers.len();
        let mut j: usize = n;
        proof {
            assert(es.take(n as int) =~= es);
            lemma_find_entry(es, k@);
        }
        while j > 0
            invariant
                j <= n,
                n == self.headers@.len(),
                self@.0 == es,
                k@ == lower(key@),
                find_entry(es, k@) == find_entry(es.take(j as int), k@),
            decreases j,
        {
            proof {
                assert(es.take(j as int).drop_last() =~= es.take(j - 1));
                assert(es[j - 1].0 == self.headers@[j - 1].0@);
            }
            if self.headers[j - 1].0 == k {
                let vs = &self.headers[j - 1].1;
                proof {
                    assert(es.take(j as int).last() == es[j - 1]);
                    assert(find_entry(es, k@) == j - 1);
                    assert(es[j - 1].1 == vs@.map_values(|h: (String, String)| (h.0@, h.1@)));
                    if vs@.len() > 0 {
                        assert(es[j - 1].1[0].1 == vs@[0].1@);
                    }
                }
                if vs.len() > 0 {
                    return Some(vs[0].1.as_str());
                } else {
                    return None;
                }
            }
            j -= 1;
        }
        None
    }

    /// The content length the headers announce.
    pub fn get_content_length(&self) -> (r: usize)
        ensures
            r == self@.1,
    {
        self.content_length
    }
}

/// A string split at each occurrence of `c`: always at least one part.
pub open spec fn split_on(s: Seq<char>, c: char) -> Seq<Seq<char>>
    decreases s.len(),
{
    if s.len() == 0 {
        seq![Seq::empty()]
    } else {
        let r = split_on(s.drop_last(), c);
        if s.last() == c {
            r.push(Seq::empty())
        } else {
            r.update(r.len() - 1, r.last().push(s.last()))
        }
    }
}

pub proof fn lemma_split_on_len(s: Seq<char>, c: char)
    ensures
        split_on(s, c).len() >= 1,
    decreases s.len(),
{
    if s.len() > 0 {
        lemma_split_on_len(s.drop_last(), c);
    }
}

/// The parts of a string split at each occurrence of `c`, as `split_on`
/// says.
pub fn split_chars(cs: &[char], c: char) -> (r: Vec<String>)
    ensures
        r@.map_values(|x: String| x@) == split_on(cs@, c),
{
    let mut done: Vec<String> = Vec::new();
    let mut cur: Vec<char> = Vec::new();
    let mut i: usize = 0;
    while i < cs.len()
        invariant
            i <= cs@.len(),
            done@.map_values(|x: String| x@).push(cur@) == split_on(cs@.take(i as int), c),
        decreases cs@.len() - i,
    {
        let ghost d0 = done@.map_values(|x: String| x@);
        let ghost c0 = cur@;
        proof {
            lemma_split_on_len(cs@.take(i as int), c);
            assert(cs@.take(i + 1).drop_last() =~= cs@.take(i as int));
        }
        if cs[i] == c {
            let part = string_of(cur.as_slice());
            done.push(part);
            cur = Vec::new();
            proof {
                assert(done@.map_values(|x: String| x@) =~= d0.push(c0));
                assert(done@.map_values(|x: String| x@).push(cur@) =~= split_on(
                    cs@.take(i + 1),
                    c,
                ));
            }
        } else {
            cur.push(cs[i]);
            proof {
                assert(done@.map_values(|x: String| x@).push(cur@) =~= split_on(
                    cs@.take(i + 1),
                    c,
                ));
            }
        }
        i += 1;
    }
    let last = string_of(cur.as_slice());
    let ghost d0 = done@.map_values(|x: String| x@);
    done.push(last);
    proof {
        assert(cs@.take(cs@.len() as int) =~= cs@);
        assert(done@.map_values(|x: String| x@) =~= d0.push(cur@));
    }
    done
}

/// The first line of an HTTP response: the version, the status code and
/// the reason, with the headers read after it.
#[derive(Debug)]
pub struct HttpResp {
    pub http_version: String,
    pub status_code: u16,
    pub reason: String,
    pub headers: HttpHeaders,
}

/// Whether a status line is taken as one: it has at least three parts
/// (split at spaces), and the UTF-8 bytes of the first one start with
/// `HTTP/`.
pub open spec fn status_line_ok(l: Seq<char>) -> bool {
    let v = split_on(l, ' ');
    &&& v.len() >= 3
    &&& encode_utf8(v[0]).len() >= 5
    &&& encode_utf8(v[0]).subrange(0, 5) == seq![72u8, 84u8, 84u8, 80u8, 47u8]
}

/// Whether comparing the first five bytes of the first part would cut a
/// character in two.
pub open spec fn status_line_panics(l: Seq<char>) -> bool {
    let v = split_on(l, ' ');
    &&& v.len() >= 3
    &&& encode_utf8(v[0]).len() >= 5
    &&& !is_char_boundary(encode_utf8(v[0]), 5)
}

/// The status code of a status line: its second part read as a number, or
/// 0 where it is none.
pub open spec fn status_code_of(l: Seq<char>) -> u16 {
    match spec_parse_unsigned(split_on(l, ' ')[1], 65535) {
        Some(c) => c as u16,
        None => 0,
    }
}

/// The position of the first `c` in `s`, or -1.
pub open spec fn first_index(s: Seq<char>, c: char) -> int
    decreases s.len(),
{
    if s.len() == 0 {
        -1
    } else if s[0] == c {
        0
    } else {
        let r = first_index(s.drop_first(), c);
        if r < 0 {
            -1
        } else {
            r + 1
        }
    }
}

/// What follows the first `c` in `s` (nothing where there is none).
pub open spec fn after_first(s: Seq<char>, c: char) -> Seq<char> {
    let i = first_index(s, c);
    if i < 0 {
        Seq::empty()
    } else {
        s.skip(i + 1)
    }
}

/// The reason phrase of a status line: the rest of the line after the
/// version and the code.
pub open spec fn reason_of(l: Seq<char>) -> Seq<char> {
    after_first(after_first(l, ' '), ' ')
}

/// Where no `c` comes before `i`, the first `c` is at `i` if there is one
/// there, and there is none if `i` is the end.
proof fn lemma_first_index(s: Seq<char>, c: char, i: int)
    requires
        0 <= i <= s.len(),
        forall|j: int| 0 <= j < i ==> s[j] != c,
    ensures
        i < s.len() && s[i] == c ==> first_index(s, c) == i,
        i == s.len() ==> first_index(s, c) == -1,
    decreases i,
{
    if i > 0 {
        let t = s.drop_first();
        assert forall|j: int| 0 <= j < i - 1 implies t[j] != c by {
            assert(t[j] == s[j + 1]);
        }
        lemma_first_index(t, c, i - 1);
    }
}

/// What follows the first `c`, as `after_first` says.
pub fn after_char(cs: &[char], c: char) -> (r: Vec<char>)
    ensures
        r@ == after_first(cs@, c),
{
    let mut i: usize = 0;
    while i < cs.len() && cs[i] != c
        invariant
            i <= cs@.len(),
            forall|j: int| 0 <= j < i ==> cs@[j] != c,
        decreases cs@.len() - i,
    {
        i += 1;
    }
    proof {
        lemma_first_index(cs@, c, i as int);
    }
    let mut r: Vec<char> = Vec::new();
    if i < cs.len() {
        let mut k: usize = i + 1;
        while k < cs.len()
            invariant
                i < k <= cs@.len(),
                r@ == cs@.subrange(i + 1, k as int),
            decreases cs@.len() - k,
        {
            r.push(cs[k]);
            k += 1;
            proof {
                assert(r@ =~= cs@.subrange(i + 1, k as int));
            }
        }
        proof {
            assert(r@ =~= cs@.skip(i + 1));
        }
    } else {
        proof {
            assert(r@ =~= Seq::<char>::empty());
        }
    }
    r
}

impl HttpResp {
    /// Reads the status line of a response, as `status_line_ok` says; any
    /// other line is refused with a message that quotes it.
    pub fn from_status_line(l: &str) -> (r: Result<Self, String>)
        requires
            !status_line_panics(l@),
        ensures
            status_line_ok(l@) ==> (r matches Ok(resp) && resp.http_version@ == split_on(l@, ' ')[0]
                && resp.status_code == status_code_of(l@) && resp.reason@ == reason_of(l@)
                && resp.headers@.0.len() == 0 && resp.headers@.1 == 0),
            !status_line_ok(l@) ==> (r matches Err(m) && m@ == "Bad http response: "@ + l@),
    {
        let cs = chars_of(l);
        let v = split_chars(cs.as_slice(), ' ');
        let ghost sv = split_on(l@, ' ');
        proof {
            assert(v@.len() == sv.len());
        }
        let bad = v.len() < 3 || {
            let b0 = v[0].as_str().as_bytes();
            proof {
                assert(v@[0]@ == sv[0]);
            }
            b0.len() < 5 || !(b0[0] == 72 && b0[1] == 84 && b0[2] == 84 && b0[3] == 80 && b0[4]
                == 47)
        };
        if bad {
            let m = String::from_str("Bad http response: ").concat(l);
            proof {
                if sv.len() >= 3 {
                    let b = encode_utf8(sv[0]);
                    if b.len() >= 5 {
                        assert(!(b.subrange(0, 5) =~= seq![72u8, 84u8, 84u8, 80u8, 47u8]) || !(
                        b[0] == 72 && b[1] == 84 && b[2] == 84 && b[3] == 80 && b[4] == 47));
                    }
                }
            }
            return Err(m);
        }
        proof {
            assert(v@[1]@ == sv[1]);
            assert(v@[2]@ == sv[2]);
            let b = encode_utf8(sv[0]);
            assert(b.subrange(0, 5) =~= seq![72u8, 84u8, 84u8, 80u8, 47u8]);
        }
        let code = match parse_unsigned(v[1].as_str(), 65535) {
            Some(c) => c as u16,
            None => 0,
        };
        Ok(
            HttpResp {
                http_version: String::from_str(v[0].as_str()),
                status_code: code,
                reason: {
                    let first = after_char(cs.as_slice(), ' ');
                    let rest = after_char(first.as_slice(), ' ');
                    string_of(rest.as_slice())
                },
                headers: HttpHeaders::new(),
            },
        )
    }
}

/// The decimal digits of a number, most significant first.
pub open spec fn decimal(n: nat) -> Seq<char>
    decreases n,
{
    if n < 10 {
        seq![((n + 48) as u32) as char]
    } else {
        decimal(n / 10).push((((n % 10) + 48) as u32) as char)
    }
}

/// A number in decimal, as `decimal` says.
pub fn usize_to_decimal(n: usize) -> (r: String)
    ensures
        r@ == decimal(n as nat),
{
    let mut digits: Vec<char> = Vec::new();
    let mut m = n;
    // the digits of `n` below those of `m`, least significant first
    while m >= 10
        invariant
            decimal(n as nat) == decimal(m as nat) + digits@.reverse(),
        decreases m,
    {
        let d = ((m % 10) as u8 + 48) as char;
        proof {
            assert(digits@.push(d).reverse() =~= seq![d] + digits@.reverse());
            assert(decimal(m as nat) == decimal((m / 10) as nat).push(d));
        }
        digits.push(d);
        m = m / 10;
    }
    let first = (m as u8 + 48) as char;
    let mut r = String::new();
    push_char(&mut r, first);
    let mut i: usize = digits.len();
    while i > 0
        invariant
            i <= digits@.len(),
            r@ == seq![first] + digits@.reverse().take(digits@.len() - i),
        decreases i,
    {
        i -= 1;
        push_char(&mut r, digits[i]);
        proof {
            assert(digits@.reverse().take(digits@.len() - i) =~= digits@.reverse().take(
                digits@.len() - i - 1,
            ).push(digits@[i as int]));
        }
    }
    proof {
        assert(digits@.reverse().take(digits@.len() as int) =~= digits@.reverse());
        assert(decimal(m as nat) =~= seq![first]);
    }
    r
}

/// An HTTP connection as the server sees it: the request's headers, the
/// response's headers, the request line, and whether the response's
/// headers are out already.
#[derive(Debug)]
pub struct HttpConnection {
    pub req: HttpHeaders,
    pub resp: HttpHeaders,
    pub method: String,
    pub path: String,
    pub protocol: String,
    pub headers_sent: bool,
    pub auto_content_length: bool,
}

impl HttpConnection {
    /// The connection a request line opens: at least three parts (split at
    /// spaces) give the method, the path and the protocol; the response
    /// closes the connection. Any other line is refused and handed back.
    pub fn from_request_line(l: &str) -> (r: Result<Self, String>)
        ensures
            split_on(l@, ' ').len() >= 3 ==> (r matches Ok(c) && c.method@ == split_on(l@, ' ')[0]
                && c.path@ == split_on(l@, ' ')[1] && c.protocol@ == split_on(l@, ' ')[2]
                && c.req@.0.len() == 0 && c.req@.1 == 0 && c.resp@.0 == add_header(
                Seq::empty(),
                "Connection"@,
                "close"@,
            ) && c.resp@.1 == 0 && !c.headers_sent && c.auto_content_length),
            split_on(l@, ' ').len() < 3 ==> (r matches Err(m) && m@ == l@),
    {
        let cs = chars_of(l);
        let v = split_chars(cs.as_slice(), ' ');
        if v.len() < 3 {
            return Err(String::from_str(l));
        }
        let mut resp = HttpHeaders::new();
        resp.header("Connection", "close");
        proof {
            reveal_strlit("content-length");
            reveal_strlit("Connection");
            assert(lower("Connection"@) != "content-length"@) by {
                assert(lower("Connection"@).len() != "content-length"@.len());
            }
        }
        Ok(
            HttpConnection {
                req: HttpHeaders::new(),
                resp,
                method: String::from_str(v[0].as_str()),
                path: String::from_str(v[1].as_str()),
                protocol: String::from_str(v[2].as_str()),
                headers_sent: false,
                auto_content_length: true,
            },
        )
    }
}

/// What a first line opens: a response, or a request.
#[derive(Debug)]
pub enum ReqOrResp {
    Req(HttpConnection),
    Resp(HttpResp),
}

/// Reads the first line of an incoming message: a status line opens a
/// response; any other line of at least three parts opens a request; any
/// other line is refused and handed back.
pub fn req_or_resp(l: &str) -> (r: Result<ReqOrResp, String>)
    requires
        !status_line_panics(l@),
    ensures
        status_line_ok(l@) ==> (r matches Ok(ReqOrResp::Resp(resp)) && resp.http_version@ == split_on(
            l@,
            ' ',
        )[0] && resp.status_code == status_code_of(l@) && resp.reason@ == reason_of(l@)
            && resp.headers@.0.len() == 0),
        !status_line_ok(l@) && split_on(l@, ' ').len() >= 3 ==> (r matches Ok(ReqOrResp::Req(c))
            && c.method@ == split_on(l@, ' ')[0] && c.path@ == split_on(l@, ' ')[1]
            && c.protocol@ == split_on(l@, ' ')[2] && c.req@.0.len() == 0 && !c.headers_sent),
        split_on(l@, ' ').len() < 3 ==> (r matches Err(m) && m@ == l@),
{
    match HttpResp::from_status_line(l) {
        Ok(resp) => Ok(ReqOrResp::Resp(resp)),
        Err(_) => match HttpConnection::from_request_line(l) {
            Ok(c) => Ok(ReqOrResp::Req(c)),
            Err(m) => Err(m),
        },
    }
}

/// Adds a header to the response while its headers are not out yet; tells
/// whether it did.
pub fn header(c: &mut HttpConnection, key: &str, val: &str) -> (r: bool)
    ensures
        r == !old(c).headers_sent,
        r ==> final(c).resp@.0 == add_header(old(c).resp@.0, key@, val@) && final(c).resp@.1
            == content_length_after(old(c).resp@.1, key@, val@),
        !r ==> final(c).resp@ == old(c).resp@,
        final(c).req@ == old(c).req@,
        final(c).headers_sent == old(c).headers_sent,
        final(c).method@ == old(c).method@,
        final(c).path@ == old(c).path@,
        final(c).protocol@ == old(c).protocol@,
        final(c).auto_content_length == old(c).auto_content_length,
{
    if !c.headers_sent {
        c.resp.header(key, val);
        true
    } else {
        false
    }
}

/// Why content cannot be written.
#[derive(Debug, Clone, Copy, PartialEq, Eq, Structural)]
pub enum ContentError {
    /// With an automatic content length only one write is allowed.
    OneWriteAllowed,
}

/// What writing `len` bytes of content needs first: on the first write the
/// response's headers go out (`true`), after a `Content-Length` header
/// where the length is automatic and there is content; a later write with
/// an automatic content length is refused.
pub fn prepare_content(c: &mut HttpConnection, len: usize) -> (r: Result<bool, ContentError>)
    ensures
        !old(c).headers_sent ==> r == Ok::<bool, ContentError>(true) && final(c).headers_sent && (
        if len > 0 && old(c).auto_content_length {
            final(c).resp@.0 == add_header(old(c).resp@.0, "Content-Length"@, decimal(len as nat))
                && final(c).resp@.1 == content_length_after(
                old(c).resp@.1,
                "Content-Length"@,
                decimal(len as nat),
            )
        } else {
            final(c).resp@ == old(c).resp@
        }),
        old(c).headers_sent ==> final(c).resp@ == old(c).resp@ && final(c).headers_sent && (if old(
            c,
        ).auto_content_length {
            r == Err::<bool, ContentError>(ContentError::OneWriteAllowed)
        } else {
            r == Ok::<bool, ContentError>(false)
        }),
        final(c).req@ == old(c).req@,
        final(c).auto_content_length == old(c).auto_content_length,
{
    if !c.headers_sent {
        if len > 0 && c.auto_content_length {
            let l = usize_to_decimal(len);
            c.resp.header("Content-Length", l.as_str());
        }
        c.headers_sent = true;
        Ok(true)
    } else if c.auto_content_length {
        Err(ContentError::OneWriteAllowed)
    } else {
        Ok(false)
    }
}

/// A string split at each occurrence of `": "`, scanning from position `i`
/// with the current part `cur` and the parts before it `done`.
pub open spec fn split_colon_space(s: Seq<char>, i: int, cur: Seq<char>, done: Seq<Seq<char>>) -> Seq<
    Seq<char>,
>
    decreases s.len() - i,
{
    if i >= s.len() || i < 0 {
        done.push(cur)
    } else if i + 1 < s.len() && s[i] == ':' && s[i + 1] == ' ' {
        split_colon_space(s, i + 2, Seq::empty(), done.push(cur))
    } else {
        split_colon_space(s, i + 1, cur.push(s[i]), done)
    }
}

/// The parts of a header line, split at each `": "`.
pub open spec fn header_parts(l: Seq<char>) -> Seq<Seq<char>> {
    split_colon_space(l, 0, Seq::empty(), Seq::empty())
}

/// Takes a header line into `h`: a line of exactly two parts (name and
/// value, split at `": "`) adds that header; any other line is skipped.
pub fn header_line(h: &mut HttpHeaders, l: &str)
    ensures
        header_parts(l@).len() == 2 ==> final(h)@.0 == add_header(
            old(h)@.0,
            header_parts(l@)[0],
            header_parts(l@)[1],
        ) && final(h)@.1 == content_length_after(
            old(h)@.1,
            header_parts(l@)[0],
            header_parts(l@)[1],
        ),
        header_parts(l@).len() != 2 ==> final(h)@ == old(h)@,
{
    let cs = chars_of(l);
    let mut done: Vec<String> = Vec::new();
    let mut cur: Vec<char> = Vec::new();
    let mut i: usize = 0;
    proof {
        assert(done@.map_values(|x: String| x@) =~= Seq::<Seq<char>>::empty());
        assert(cur@ =~= Seq::<char>::empty());
    }
    while i < cs.len()
        invariant
            i <= cs@.len(),
            cs@ == l@,
            header_parts(l@) == split_colon_space(
                l@,
                i as int,
                cur@,
                done@.map_values(|x: String| x@),
            ),
        decreases cs@.len() - i,
    {
        if i + 1 < cs.len() && cs[i] == ':' && cs[i + 1] == ' ' {
            let part = string_of(cur.as_slice());
            let ghost d0 = done@.map_values(|x: String| x@);
            let ghost c0 = cur@;
            done.push(part);
            cur = Vec::new();
            proof {
                assert(done@.map_values(|x: String| x@) =~= d0.push(c0));
            }
            i += 2;
        } else {
            cur.push(cs[i]);
            i += 1;
        }
    }
    let last = string_of(cur.as_slice());
    let ghost d0 = done@.map_values(|x: String| x@);
    let ghost c0 = cur@;
    done.push(last);
    proof {
        assert(done@.map_values(|x: String| x@) =~= d0.push(c0));
    }
    if done.len() == 2 {
        h.header(done[0].as_str(), done[1].as_str());
    }
}

/// What `get_header` gives for a name is the first value added under it,
/// in any case: a header added where none of its name was before is what
/// `get_header` then gives for that name; one added after another of its
/// name leaves the first in place.
pub proof fn lemma_get_after_header(es: HeaderEntries, key: Seq<char>, val: Seq<char>, key2: Seq<char>)
    requires
        lower(key2) == lower(key),
    ensures
        first_header(es, key) is None ==> first_header(add_header(es, key, val), key2) == Some(
            val,
        ),
        first_header(es, key) is Some ==> first_header(add_header(es, key, val), key2)
            == first_header(es, key),
{
    let k = lower(key);
    lemma_find_entry(es, k);
    let es2 = add_header(es, key, val);
    lemma_find_entry(es2, k);
    let i = find_entry(es, k);
    if i >= 0 {
        assert(es2[i].0 == k);
        assert forall|j: int| i < j < es2.len() implies es2[j].0 != k by {
            lemma_find_entry(es.subrange(j, es.len() as int), k);
            if es2[j].0 == k {
                lemma_find_entry_last(es, k, j);
            }
        }
        lemma_find_entry_is_last(es2, k, i);
    } else {
        assert(es2.last().0 == k);
        assert(find_entry(es2, k) == es.len());
    }
}

/// Adding a header leaves what `get_header` gives for every name that
/// differs from it in more than case.
pub proof fn lemma_get_other_header(es: HeaderEntries, key: Seq<char>, val: Seq<char>, key2: Seq<char>)
    requires
        lower(key2) != lower(key),
    ensures
        first_header(add_header(es, key, val), key2) == first_header(es, key2),
{
    let k = lower(key);
    let k2 = lower(key2);
    let es2 = add_header(es, key, val);
    let i = find_entry(es, k);
    lemma_find_entry(es, k);
    lemma_find_entry(es, k2);
    lemma_find_entry(es2, k2);
    assert forall|m: int| 0 <= m < es2.len() && es2[m].0 == k2 implies m < es.len() && es2[m]
        == es[m] by {
        if m == es.len() {
            assert(es2[m].0 == k);
        }
        if m == i {
            assert(es2[m].0 == k);
        }
    }
    let j = find_entry(es, k2);
    if j >= 0 {
        assert(j != i);
        assert(es2[j] == es[j]);
        assert forall|m: int| j < m < es2.len() implies es2[m].0 != k2 by {
            if es2[m].0 == k2 {
                lemma_find_entry_last(es, k2, m);
            }
        }
        lemma_find_entry_is_last(es2, k2, j);
    } else {
        let j2 = find_entry(es2, k2);
        if j2 >= 0 {
            assert(es2[j2].0 == k2);
            assert(es[j2].0 == k2);
        }
    }
}

/// No entry after the one `find_entry` finds has its name.
proof fn lemma_find_entry_last(es: HeaderEntries, k: Seq<char>, j: int)
    requires
        find_entry(es, k) < j < es.len(),
    ensures
        es[j].0 != k,
    decreases es.len(),
{
    lemma_find_entry(es, k);
    if es.last().0 != k {
        if j < es.len() - 1 {
            lemma_find_entry_last(es.drop_last(), k, j);
            assert(es.drop_last()[j] == es[j]);
        }
    }
}

/// The last entry of a name is the one `find_entry` finds.
proof fn lemma_find_entry_is_last(es: HeaderEntries, k: Seq<char>, i: int)
    requires
        0 <= i < es.len(),
        es[i].0 == k,
        forall|j: int| i < j < es.len() ==> es[j].0 != k,
    ensures
        find_entry(es, k) == i,
    decreases es.len(),
{
    if i < es.len() - 1 {
        lemma_find_entry_is_last(es.drop_last(), k, i);
    }
}

/// The digits of `decimal(n)` are digits, and their value is `n`.
proof fn lemma_decimal_value(n: nat)
    ensures
        decimal(n).len() > 0,
        forall|i: int| 0 <= i < decimal(n).len() ==> is_digit(#[trigger] decimal(n)[i]),
        digits_value(decimal(n)) == n,
    decreases n,
{
    if n >= 10 {
        lemma_decimal_value(n / 10);
        let d = decimal(n);
        assert(d.drop_last() =~= decimal(n / 10));
        let x = (n % 10) + 48;
        assert((x as u32) as char as int == x);
        assert(d.last() == (x as u32) as char);
        assert(n == (n / 10) * 10 + n % 10);
        assert(digits_value(d) == digits_value(d.drop_last()) * 10 + ((d.last() as int - 48) as nat));
        assert(digits_value(d.drop_last()) == n / 10);
        assert(d.last() as int - 48 == n % 10);
        assert forall|i: int| 0 <= i < d.len() implies is_digit(#[trigger] d[i]) by {
            if i < d.len() - 1 {
                assert(d[i] == decimal(n / 10)[i]);
            }
        }
    } else {
        let x = n + 48;
        assert((x as u32) as char as int == x);
        assert(decimal(n).drop_last() =~= Seq::<char>::empty());
        assert(digits_value(decimal(n).drop_last()) == 0);
        assert(decimal(n).last() as int - 48 == n);
    }
}

/// A number written in decimal reads back: `parse_unsigned` of
/// `usize_to_decimal(n)` is `n`.
pub proof fn lemma_decimal_roundtrip(n: nat, max: nat)
    requires
        n <= max,
    ensures
        spec_parse_unsigned(decimal(n), max) == Some(n),
{
    lemma_decimal_value(n);
    let d = decimal(n);
    if d[0] == '+' {
        assert(is_digit(d[0]));
    }
    assert(without_plus(d) == d);
}

/// A `Content-Length` header of a length written in decimal sets the
/// content length to that length.
pub proof fn lemma_content_length_header(cl: usize, n: usize)
    ensures
        content_length_after(cl, "Content-Length"@, decimal(n as nat)) == n,
{
    reveal_strlit("Content-Length");
    reveal_strlit("content-length");
    assert(lower("Content-Length"@) =~= "content-length"@);
    lemma_decimal_roundtrip(n as nat, usize::MAX as nat);
}

} // verus!
