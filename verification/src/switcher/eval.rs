//! Evaluating the expressions of automations: the values they compute on,
//! what they read from the context they run in (the data a device got,
//! its values and constants, the time), and the messages they leave there.

use vstd::prelude::*;
use vstd::string::{StringExecFns, StrSliceExecFns, StringSliceAdditionalSpecFns};
use crate::websocket::{base64_char, base64_no_pad};
use crate::switcher::sw_device::{
    decode_hex, decode_hex_from, from_utf8_lossy, hex_cuttable, is_hex_cuttable, utf8_lossy,
};
use crate::tokenizer::{
    StdOp, std_match, std_match_defined, match_std_op, std_precedence, TokenType, Assoc, trim_ws,
    trim_text,
};
use vstd::utf8::{
    decode_utf8, encode_utf8, encode_utf8_decode_utf8, encode_utf8_valid_utf8, is_char_boundary,
    is_char_boundary_iff_not_is_continuation_byte, is_char_boundary_start_end_of_seq, valid_utf8,
};
use crate::http::{
    decimal, usize_to_decimal, spec_parse_unsigned, parse_unsigned, chars_of, string_of,
};

verus! {

/// A value an expression computes: nothing, a boolean, a string or an
/// integer.
#[derive(Debug)]
pub enum SwValue {
    Empty,
    Bool(bool),
    String(String),
    Numeric(i32),
}

/// The model of a value.
pub enum SwValueV {
    Empty,
    Bool(bool),
    Str(Seq<char>),
    Num(i32),
}

impl View for SwValue {
    type V = SwValueV;

    open spec fn view(&self) -> SwValueV {
        match self {
            SwValue::Empty => SwValueV::Empty,
            SwValue::Bool(b) => SwValueV::Bool(*b),
            SwValue::String(s) => SwValueV::Str(s@),
            SwValue::Numeric(n) => SwValueV::Num(*n),
        }
    }
}

impl SwValue {
    /// A copy of the value.
    pub fn copy(&self) -> (r: SwValue)
        ensures
            r@ == self@,
    {
        match self {
            SwValue::Empty => SwValue::Empty,
            SwValue::Bool(b) => SwValue::Bool(*b),
            SwValue::String(s) => SwValue::String(s.clone()),
            SwValue::Numeric(n) => SwValue::Numeric(*n),
        }
    }
}

/// Why an expression cannot be evaluated.
#[derive(Debug, Clone, Copy, PartialEq, Eq, Structural)]
pub enum EvalError {
    /// A boolean was required.
    NotBool,
    /// A string was required.
    NotString,
    /// An integer was required.
    NotNumeric,
    /// A string does not hold an integer.
    BadNumber,
    /// An integer operation leaves the range of `i32`.
    Overflow,
    DivisionByZero,
    /// `val()` needs data or a value in the context.
    NoValue,
    /// `val(name)` needs the values in the context.
    NoVals,
    /// `val(name, value)` needs somewhere to put messages.
    NoMsgs,
    /// `val` takes at most two arguments.
    TooManyArgs,
    /// `const()` needs a device in the context.
    NoDev,
    /// `topic()` needs data that came from an MQTT topic.
    NoTopic,
    /// `dechex(n, width)` and `lpad(s, width, pad)` need a width that is
    /// not negative.
    NegativeWidth,
    /// `lpad(s, width, pad)` needs a pad that is not empty where the string
    /// is shorter than the width.
    EmptyPad,
    /// `substr` was given a negative length, or a range that cuts a
    /// character of its string.
    BadRange,
    /// `decode_hex` was given a string it cannot cut into pairs of bytes.
    NotHexPairs,
}

/// What a device offers an expression: its constants, if it has any.
pub struct EvalDev {
    pub consts: Option<Vec<(String, SwValue)>>,
}

/// The context an expression is evaluated in: the current value, the
/// values by name (under a prefix, where one is set), the data received
/// as text and the MQTT topic it came from, the device, the messages set
/// values are sent as, and the time (seconds since the epoch).
pub struct SwEvalCtx {
    pub val: Option<SwValue>,
    pub vals: Option<Vec<(String, SwValue)>>,
    pub vals_prefix: Option<String>,
    pub data: Option<String>,
    pub topic: Option<String>,
    pub dev: Option<EvalDev>,
    pub msgs: Option<Vec<(String, SwValue)>>,
    pub now: i32,
}

/// The model of named values.
pub open spec fn pairs_view(v: Vec<(String, SwValue)>) -> Seq<(Seq<char>, SwValueV)> {
    v@.map_values(|p: (String, SwValue)| (p.0@, p.1@))
}

/// The model of optional named values.
pub open spec fn opt_pairs(o: Option<Vec<(String, SwValue)>>) -> Option<Seq<(Seq<char>, SwValueV)>> {
    match o {
        Some(v) => Some(pairs_view(v)),
        None => None,
    }
}

/// The model of a context.
pub struct CtxV {
    pub val: Option<SwValueV>,
    pub vals: Option<Seq<(Seq<char>, SwValueV)>>,
    pub vals_prefix: Option<Seq<char>>,
    pub data: Option<Seq<char>>,
    pub topic: Option<Seq<char>>,
    pub dev: Option<Option<Seq<(Seq<char>, SwValueV)>>>,
    pub msgs: Option<Seq<(Seq<char>, SwValueV)>>,
    pub now: i32,
}

impl View for SwEvalCtx {
    type V = CtxV;

    open spec fn view(&self) -> CtxV {
        CtxV {
            val: match self.val {
                Some(v) => Some(v@),
                None => None,
            },
            vals: opt_pairs(self.vals),
            vals_prefix: match self.vals_prefix {
                Some(p) => Some(p@),
                None => None,
            },
            data: match self.data {
                Some(d) => Some(d@),
                None => None,
            },
            topic: match self.topic {
                Some(t) => Some(t@),
                None => None,
            },
            dev: match self.dev {
                Some(d) => Some(opt_pairs(d.consts)),
                None => None,
            },
            msgs: opt_pairs(self.msgs),
            now: self.now,
        }
    }
}

/// The model of an evaluation's result.
pub open spec fn res_view(r: Result<SwValue, EvalError>) -> Result<SwValueV, EvalError> {
    match r {
        Ok(v) => Ok(v@),
        Err(e) => Err(e),
    }
}

/// The characters of a string literal, one by one.
#[derive(Debug)]
pub enum CharList {
    Nil,
    Cons(char, Box<CharList>),
}

/// The characters a list holds.
pub open spec fn chars_seq(t: CharList) -> Seq<char>
    decreases t,
{
    match t {
        CharList::Nil => Seq::empty(),
        CharList::Cons(c, rest) => seq![c] + chars_seq(*rest),
    }
}

/// The list of the characters of a string.
pub open spec fn char_list(s: Seq<char>) -> CharList
    decreases s.len(),
{
    if s.len() == 0 {
        CharList::Nil
    } else {
        CharList::Cons(s[0], Box::new(char_list(s.drop_first())))
    }
}

/// The list of a string holds its characters.
pub proof fn lemma_char_list(s: Seq<char>)
    ensures
        chars_seq(char_list(s)) == s,
    decreases s.len(),
{
    if s.len() > 0 {
        lemma_char_list(s.drop_first());
        assert(seq![s[0]] + s.drop_first() =~= s);
    }
}

/// The list of the characters of `cs` from position `i` on.
pub fn char_list_from(cs: &Vec<char>, i: usize) -> (r: CharList)
    requires
        i <= cs@.len(),
    ensures
        r == char_list(cs@.skip(i as int)),
    decreases cs@.len() - i,
{
    if i >= cs.len() {
        proof {
            assert(cs@.skip(i as int).len() == 0);
        }
        CharList::Nil
    } else {
        let rest = char_list_from(cs, i + 1);
        proof {
            assert(cs@.skip(i as int).drop_first() =~= cs@.skip(i + 1));
        }
        CharList::Cons(cs[i], Box::new(rest))
    }
}

/// Appends the characters of a list to a string.
fn push_chars(t: &CharList, s: &mut String)
    ensures
        final(s)@ == old(s)@ + chars_seq(*t),
    decreases t,
{
    match t {
        CharList::Nil => {
            proof {
                assert(old(s)@ + Seq::<char>::empty() =~= old(s)@);
            }
        },
        CharList::Cons(c, rest) => {
            let ghost s0 = s@;
            crate::text::push_char(s, *c);
            push_chars(rest, s);
            proof {
                assert(s0.push(*c) + chars_seq(**rest) =~= s0 + (seq![*c] + chars_seq(**rest)));
            }
        },
    }
}

/// The string of a list of characters.
pub fn char_list_string(t: &CharList) -> (r: String)
    ensures
        r@ == chars_seq(*t),
{
    let mut s = String::new();
    proof {
        assert(s@ =~= Seq::<char>::empty());
    }
    push_chars(t, &mut s);
    proof {
        assert(Seq::<char>::empty() + chars_seq(*t) =~= chars_seq(*t));
    }
    s
}

/// A list of expressions.
#[derive(Debug)]
pub enum ExprList {
    Nil,
    Cons(Box<SwEvaluator>, Box<ExprList>),
}

/// An expression of an automation.
#[derive(Debug)]
pub enum SwEvaluator {
    /// A literal value.
    SwValue(SwValue),
    /// A string literal written between quotes in an expression's text.
    Text(CharList),
    /// A basic operator; one that takes one operand takes `a1`.
    Std { op: StdOp, a1: Box<SwEvaluator>, a2: Box<SwEvaluator> },
    /// `a1; a2`: both, in turn; the value of the second.
    Semicolon { a1: Box<SwEvaluator>, a2: Box<SwEvaluator> },
    /// `if(c, a, b)`, with `n` arguments.
    If { n: usize, a1: Box<SwEvaluator>, a2: Box<SwEvaluator>, a3: Box<SwEvaluator> },
    /// `val()`, `val(name)`, `val(name, value)`, with `n` arguments.
    Val { n: usize, a1: Box<SwEvaluator>, a2: Box<SwEvaluator> },
    /// `const(name)`.
    Const { a: Box<SwEvaluator> },
    /// `topic()`.
    Topic,
    /// `now()`.
    Now,
    /// `duration(from, to)`.
    Duration { n: usize, a1: Box<SwEvaluator>, a2: Box<SwEvaluator> },
    /// `scale(value, min, max, out_min, out_max)`.
    Scale {
        a1: Box<SwEvaluator>,
        a2: Box<SwEvaluator>,
        a3: Box<SwEvaluator>,
        a4: Box<SwEvaluator>,
        a5: Box<SwEvaluator>,
    },
    /// `parse_num(s)`.
    ParseNum { a: Box<SwEvaluator> },
    /// `hexdec(s)`: a hexadecimal integer read, or nothing.
    Hexdec { a: Box<SwEvaluator> },
    /// `strpos(haystack, needle)`: the byte position of the first
    /// occurrence, or nothing.
    Strpos { a1: Box<SwEvaluator>, a2: Box<SwEvaluator> },
    /// `dechex(n, width)`: `n` in lower-case hexadecimal (its 32 bits),
    /// padded with zeros to `width` characters.
    Dechex { a1: Box<SwEvaluator>, a2: Box<SwEvaluator> },
    /// `base64(s)`: the standard base64 of the string's UTF-8 bytes,
    /// without padding.
    Base64 { a: Box<SwEvaluator> },
    /// `lpad(s, width, pad)`: the string with `pad` put before it as often
    /// as it takes to be at least `width` bytes long.
    Lpad { a1: Box<SwEvaluator>, a2: Box<SwEvaluator>, a3: Box<SwEvaluator> },
    /// `substr(s, from)` and `substr(s, from, len)`, with `n` arguments:
    /// the bytes of `s` from `from` on (at most `len` of them).
    Substr { n: usize, a1: Box<SwEvaluator>, a2: Box<SwEvaluator>, a3: Box<SwEvaluator> },
    /// `decode_hex(s)`: the text of the bytes that hexadecimal pairs stand
    /// for, without white space at its ends; nothing where a pair does not
    /// read.
    DecodeHex { a: Box<SwEvaluator> },
    /// `a in (x, y, ...)`, with `n` candidates: whether `a` equals one of
    /// them (they are held as read, the last one first, and evaluated in
    /// that order until one equals it).
    In { n: usize, a: Box<SwEvaluator>, args: Box<ExprList> },
}

/// An integer in decimal, with a minus sign where it is negative.
pub open spec fn i32_text(n: i32) -> Seq<char> {
    if n >= 0 {
        decimal(n as nat)
    } else {
        "-"@ + decimal((-n) as nat)
    }
}

/// What `str::parse::<i32>` gives: an optional sign then at least one
/// decimal digit, within the range of `i32`.
pub open spec fn spec_parse_i32(s: Seq<char>) -> Option<i32> {
    if s.len() > 0 && s[0] == '-' {
        let rest = s.drop_first();
        if rest.len() > 0 && rest[0] == '+' {
            None
        } else {
            match spec_parse_unsigned(rest, 0x8000_0000) {
                Some(v) => Some((-v) as i32),
                None => None,
            }
        }
    } else {
        match spec_parse_unsigned(s, 0x7fff_ffff) {
            Some(v) => Some(v as i32),
            None => None,
        }
    }
}

/// The text of a value: `none`, `true`, `false`, the string, or the
/// integer in decimal.
pub open spec fn display(v: SwValueV) -> Seq<char> {
    match v {
        SwValueV::Empty => "none"@,
        SwValueV::Bool(b) => if b {
            "true"@
        } else {
            "false"@
        },
        SwValueV::Str(s) => s,
        SwValueV::Num(n) => i32_text(n),
    }
}

/// A value read as a boolean: a boolean, an integer that is 1, a string
/// that is `true`.
pub open spec fn as_bool(v: SwValueV) -> Result<bool, EvalError> {
    match v {
        SwValueV::Bool(b) => Ok(b),
        SwValueV::Num(n) => Ok(n == 1),
        SwValueV::Str(s) => Ok(s == "true"@),
        SwValueV::Empty => Err(EvalError::NotBool),
    }
}

/// A value read as a string: a string, or an integer in decimal.
pub open spec fn as_string(v: SwValueV) -> Result<Seq<char>, EvalError> {
    match v {
        SwValueV::Str(s) => Ok(s),
        SwValueV::Num(n) => Ok(i32_text(n)),
        _ => Err(EvalError::NotString),
    }
}

/// A value read as an integer: an integer, or a string that parses as one.
pub open spec fn as_numeric(v: SwValueV) -> Result<i32, EvalError> {
    match v {
        SwValueV::Num(n) => Ok(n),
        SwValueV::Str(s) => match spec_parse_i32(s) {
            Some(n) => Ok(n),
            None => Err(EvalError::BadNumber),
        },
        _ => Err(EvalError::NotNumeric),
    }
}

/// Whether `a` comes before `b`, character by character.
pub open spec fn str_lt(a: Seq<char>, b: Seq<char>) -> bool
    decreases a.len(),
{
    if a.len() == 0 {
        b.len() > 0
    } else if b.len() == 0 {
        false
    } else if a[0] != b[0] {
        (a[0] as u32) < (b[0] as u32)
    } else {
        str_lt(a.drop_first(), b.drop_first())
    }
}

/// How two values compare: -1, 0 or 1, where they can be compared at all
/// (a boolean with what reads as a boolean, a string with what reads as a
/// string, two integers).
pub open spec fn compare(x: SwValueV, y: SwValueV) -> Option<int> {
    match x {
        SwValueV::Bool(b) => match as_bool(y) {
            Ok(ob) => Some(
                if b == ob {
                    0
                } else if !b {
                    -1
                } else {
                    1
                },
            ),
            Err(_) => None,
        },
        SwValueV::Str(s) => match as_string(y) {
            Ok(os) => Some(
                if s == os {
                    0
                } else if str_lt(s, os) {
                    -1
                } else {
                    1
                },
            ),
            Err(_) => None,
        },
        SwValueV::Num(n) => match y {
            SwValueV::Num(on) => Some(
                if n == on {
                    0
                } else if n < on {
                    -1
                } else {
                    1
                },
            ),
            _ => None,
        },
        SwValueV::Empty => None,
    }
}

/// An integer result, where it is in range.
pub open spec fn num_or_overflow(r: Option<i32>) -> Result<SwValueV, EvalError> {
    match r {
        Some(n) => Ok(SwValueV::Num(n)),
        None => Err(EvalError::Overflow),
    }
}

/// A basic operator on two values already evaluated. `+` adds integers
/// and otherwise joins the texts; `-`, `*` and `/` work on integers only
/// and give nothing else; `&` and `|` take the second operand as an
/// integer; `==` and `!=` compare the values; `<` and `>` compare as
/// `compare` says (false where the values do not compare); `~` negates an
/// integer.
pub open spec fn spec_std_op(op: StdOp, x: SwValueV, y: SwValueV) -> Result<SwValueV, EvalError> {
    match op {
        StdOp::Add => match y {
            SwValueV::Num(on) => match x {
                SwValueV::Num(n) => num_or_overflow(n.checked_add(on)),
                _ => Ok(SwValueV::Str(display(x) + i32_text(on))),
            },
            _ => Ok(SwValueV::Str(display(x) + display(y))),
        },
        StdOp::Sub => match (x, y) {
            (SwValueV::Num(n), SwValueV::Num(on)) => num_or_overflow(n.checked_sub(on)),
            _ => Ok(SwValueV::Empty),
        },
        StdOp::Mul => match (x, y) {
            (SwValueV::Num(n), SwValueV::Num(on)) => num_or_overflow(n.checked_mul(on)),
            _ => Ok(SwValueV::Empty),
        },
        StdOp::Div => match (x, y) {
            (SwValueV::Num(n), SwValueV::Num(on)) => if on == 0 {
                Err(EvalError::DivisionByZero)
            } else {
                num_or_overflow(n.checked_div(on))
            },
            _ => Ok(SwValueV::Empty),
        },
        StdOp::Neg => match x {
            SwValueV::Num(n) => num_or_overflow(0i32.checked_sub(n)),
            _ => Ok(SwValueV::Empty),
        },
        StdOp::BitAnd => match x {
            SwValueV::Num(n) => match as_numeric(y) {
                Ok(on) => Ok(SwValueV::Num(n & on)),
                Err(_) => Ok(SwValueV::Empty),
            },
            _ => Ok(SwValueV::Empty),
        },
        StdOp::BitOr => match x {
            SwValueV::Num(n) => match as_numeric(y) {
                Ok(on) => Ok(SwValueV::Num(n | on)),
                Err(_) => Ok(SwValueV::Empty),
            },
            _ => Ok(SwValueV::Empty),
        },
        StdOp::Eq => Ok(SwValueV::Bool(x == y)),
        StdOp::Neq => Ok(SwValueV::Bool(x != y)),
        StdOp::Lt => Ok(SwValueV::Bool(compare(x, y) == Some(-1int))),
        StdOp::Gt => Ok(SwValueV::Bool(compare(x, y) == Some(1int))),
        StdOp::BoolNeg => match as_bool(x) {
            Ok(b) => Ok(SwValueV::Bool(!b)),
            Err(e) => Err(e),
        },
        StdOp::BoolAnd => match (as_bool(x), as_bool(y)) {
            (Ok(a), Ok(b)) => Ok(SwValueV::Bool(a && b)),
            (Err(e), _) => Err(e),
            (_, Err(e)) => Err(e),
        },
        StdOp::BoolOr => match (as_bool(x), as_bool(y)) {
            (Ok(a), Ok(b)) => Ok(SwValueV::Bool(a || b)),
            (Err(e), _) => Err(e),
            (_, Err(e)) => Err(e),
        },
    }
}

/// The value under a name: the first entry with that name.
pub open spec fn lookup(kvs: Seq<(Seq<char>, SwValueV)>, k: Seq<char>) -> Option<SwValueV>
    decreases kvs.len(),
{
    if kvs.len() == 0 {
        None
    } else if kvs[0].0 == k {
        Some(kvs[0].1)
    } else {
        lookup(kvs.drop_first(), k)
    }
}

/// A name under the context's prefix: `prefix.name`, or the name alone.
pub open spec fn prefixed(prefix: Option<Seq<char>>, name: Seq<char>) -> Seq<char> {
    match prefix {
        Some(p) => p + "."@ + name,
        None => name,
    }
}

/// Whether an operator takes one operand.
pub open spec fn is_unary_op(op: StdOp) -> bool {
    op == StdOp::Neg || op == StdOp::BoolNeg
}

/// What an expression evaluates to in a context, and the context after
/// it: operands are evaluated from the first on, and the first error ends
/// the evaluation. `&&` and `||` do not evaluate their second operand
/// where the first decides. `if` evaluates only the branch it takes (and
/// gives nothing without a third argument where the condition is false).
/// `val()` gives the data received, as text, else the current value;
/// `val(name)` the value under the (prefixed) name, or nothing; `val(name,
/// value)` leaves a message that sets the value and gives nothing.
/// `const(name)` gives the device's constant, or nothing. `topic()` gives
/// the data's MQTT topic, `now()` the time, `duration(from, to)` the
/// difference `to - from` (the second argument is evaluated first).
/// `scale(v, min, max, out_min, out_max)` maps `v` linearly from
/// `[min, max]` onto `[out_min, out_max]`, and gives nothing for nothing.
/// `parse_num(s)` reads an integer, `hexdec(s)` a hexadecimal one (nothing
/// where it does not read). `strpos(h, n)` gives the byte position of the
/// first `n` in `h`, or nothing. `dechex(n, w)` writes the 32 bits of `n`
/// in hexadecimal, padded with zeros to `w` characters (the width is
/// evaluated first).
#[verifier::opaque]
pub open spec fn spec_eval(e: SwEvaluator, ctx: CtxV) -> (Result<SwValueV, EvalError>, CtxV)
    decreases e,
{
    match e {
        SwEvaluator::SwValue(v) => (Ok(v@), ctx),
        SwEvaluator::Text(t) => (Ok(SwValueV::Str(chars_seq(t))), ctx),
        SwEvaluator::Std { op, a1, a2 } => {
            let (r1, c1) = spec_eval(*a1, ctx);
            match r1 {
                Err(err) => (Err(err), c1),
                Ok(x) => if is_unary_op(op) {
                    (spec_std_op(op, x, SwValueV::Empty), c1)
                } else if op == StdOp::BoolAnd && as_bool(x) == Ok::<bool, EvalError>(false) {
                    (Ok(SwValueV::Bool(false)), c1)
                } else if op == StdOp::BoolOr && as_bool(x) == Ok::<bool, EvalError>(true) {
                    (Ok(SwValueV::Bool(true)), c1)
                } else if (op == StdOp::BoolAnd || op == StdOp::BoolOr) && as_bool(x) is Err {
                    (Err(EvalError::NotBool), c1)
                } else {
                    let (r2, c2) = spec_eval(*a2, c1);
                    match r2 {
                        Err(err) => (Err(err), c2),
                        Ok(y) => (spec_std_op(op, x, y), c2),
                    }
                },
            }
        },
        SwEvaluator::Semicolon { a1, a2 } => {
            let (r1, c1) = spec_eval(*a1, ctx);
            match r1 {
                Err(err) => (Err(err), c1),
                Ok(_) => spec_eval(*a2, c1),
            }
        },
        SwEvaluator::If { n, a1, a2, a3 } => {
            let (r1, c1) = spec_eval(*a1, ctx);
            match r1 {
                Err(err) => (Err(err), c1),
                Ok(x) => match as_bool(x) {
                    Err(err) => (Err(err), c1),
                    Ok(true) => spec_eval(*a2, c1),
                    Ok(false) => if n < 3 {
                        (Ok(SwValueV::Empty), c1)
                    } else {
                        spec_eval(*a3, c1)
                    },
                },
            }
        },
        SwEvaluator::Val { n, a1, a2 } => if n == 0 {
            match ctx.data {
                Some(d) => (Ok(SwValueV::Str(d)), ctx),
                None => match ctx.val {
                    Some(v) => (Ok(v), ctx),
                    None => (Err(EvalError::NoValue), ctx),
                },
            }
        } else if n == 1 {
            let (r1, c1) = spec_eval(*a1, ctx);
            match r1 {
                Err(err) => (Err(err), c1),
                Ok(name) => match c1.vals {
                    None => (Err(EvalError::NoVals), c1),
                    Some(vals) => match as_string(name) {
                        Err(err) => (Err(err), c1),
                        Ok(s) => match lookup(vals, prefixed(c1.vals_prefix, s)) {
                            Some(v) => (Ok(v), c1),
                            None => (Ok(SwValueV::Empty), c1),
                        },
                    },
                },
            }
        } else if n == 2 {
            let (r1, c1) = spec_eval(*a1, ctx);
            match r1 {
                Err(err) => (Err(err), c1),
                Ok(name) => match as_string(name) {
                    Err(err) => (Err(err), c1),
                    Ok(s) => {
                        let (r2, c2) = spec_eval(*a2, c1);
                        match r2 {
                            Err(err) => (Err(err), c2),
                            Ok(value) => match c2.msgs {
                                None => (Err(EvalError::NoMsgs), c2),
                                Some(ms) => (
                                    Ok(SwValueV::Empty),
                                    CtxV {
                                        msgs: Some(
                                            ms.push((prefixed(c2.vals_prefix, s), value)),
                                        ),
                                        ..c2
                                    },
                                ),
                            },
                        }
                    },
                },
            }
        } else {
            (Err(EvalError::TooManyArgs), ctx)
        },
        SwEvaluator::Const { a } => {
            let (r1, c1) = spec_eval(*a, ctx);
            match r1 {
                Err(err) => (Err(err), c1),
                Ok(name) => match c1.dev {
                    None => (Err(EvalError::NoDev), c1),
                    Some(None) => (Ok(SwValueV::Empty), c1),
                    Some(Some(consts)) => match as_string(name) {
                        Err(err) => (Err(err), c1),
                        Ok(s) => match lookup(consts, s) {
                            Some(v) => (Ok(v), c1),
                            None => (Ok(SwValueV::Empty), c1),
                        },
                    },
                },
            }
        },
        SwEvaluator::Topic => match ctx.topic {
            Some(t) => (Ok(SwValueV::Str(t)), ctx),
            None => (Err(EvalError::NoTopic), ctx),
        },
        SwEvaluator::Now => (Ok(SwValueV::Num(ctx.now)), ctx),
        SwEvaluator::Duration { n, a1, a2 } => {
            let (r2, c2) = spec_eval(*a2, ctx);
            match r2 {
                Err(err) => (Err(err), c2),
                Ok(t) => match as_numeric(t) {
                    Err(err) => (Err(err), c2),
                    Ok(to) => {
                        let (r1, c1) = spec_eval(*a1, c2);
                        match r1 {
                            Err(err) => (Err(err), c1),
                            Ok(f) => match as_numeric(f) {
                                Err(err) => (Err(err), c1),
                                Ok(from) => (num_or_overflow(to.checked_sub(from)), c1),
                            },
                        }
                    },
                },
            }
        },
        SwEvaluator::Scale { a1, a2, a3, a4, a5 } => {
            let (r1, c1) = spec_eval(*a1, ctx);
            match r1 {
                Err(err) => (Err(err), c1),
                Ok(SwValueV::Empty) => (Ok(SwValueV::Empty), c1),
                Ok(x) => match as_numeric(x) {
                    Err(err) => (Err(err), c1),
                    Ok(v) => {
                        let (r2, c2) = spec_eval(*a2, c1);
                        let (r3, c3) = spec_eval(*a3, c2);
                        let (r4, c4) = spec_eval(*a4, c3);
                        let (r5, c5) = spec_eval(*a5, c4);
                        match r2 {
                            Err(err) => (Err(err), c2),
                            Ok(x2) => match as_numeric(x2) {
                                Err(err) => (Err(err), c2),
                                Ok(lo) => match r3 {
                                    Err(err) => (Err(err), c3),
                                    Ok(x3) => match as_numeric(x3) {
                                        Err(err) => (Err(err), c3),
                                        Ok(hi) => match r4 {
                                            Err(err) => (Err(err), c4),
                                            Ok(x4) => match as_numeric(x4) {
                                                Err(err) => (Err(err), c4),
                                                Ok(olo) => match r5 {
                                                    Err(err) => (Err(err), c5),
                                                    Ok(x5) => match as_numeric(x5) {
                                                        Err(err) => (Err(err), c5),
                                                        Ok(ohi) => (scale_of(v, lo, hi, olo, ohi), c5),
                                                    },
                                                },
                                            },
                                        },
                                    },
                                },
                            },
                        }
                    },
                },
            }
        },
        SwEvaluator::ParseNum { a } => {
            let (r1, c1) = spec_eval(*a, ctx);
            match r1 {
                Err(err) => (Err(err), c1),
                Ok(x) => match as_string(x) {
                    Err(err) => (Err(err), c1),
                    Ok(s) => match spec_parse_i32(s) {
                        Some(n) => (Ok(SwValueV::Num(n)), c1),
                        None => (Err(EvalError::BadNumber), c1),
                    },
                },
            }
        },
        SwEvaluator::Hexdec { a } => {
            let (r1, c1) = spec_eval(*a, ctx);
            match r1 {
                Err(err) => (Err(err), c1),
                Ok(x) => match as_string(x) {
                    Err(err) => (Err(err), c1),
                    Ok(s) => match spec_parse_hex_i32(s) {
                        Some(n) => (Ok(SwValueV::Num(n)), c1),
                        None => (Ok(SwValueV::Empty), c1),
                    },
                },
            }
        },
        SwEvaluator::Strpos { a1, a2 } => {
            let (r1, c1) = spec_eval(*a1, ctx);
            match r1 {
                Err(err) => (Err(err), c1),
                Ok(x) => match as_string(x) {
                    Err(err) => (Err(err), c1),
                    Ok(h) => {
                        let (r2, c2) = spec_eval(*a2, c1);
                        match r2 {
                            Err(err) => (Err(err), c2),
                            Ok(y) => match as_string(y) {
                                Err(err) => (Err(err), c2),
                                Ok(n) => match first_occurrence(encode_utf8(h), encode_utf8(n)) {
                                    Some(p) => (Ok(SwValueV::Num((p as usize) as i32)), c2),
                                    None => (Ok(SwValueV::Empty), c2),
                                },
                            },
                        }
                    },
                },
            }
        },
        SwEvaluator::Dechex { a1, a2 } => {
            let (r2, c2) = spec_eval(*a2, ctx);
            match r2 {
                Err(err) => (Err(err), c2),
                Ok(x) => match as_numeric(x) {
                    Err(err) => (Err(err), c2),
                    Ok(w) => {
                        let (r1, c1) = spec_eval(*a1, c2);
                        match r1 {
                            Err(err) => (Err(err), c1),
                            Ok(y) => match as_numeric(y) {
                                Err(err) => (Err(err), c1),
                                Ok(n) => if w < 0 {
                                    (Err(EvalError::NegativeWidth), c1)
                                } else {
                                    (
                                        Ok(SwValueV::Str(zero_padded(hex_text((n as u32) as nat), w as nat))),
                                        c1,
                                    )
                                },
                            },
                        }
                    },
                },
            }
        },
        SwEvaluator::Base64 { a } => {
            let (r1, c1) = spec_eval(*a, ctx);
            match r1 {
                Err(err) => (Err(err), c1),
                Ok(x) => match as_string(x) {
                    Err(err) => (Err(err), c1),
                    Ok(t) => (Ok(SwValueV::Str(base64_unpadded(encode_utf8(t)))), c1),
                },
            }
        },
        SwEvaluator::Lpad { a1, a2, a3 } => {
            let (r1, c1) = spec_eval(*a1, ctx);
            match r1 {
                Err(err) => (Err(err), c1),
                Ok(x1) => match as_string(x1) {
                    Err(err) => (Err(err), c1),
                    Ok(t) => {
                        let (r2, c2) = spec_eval(*a2, c1);
                        match r2 {
                            Err(err) => (Err(err), c2),
                            Ok(x2) => match as_numeric(x2) {
                                Err(err) => (Err(err), c2),
                                Ok(w) => {
                                    let (r3, c3) = spec_eval(*a3, c2);
                                    match r3 {
                                        Err(err) => (Err(err), c3),
                                        Ok(x3) => match as_string(x3) {
                                            Err(err) => (Err(err), c3),
                                            Ok(p) => (lpad_of(t, w, p), c3),
                                        },
                                    }
                                },
                            },
                        }
                    },
                },
            }
        },
        SwEvaluator::Substr { n, a1, a2, a3 } => {
            let (r1, c1) = spec_eval(*a1, ctx);
            match r1 {
                Err(err) => (Err(err), c1),
                Ok(x1) => match as_string(x1) {
                    Err(err) => (Err(err), c1),
                    Ok(t) => {
                        let (r2, c2) = spec_eval(*a2, c1);
                        match r2 {
                            Err(err) => (Err(err), c2),
                            Ok(x2) => match as_numeric(x2) {
                                Err(err) => (Err(err), c2),
                                Ok(f) => if n < 3 {
                                    (substr_of(t, f, None), c2)
                                } else {
                                    let (r3, c3) = spec_eval(*a3, c2);
                                    match r3 {
                                        Err(err) => (Err(err), c3),
                                        Ok(x3) => match as_numeric(x3) {
                                            Err(err) => (Err(err), c3),
                                            Ok(l) => (substr_of(t, f, Some(l)), c3),
                                        },
                                    }
                                },
                            },
                        }
                    },
                },
            }
        },
        SwEvaluator::DecodeHex { a } => {
            let (r1, c1) = spec_eval(*a, ctx);
            match r1 {
                Err(err) => (Err(err), c1),
                Ok(x) => match as_string(x) {
                    Err(err) => (Err(err), c1),
                    Ok(t) => if !hex_cuttable(t) {
                        (Err(EvalError::NotHexPairs), c1)
                    } else {
                        match decode_hex_from(encode_utf8(t), 0) {
                            Some(v) => (Ok(SwValueV::Str(trim_ws(utf8_lossy(v)))), c1),
                            None => (Ok(SwValueV::Empty), c1),
                        }
                    },
                },
            }
        },
        SwEvaluator::In { a, args, .. } => {
            let (r1, c1) = spec_eval(*a, ctx);
            match r1 {
                Err(err) => (Err(err), c1),
                Ok(v) => eval_in(*args, v, c1),
            }
        },
    }
}

/// Whether `v` equals one of the values of a list of expressions,
/// evaluated in order until one does; the first error ends it.
pub open spec fn eval_in(l: ExprList, v: SwValueV, ctx: CtxV) -> (Result<SwValueV, EvalError>, CtxV)
    decreases l,
{
    match l {
        ExprList::Nil => (Ok(SwValueV::Bool(false)), ctx),
        ExprList::Cons(x, rest) => {
            let (r, c) = spec_eval(*x, ctx);
            match r {
                Err(err) => (Err(err), c),
                Ok(w) => if w == v {
                    (Ok(SwValueV::Bool(true)), c)
                } else {
                    eval_in(*rest, v, c)
                },
            }
        },
    }
}

/// `substr(s, f, l)`: the characters of the bytes of `s` from `f` to
/// `f + l` (or to the end, for no `l`, and at most to the end); nothing
/// from a position at or past the end (a negative one counts as past it);
/// a negative length, or a range that cuts a character, is refused.
pub open spec fn substr_of(s: Seq<char>, f: i32, l: Option<i32>) -> Result<SwValueV, EvalError> {
    let b = encode_utf8(s);
    if f < 0 || f >= b.len() {
        Ok(SwValueV::Str(Seq::empty()))
    } else {
        match l {
            Some(k) if k < 0 => Err(EvalError::BadRange),
            _ => {
                let end: int = match l {
                    Some(k) => if f + k > b.len() {
                        b.len() as int
                    } else {
                        f + k
                    },
                    None => b.len() as int,
                };
                if is_char_boundary(b, f as int) && is_char_boundary(b, end) {
                    Ok(SwValueV::Str(decode_utf8(b.subrange(f as int, end))))
                } else {
                    Err(EvalError::BadRange)
                }
            },
        }
    }
}

/// The standard base64 encoding of some bytes without padding: each group
/// of three bytes gives four characters of six bits each, most significant
/// first; a last group of one or two bytes gives two or three characters,
/// filled with zero bits.
pub open spec fn base64_unpadded(d: Seq<u8>) -> Seq<char>
    decreases d.len(),
{
    if d.len() == 0 {
        Seq::empty()
    } else if d.len() == 1 {
        let n = d[0] as nat * 65536;
        seq![base64_char(n / 262144), base64_char((n / 4096) % 64)]
    } else if d.len() == 2 {
        let n = d[0] as nat * 65536 + d[1] as nat * 256;
        seq![base64_char(n / 262144), base64_char((n / 4096) % 64), base64_char((n / 64) % 64)]
    } else {
        let n = d[0] as nat * 65536 + d[1] as nat * 256 + d[2] as nat;
        seq![
            base64_char(n / 262144),
            base64_char((n / 4096) % 64),
            base64_char((n / 64) % 64),
            base64_char(n % 64),
        ] + base64_unpadded(d.skip(3))
    }
}

/// How many pads of `pb` bytes a string of `sb` bytes takes to reach `w`
/// bytes.
pub open spec fn pad_count(sb: nat, w: nat, pb: nat) -> nat
    decreases w + pb - sb,
{
    if pb == 0 || sb >= w {
        0
    } else {
        1 + pad_count(sb + pb, w, pb)
    }
}

/// A string repeated `k` times.
pub open spec fn repeat_text(p: Seq<char>, k: nat) -> Seq<char>
    decreases k,
{
    if k == 0 {
        Seq::empty()
    } else {
        repeat_text(p, (k - 1) as nat) + p
    }
}

/// `lpad(s, w, p)`: `p` put before `s` until it is at least `w` bytes
/// long; a negative width is refused, and so is an empty pad that would
/// never reach it.
pub open spec fn lpad_of(s: Seq<char>, w: i32, p: Seq<char>) -> Result<SwValueV, EvalError> {
    let sb = encode_utf8(s).len();
    let pb = encode_utf8(p).len();
    if w < 0 {
        Err(EvalError::NegativeWidth)
    } else if sb >= w {
        Ok(SwValueV::Str(s))
    } else if pb == 0 {
        Err(EvalError::EmptyPad)
    } else {
        Ok(SwValueV::Str(repeat_text(p, pad_count(sb, w as nat, pb)) + s))
    }
}

/// The lower-case hexadecimal digit of a value below 16.
pub open spec fn hex_digit_char(d: nat) -> char {
    if d < 10 {
        ((48 + d) as u8) as char
    } else {
        ((87 + d) as u8) as char
    }
}

/// A number in lower-case hexadecimal, without leading zeros (`0` for 0).
pub open spec fn hex_text(v: nat) -> Seq<char>
    decreases v,
{
    if v < 16 {
        seq![hex_digit_char(v)]
    } else {
        hex_text(v / 16).push(hex_digit_char(v % 16))
    }
}

/// A text padded on the left with zeros to `w` characters.
pub open spec fn zero_padded(s: Seq<char>, w: nat) -> Seq<char> {
    if s.len() < w {
        Seq::new((w - s.len()) as nat, |i: int| '0') + s
    } else {
        s
    }
}

/// Whether the bytes `nb` stand in `hb` from position `i` on.
pub open spec fn occurs_at(hb: Seq<u8>, nb: Seq<u8>, i: int) -> bool {
    0 <= i && i + nb.len() <= hb.len() && hb.subrange(i, i + nb.len()) == nb
}

/// The first position at which `nb` stands in `hb`, if any.
pub open spec fn first_occurrence(hb: Seq<u8>, nb: Seq<u8>) -> Option<nat> {
    if exists|i: int| #[trigger] occurs_at(hb, nb, i) {
        Some(
            (choose|i: int|
                #[trigger] occurs_at(hb, nb, i) && forall|j: int| 0 <= j < i ==> !occurs_at(hb, nb, j)) as nat,
        )
    } else {
        None
    }
}

/// `(v - lo) * (ohi - olo) / (hi - lo) + olo` in `i32`, each step in range.
pub open spec fn scale_of(v: i32, lo: i32, hi: i32, olo: i32, ohi: i32) -> Result<SwValueV, EvalError> {
    match (v.checked_sub(lo), ohi.checked_sub(olo), hi.checked_sub(lo)) {
        (Some(d), Some(od), Some(span)) => match d.checked_mul(od) {
            None => Err(EvalError::Overflow),
            Some(p) => if span == 0 {
                Err(EvalError::DivisionByZero)
            } else {
                match p.checked_div(span) {
                    None => Err(EvalError::Overflow),
                    Some(q) => num_or_overflow(q.checked_add(olo)),
                }
            },
        },
        _ => Err(EvalError::Overflow),
    }
}

/// An integer in decimal, as `i32_text` says.
pub fn i32_to_text(n: i32) -> (r: String)
    ensures
        r@ == i32_text(n),
{
    if n >= 0 {
        usize_to_decimal(n as usize)
    } else {
        let m: i64 = 0i64 - (n as i64);
        let digits = usize_to_decimal(m as usize);
        let mut r = String::from_str("-");
        proof {
            reveal_strlit("-");
        }
        r.append(digits.as_str());
        r
    }
}

/// Reads an integer as `str::parse::<i32>` does, as `spec_parse_i32` says.
pub fn parse_i32(s: &str) -> (r: Option<i32>)
    ensures
        r == spec_parse_i32(s@),
{
    let cs = chars_of(s);
    if cs.len() > 0 && cs[0] == '-' {
        if cs.len() > 1 && cs[1] == '+' {
            return None;
        }
        let rest = string_of(&cs.as_slice()[1..cs.len()]);
        proof {
            assert(rest@ =~= s@.drop_first());
        }
        match parse_unsigned(rest.as_str(), 0x8000_0000) {
            Some(v) => Some((0i64 - (v as i64)) as i32),
            None => None,
        }
    } else {
        match parse_unsigned(s, 0x7fff_ffff) {
            Some(v) => Some(v as i32),
            None => None,
        }
    }
}

/// The value of a hexadecimal digit character, either case.
pub open spec fn hex_char_value(c: char) -> Option<nat> {
    if '0' <= c && c <= '9' {
        Some((c as nat - 48) as nat)
    } else if 'a' <= c && c <= 'f' {
        Some((c as nat - 87) as nat)
    } else if 'A' <= c && c <= 'F' {
        Some((c as nat - 55) as nat)
    } else {
        None
    }
}

/// The value of a string of hexadecimal digits.
pub open spec fn hex_digits_value(s: Seq<char>) -> nat
    decreases s.len(),
{
    if s.len() == 0 {
        0
    } else {
        hex_digits_value(s.drop_last()) * 16 + match hex_char_value(s.last()) {
            Some(x) => x,
            None => 0,
        }
    }
}

/// A string without its leading sign, where it has one.
pub open spec fn unsigned_part(s: Seq<char>) -> Seq<char> {
    if s.len() > 0 && (s[0] == '-' || s[0] == '+') {
        s.drop_first()
    } else {
        s
    }
}

/// Whether every character is a hexadecimal digit.
pub open spec fn all_hex_digits(d: Seq<char>) -> bool {
    forall|i: int| 0 <= i < d.len() ==> hex_char_value(#[trigger] d[i]) is Some
}

/// What `i32::from_str_radix(s, 16)` gives: an optional sign, then at
/// least one hexadecimal digit (either case), within the range of `i32`.
pub open spec fn spec_parse_hex_i32(s: Seq<char>) -> Option<i32> {
    let neg = s.len() > 0 && s[0] == '-';
    let d = unsigned_part(s);
    if d.len() == 0 || !all_hex_digits(d) {
        None
    } else if neg {
        if hex_digits_value(d) <= 0x8000_0000 {
            Some((-hex_digits_value(d)) as i32)
        } else {
            None
        }
    } else if hex_digits_value(d) <= 0x7fff_ffff {
        Some(hex_digits_value(d) as i32)
    } else {
        None
    }
}

fn hex_char_of(c: char) -> (r: Option<u64>)
    ensures
        match hex_char_value(c) {
            Some(x) => r == Some(x as u64),
            None => r is None,
        },
{
    if '0' <= c && c <= '9' {
        Some((c as u32 - 48) as u64)
    } else if 'a' <= c && c <= 'f' {
        Some((c as u32 - 87) as u64)
    } else if 'A' <= c && c <= 'F' {
        Some((c as u32 - 55) as u64)
    } else {
        None
    }
}

/// Reads a hexadecimal integer, as `spec_parse_hex_i32` says.
pub fn parse_hex_i32(s: &str) -> (r: Option<i32>)
    ensures
        r == spec_parse_hex_i32(s@),
{
    let cs = chars_of(s);
    let neg = cs.len() > 0 && cs[0] == '-';
    let start: usize = if cs.len() > 0 && (cs[0] == '-' || cs[0] == '+') {
        1
    } else {
        0
    };
    let ghost d = unsigned_part(s@);
    proof {
        assert(d =~= cs@.skip(start as int));
    }
    if cs.len() == start {
        return None;
    }
    let max: u64 = if neg {
        0x8000_0000
    } else {
        0x7fff_ffff
    };
    let mut v: u64 = 0;
    let mut over = false;
    let mut i: usize = start;
    proof {
        assert(d.take(0) =~= Seq::<char>::empty());
    }
    while i < cs.len()
        invariant
            start <= i <= cs@.len(),
            cs@ == s@,
            d == cs@.skip(start as int),
            d == unsigned_part(s@),
            neg == (s@.len() > 0 && s@[0] == '-'),
            max == if neg { 0x8000_0000u64 } else { 0x7fff_ffffu64 },
            forall|j: int| 0 <= j < i - start ==> hex_char_value(#[trigger] d[j]) is Some,
            !over ==> v == hex_digits_value(d.take(i - start)) && v <= max,
            over ==> hex_digits_value(d.take(i - start)) > max,
        decreases cs@.len() - i,
    {
        let c = cs[i];
        proof {
            assert(d[i - start] == c);
            assert(d.take(i - start + 1).drop_last() =~= d.take(i - start));
        }
        match hex_char_of(c) {
            None => {
                proof {
                    let k = i - start;
                    assert(0 <= k < d.len() && hex_char_value(d[k]) is None);
                }
                return None;
            },
            Some(x) => {
                if !over {
                    let w = v * 16 + x;
                    if w > max {
                        over = true;
                    } else {
                        v = w;
                    }
                }
            },
        }
        i += 1;
    }
    proof {
        assert(d.take(d.len() as int) =~= d);
    }
    if over {
        None
    } else if neg {
        Some((0i64 - (v as i64)) as i32)
    } else {
        Some(v as i32)
    }
}

/// The position `strpos` gives is one where the needle stands, and it
/// stands nowhere before; where none is given, it stands nowhere.
pub proof fn lemma_first_occurrence(hb: Seq<u8>, nb: Seq<u8>)
    ensures
        first_occurrence(hb, nb) matches Some(p) ==> occurs_at(hb, nb, p as int) && forall|j: int|
            0 <= j < p ==> !#[trigger] occurs_at(hb, nb, j),
        first_occurrence(hb, nb) is None ==> forall|j: int| !#[trigger] occurs_at(hb, nb, j),
{
    if exists|i: int| #[trigger] occurs_at(hb, nb, i) {
        let i0 = choose|i: int| #[trigger] occurs_at(hb, nb, i);
        lemma_least_occurrence(hb, nb, i0);
    }
}

/// Where the needle stands somewhere, there is a first position it stands.
proof fn lemma_least_occurrence(hb: Seq<u8>, nb: Seq<u8>, i: int)
    requires
        occurs_at(hb, nb, i),
    ensures
        exists|c: int| #[trigger] occurs_at(hb, nb, c) && forall|j: int| 0 <= j < c ==> !occurs_at(hb, nb, j),
    decreases i,
{
    if exists|j: int| 0 <= j < i && #[trigger] occurs_at(hb, nb, j) {
        let j = choose|j: int| 0 <= j < i && #[trigger] occurs_at(hb, nb, j);
        lemma_least_occurrence(hb, nb, j);
    } else {
        assert(occurs_at(hb, nb, i) && forall|j: int| 0 <= j < i ==> !occurs_at(hb, nb, j));
    }
}

/// The first position at which `nb` stands in `hb`, as `first_occurrence`
/// says.
pub fn find_bytes(hb: &[u8], nb: &[u8]) -> (r: Option<usize>)
    ensures
        match first_occurrence(hb@, nb@) {
            Some(p) => r == Some(p as usize),
            None => r is None,
        },
{
    if nb.len() > hb.len() {
        proof {
            assert forall|i: int| !#[trigger] occurs_at(hb@, nb@, i) by {}
        }
        return None;
    }
    let hl = hb.len();
    let last = hl - nb.len();
    let mut i: usize = 0;
    loop
        invariant
            hl == hb@.len(),
            last + nb@.len() == hb@.len(),
            i <= last,
            forall|j: int| 0 <= j < i ==> !#[trigger] occurs_at(hb@, nb@, j),
        decreases last - i,
    {
        let mut k: usize = 0;
        while k < nb.len() && hb[i + k] == nb[k]
            invariant
                hl == hb@.len(),
                i <= last,
                last + nb@.len() == hb@.len(),
                k <= nb@.len(),
                forall|m: int| 0 <= m < k ==> hb@[i + m] == nb@[m],
            decreases nb@.len() - k,
        {
            k += 1;
        }
        if k == nb.len() {
            proof {
                assert(hb@.subrange(i as int, i + nb@.len()) =~= nb@);
                assert(occurs_at(hb@, nb@, i as int));
                let c = choose|c: int|
                    #[trigger] occurs_at(hb@, nb@, c) && forall|j: int| 0 <= j < c ==> !occurs_at(hb@, nb@, j);
                assert(occurs_at(hb@, nb@, c) && forall|j: int| 0 <= j < c ==> !occurs_at(hb@, nb@, j));
                if c < i {
                    assert(!occurs_at(hb@, nb@, c));
                }
                if c > i {
                    assert(!occurs_at(hb@, nb@, i as int));
                }
            }
            return Some(i);
        }
        proof {
            assert(hb@.subrange(i as int, i + nb@.len())[k as int] == hb@[i + k]);
            assert(!occurs_at(hb@, nb@, i as int));
        }
        if i == last {
            proof {
                assert forall|j: int| !#[trigger] occurs_at(hb@, nb@, j) by {
                    if 0 <= j <= i {
                    }
                }
            }
            return None;
        }
        i += 1;
    }
}

fn hex_digit_of(d: u32) -> (c: char)
    requires
        d < 16,
    ensures
        c == hex_digit_char(d as nat),
{
    if d < 10 {
        ((48 + d) as u8) as char
    } else {
        ((87 + d) as u8) as char
    }
}

/// Appends a number in hexadecimal, as `hex_text` says.
fn push_hex(v: u32, out: &mut Vec<char>)
    ensures
        final(out)@ == old(out)@ + hex_text(v as nat),
    decreases v,
{
    if v < 16 {
        out.push(hex_digit_of(v));
        proof {
            assert(hex_text(v as nat) == seq![hex_digit_char(v as nat)]);
        }
    } else {
        let ghost o0 = out@;
        push_hex(v / 16, out);
        out.push(hex_digit_of(v % 16));
        proof {
            assert(hex_text(v as nat) == hex_text((v / 16) as nat).push(hex_digit_char((v % 16) as nat)));
            assert(out@ =~= o0 + hex_text(v as nat));
        }
    }
}

/// A number in hexadecimal padded with zeros, as `zero_padded` of
/// `hex_text` says.
pub fn dechex_text(v: u32, w: usize) -> (r: String)
    ensures
        r@ == zero_padded(hex_text(v as nat), w as nat),
{
    let mut digits: Vec<char> = Vec::new();
    push_hex(v, &mut digits);
    proof {
        assert(digits@ =~= hex_text(v as nat));
    }
    let mut out: Vec<char> = Vec::new();
    if digits.len() < w {
        let pad = w - digits.len();
        let mut i: usize = 0;
        while i < pad
            invariant
                i <= pad,
                out@ == Seq::new(i as nat, |k: int| '0'),
            decreases pad - i,
        {
            out.push('0');
            i += 1;
            proof {
                assert(out@ =~= Seq::new(i as nat, |k: int| '0'));
            }
        }
    }
    let ghost o = out@;
    let mut j: usize = 0;
    while j < digits.len()
        invariant
            j <= digits@.len(),
            out@ == o + digits@.take(j as int),
        decreases digits@.len() - j,
    {
        out.push(digits[j]);
        j += 1;
        proof {
            assert(out@ =~= o + digits@.take(j as int));
        }
    }
    proof {
        assert(digits@.take(digits@.len() as int) =~= digits@);
        if hex_text(v as nat).len() < w {
            assert(out@ =~= zero_padded(hex_text(v as nat), w as nat));
        } else {
            assert(o =~= Seq::<char>::empty());
            assert(out@ =~= zero_padded(hex_text(v as nat), w as nat));
        }
    }
    string_of(out.as_slice())
}

/// `lpad(s, w, p)`, as `lpad_of` says.
pub fn lpad(s: String, w: i32, p: String) -> (r: Result<SwValue, EvalError>)
    ensures
        res_view(r) == lpad_of(s@, w, p@),
{
    let sb = s.as_str().as_bytes().len();
    let pb = p.as_str().as_bytes().len();
    if w < 0 {
        return Err(EvalError::NegativeWidth);
    }
    if sb as u128 >= w as u128 {
        return Ok(SwValue::String(s));
    }
    if pb == 0 {
        return Err(EvalError::EmptyPad);
    }
    let wu: u128 = w as u128;
    let pb2: u128 = pb as u128;
    let mut cur: u128 = sb as u128;
    let mut out = String::new();
    let ghost mut k: nat = 0;
    proof {
        assert(out@ =~= repeat_text(p@, 0));
    }
    while cur < wu
        invariant
            pb > 0,
            pb2 == pb,
            wu == w,
            wu < 0x8000_0000,
            pb <= usize::MAX,
            cur <= wu + pb,
            pad_count(sb as nat, wu as nat, pb as nat) == k + pad_count(cur as nat, wu as nat, pb as nat),
            out@ == repeat_text(p@, k),
        decreases wu + pb2 - cur,
    {
        out.append(p.as_str());
        proof {
            k = k + 1;
        }
        cur = cur + pb2;
    }
    out.append(s.as_str());
    Ok(SwValue::String(out))
}

/// A boundary of a string's bytes from `f` on is one of the whole string
/// shifted by `f`.
proof fn lemma_boundary_shift(b: Seq<u8>, f: int, e: int)
    requires
        valid_utf8(b),
        0 <= f <= e <= b.len(),
        is_char_boundary(b, f),
        is_char_boundary(b, e),
        valid_utf8(b.subrange(f, b.len() as int)),
    ensures
        is_char_boundary(b.subrange(f, b.len() as int), e - f),
{
    let r = b.subrange(f, b.len() as int);
    is_char_boundary_start_end_of_seq(r);
    if e - f > 0 && e < b.len() {
        is_char_boundary_iff_not_is_continuation_byte(b, e);
        is_char_boundary_iff_not_is_continuation_byte(r, e - f);
        assert(r[e - f] == b[e]);
    }
}

/// `substr(s, f, l)`, as `substr_of` says.
pub fn substr(s: String, f: i32, l: Option<i32>) -> (r: Result<SwValue, EvalError>)
    ensures
        res_view(r) == substr_of(s@, f, l),
{
    broadcast use vstd::utf8::encode_utf8_valid_utf8;

    let st = s.as_str();
    let len = st.as_bytes().len();
    proof {
        assert(st.spec_bytes() == encode_utf8(s@));
    }
    if f < 0 || f as usize >= len {
        let e = String::new();
        proof {
            assert(e@ =~= Seq::<char>::empty());
        }
        return Ok(SwValue::String(e));
    }
    let fu = f as usize;
    let end: usize = match l {
        None => len,
        Some(k) => {
            if k < 0 {
                return Err(EvalError::BadRange);
            }
            if fu as u64 + k as u64 > len as u64 {
                len
            } else {
                fu + k as usize
            }
        },
    };
    if !st.is_char_boundary(fu) || !st.is_char_boundary(end) {
        return Err(EvalError::BadRange);
    }
    let (_, rest) = st.split_at(fu);
    proof {
        let b = encode_utf8(s@);
        assert(rest.spec_bytes() =~= b.subrange(fu as int, b.len() as int));
        encode_utf8_valid_utf8(rest@);
        lemma_boundary_shift(b, fu as int, end as int);
    }
    let (mid, _) = rest.split_at(end - fu);
    proof {
        let b = encode_utf8(s@);
        assert(mid.spec_bytes() =~= b.subrange(fu as int, end as int));
        encode_utf8_decode_utf8(mid@);
    }
    Ok(SwValue::String(String::from_str(mid)))
}

/// The text of a value, as `display` says.
pub fn value_text(v: &SwValue) -> (r: String)
    ensures
        r@ == display(v@),
{
    proof {
        reveal_strlit("none");
        reveal_strlit("true");
        reveal_strlit("false");
    }
    match v {
        SwValue::Empty => String::from_str("none"),
        SwValue::Bool(b) => if *b {
            String::from_str("true")
        } else {
            String::from_str("false")
        },
        SwValue::String(s) => s.clone(),
        SwValue::Numeric(n) => i32_to_text(*n),
    }
}

/// A value read as a boolean, as `as_bool` says.
pub fn to_bool(v: &SwValue) -> (r: Result<bool, EvalError>)
    ensures
        r == as_bool(v@),
{
    match v {
        SwValue::Bool(b) => Ok(*b),
        SwValue::Numeric(n) => Ok(*n == 1),
        SwValue::String(s) => {
            let t = String::from_str("true");
            proof {
                reveal_strlit("true");
            }
            Ok(*s == t)
        },
        SwValue::Empty => Err(EvalError::NotBool),
    }
}

/// A value read as a string, as `as_string` says.
pub fn to_text(v: &SwValue) -> (r: Result<String, EvalError>)
    ensures
        match as_string(v@) {
            Ok(s) => r matches Ok(t) && t@ == s,
            Err(e) => r == Err::<String, EvalError>(e),
        },
{
    match v {
        SwValue::String(s) => Ok(s.clone()),
        SwValue::Numeric(n) => Ok(i32_to_text(*n)),
        _ => Err(EvalError::NotString),
    }
}

/// A value read as an integer, as `as_numeric` says.
pub fn to_numeric(v: &SwValue) -> (r: Result<i32, EvalError>)
    ensures
        r == as_numeric(v@),
{
    match v {
        SwValue::Numeric(n) => Ok(*n),
        SwValue::String(s) => match parse_i32(s.as_str()) {
            Some(n) => Ok(n),
            None => Err(EvalError::BadNumber),
        },
        _ => Err(EvalError::NotNumeric),
    }
}

/// Whether `a` comes before `b`, as `str_lt` says.
pub fn str_less(a: &str, b: &str) -> (r: bool)
    ensures
        r == str_lt(a@, b@),
{
    let x = chars_of(a);
    let y = chars_of(b);
    let mut i: usize = 0;
    proof {
        assert(a@.skip(0) =~= a@);
        assert(b@.skip(0) =~= b@);
    }
    while i < x.len() && i < y.len() && x[i] == y[i]
        invariant
            i <= x@.len(),
            i <= y@.len(),
            x@ == a@,
            y@ == b@,
            str_lt(a@, b@) == str_lt(a@.skip(i as int), b@.skip(i as int)),
        decreases x@.len() - i,
    {
        proof {
            assert(a@.skip(i as int).drop_first() =~= a@.skip(i + 1));
            assert(b@.skip(i as int).drop_first() =~= b@.skip(i + 1));
        }
        i += 1;
    }
    if i == x.len() {
        i < y.len()
    } else if i == y.len() {
        false
    } else {
        (x[i] as u32) < (y[i] as u32)
    }
}

/// How two values compare, as `compare` says: -1, 0 or 1.
pub fn compare_values(x: &SwValue, y: &SwValue) -> (r: Option<i8>)
    ensures
        match compare(x@, y@) {
            Some(c) => r == Some(c as i8),
            None => r is None,
        },
{
    match x {
        SwValue::Bool(b) => match to_bool(y) {
            Ok(ob) => Some(
                if *b == ob {
                    0
                } else if !*b {
                    -1
                } else {
                    1
                },
            ),
            Err(_) => None,
        },
        SwValue::String(s) => match to_text(y) {
            Ok(os) => Some(
                if *s == os {
                    0
                } else if str_less(s.as_str(), os.as_str()) {
                    -1
                } else {
                    1
                },
            ),
            Err(_) => None,
        },
        SwValue::Numeric(n) => match y {
            SwValue::Numeric(on) => Some(
                if *n == *on {
                    0
                } else if *n < *on {
                    -1
                } else {
                    1
                },
            ),
            _ => None,
        },
        SwValue::Empty => None,
    }
}

/// Whether two values are equal.
pub fn same_value(x: &SwValue, y: &SwValue) -> (r: bool)
    ensures
        r == (x@ == y@),
{
    match (x, y) {
        (SwValue::Empty, SwValue::Empty) => true,
        (SwValue::Bool(a), SwValue::Bool(b)) => *a == *b,
        (SwValue::String(a), SwValue::String(b)) => *a == *b,
        (SwValue::Numeric(a), SwValue::Numeric(b)) => *a == *b,
        _ => false,
    }
}

/// An integer result, or `Overflow`.
fn num_result(r: Option<i32>) -> (out: Result<SwValue, EvalError>)
    ensures
        res_view(out) == num_or_overflow(r),
{
    match r {
        Some(n) => Ok(SwValue::Numeric(n)),
        None => Err(EvalError::Overflow),
    }
}

/// A basic operator on two values, as `spec_std_op` says.
pub fn std_op(op: StdOp, x: &SwValue, y: &SwValue) -> (r: Result<SwValue, EvalError>)
    ensures
        res_view(r) == spec_std_op(op, x@, y@),
{
    match op {
        StdOp::Add => match y {
            SwValue::Numeric(on) => match x {
                SwValue::Numeric(n) => num_result(n.checked_add(*on)),
                _ => {
                    let mut t = value_text(x);
                    let u = i32_to_text(*on);
                    t.append(u.as_str());
                    Ok(SwValue::String(t))
                },
            },
            _ => {
                let mut t = value_text(x);
                let u = value_text(y);
                t.append(u.as_str());
                Ok(SwValue::String(t))
            },
        },
        StdOp::Sub => match (x, y) {
            (SwValue::Numeric(n), SwValue::Numeric(on)) => num_result(n.checked_sub(*on)),
            _ => Ok(SwValue::Empty),
        },
        StdOp::Mul => match (x, y) {
            (SwValue::Numeric(n), SwValue::Numeric(on)) => num_result(n.checked_mul(*on)),
            _ => Ok(SwValue::Empty),
        },
        StdOp::Div => match (x, y) {
            (SwValue::Numeric(n), SwValue::Numeric(on)) => if *on == 0 {
                Err(EvalError::DivisionByZero)
            } else {
                num_result(n.checked_div(*on))
            },
            _ => Ok(SwValue::Empty),
        },
        StdOp::Neg => match x {
            SwValue::Numeric(n) => num_result(0i32.checked_sub(*n)),
            _ => Ok(SwValue::Empty),
        },
        StdOp::BitAnd => match x {
            SwValue::Numeric(n) => match to_numeric(y) {
                Ok(on) => Ok(SwValue::Numeric(*n & on)),
                Err(_) => Ok(SwValue::Empty),
            },
            _ => Ok(SwValue::Empty),
        },
        StdOp::BitOr => match x {
            SwValue::Numeric(n) => match to_numeric(y) {
                Ok(on) => Ok(SwValue::Numeric(*n | on)),
                Err(_) => Ok(SwValue::Empty),
            },
            _ => Ok(SwValue::Empty),
        },
        StdOp::Eq => Ok(SwValue::Bool(same_value(x, y))),
        StdOp::Neq => Ok(SwValue::Bool(!same_value(x, y))),
        StdOp::Lt => Ok(SwValue::Bool(compare_values(x, y) == Some(-1i8))),
        StdOp::Gt => Ok(SwValue::Bool(compare_values(x, y) == Some(1i8))),
        StdOp::BoolNeg => match to_bool(x) {
            Ok(b) => Ok(SwValue::Bool(!b)),
            Err(e) => Err(e),
        },
        StdOp::BoolAnd => match to_bool(x) {
            Err(e) => Err(e),
            Ok(a) => match to_bool(y) {
                Ok(b) => Ok(SwValue::Bool(a && b)),
                Err(e) => Err(e),
            },
        },
        StdOp::BoolOr => match to_bool(x) {
            Err(e) => Err(e),
            Ok(a) => match to_bool(y) {
                Ok(b) => Ok(SwValue::Bool(a || b)),
                Err(e) => Err(e),
            },
        },
    }
}

/// The value under a name, as `lookup` says.
pub fn lookup_value(kvs: &Vec<(String, SwValue)>, k: &str) -> (r: Option<SwValue>)
    ensures
        match lookup(pairs_view(*kvs), k@) {
            Some(v) => r matches Some(x) && x@ == v,
            None => r is None,
        },
{
    let ghost all = pairs_view(*kvs);
    let key = String::from_str(k);
    let mut i: usize = 0;
    proof {
        assert(all.skip(0) =~= all);
    }
    while i < kvs.len()
        invariant
            i <= kvs@.len(),
            all == pairs_view(*kvs),
            key@ == k@,
            lookup(all, k@) == lookup(all.skip(i as int), k@),
        decreases kvs@.len() - i,
    {
        proof {
            assert(all.skip(i as int).drop_first() =~= all.skip(i + 1));
            assert(all.skip(i as int)[0] == all[i as int]);
        }
        if kvs[i].0 == key {
            return Some(kvs[i].1.copy());
        }
        i += 1;
    }
    None
}

/// A name under the context's prefix, as `prefixed` says.
fn prefixed_name(prefix: &Option<String>, name: String) -> (r: String)
    ensures
        r@ == prefixed(
            match *prefix {
                Some(p) => Some(p@),
                None => None,
            },
            name@,
        ),
{
    match prefix {
        Some(p) => {
            let mut r = p.clone();
            proof {
                reveal_strlit(".");
            }
            r.append(".");
            r.append(name.as_str());
            r
        },
        None => name,
    }
}

impl SwEvaluator {
    /// Evaluates the expression in a context, as `spec_eval` says.
    pub fn eval(&self, ctx: &mut SwEvalCtx) -> (r: Result<SwValue, EvalError>)
        ensures
            (res_view(r), final(ctx)@) == spec_eval(*self, old(ctx)@),
        decreases self, 1int,
    {
        proof {
            reveal(spec_eval);
        }
        match self {
            SwEvaluator::SwValue(v) => Ok(v.copy()),
            SwEvaluator::Text(t) => Ok(SwValue::String(char_list_string(t))),
            SwEvaluator::Topic => match &ctx.topic {
                Some(t) => Ok(SwValue::String(t.clone())),
                None => Err(EvalError::NoTopic),
            },
            SwEvaluator::Now => Ok(SwValue::Numeric(ctx.now)),
            SwEvaluator::Std { .. } => self.eval_std(ctx),
            SwEvaluator::Semicolon { .. } => self.eval_semicolon(ctx),
            SwEvaluator::If { .. } => self.eval_if(ctx),
            SwEvaluator::Val { .. } => self.eval_val(ctx),
            SwEvaluator::Const { .. } => self.eval_const(ctx),
            SwEvaluator::Duration { .. } => self.eval_duration(ctx),
            SwEvaluator::Scale { .. } => self.eval_scale(ctx),
            SwEvaluator::ParseNum { .. } => self.eval_parse_num(ctx),
            SwEvaluator::Hexdec { .. } => self.eval_hexdec(ctx),
            SwEvaluator::Strpos { .. } => self.eval_strpos(ctx),
            SwEvaluator::Dechex { .. } => self.eval_dechex(ctx),
            SwEvaluator::Base64 { .. } => self.eval_base64(ctx),
            SwEvaluator::Lpad { .. } => self.eval_lpad(ctx),
            SwEvaluator::Substr { .. } => self.eval_substr(ctx),
            SwEvaluator::DecodeHex { .. } => self.eval_decode_hex(ctx),
            SwEvaluator::In { .. } => self.eval_in_list(ctx),
        }
    }

    /// A basic operator.
    #[verifier::rlimit(100)]
    #[verifier::spinoff_prover]
    fn eval_std(&self, ctx: &mut SwEvalCtx) -> (r: Result<SwValue, EvalError>)
        requires
            *self is Std,
        ensures
            (res_view(r), final(ctx)@) == spec_eval(*self, old(ctx)@),
        decreases self, 0int,
    {
        proof {
            reveal(spec_eval);
        }
        match self {
            SwEvaluator::Std { op, a1, a2 } => {
                let x = match a1.eval(ctx) {
                    Err(e) => {
                        return Err(e);
                    },
                    Ok(x) => x,
                };
                if *op == StdOp::Neg || *op == StdOp::BoolNeg {
                    return std_op(*op, &x, &SwValue::Empty);
                }
                if *op == StdOp::BoolAnd || *op == StdOp::BoolOr {
                    match to_bool(&x) {
                        Err(_) => {
                            return Err(EvalError::NotBool);
                        },
                        Ok(b) => {
                            if *op == StdOp::BoolAnd && !b {
                                return Ok(SwValue::Bool(false));
                            }
                            if *op == StdOp::BoolOr && b {
                                return Ok(SwValue::Bool(true));
                            }
                        },
                    }
                }
                let y = match a2.eval(ctx) {
                    Err(e) => {
                        return Err(e);
                    },
                    Ok(y) => y,
                };
                std_op(*op, &x, &y)
            },
            _ => Err(EvalError::NoValue),
        }
    }

    /// `a1; a2`.
    #[verifier::rlimit(100)]
    #[verifier::spinoff_prover]
    fn eval_semicolon(&self, ctx: &mut SwEvalCtx) -> (r: Result<SwValue, EvalError>)
        requires
            *self is Semicolon,
        ensures
            (res_view(r), final(ctx)@) == spec_eval(*self, old(ctx)@),
        decreases self, 0int,
    {
        proof {
            reveal(spec_eval);
        }
        match self {
            SwEvaluator::Semicolon { a1, a2 } => {
                match a1.eval(ctx) {
                    Err(e) => {
                        return Err(e);
                    },
                    Ok(_) => {},
                }
                a2.eval(ctx)
            },
            _ => Err(EvalError::NoValue),
        }
    }

    /// `if`.
    #[verifier::rlimit(100)]
    #[verifier::spinoff_prover]
    fn eval_if(&self, ctx: &mut SwEvalCtx) -> (r: Result<SwValue, EvalError>)
        requires
            *self is If,
        ensures
            (res_view(r), final(ctx)@) == spec_eval(*self, old(ctx)@),
        decreases self, 0int,
    {
        proof {
            reveal(spec_eval);
        }
        match self {
            SwEvaluator::If { n, a1, a2, a3 } => {
                let x = match a1.eval(ctx) {
                    Err(e) => {
                        return Err(e);
                    },
                    Ok(x) => x,
                };
                match to_bool(&x) {
                    Err(e) => Err(e),
                    Ok(true) => a2.eval(ctx),
                    Ok(false) => if *n < 3 {
                        Ok(SwValue::Empty)
                    } else {
                        a3.eval(ctx)
                    },
                }
            },
            _ => Err(EvalError::NoValue),
        }
    }

    /// `val`.
    #[verifier::rlimit(100)]
    #[verifier::spinoff_prover]
    fn eval_val(&self, ctx: &mut SwEvalCtx) -> (r: Result<SwValue, EvalError>)
        requires
            *self is Val,
        ensures
            (res_view(r), final(ctx)@) == spec_eval(*self, old(ctx)@),
        decreases self, 0int,
    {
        proof {
            reveal(spec_eval);
        }
        match self {
            SwEvaluator::Val { n, a1, a2 } => {
                if *n == 0 {
                    match &ctx.data {
                        Some(d) => Ok(SwValue::String(d.clone())),
                        None => match &ctx.val {
                            Some(v) => Ok(v.copy()),
                            None => Err(EvalError::NoValue),
                        },
                    }
                } else if *n == 1 {
                    let name = match a1.eval(ctx) {
                        Err(e) => {
                            return Err(e);
                        },
                        Ok(x) => x,
                    };
                    match &ctx.vals {
                        None => Err(EvalError::NoVals),
                        Some(vals) => match to_text(&name) {
                            Err(e) => Err(e),
                            Ok(s) => {
                                let full = prefixed_name(&ctx.vals_prefix, s);
                                match lookup_value(vals, full.as_str()) {
                                    Some(v) => Ok(v),
                                    None => Ok(SwValue::Empty),
                                }
                            },
                        },
                    }
                } else if *n == 2 {
                    let name = match a1.eval(ctx) {
                        Err(e) => {
                            return Err(e);
                        },
                        Ok(x) => x,
                    };
                    let s = match to_text(&name) {
                        Err(e) => {
                            return Err(e);
                        },
                        Ok(s) => s,
                    };
                    let value = match a2.eval(ctx) {
                        Err(e) => {
                            return Err(e);
                        },
                        Ok(v) => v,
                    };
                    let full = prefixed_name(&ctx.vals_prefix, s);
                    match &mut ctx.msgs {
                        None => Err(EvalError::NoMsgs),
                        Some(ms) => {
                            let ghost m0 = pairs_view(*ms);
                            let ghost item = (full@, value@);
                            ms.push((full, value));
                            proof {
                                assert(pairs_view(*ms) =~= m0.push(item));
                            }
                            Ok(SwValue::Empty)
                        },
                    }
                } else {
                    Err(EvalError::TooManyArgs)
                }
            },
            _ => Err(EvalError::NoValue),
        }
    }

    /// `const`.
    #[verifier::rlimit(100)]
    #[verifier::spinoff_prover]
    fn eval_const(&self, ctx: &mut SwEvalCtx) -> (r: Result<SwValue, EvalError>)
        requires
            *self is Const,
        ensures
            (res_view(r), final(ctx)@) == spec_eval(*self, old(ctx)@),
        decreases self, 0int,
    {
        proof {
            reveal(spec_eval);
        }
        match self {
            SwEvaluator::Const { a } => {
                let name = match a.eval(ctx) {
                    Err(e) => {
                        return Err(e);
                    },
                    Ok(x) => x,
                };
                match &ctx.dev {
                    None => Err(EvalError::NoDev),
                    Some(dev) => match &dev.consts {
                        None => Ok(SwValue::Empty),
                        Some(consts) => match to_text(&name) {
                            Err(e) => Err(e),
                            Ok(s) => match lookup_value(consts, s.as_str()) {
                                Some(v) => Ok(v),
                                None => Ok(SwValue::Empty),
                            },
                        },
                    },
                }
            },
            _ => Err(EvalError::NoValue),
        }
    }

    /// `duration`.
    #[verifier::rlimit(100)]
    #[verifier::spinoff_prover]
    fn eval_duration(&self, ctx: &mut SwEvalCtx) -> (r: Result<SwValue, EvalError>)
        requires
            *self is Duration,
        ensures
            (res_view(r), final(ctx)@) == spec_eval(*self, old(ctx)@),
        decreases self, 0int,
    {
        proof {
            reveal(spec_eval);
        }
        match self {
            SwEvaluator::Duration { n, a1, a2 } => {
                let t = match a2.eval(ctx) {
                    Err(e) => {
                        return Err(e);
                    },
                    Ok(x) => x,
                };
                let to = match to_numeric(&t) {
                    Err(e) => {
                        return Err(e);
                    },
                    Ok(v) => v,
                };
                let f = match a1.eval(ctx) {
                    Err(e) => {
                        return Err(e);
                    },
                    Ok(x) => x,
                };
                let from = match to_numeric(&f) {
                    Err(e) => {
                        return Err(e);
                    },
                    Ok(v) => v,
                };
                num_result(to.checked_sub(from))
            },
            _ => Err(EvalError::NoValue),
        }
    }

    /// `scale`.
    #[verifier::rlimit(100)]
    #[verifier::spinoff_prover]
    fn eval_scale(&self, ctx: &mut SwEvalCtx) -> (r: Result<SwValue, EvalError>)
        requires
            *self is Scale,
        ensures
            (res_view(r), final(ctx)@) == spec_eval(*self, old(ctx)@),
        decreases self, 0int,
    {
        proof {
            reveal(spec_eval);
        }
        match self {
            SwEvaluator::Scale { a1, a2, a3, a4, a5 } => {
                let x = match a1.eval(ctx) {
                    Err(e) => {
                        return Err(e);
                    },
                    Ok(x) => x,
                };
                if let SwValue::Empty = x {
                    return Ok(SwValue::Empty);
                }
                let v = match to_numeric(&x) {
                    Err(e) => {
                        return Err(e);
                    },
                    Ok(v) => v,
                };
                let lo = match self::eval_numeric(a2, ctx) {
                    Err(e) => {
                        return Err(e);
                    },
                    Ok(v) => v,
                };
                let hi = match self::eval_numeric(a3, ctx) {
                    Err(e) => {
                        return Err(e);
                    },
                    Ok(v) => v,
                };
                let olo = match self::eval_numeric(a4, ctx) {
                    Err(e) => {
                        return Err(e);
                    },
                    Ok(v) => v,
                };
                let ohi = match self::eval_numeric(a5, ctx) {
                    Err(e) => {
                        return Err(e);
                    },
                    Ok(v) => v,
                };
                scale_values(v, lo, hi, olo, ohi)
            },
            _ => Err(EvalError::NoValue),
        }
    }

    /// `parse_num`.
    #[verifier::rlimit(100)]
    #[verifier::spinoff_prover]
    fn eval_parse_num(&self, ctx: &mut SwEvalCtx) -> (r: Result<SwValue, EvalError>)
        requires
            *self is ParseNum,
        ensures
            (res_view(r), final(ctx)@) == spec_eval(*self, old(ctx)@),
        decreases self, 0int,
    {
        proof {
            reveal(spec_eval);
        }
        match self {
            SwEvaluator::ParseNum { a } => {
                let x = match a.eval(ctx) {
                    Err(e) => {
                        return Err(e);
                    },
                    Ok(x) => x,
                };
                match to_text(&x) {
                    Err(e) => Err(e),
                    Ok(s) => match parse_i32(s.as_str()) {
                        Some(n) => Ok(SwValue::Numeric(n)),
                        None => Err(EvalError::BadNumber),
                    },
                }
            },
            _ => Err(EvalError::NoValue),
        }
    }

    #[verifier::rlimit(100)]
    #[verifier::spinoff_prover]
    fn eval_hexdec(&self, ctx: &mut SwEvalCtx) -> (r: Result<SwValue, EvalError>)
        requires
            *self is Hexdec,
        ensures
            (res_view(r), final(ctx)@) == spec_eval(*self, old(ctx)@),
        decreases self, 0int,
    {
        proof {
            reveal(spec_eval);
        }
        match self {
            SwEvaluator::Hexdec { a } => {
                let x = match a.eval(ctx) {
                    Err(e) => {
                        return Err(e);
                    },
                    Ok(x) => x,
                };
                match to_text(&x) {
                    Err(e) => Err(e),
                    Ok(s) => match parse_hex_i32(s.as_str()) {
                        Some(n) => Ok(SwValue::Numeric(n)),
                        None => Ok(SwValue::Empty),
                    },
                }
            },
            _ => Err(EvalError::NoValue),
        }
    }

    #[verifier::rlimit(100)]
    #[verifier::spinoff_prover]
    fn eval_strpos(&self, ctx: &mut SwEvalCtx) -> (r: Result<SwValue, EvalError>)
        requires
            *self is Strpos,
        ensures
            (res_view(r), final(ctx)@) == spec_eval(*self, old(ctx)@),
        decreases self, 0int,
    {
        proof {
            reveal(spec_eval);
        }
        match self {
            SwEvaluator::Strpos { a1, a2 } => match a1.eval(ctx) {
                Err(e) => Err(e),
                Ok(x) => match to_text(&x) {
                    Err(e) => Err(e),
                    Ok(h) => match a2.eval(ctx) {
                        Err(e) => Err(e),
                        Ok(y) => match to_text(&y) {
                            Err(e) => Err(e),
                            Ok(n) => match find_bytes(h.as_str().as_bytes(), n.as_str().as_bytes()) {
                                Some(p) => Ok(SwValue::Numeric(p as i32)),
                                None => Ok(SwValue::Empty),
                            },
                        },
                    },
                },
            },
            _ => Err(EvalError::NoValue),
        }
    }

    #[verifier::rlimit(100)]
    #[verifier::spinoff_prover]
    fn eval_dechex(&self, ctx: &mut SwEvalCtx) -> (r: Result<SwValue, EvalError>)
        requires
            *self is Dechex,
        ensures
            (res_view(r), final(ctx)@) == spec_eval(*self, old(ctx)@),
        decreases self, 0int,
    {
        proof {
            reveal(spec_eval);
        }
        match self {
            SwEvaluator::Dechex { a1, a2 } => match a2.eval(ctx) {
                Err(e) => Err(e),
                Ok(x) => match to_numeric(&x) {
                    Err(e) => Err(e),
                    Ok(w) => match a1.eval(ctx) {
                        Err(e) => Err(e),
                        Ok(y) => match to_numeric(&y) {
                            Err(e) => Err(e),
                            Ok(n) => if w < 0 {
                                Err(EvalError::NegativeWidth)
                            } else {
                                Ok(SwValue::String(dechex_text(n as u32, w as usize)))
                            },
                        },
                    },
                },
            },
            _ => Err(EvalError::NoValue),
        }
    }

    #[verifier::rlimit(100)]
    #[verifier::spinoff_prover]
    fn eval_base64(&self, ctx: &mut SwEvalCtx) -> (r: Result<SwValue, EvalError>)
        requires
            *self is Base64,
        ensures
            (res_view(r), final(ctx)@) == spec_eval(*self, old(ctx)@),
        decreases self, 0int,
    {
        proof {
            reveal(spec_eval);
        }
        match self {
            SwEvaluator::Base64 { a } => match a.eval(ctx) {
                Err(e) => Err(e),
                Ok(x) => match to_text(&x) {
                    Err(e) => Err(e),
                    Ok(t) => Ok(SwValue::String(base64_no_pad(t.as_str().as_bytes()))),
                },
            },
            _ => Err(EvalError::NoValue),
        }
    }

    #[verifier::rlimit(100)]
    #[verifier::spinoff_prover]
    fn eval_lpad(&self, ctx: &mut SwEvalCtx) -> (r: Result<SwValue, EvalError>)
        requires
            *self is Lpad,
        ensures
            (res_view(r), final(ctx)@) == spec_eval(*self, old(ctx)@),
        decreases self, 0int,
    {
        proof {
            reveal(spec_eval);
        }
        match self {
            SwEvaluator::Lpad { a1, a2, a3 } => match a1.eval(ctx) {
                Err(e) => Err(e),
                Ok(x1) => match to_text(&x1) {
                    Err(e) => Err(e),
                    Ok(t) => match a2.eval(ctx) {
                        Err(e) => Err(e),
                        Ok(x2) => match to_numeric(&x2) {
                            Err(e) => Err(e),
                            Ok(w) => match a3.eval(ctx) {
                                Err(e) => Err(e),
                                Ok(x3) => match to_text(&x3) {
                                    Err(e) => Err(e),
                                    Ok(p) => lpad(t, w, p),
                                },
                            },
                        },
                    },
                },
            },
            _ => Err(EvalError::NoValue),
        }
    }

    #[verifier::rlimit(100)]
    #[verifier::spinoff_prover]
    fn eval_substr(&self, ctx: &mut SwEvalCtx) -> (r: Result<SwValue, EvalError>)
        requires
            *self is Substr,
        ensures
            (res_view(r), final(ctx)@) == spec_eval(*self, old(ctx)@),
        decreases self, 0int,
    {
        proof {
            reveal(spec_eval);
        }
        match self {
            SwEvaluator::Substr { n, a1, a2, a3 } => match a1.eval(ctx) {
                Err(e) => Err(e),
                Ok(x1) => match to_text(&x1) {
                    Err(e) => Err(e),
                    Ok(t) => match a2.eval(ctx) {
                        Err(e) => Err(e),
                        Ok(x2) => match to_numeric(&x2) {
                            Err(e) => Err(e),
                            Ok(f) => if *n < 3 {
                                substr(t, f, None)
                            } else {
                                match a3.eval(ctx) {
                                    Err(e) => Err(e),
                                    Ok(x3) => match to_numeric(&x3) {
                                        Err(e) => Err(e),
                                        Ok(l) => substr(t, f, Some(l)),
                                    },
                                }
                            },
                        },
                    },
                },
            },
            _ => Err(EvalError::NoValue),
        }
    }

    #[verifier::rlimit(100)]
    #[verifier::spinoff_prover]
    fn eval_decode_hex(&self, ctx: &mut SwEvalCtx) -> (r: Result<SwValue, EvalError>)
        requires
            *self is DecodeHex,
        ensures
            (res_view(r), final(ctx)@) == spec_eval(*self, old(ctx)@),
        decreases self, 0int,
    {
        proof {
            reveal(spec_eval);
        }
        match self {
            SwEvaluator::DecodeHex { a } => match a.eval(ctx) {
                Err(e) => Err(e),
                Ok(x) => match to_text(&x) {
                    Err(e) => Err(e),
                    Ok(t) => {
                        let ts = t.as_str();
                        if !is_hex_cuttable(ts) {
                            Err(EvalError::NotHexPairs)
                        } else {
                            proof {
                                assert(ts.spec_bytes() == encode_utf8(t@));
                            }
                            match decode_hex(ts) {
                                Ok(v) => {
                                    let l = from_utf8_lossy(v.as_slice());
                                    Ok(SwValue::String(trim_text(l.as_str())))
                                },
                                Err(_) => Ok(SwValue::Empty),
                            }
                        }
                    },
                },
            },
            _ => Err(EvalError::NoValue),
        }
    }

    #[verifier::rlimit(100)]
    #[verifier::spinoff_prover]
    fn eval_in_list(&self, ctx: &mut SwEvalCtx) -> (r: Result<SwValue, EvalError>)
        requires
            *self is In,
        ensures
            (res_view(r), final(ctx)@) == spec_eval(*self, old(ctx)@),
        decreases self, 0int,
    {
        proof {
            reveal(spec_eval);
        }
        match self {
            SwEvaluator::In { a, args, .. } => match a.eval(ctx) {
                Err(e) => Err(e),
                Ok(v) => find_equal(args, &v, ctx),
            },
            _ => Err(EvalError::NoValue),
        }
    }
}

/// Whether `v` equals one of the values of a list, as `eval_in` says.
fn find_equal(l: &ExprList, v: &SwValue, ctx: &mut SwEvalCtx) -> (r: Result<SwValue, EvalError>)
    ensures
        (res_view(r), final(ctx)@) == eval_in(*l, v@, old(ctx)@),
    decreases l, 2int,
{
    proof {
        reveal(spec_eval);
    }
    match l {
        ExprList::Nil => Ok(SwValue::Bool(false)),
        ExprList::Cons(x, rest) => match x.eval(ctx) {
            Err(e) => Err(e),
            Ok(w) => if same_value(&w, v) {
                Ok(SwValue::Bool(true))
            } else {
                find_equal(rest, v, ctx)
            },
        },
    }
}

/// Evaluates an expression and reads its value as an integer.
fn eval_numeric(e: &SwEvaluator, ctx: &mut SwEvalCtx) -> (r: Result<i32, EvalError>)
    ensures
        ({
            let (r0, c) = spec_eval(*e, old(ctx)@);
            &&& final(ctx)@ == c
            &&& r == match r0 {
                Err(err) => Err(err),
                Ok(x) => as_numeric(x),
            }
        }),
    decreases e, 2int,
{
    match e.eval(ctx) {
        Err(err) => Err(err),
        Ok(x) => to_numeric(&x),
    }
}

/// `scale_of` computed.
fn scale_values(v: i32, lo: i32, hi: i32, olo: i32, ohi: i32) -> (r: Result<SwValue, EvalError>)
    ensures
        res_view(r) == scale_of(v, lo, hi, olo, ohi),
{
    match (v.checked_sub(lo), ohi.checked_sub(olo), hi.checked_sub(lo)) {
        (Some(d), Some(od), Some(span)) => match d.checked_mul(od) {
            None => Err(EvalError::Overflow),
            Some(p) => if span == 0 {
                Err(EvalError::DivisionByZero)
            } else {
                match p.checked_div(span) {
                    None => Err(EvalError::Overflow),
                    Some(q) => num_result(q.checked_add(olo)),
                }
            },
        },
        _ => Err(EvalError::Overflow),
    }
}

/// Whether a string starts with the word `w`.
pub open spec fn starts(s: Seq<char>, w: Seq<char>) -> bool {
    w.len() <= s.len() && s.take(w.len() as int) == w
}

/// A nothing literal, the default operand.
pub open spec fn def_arg() -> Box<SwEvaluator> {
    Box::new(SwEvaluator::SwValue(SwValue::Empty))
}

/// The names of functions that this evaluator does not evaluate, by length
/// (these take dates, floating-point numbers, JSON, maps, vectors or
/// Zigbee data): a string that starts with one is no expression here.
pub open spec fn other_function(s: Seq<char>, k: int) -> bool {
    if k == 3 {
        starts(s, "map"@) || starts(s, "vec"@) || starts(s, "day"@)
    } else if k == 4 {
        starts(s, "date"@) || starts(s, "time"@) || starts(s, "send"@)
    } else if k == 5 {
        starts(s, "match"@)
    } else if k == 6 {
        starts(s, "fr_val"@)
    } else if k == 8 {
        starts(s, "json_val"@) || starts(s, "zb_match"@)
    } else {
        false
    }
}

/// The function of this evaluator a string starts with, by the length of
/// its name, with default arguments.
pub open spec fn own_function(s: Seq<char>, k: int) -> Option<SwEvaluator> {
    if k == 1 && starts(s, ";"@) {
        Some(SwEvaluator::Semicolon { a1: def_arg(), a2: def_arg() })
    } else if k == 2 && starts(s, "if"@) {
        Some(SwEvaluator::If { n: 3, a1: def_arg(), a2: def_arg(), a3: def_arg() })
    } else if k == 2 && starts(s, "in"@) {
        Some(SwEvaluator::In { n: 0, a: def_arg(), args: Box::new(ExprList::Nil) })
    } else if k == 3 && starts(s, "val"@) {
        Some(SwEvaluator::Val { n: 0, a1: def_arg(), a2: def_arg() })
    } else if k == 3 && starts(s, "now"@) {
        Some(SwEvaluator::Now)
    } else if k == 5 && starts(s, "const"@) {
        Some(SwEvaluator::Const { a: def_arg() })
    } else if k == 5 && starts(s, "topic"@) {
        Some(SwEvaluator::Topic)
    } else if k == 5 && starts(s, "scale"@) {
        Some(
            SwEvaluator::Scale {
                a1: def_arg(),
                a2: def_arg(),
                a3: def_arg(),
                a4: def_arg(),
                a5: def_arg(),
            },
        )
    } else if k == 8 && starts(s, "duration"@) {
        Some(SwEvaluator::Duration { n: 0, a1: def_arg(), a2: def_arg() })
    } else if k == 6 && starts(s, "hexdec"@) {
        Some(SwEvaluator::Hexdec { a: def_arg() })
    } else if k == 6 && starts(s, "strpos"@) {
        Some(SwEvaluator::Strpos { a1: def_arg(), a2: def_arg() })
    } else if k == 6 && starts(s, "dechex"@) {
        Some(SwEvaluator::Dechex { a1: def_arg(), a2: def_arg() })
    } else if k == 6 && starts(s, "substr"@) {
        Some(SwEvaluator::Substr { n: 3, a1: def_arg(), a2: def_arg(), a3: def_arg() })
    } else if k == 6 && starts(s, "base64"@) {
        Some(SwEvaluator::Base64 { a: def_arg() })
    } else if k == 4 && starts(s, "lpad"@) {
        Some(SwEvaluator::Lpad { a1: def_arg(), a2: def_arg(), a3: def_arg() })
    } else if k == 9 && starts(s, "parse_num"@) {
        Some(SwEvaluator::ParseNum { a: def_arg() })
    } else if k == 10 && starts(s, "decode_hex"@) {
        Some(SwEvaluator::DecodeHex { a: def_arg() })
    } else {
        None
    }
}

/// The function names are looked for by their length, shortest first, and
/// the first name found decides.
pub open spec fn name_at(s: Seq<char>, k: int) -> Option<Option<SwEvaluator>>
    decreases 11 - k,
{
    if k > 10 {
        None
    } else if own_function(s, k) is Some {
        Some(own_function(s, k))
    } else if other_function(s, k) {
        Some(None)
    } else {
        name_at(s, k + 1)
    }
}

/// A literal word: `none`, `true`, `false`, or an integer.
pub open spec fn literal_of(s: Seq<char>) -> Option<SwValueV> {
    if s == "none"@ {
        Some(SwValueV::Empty)
    } else if s == "true"@ {
        Some(SwValueV::Bool(true))
    } else if s == "false"@ {
        Some(SwValueV::Bool(false))
    } else {
        match spec_parse_i32(s) {
            Some(n) => Some(SwValueV::Num(n)),
            None => None,
        }
    }
}

/// Whether reading the function names cuts no character of the string
/// in two: each length at which a name is looked for (all up to the one
/// that decides) ends on a character boundary of its UTF-8 bytes.
pub open spec fn names_cut_whole(s: Seq<char>) -> bool {
    forall|k: int|
        1 <= k <= 10 && k <= encode_utf8(s).len() && (forall|j: int|
            1 <= j < k ==> !(#[trigger] own_function(s, j) is Some) && !other_function(s, j))
            ==> #[trigger] is_char_boundary(encode_utf8(s), k)
}

/// The expression a word of an automation starts with, and the number of
/// characters it takes: a basic operator; else the first function name
/// (which this evaluator must know); else, unless only operators are
/// looked for (`ahead`), the whole word as a literal.
pub open spec fn spec_match_name(s: Seq<char>, ahead: bool) -> Option<(SwEvaluator, nat)> {
    match std_match(s) {
        Some((op, l)) => Some((SwEvaluator::Std { op, a1: def_arg(), a2: def_arg() }, l)),
        None => match name_at(s, 1) {
            Some(Some(e)) => Some((e, own_len(e))),
            Some(None) => None,
            None => if ahead {
                None
            } else {
                match literal_of(s) {
                    Some(v) => Some((SwEvaluator::SwValue(lit_of(v)), s.len())),
                    None => None,
                }
            },
        },
    }
}

/// The length of the name of a function.
pub open spec fn own_len(e: SwEvaluator) -> nat {
    match e {
        SwEvaluator::Semicolon { .. } => 1,
        SwEvaluator::If { .. } => 2,
        SwEvaluator::Val { .. } | SwEvaluator::Now => 3,
        SwEvaluator::Const { .. } | SwEvaluator::Topic | SwEvaluator::Scale { .. } => 5,
        SwEvaluator::Duration { .. } => 8,
        SwEvaluator::ParseNum { .. } => 9,
        SwEvaluator::Hexdec { .. } => 6,
        SwEvaluator::Strpos { .. } => 6,
        SwEvaluator::Dechex { .. } => 6,
        SwEvaluator::Base64 { .. } => 6,
        SwEvaluator::Substr { .. } => 6,
        SwEvaluator::DecodeHex { .. } => 10,
        SwEvaluator::In { .. } => 2,
        SwEvaluator::Lpad { .. } => 4,
        _ => 0,
    }
}

/// The value of a literal's model.
pub open spec fn lit_of(v: SwValueV) -> SwValue {
    match v {
        SwValueV::Empty => SwValue::Empty,
        SwValueV::Bool(b) => SwValue::Bool(b),
        SwValueV::Num(n) => SwValue::Numeric(n),
        SwValueV::Str(_) => SwValue::Empty,
    }
}

/// Whether the characters start with the word `w`, as `starts` says.
pub(crate) fn starts_with(cs: &Vec<char>, w: &str) -> (r: bool)
    ensures
        r == starts(cs@, w@),
{
    let wc = chars_of(w);
    if wc.len() > cs.len() {
        return false;
    }
    let mut i: usize = 0;
    while i < wc.len()
        invariant
            i <= wc@.len(),
            wc@.len() <= cs@.len(),
            wc@ == w@,
            forall|j: int| 0 <= j < i ==> cs@[j] == wc@[j],
        decreases wc@.len() - i,
    {
        if cs[i] != wc[i] {
            proof {
                assert(cs@.take(w@.len() as int)[i as int] != w@[i as int]);
            }
            return false;
        }
        i += 1;
    }
    proof {
        assert(cs@.take(w@.len() as int) =~= w@);
    }
    true
}

/// A default operand.
fn def_box() -> (r: Box<SwEvaluator>)
    ensures
        r == def_arg(),
{
    Box::new(SwEvaluator::SwValue(SwValue::Empty))
}

impl SwEvaluator {
    /// The expression a word starts with, as `spec_match_name` says.
    pub fn match_name(s: &str, ahead: bool) -> (r: Option<(SwEvaluator, usize)>)
        requires
            std_match_defined(s@),
            names_cut_whole(s@),
        ensures
            match spec_match_name(s@, ahead) {
                Some((e, l)) => r matches Some((x, k)) && x == e && k == l,
                None => r is None,
            },
    {
        match match_std_op(s) {
            Some((op, l)) => {
                return Some((SwEvaluator::Std { op, a1: def_box(), a2: def_box() }, l));
            },
            None => {},
        }
        let cs = chars_of(s);
        let ghost t = s@;
        proof {
            reveal_with_fuel(name_at, 11);
        }
        if starts_with(&cs, ";") {
            return Some((SwEvaluator::Semicolon { a1: def_box(), a2: def_box() }, 1));
        }
        if starts_with(&cs, "if") {
            return Some((SwEvaluator::If { n: 3, a1: def_box(), a2: def_box(), a3: def_box() }, 2));
        }
        if starts_with(&cs, "in") {
            return Some((SwEvaluator::In { n: 0, a: def_box(), args: Box::new(ExprList::Nil) }, 2));
        }
        if starts_with(&cs, "val") {
            return Some((SwEvaluator::Val { n: 0, a1: def_box(), a2: def_box() }, 3));
        }
        if starts_with(&cs, "now") {
            return Some((SwEvaluator::Now, 3));
        }
        if starts_with(&cs, "map") || starts_with(&cs, "vec") || starts_with(&cs, "day") {
            return None;
        }
        if starts_with(&cs, "lpad") {
            return Some((SwEvaluator::Lpad { a1: def_box(), a2: def_box(), a3: def_box() }, 4));
        }
        if starts_with(&cs, "date") || starts_with(&cs, "time") {
            return None;
        }
        if starts_with(&cs, "send") {
            return None;
        }
        if starts_with(&cs, "const") {
            return Some((SwEvaluator::Const { a: def_box() }, 5));
        }
        if starts_with(&cs, "topic") {
            return Some((SwEvaluator::Topic, 5));
        }
        if starts_with(&cs, "scale") {
            return Some(
                (
                    SwEvaluator::Scale {
                        a1: def_box(),
                        a2: def_box(),
                        a3: def_box(),
                        a4: def_box(),
                        a5: def_box(),
                    },
                    5,
                ),
            );
        }
        if starts_with(&cs, "match") {
            return None;
        }
        if starts_with(&cs, "hexdec") {
            return Some((SwEvaluator::Hexdec { a: def_box() }, 6));
        }
        if starts_with(&cs, "strpos") {
            return Some((SwEvaluator::Strpos { a1: def_box(), a2: def_box() }, 6));
        }
        if starts_with(&cs, "dechex") {
            return Some((SwEvaluator::Dechex { a1: def_box(), a2: def_box() }, 6));
        }
        if starts_with(&cs, "substr") {
            return Some(
                (SwEvaluator::Substr { n: 3, a1: def_box(), a2: def_box(), a3: def_box() }, 6),
            );
        }
        if starts_with(&cs, "base64") {
            return Some((SwEvaluator::Base64 { a: def_box() }, 6));
        }
        if starts_with(&cs, "fr_val") {
            return None;
        }
        if starts_with(&cs, "duration") {
            return Some((SwEvaluator::Duration { n: 0, a1: def_box(), a2: def_box() }, 8));
        }
        if starts_with(&cs, "json_val") || starts_with(&cs, "zb_match") {
            return None;
        }
        if starts_with(&cs, "parse_num") {
            return Some((SwEvaluator::ParseNum { a: def_box() }, 9));
        }
        if starts_with(&cs, "decode_hex") {
            return Some((SwEvaluator::DecodeHex { a: def_box() }, 10));
        }
        if ahead {
            return None;
        }
        let w = String::from_str(s);
        if w == String::from_str("none") {
            return Some((SwEvaluator::SwValue(SwValue::Empty), cs.len()));
        }
        if w == String::from_str("true") {
            return Some((SwEvaluator::SwValue(SwValue::Bool(true)), cs.len()));
        }
        if w == String::from_str("false") {
            return Some((SwEvaluator::SwValue(SwValue::Bool(false)), cs.len()));
        }
        match parse_i32(s) {
            Some(n) => Some((SwEvaluator::SwValue(SwValue::Numeric(n)), cs.len())),
            None => None,
        }
    }
}

/// The kind of an expression: a literal; a basic operator of its
/// precedence; `;` an operator of the lowest precedence; any other
/// function.
pub open spec fn token_type_of(e: SwEvaluator) -> TokenType {
    match e {
        SwEvaluator::SwValue(_) => TokenType::Literal,
        SwEvaluator::Text(_) => TokenType::Literal,
        SwEvaluator::Std { op, .. } => TokenType::Operator {
            precedence: std_precedence(op),
            assoc: Assoc::Left,
        },
        SwEvaluator::Semicolon { .. } => TokenType::Operator { precedence: 1, assoc: Assoc::Left },
        SwEvaluator::In { .. } => TokenType::Operator { precedence: 15, assoc: Assoc::Left },
        _ => TokenType::Function,
    }
}

/// The precedence of a basic operator, as `std_precedence` says.
fn op_precedence(op: StdOp) -> (r: u16)
    ensures
        r == std_precedence(op),
{
    match op {
        StdOp::BoolAnd => 7,
        StdOp::BoolOr => 5,
        StdOp::BitAnd => 4,
        StdOp::BitOr => 3,
        StdOp::Lt => 9,
        StdOp::Gt => 9,
        StdOp::Eq => 8,
        StdOp::Neq => 8,
        StdOp::Neg => 14,
        StdOp::BoolNeg => 14,
        StdOp::Add => 11,
        StdOp::Sub => 11,
        StdOp::Mul => 12,
        StdOp::Div => 12,
    }
}

/// An expression after it is told its number of arguments: `if`, `val`,
/// `duration`, `substr` and `in` count them; the others have a fixed number.
pub open spec fn with_arg_num(e: SwEvaluator, num: usize) -> SwEvaluator {
    match e {
        SwEvaluator::If { a1, a2, a3, .. } => SwEvaluator::If { n: num, a1, a2, a3 },
        SwEvaluator::Val { a1, a2, .. } => SwEvaluator::Val { n: num, a1, a2 },
        SwEvaluator::Duration { a1, a2, .. } => SwEvaluator::Duration { n: num, a1, a2 },
        SwEvaluator::Substr { a1, a2, a3, .. } => SwEvaluator::Substr { n: num, a1, a2, a3 },
        SwEvaluator::In { a, args, .. } => SwEvaluator::In { n: num, a, args },
        _ => e,
    }
}

impl SwEvaluator {
    /// The kind of the expression, as `token_type_of` says.
    pub fn token_type(&self) -> (r: TokenType)
        ensures
            r == token_type_of(*self),
    {
        match self {
            SwEvaluator::SwValue(_) => TokenType::Literal,
            SwEvaluator::Text(_) => TokenType::Literal,
            SwEvaluator::Std { op, .. } => TokenType::Operator {
                precedence: op_precedence(*op),
                assoc: Assoc::Left,
            },
            SwEvaluator::Semicolon { .. } => TokenType::Operator { precedence: 1, assoc: Assoc::Left },
            SwEvaluator::In { .. } => TokenType::Operator { precedence: 15, assoc: Assoc::Left },
            _ => TokenType::Function,
        }
    }

    /// Tells a function how many arguments it was given, as `with_arg_num`
    /// says.
    pub fn count_args(&mut self, num: usize)
        ensures
            *final(self) == with_arg_num(*old(self), num),
    {
        match self {
            SwEvaluator::If { n, .. } => {
                *n = num;
            },
            SwEvaluator::Val { n, .. } => {
                *n = num;
            },
            SwEvaluator::Duration { n, .. } => {
                *n = num;
            },
            SwEvaluator::Substr { n, .. } => {
                *n = num;
            },
            SwEvaluator::In { n, .. } => {
                *n = num;
            },
            _ => {},
        }
    }
}

impl Default for SwEvaluator {
    /// The nothing literal.
    fn default() -> (r: Self)
        ensures
            r == SwEvaluator::SwValue(SwValue::Empty),
    {
        SwEvaluator::SwValue(SwValue::Empty)
    }
}

/// The expression `a op b` of two literal values.
pub open spec fn binary_of(op: StdOp, a: SwValue, b: SwValue) -> SwEvaluator {
    SwEvaluator::Std {
        op,
        a1: Box::new(SwEvaluator::SwValue(a)),
        a2: Box::new(SwEvaluator::SwValue(b)),
    }
}

/// Two literal operands of a comparison are evaluated to their values.
#[verifier::rlimit(100)]
#[verifier::spinoff_prover]
proof fn lemma_eval_comparison(op: StdOp, a: SwValue, b: SwValue, ctx: CtxV)
    requires
        op == StdOp::Gt || op == StdOp::Lt,
    ensures
        spec_eval(binary_of(op, a, b), ctx).0 == spec_std_op(op, a@, b@),
{
    reveal(spec_eval);
    assert(spec_eval(SwEvaluator::SwValue(a), ctx) == (Ok::<SwValueV, EvalError>(a@), ctx));
    assert(spec_eval(SwEvaluator::SwValue(b), ctx) == (Ok::<SwValueV, EvalError>(b@), ctx));
}

/// Comparisons are strict: no value is greater or smaller than itself;
/// between integers, `>` and `<` are the integers' order, so `n > m` is
/// `m < n` and at most one of `n > m`, `n < m` holds.
pub proof fn lemma_comparisons_strict(v: SwValue, n: i32, m: i32, ctx: CtxV)
    ensures
        spec_eval(binary_of(StdOp::Gt, v, v), ctx).0 == Ok::<SwValueV, EvalError>(SwValueV::Bool(false)),
        spec_eval(binary_of(StdOp::Lt, v, v), ctx).0 == Ok::<SwValueV, EvalError>(SwValueV::Bool(false)),
        spec_eval(binary_of(StdOp::Gt, SwValue::Numeric(n), SwValue::Numeric(m)), ctx).0
            == Ok::<SwValueV, EvalError>(SwValueV::Bool(n > m)),
        spec_eval(binary_of(StdOp::Lt, SwValue::Numeric(n), SwValue::Numeric(m)), ctx).0
            == Ok::<SwValueV, EvalError>(SwValueV::Bool(n < m)),
        spec_eval(binary_of(StdOp::Gt, SwValue::Numeric(n), SwValue::Numeric(m)), ctx).0
            == spec_eval(binary_of(StdOp::Lt, SwValue::Numeric(m), SwValue::Numeric(n)), ctx).0,
{
    lemma_eval_comparison(StdOp::Gt, v, v, ctx);
    lemma_eval_comparison(StdOp::Lt, v, v, ctx);
    lemma_eval_comparison(StdOp::Gt, SwValue::Numeric(n), SwValue::Numeric(m), ctx);
    lemma_eval_comparison(StdOp::Lt, SwValue::Numeric(n), SwValue::Numeric(m), ctx);
    lemma_eval_comparison(StdOp::Lt, SwValue::Numeric(m), SwValue::Numeric(n), ctx);
    let x = v@;
    match x {
        SwValueV::Str(t) => {
            assert(as_string(x) == Ok::<Seq<char>, EvalError>(t));
        },
        SwValueV::Bool(b) => {
            assert(as_bool(x) == Ok::<bool, EvalError>(b));
        },
        _ => {},
    }
}

/// The precedence of an operator expression (-1 for one that is none).
pub open spec fn precedence_of(e: SwEvaluator) -> int {
    match token_type_of(e) {
        TokenType::Operator { precedence, .. } => precedence as int,
        _ => -1,
    }
}

/// The operators of automation expressions bind, from the loosest to the
/// tightest: `;`, `|`, `&`, `||`, `&&`, then `==` and `!=`, then `<` and
/// `>`, then `+` and `-`, then `*` and `/`, then the unary `-` and `!`, then
/// `in`; literals and functions are no operators.
pub proof fn lemma_operator_precedence(a: Box<SwEvaluator>, b: Box<SwEvaluator>, args: Box<ExprList>, v: SwValue)
    ensures
        ({
            let p = |op: StdOp| precedence_of(SwEvaluator::Std { op, a1: a, a2: b });
            &&& 0 < precedence_of(SwEvaluator::Semicolon { a1: a, a2: b }) < p(StdOp::BitOr)
            &&& p(StdOp::BitOr) < p(StdOp::BitAnd)
            &&& p(StdOp::BitAnd) < p(StdOp::BoolOr)
            &&& p(StdOp::BoolOr) < p(StdOp::BoolAnd)
            &&& p(StdOp::BoolAnd) < p(StdOp::Eq)
            &&& p(StdOp::Eq) == p(StdOp::Neq)
            &&& p(StdOp::Neq) < p(StdOp::Lt)
            &&& p(StdOp::Lt) == p(StdOp::Gt)
            &&& p(StdOp::Gt) < p(StdOp::Add)
            &&& p(StdOp::Add) == p(StdOp::Sub)
            &&& p(StdOp::Sub) < p(StdOp::Mul)
            &&& p(StdOp::Mul) == p(StdOp::Div)
            &&& p(StdOp::Div) < p(StdOp::Neg)
            &&& p(StdOp::Neg) == p(StdOp::BoolNeg)
            &&& p(StdOp::BoolNeg) < precedence_of(SwEvaluator::In { n: 0, a, args })
            &&& precedence_of(SwEvaluator::SwValue(v)) == -1
            &&& precedence_of(SwEvaluator::Now) == -1
        }),
{
}

} // verus!
