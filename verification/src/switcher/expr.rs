//! Reading automation expressions: the switcher's evaluator as the
//! tokenizer's `Eval`, building each function from the arguments that stand
//! before it in reverse Polish notation.

use vstd::prelude::*;
use vstd::string::{StringExecFns, StrSliceExecFns, StringSliceAdditionalSpecFns};
use vstd::utf8::{encode_utf8, is_char_boundary};
use crate::http::chars_of;
use crate::switcher::eval::{
    char_list, char_list_from, ExprList, chars_seq, is_unary_op, lemma_char_list, literal_of, name_at,
    names_cut_whole, other_function, own_function, own_len, res_view, spec_eval, spec_match_name,
    starts_with, token_type_of, with_arg_num, EvalError, SwEvalCtx, SwEvaluator, SwValue, SwValueV,
};
use crate::tokenizer::{
    expr_rest, get_expr_post, is_ascii_char, lemma_views_drop_last, lex_all, rpn_of,
    std_match, std_match_defined, views, Error, Eval, Token, TokenType, Tokenizer, TokenV,
    TokenizerV,
};

verus! {

/// The number of arguments a function takes from the tokens before it (an
/// `in` told of `usize::MAX` candidates, which no text gives, takes none).
pub open spec fn args_to_take(e: SwEvaluator) -> nat {
    match e {
        SwEvaluator::Std { op, .. } => if is_unary_op(op) {
            1
        } else {
            2
        },
        SwEvaluator::Semicolon { .. } | SwEvaluator::Strpos { .. } | SwEvaluator::Dechex { .. } => 2,
        SwEvaluator::Val { n, .. } => if n == 2 {
            2
        } else if n > 0 {
            1
        } else {
            0
        },
        SwEvaluator::Duration { n, .. } => if n > 1 {
            2
        } else {
            1
        },
        SwEvaluator::If { n, .. } | SwEvaluator::Substr { n, .. } => if n > 2 {
            3
        } else {
            2
        },
        SwEvaluator::Scale { .. } => 5,
        SwEvaluator::Const { .. } | SwEvaluator::ParseNum { .. } | SwEvaluator::Hexdec { .. }
        | SwEvaluator::Base64 { .. } | SwEvaluator::DecodeHex { .. } => 1,
        SwEvaluator::Lpad { .. } => 3,
        SwEvaluator::In { n, .. } => if n < usize::MAX {
            (n + 1) as nat
        } else {
            0
        },
        _ => 0,
    }
}

/// The list of some expressions, in order.
pub open spec fn expr_list(xs: Seq<SwEvaluator>) -> ExprList
    decreases xs.len(),
{
    if xs.len() == 0 {
        ExprList::Nil
    } else {
        ExprList::Cons(Box::new(xs[0]), Box::new(expr_list(xs.drop_first())))
    }
}

/// A function with its arguments, taken last first: `xs[0]` is its last
/// argument. A `duration` given one argument measures up to `now()`.
pub open spec fn with_args(e: SwEvaluator, xs: Seq<SwEvaluator>) -> SwEvaluator {
    match e {
        SwEvaluator::Std { op, a1, a2 } => if is_unary_op(op) {
            SwEvaluator::Std { op, a1: Box::new(xs[0]), a2 }
        } else {
            SwEvaluator::Std { op, a1: Box::new(xs[1]), a2: Box::new(xs[0]) }
        },
        SwEvaluator::Semicolon { .. } => SwEvaluator::Semicolon {
            a1: Box::new(xs[1]),
            a2: Box::new(xs[0]),
        },
        SwEvaluator::Strpos { .. } => SwEvaluator::Strpos { a1: Box::new(xs[1]), a2: Box::new(xs[0]) },
        SwEvaluator::Dechex { .. } => SwEvaluator::Dechex { a1: Box::new(xs[1]), a2: Box::new(xs[0]) },
        SwEvaluator::Val { n, a1, a2 } => if n == 2 {
            SwEvaluator::Val { n, a1: Box::new(xs[1]), a2: Box::new(xs[0]) }
        } else if n > 0 {
            SwEvaluator::Val { n, a1: Box::new(xs[0]), a2 }
        } else {
            e
        },
        SwEvaluator::Duration { n, .. } => if n > 1 {
            SwEvaluator::Duration { n, a1: Box::new(xs[1]), a2: Box::new(xs[0]) }
        } else {
            SwEvaluator::Duration { n, a1: Box::new(xs[0]), a2: Box::new(SwEvaluator::Now) }
        },
        SwEvaluator::If { n, a3, .. } => if n > 2 {
            SwEvaluator::If { n, a1: Box::new(xs[2]), a2: Box::new(xs[1]), a3: Box::new(xs[0]) }
        } else {
            SwEvaluator::If { n, a1: Box::new(xs[1]), a2: Box::new(xs[0]), a3 }
        },
        SwEvaluator::Substr { n, a3, .. } => if n > 2 {
            SwEvaluator::Substr { n, a1: Box::new(xs[2]), a2: Box::new(xs[1]), a3: Box::new(xs[0]) }
        } else {
            SwEvaluator::Substr { n, a1: Box::new(xs[1]), a2: Box::new(xs[0]), a3 }
        },
        SwEvaluator::Scale { .. } => SwEvaluator::Scale {
            a1: Box::new(xs[4]),
            a2: Box::new(xs[3]),
            a3: Box::new(xs[2]),
            a4: Box::new(xs[1]),
            a5: Box::new(xs[0]),
        },
        SwEvaluator::Const { .. } => SwEvaluator::Const { a: Box::new(xs[0]) },
        SwEvaluator::ParseNum { .. } => SwEvaluator::ParseNum { a: Box::new(xs[0]) },
        SwEvaluator::Hexdec { .. } => SwEvaluator::Hexdec { a: Box::new(xs[0]) },
        SwEvaluator::Base64 { .. } => SwEvaluator::Base64 { a: Box::new(xs[0]) },
        SwEvaluator::DecodeHex { .. } => SwEvaluator::DecodeHex { a: Box::new(xs[0]) },
        SwEvaluator::In { n, .. } => if n < usize::MAX {
            SwEvaluator::In {
                n,
                a: Box::new(xs[n as int]),
                args: Box::new(expr_list(xs.take(n as int))),
            }
        } else {
            e
        },
        SwEvaluator::Lpad { .. } => SwEvaluator::Lpad {
            a1: Box::new(xs[2]),
            a2: Box::new(xs[1]),
            a3: Box::new(xs[0]),
        },
        _ => e,
    }
}

/// The text of a failure to take an expression from an empty stack.
pub open spec fn empty_stack_text() -> Seq<char> {
    "Empty stack"@
}

/// The text of a failure to take an expression where a token that is no
/// expression stands.
pub open spec fn not_an_expr_text() -> Seq<char> {
    "Unexpected token: Expected eval token in get_expr"@
}

/// The text of a failure of the expression taken to build itself.
pub open spec fn build_failed_text(m: Seq<char>) -> Seq<char> {
    "Bad type: Error while build expression: "@ + m
}

/// Taking one expression from the end of the tokens, with `f` the number
/// of tokens it may use up: an empty stack and a token that is no
/// expression are refused; an expression builds itself from the tokens
/// before it.
pub open spec fn sw_take(before: Seq<TokenV<SwEvaluator>>, f: nat) -> (
    Result<SwEvaluator, Seq<char>>,
    Seq<TokenV<SwEvaluator>>,
)
    decreases f, 0int, 0int,
{
    if before.len() == 0 || f == 0 {
        (Err(empty_stack_text()), before)
    } else {
        match before.last() {
            TokenV::Eval(e) => {
                let (b, rest, r) = sw_build(e, before.drop_last(), (f - 1) as nat);
                match r {
                    Ok(_) => (Ok(b), rest),
                    Err(m) => (Err(build_failed_text(m)), rest),
                }
            },
            _ => (Err(not_an_expr_text()), before.drop_last()),
        }
    }
}

/// Taking `k` expressions from the end of the tokens, the last argument
/// first; the first failure ends it.
pub open spec fn sw_take_n(before: Seq<TokenV<SwEvaluator>>, f: nat, k: nat) -> (
    Result<Seq<SwEvaluator>, Seq<char>>,
    Seq<TokenV<SwEvaluator>>,
)
    decreases f, 1int, k,
{
    if k == 0 {
        (Ok(Seq::empty()), before)
    } else {
        let (x, r1) = sw_take(before, f);
        match x {
            Err(m) => (Err(m), r1),
            Ok(x) => {
                let (xs, r2) = sw_take_n(r1, f, (k - 1) as nat);
                match xs {
                    Err(m) => (Err(m), r2),
                    Ok(xs) => (Ok(seq![x] + xs), r2),
                }
            },
        }
    }
}

/// Building a function from the tokens before it: it takes as many
/// arguments as it has (the last one first) and is given them; where one
/// cannot be taken it fails and stays as it was.
pub open spec fn sw_build(e: SwEvaluator, before: Seq<TokenV<SwEvaluator>>, f: nat) -> (
    SwEvaluator,
    Seq<TokenV<SwEvaluator>>,
    Result<(), Seq<char>>,
)
    decreases f, 2int, 0int,
{
    let (xs, rest) = sw_take_n(before, f, args_to_take(e));
    match xs {
        Err(m) => (e, rest, Err(m)),
        Ok(xs) => (with_args(e, xs), rest, Ok(())),
    }
}

/// The model of a taken expression.
pub open spec fn taken_view(r: Result<SwEvaluator, String>) -> Result<SwEvaluator, Seq<char>> {
    match r {
        Ok(e) => Ok(e),
        Err(m) => Err(m@),
    }
}

/// The model of taken expressions.
pub open spec fn taken_all_view(r: Result<Vec<SwEvaluator>, String>) -> Result<
    Seq<SwEvaluator>,
    Seq<char>,
> {
    match r {
        Ok(v) => Ok(v@),
        Err(m) => Err(m@),
    }
}

/// The model of a build's outcome.
pub open spec fn built_view(r: Result<(), String>) -> Result<(), Seq<char>> {
    match r {
        Ok(_) => Ok(()),
        Err(m) => Err(m@),
    }
}

/// Takes one expression from the end of the tokens, as `sw_take` says.
fn take_one<'a>(tokens: &mut Vec<Token<'a, SwEvaluator>>, Ghost(f): Ghost<nat>) -> (r: Result<
    SwEvaluator,
    String,
>)
    requires
        f >= old(tokens)@.len(),
    ensures
        final(tokens)@.len() <= old(tokens)@.len(),
        (taken_view(r), views(final(tokens)@)) == sw_take(views(old(tokens)@), f),
    decreases f, 0int, 0int,
{
    let ghost t0 = tokens@;
    if tokens.len() > 0 {
        proof {
            lemma_views_drop_last(t0);
        }
    }
    match tokens.pop() {
        Some(Token::Eval(e)) => {
            let mut e = e;
            match e.build_from(tokens, Ghost((f - 1) as nat)) {
                Ok(()) => Ok(e),
                Err(m) => {
                    let mut t = String::from_str("Bad type: Error while build expression: ");
                    proof {
                        reveal_strlit("Bad type: Error while build expression: ");
                    }
                    t.append(m.as_str());
                    Err(t)
                },
            }
        },
        Some(_) => {
            let t = String::from_str("Unexpected token: Expected eval token in get_expr");
            proof {
                assert(!(views(t0).last() is Eval));
            }
            Err(t)
        },
        None => {
            proof {
                assert(views(tokens@) =~= views(t0));
            }
            Err(String::from_str("Empty stack"))
        },
    }
}

/// Takes `k` expressions from the end of the tokens, as `sw_take_n` says.
fn take_n<'a>(tokens: &mut Vec<Token<'a, SwEvaluator>>, k: usize, Ghost(f): Ghost<nat>) -> (r: Result<
    Vec<SwEvaluator>,
    String,
>)
    requires
        f >= old(tokens)@.len(),
    ensures
        final(tokens)@.len() <= old(tokens)@.len(),
        (taken_all_view(r), views(final(tokens)@)) == sw_take_n(views(old(tokens)@), f, k as nat),
        r matches Ok(v) ==> v@.len() == k,
    decreases f, 1int, k,
{
    if k == 0 {
        let v: Vec<SwEvaluator> = Vec::new();
        proof {
            assert(v@ =~= Seq::<SwEvaluator>::empty());
        }
        return Ok(v);
    }
    match take_one(tokens, Ghost(f)) {
        Err(m) => Err(m),
        Ok(x) => match take_n(tokens, k - 1, Ghost(f)) {
            Err(m) => Err(m),
            Ok(rest) => {
                let mut rest = rest;
                let mut v: Vec<SwEvaluator> = Vec::new();
                v.push(x);
                v.append(&mut rest);
                Ok(v)
            },
        },
    }
}

/// The list of the expressions of a vector, in order.
fn list_of(xs: Vec<SwEvaluator>) -> (r: ExprList)
    ensures
        r == expr_list(xs@),
{
    let ghost x0 = xs@;
    let mut xs = xs;
    let mut l = ExprList::Nil;
    proof {
        assert(x0.skip(x0.len() as int) =~= Seq::<SwEvaluator>::empty());
    }
    while xs.len() > 0
        invariant
            xs@ == x0.take(xs@.len() as int),
            xs@.len() <= x0.len(),
            l == expr_list(x0.skip(xs@.len() as int)),
        decreases xs@.len(),
    {
        let ghost k = xs@.len();
        let x = xs.pop().unwrap();
        proof {
            assert(x0.skip(k - 1).drop_first() =~= x0.skip(k as int));
            assert(x0.skip(k - 1)[0] == x);
        }
        l = ExprList::Cons(Box::new(x), Box::new(l));
    }
    proof {
        assert(x0.skip(0) =~= x0);
    }
    l
}

impl SwEvaluator {
    /// The number of arguments the function takes, as `args_to_take` says.
    fn arg_count(&self) -> (r: usize)
        ensures
            r == args_to_take(*self),
    {
        match self {
            SwEvaluator::Std { op, .. } => if *op == crate::tokenizer::StdOp::Neg || *op
                == crate::tokenizer::StdOp::BoolNeg {
                1
            } else {
                2
            },
            SwEvaluator::Semicolon { .. } | SwEvaluator::Strpos { .. } | SwEvaluator::Dechex {
                ..
            } => 2,
            SwEvaluator::Val { n, .. } => if *n == 2 {
                2
            } else if *n > 0 {
                1
            } else {
                0
            },
            SwEvaluator::Duration { n, .. } => if *n > 1 {
                2
            } else {
                1
            },
            SwEvaluator::If { n, .. } | SwEvaluator::Substr { n, .. } => if *n > 2 {
                3
            } else {
                2
            },
            SwEvaluator::Scale { .. } => 5,
            SwEvaluator::Const { .. } | SwEvaluator::ParseNum { .. } | SwEvaluator::Hexdec {
                ..
            } | SwEvaluator::Base64 { .. } | SwEvaluator::DecodeHex { .. } => 1,
            SwEvaluator::Lpad { .. } => 3,
            SwEvaluator::In { n, .. } => if *n < usize::MAX {
                *n + 1
            } else {
                0
            },
            _ => 0,
        }
    }

    /// Gives the function its arguments, as `with_args` says.
    fn set_args(&mut self, xs: Vec<SwEvaluator>)
        requires
            xs@.len() == args_to_take(*old(self)),
        ensures
            *final(self) == with_args(*old(self), xs@),
    {
        let ghost x0 = xs@;
        let mut xs = xs;
        match self {
            SwEvaluator::Std { op, a1, a2 } => {
                if *op == crate::tokenizer::StdOp::Neg || *op == crate::tokenizer::StdOp::BoolNeg {
                    *a1 = Box::new(xs.pop().unwrap());
                } else {
                    let x1 = xs.pop().unwrap();
                    let x2 = xs.pop().unwrap();
                    *a1 = Box::new(x1);
                    *a2 = Box::new(x2);
                }
            },
            SwEvaluator::Semicolon { a1, a2 } => {
                let x1 = xs.pop().unwrap();
                let x2 = xs.pop().unwrap();
                *a1 = Box::new(x1);
                *a2 = Box::new(x2);
            },
            SwEvaluator::Strpos { a1, a2 } => {
                let x1 = xs.pop().unwrap();
                let x2 = xs.pop().unwrap();
                *a1 = Box::new(x1);
                *a2 = Box::new(x2);
            },
            SwEvaluator::Dechex { a1, a2 } => {
                let x1 = xs.pop().unwrap();
                let x2 = xs.pop().unwrap();
                *a1 = Box::new(x1);
                *a2 = Box::new(x2);
            },
            SwEvaluator::Val { n, a1, a2 } => {
                if *n == 2 {
                    let x1 = xs.pop().unwrap();
                    let x2 = xs.pop().unwrap();
                    *a1 = Box::new(x1);
                    *a2 = Box::new(x2);
                } else if *n > 0 {
                    *a1 = Box::new(xs.pop().unwrap());
                }
            },
            SwEvaluator::Duration { n, a1, a2 } => {
                if *n > 1 {
                    let x1 = xs.pop().unwrap();
                    let x2 = xs.pop().unwrap();
                    *a1 = Box::new(x1);
                    *a2 = Box::new(x2);
                } else {
                    *a1 = Box::new(xs.pop().unwrap());
                    *a2 = Box::new(SwEvaluator::Now);
                }
            },
            SwEvaluator::If { n, a1, a2, a3 } => {
                if *n > 2 {
                    let x1 = xs.pop().unwrap();
                    let x2 = xs.pop().unwrap();
                    let x3 = xs.pop().unwrap();
                    *a1 = Box::new(x1);
                    *a2 = Box::new(x2);
                    *a3 = Box::new(x3);
                } else {
                    let x1 = xs.pop().unwrap();
                    let x2 = xs.pop().unwrap();
                    *a1 = Box::new(x1);
                    *a2 = Box::new(x2);
                }
            },
            SwEvaluator::Substr { n, a1, a2, a3 } => {
                if *n > 2 {
                    let x1 = xs.pop().unwrap();
                    let x2 = xs.pop().unwrap();
                    let x3 = xs.pop().unwrap();
                    *a1 = Box::new(x1);
                    *a2 = Box::new(x2);
                    *a3 = Box::new(x3);
                } else {
                    let x1 = xs.pop().unwrap();
                    let x2 = xs.pop().unwrap();
                    *a1 = Box::new(x1);
                    *a2 = Box::new(x2);
                }
            },
            SwEvaluator::Scale { a1, a2, a3, a4, a5 } => {
                let x1 = xs.pop().unwrap();
                let x2 = xs.pop().unwrap();
                let x3 = xs.pop().unwrap();
                let x4 = xs.pop().unwrap();
                let x5 = xs.pop().unwrap();
                *a1 = Box::new(x1);
                *a2 = Box::new(x2);
                *a3 = Box::new(x3);
                *a4 = Box::new(x4);
                *a5 = Box::new(x5);
            },
            SwEvaluator::Const { a } => {
                *a = Box::new(xs.pop().unwrap());
            },
            SwEvaluator::ParseNum { a } => {
                *a = Box::new(xs.pop().unwrap());
            },
            SwEvaluator::Hexdec { a } => {
                *a = Box::new(xs.pop().unwrap());
            },
            SwEvaluator::Base64 { a } => {
                *a = Box::new(xs.pop().unwrap());
            },
            SwEvaluator::DecodeHex { a } => {
                *a = Box::new(xs.pop().unwrap());
            },
            SwEvaluator::In { n, a, args } => {
                if *n < usize::MAX {
                    *a = Box::new(xs.pop().unwrap());
                    proof {
                        assert(xs@ =~= x0.take(*n as int));
                    }
                    *args = Box::new(list_of(xs));
                }
            },
            SwEvaluator::Lpad { a1, a2, a3 } => {
                let x1 = xs.pop().unwrap();
                let x2 = xs.pop().unwrap();
                let x3 = xs.pop().unwrap();
                *a1 = Box::new(x1);
                *a2 = Box::new(x2);
                *a3 = Box::new(x3);
            },
            _ => {},
        }
    }

    /// Builds the function from the tokens before it, as `sw_build` says.
    fn build_from<'a>(&mut self, tokens: &mut Vec<Token<'a, SwEvaluator>>, Ghost(f): Ghost<nat>) -> (r:
        Result<(), String>)
        requires
            f >= old(tokens)@.len(),
        ensures
            final(tokens)@.len() <= old(tokens)@.len(),
            (*final(self), views(final(tokens)@), built_view(r)) == sw_build(
                *old(self),
                views(old(tokens)@),
                f,
            ),
        decreases f, 2int, 0int,
    {
        let k = self.arg_count();
        match take_n(tokens, k, Ghost(f)) {
            Err(m) => Err(m),
            Ok(xs) => {
                self.set_args(xs);
                Ok(())
            },
        }
    }
}

/// The text of an evaluation error.
pub open spec fn error_text(e: EvalError) -> Seq<char> {
    match e {
        EvalError::NotBool => "Required bool val"@,
        EvalError::NotString => "Required string val"@,
        EvalError::NotNumeric => "Required numeric val"@,
        EvalError::BadNumber => "Not a number"@,
        EvalError::Overflow => "Numeric overflow"@,
        EvalError::DivisionByZero => "Division by zero"@,
        EvalError::NoValue => "No value in context"@,
        EvalError::NoVals => "No values in context"@,
        EvalError::NoMsgs => "No messages in context"@,
        EvalError::TooManyArgs => "Too many arguments"@,
        EvalError::NoDev => "No device in context"@,
        EvalError::NoTopic => "No topic in context"@,
        EvalError::NegativeWidth => "Negative width"@,
        EvalError::EmptyPad => "Empty pad"@,
        EvalError::BadRange => "Bad range"@,
        EvalError::NotHexPairs => "Not hexadecimal pairs"@,
    }
}

/// The text of an evaluation error, as `error_text` says.
pub fn eval_error_text(e: EvalError) -> (r: String)
    ensures
        r@ == error_text(e),
{
    match e {
        EvalError::NotBool => String::from_str("Required bool val"),
        EvalError::NotString => String::from_str("Required string val"),
        EvalError::NotNumeric => String::from_str("Required numeric val"),
        EvalError::BadNumber => String::from_str("Not a number"),
        EvalError::Overflow => String::from_str("Numeric overflow"),
        EvalError::DivisionByZero => String::from_str("Division by zero"),
        EvalError::NoValue => String::from_str("No value in context"),
        EvalError::NoVals => String::from_str("No values in context"),
        EvalError::NoMsgs => String::from_str("No messages in context"),
        EvalError::TooManyArgs => String::from_str("Too many arguments"),
        EvalError::NoDev => String::from_str("No device in context"),
        EvalError::NoTopic => String::from_str("No topic in context"),
        EvalError::NegativeWidth => String::from_str("Negative width"),
        EvalError::EmptyPad => String::from_str("Empty pad"),
        EvalError::BadRange => String::from_str("Bad range"),
        EvalError::NotHexPairs => String::from_str("Not hexadecimal pairs"),
    }
}

/// Whether a function name (one this evaluator evaluates or not) of `k`
/// characters starts the characters.
fn name_of_len(cs: &Vec<char>, k: usize) -> (r: bool)
    ensures
        r == (own_function(cs@, k as int) is Some || other_function(cs@, k as int)),
{
    if k == 1 {
        starts_with(cs, ";")
    } else if k == 2 {
        starts_with(cs, "if") || starts_with(cs, "in")
    } else if k == 3 {
        starts_with(cs, "val") || starts_with(cs, "now") || starts_with(cs, "map") || starts_with(
            cs,
            "vec",
        ) || starts_with(cs, "day")
    } else if k == 4 {
        starts_with(cs, "date") || starts_with(cs, "time") || starts_with(cs, "lpad")
            || starts_with(cs, "send")
    } else if k == 5 {
        starts_with(cs, "const") || starts_with(cs, "topic") || starts_with(cs, "scale")
            || starts_with(cs, "match")
    } else if k == 6 {
        starts_with(cs, "hexdec") || starts_with(cs, "strpos") || starts_with(cs, "dechex")
            || starts_with(cs, "base64") || starts_with(cs, "substr") || starts_with(cs, "fr_val")
    } else if k == 8 {
        starts_with(cs, "duration") || starts_with(cs, "json_val") || starts_with(cs, "zb_match")
    } else if k == 9 {
        starts_with(cs, "parse_num")
    } else if k == 10 {
        starts_with(cs, "decode_hex")
    } else {
        false
    }
}

/// Whether looking for function names cuts no character of the string in
/// two, as `names_cut_whole` says.
fn names_whole(s: &str) -> (r: bool)
    ensures
        r == names_cut_whole(s@),
{
    let cs = chars_of(s);
    let blen = s.as_bytes().len();
    proof {
        assert(s.spec_bytes() == encode_utf8(s@));
    }
    let mut k: usize = 1;
    while k <= 10
        invariant
            1 <= k <= 11,
            cs@ == s@,
            blen == encode_utf8(s@).len(),
            forall|j: int|
                1 <= j < k ==> !(#[trigger] own_function(s@, j) is Some) && !other_function(s@, j),
            forall|kk: int|
                1 <= kk < k && kk <= blen ==> #[trigger] is_char_boundary(encode_utf8(s@), kk),
        decreases 11 - k,
    {
        if k > blen {
            return true;
        }
        if !s.is_char_boundary(k) {
            proof {
                assert(!is_char_boundary(encode_utf8(s@), k as int));
            }
            return false;
        }
        if name_of_len(&cs, k) {
            proof {
                assert forall|kk: int|
                    1 <= kk <= 10 && kk <= encode_utf8(s@).len() && (forall|j: int|
                        1 <= j < kk ==> !(#[trigger] own_function(s@, j) is Some)
                            && !other_function(s@, j)) implies #[trigger] is_char_boundary(
                    encode_utf8(s@),
                    kk,
                ) by {
                    if kk > k {
                        assert(!(own_function(s@, k as int) is Some) && !other_function(s@, k as int));
                    }
                }
            }
            return true;
        }
        k += 1;
    }
    true
}

/// Whether a character takes one byte in UTF-8, as `is_ascii_char` says.
fn ascii(c: char) -> (r: bool)
    ensures
        r == is_ascii_char(c),
{
    (c as u32) < 0x80
}

/// Whether the basic operators can be looked for, as `std_match_defined`
/// says.
fn std_defined(cs: &Vec<char>) -> (r: bool)
    ensures
        r == std_match_defined(cs@),
{
    let n = cs.len();
    if n == 0 {
        return true;
    }
    let c0 = cs[0];
    ascii(c0) && (c0 == '+' || c0 == '-' || c0 == '*' || c0 == '/' || c0 == '~' || n < 2 || (ascii(
        cs[1],
    ) && ((c0 == '&' || c0 == '|' || c0 == '!' || c0 == '>' || c0 == '<' || c0 == '=') || n < 3
        || ascii(cs[2]))))
}

/// A function name of the evaluator stands at the start of the string.
proof fn lemma_own_function_len(s: Seq<char>, k: int)
    requires
        own_function(s, k) is Some,
    ensures
        own_len(own_function(s, k)->Some_0) == k,
        0 < k <= s.len(),
{
    reveal_strlit(";");
    reveal_strlit("if");
    reveal_strlit("in");
    reveal_strlit("val");
    reveal_strlit("now");
    reveal_strlit("const");
    reveal_strlit("topic");
    reveal_strlit("scale");
    reveal_strlit("hexdec");
    reveal_strlit("strpos");
    reveal_strlit("dechex");
    reveal_strlit("base64");
    reveal_strlit("lpad");
    reveal_strlit("substr");
    reveal_strlit("decode_hex");
    reveal_strlit("duration");
    reveal_strlit("parse_num");
}

proof fn lemma_name_at_len(s: Seq<char>, k: int)
    requires
        k >= 1,
    ensures
        name_at(s, k) matches Some(Some(e)) ==> 0 < own_len(e) <= s.len(),
    decreases 11 - k,
{
    if k <= 10 {
        if own_function(s, k) is Some {
            lemma_own_function_len(s, k);
        } else if !other_function(s, k) {
            lemma_name_at_len(s, k + 1);
        }
    }
}

/// What the evaluator matches takes at least one character and no more
/// than the string has.
proof fn lemma_match_len(s: Seq<char>, ahead: bool)
    ensures
        spec_match_name(s, ahead) matches Some((e, l)) ==> 0 < l <= s.len(),
{
    lemma_name_at_len(s, 1);
    reveal_strlit("none");
    reveal_strlit("true");
    reveal_strlit("false");
    if s.len() == 0 {
        assert(literal_of(s) is None);
    }
}

impl Eval for SwEvaluator {
    type EvalRes = SwValue;

    type EvalCtx = SwEvalCtx;

    type Error = String;

    /// What `match_name` finds where looking for it cuts no character in
    /// two; nothing elsewhere.
    open spec fn spec_match_str(s: Seq<char>, ahead: bool) -> Option<(Self, nat)> {
        if std_match_defined(s) && names_cut_whole(s) {
            spec_match_name(s, ahead)
        } else {
            None
        }
    }

    open spec fn spec_token_type(&self) -> TokenType {
        token_type_of(*self)
    }

    open spec fn spec_with_arg_num(&self, num: nat) -> Self {
        with_arg_num(*self, num as usize)
    }

    open spec fn spec_from_string(s: Seq<char>) -> Self {
        SwEvaluator::Text(char_list(s))
    }

    open spec fn spec_build(e: Self, before: Seq<TokenV<Self>>) -> (Self, Seq<TokenV<Self>>, bool) {
        let (b, rest, r) = sw_build(e, before, before.len());
        (b, rest, r is Ok)
    }

    fn match_str(s: &str, ahead: bool) -> (r: Option<(Self, usize)>) {
        let cs = chars_of(s);
        if std_defined(&cs) && names_whole(s) {
            proof {
                lemma_match_len(s@, ahead);
            }
            SwEvaluator::match_name(s, ahead)
        } else {
            None
        }
    }

    fn get_token_type(&self) -> (r: TokenType) {
        self.token_type()
    }

    fn set_arg_num(&mut self, num: usize) {
        self.count_args(num)
    }

    fn build<'a>(&mut self, tokens: &mut Vec<Token<'a, Self>>) -> (r: Result<(), String>) {
        let ghost f = tokens@.len();
        proof {
            assert(views(tokens@).len() == tokens@.len());
        }
        self.build_from(tokens, Ghost(f as nat))
    }

    /// Evaluates the expression as the inherent `eval` does (its contract
    /// is `spec_eval`), with an error given as its text.
    fn eval(&self, ctx: &mut SwEvalCtx) -> Result<SwValue, String>
    {
        match SwEvaluator::eval(self, ctx) {
            Ok(v) => Ok(v),
            Err(e) => Err(eval_error_text(e)),
        }
    }

    fn from_string(s: String) -> (r: Self) {
        let cs = chars_of(s.as_str());
        proof {
            assert(cs@.skip(0) =~= cs@);
        }
        SwEvaluator::Text(char_list_from(&cs, 0))
    }
}

/// The tokens of an expression's text in reverse Polish notation.
pub open spec fn expr_rpn(s: Seq<char>) -> Seq<TokenV<SwEvaluator>> {
    rpn_of(
        lex_all(
            TokenizerV::<SwEvaluator> {
                marker: '"',
                expr: s,
                lnds: 0,
                lnde: 0,
                next_token: None,
                pos: 0,
            },
        ),
    )
}

/// Reads an automation expression: its tokens in reverse Polish notation,
/// the expression built from their end (strings are marked with `"`).
pub fn parse_expression(s: &str) -> (r: Result<SwEvaluator, Error>)
    ensures
        get_expr_post(expr_rpn(s@), expr_rest(expr_rpn(s@)), r),
{
    let mut t = Tokenizer::<SwEvaluator>::new(s);
    t.ast()
}

} // verus!
