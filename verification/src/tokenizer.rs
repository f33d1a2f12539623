//! Expressions: a lexer that cuts an expression into tokens, and the
//! shunting-yard conversion of the tokens to reverse Polish notation. What
//! the functions and operators are is the user's: an `Eval` type.

use vstd::prelude::*;
use vstd::string::{StrSliceExecFns, StringExecFns};
use crate::http::{chars_of, string_of};

verus! {

/// Errors of the tokenizer.
#[derive(Debug)]
pub enum Error {
    BadArgument,
    TooFewTokens,
    UnexpectedToken(&'static str),
    EmptyStack,
    TooFewArguments((String, usize, usize)),
    BadType(&'static str),
    String(String),
}

/// The associativity of an operator.
#[derive(Debug, Clone, Copy, PartialEq, Eq, Structural)]
pub enum Assoc {
    Left,
    Right,
}

/// What an evaluator is: a literal, an operator of some precedence and
/// associativity, or a function.
#[derive(Debug, Clone, Copy, PartialEq, Eq, Structural)]
pub enum TokenType {
    Literal,
    Operator { precedence: u16, assoc: Assoc },
    Function,
}

/// An evaluator: the functions, operators and literals of an expression
/// language. Its implementations promise what the spec functions say of
/// their results; an implementation that does not define a spec function
/// leaves it unknown.
pub trait Eval: Default + Sized {
    type EvalRes;
    type EvalCtx;
    type Error;

    /// The evaluator that a string starts with (with `ahead`, only an
    /// operator is looked for) and the number of characters it takes.
    open spec fn spec_match_str(s: Seq<char>, ahead: bool) -> Option<(Self, nat)> {
        arbitrary()
    }

    /// The kind of an evaluator.
    open spec fn spec_token_type(&self) -> TokenType {
        arbitrary()
    }

    /// The evaluator after it is told its number of arguments.
    open spec fn spec_with_arg_num(&self, num: nat) -> Self {
        arbitrary()
    }

    /// The literal evaluator of a string.
    open spec fn spec_from_string(s: Seq<char>) -> Self {
        arbitrary()
    }

    /// What building an evaluator from the tokens before it gives: the
    /// evaluator, the tokens left, and whether it succeeded.
    open spec fn spec_build(e: Self, before: Seq<TokenV<Self>>) -> (Self, Seq<TokenV<Self>>, bool) {
        arbitrary()
    }

    /// The evaluator a string starts with; it takes at least one character
    /// and no more than the string has.
    fn match_str(s: &str, ahead: bool) -> (r: Option<(Self, usize)>)
        ensures
            match Self::spec_match_str(s@, ahead) {
                Some((e, l)) => r == Some((e, l as usize)) && 0 < l <= s@.len(),
                None => r is None,
            },
    ;

    fn get_token_type(&self) -> (r: TokenType)
        ensures
            r == self.spec_token_type(),
    ;

    fn set_arg_num(&mut self, num: usize)
        ensures
            *final(self) == old(self).spec_with_arg_num(num as nat),
    ;

    /// Takes the evaluator's arguments from the end of `tokens`.
    fn build<'a>(&mut self, tokens: &mut Vec<Token<'a, Self>>) -> (r: Result<(), Self::Error>)
        ensures
            (*final(self), views(final(tokens)@), r is Ok) == Self::spec_build(
                *old(self),
                views(old(tokens)@),
            ),
    ;

    fn eval(&self, ctx: &mut Self::EvalCtx) -> Result<Self::EvalRes, Self::Error>;

    /// The literal evaluator of a string.
    fn from_string(s: String) -> (r: Self)
        ensures
            r == Self::spec_from_string(s@),
    ;

    /// A boxed default evaluator: what `default` gives.
    fn def() -> (r: Box<Self>)
        ensures
            call_ensures(Self::default, (), *r),
    {
        Box::new(Self::default())
    }
}

/// A token of an expression.
#[derive(Debug)]
pub enum Token<'a, E> {
    LeftParenthesis,
    RightParenthesis,
    Comma,
    Identifier(&'a str),
    Eval(E),
}

/// The model of a token.
pub enum TokenV<E> {
    LeftParenthesis,
    RightParenthesis,
    Comma,
    Identifier(Seq<char>),
    Eval(E),
}

impl<'a, E> View for Token<'a, E> {
    type V = TokenV<E>;

    open spec fn view(&self) -> TokenV<E> {
        match self {
            Token::LeftParenthesis => TokenV::LeftParenthesis,
            Token::RightParenthesis => TokenV::RightParenthesis,
            Token::Comma => TokenV::Comma,
            Token::Identifier(s) => TokenV::Identifier(s@),
            Token::Eval(e) => TokenV::Eval(*e),
        }
    }
}

/// The model of an optional token.
pub open spec fn opt_token<'a, E>(t: Option<Token<'a, E>>) -> Option<TokenV<E>> {
    match t {
        Some(t) => Some(t@),
        None => None,
    }
}

/// Whether a text starts with a prefix.
pub open spec fn has_prefix(s: Seq<char>, p: Seq<char>) -> bool {
    s.len() >= p.len() && s.subrange(0, p.len() as int) == p
}

/// The message with which a failed build of an evaluator starts.
pub open spec fn build_error_prefix() -> Seq<char> {
    "Error while build expression: "@
}

/// The tokens left after an expression is taken from the end of a token
/// sequence.
pub open spec fn expr_rest<E: Eval>(before: Seq<TokenV<E>>) -> Seq<TokenV<E>> {
    if before.len() == 0 {
        before
    } else {
        match before.last() {
            TokenV::Eval(e) => E::spec_build(e, before.drop_last()).1,
            _ => before.drop_last(),
        }
    }
}

/// What taking an expression from the end of a token sequence does: an
/// empty sequence is an error; a last token that is no evaluator is taken
/// and refused; an evaluator is taken and builds itself from the tokens
/// before it, and a failed build is reported with its error's text.
pub open spec fn get_expr_post<E: Eval>(
    before: Seq<TokenV<E>>,
    after: Seq<TokenV<E>>,
    r: Result<E, Error>,
) -> bool {
    if before.len() == 0 {
        after == before && r matches Err(Error::EmptyStack)
    } else {
        match before.last() {
            TokenV::Eval(e) => {
                let (built, rest, ok) = E::spec_build(e, before.drop_last());
                &&& after == rest
                &&& ok ==> r == Ok::<E, Error>(built)
                &&& !ok ==> (r matches Err(Error::String(m)) && has_prefix(m@, build_error_prefix()))
            },
            _ => after == before.drop_last() && (r matches Err(Error::UnexpectedToken(m)) && m@
                == "Expected eval token in get_expr"@),
        }
    }
}

/// The text that a value's `Display` implementation writes
/// (`ToString::to_string`). It is whatever that implementation writes;
/// nothing is stated of it.
#[verifier::external_body]
fn display_text<T: core::fmt::Display>(v: &T) -> String {
    v.to_string()
}

/// Whether a character is white space (Unicode `White_Space`, as
/// `char::is_whitespace` has it).
pub open spec fn is_ws(c: char) -> bool {
    let v = c as u32;
    (9 <= v <= 13) || v == 0x20 || v == 0x85 || v == 0xa0 || v == 0x1680 || (0x2000 <= v <= 0x200a)
        || v == 0x2028 || v == 0x2029 || v == 0x202f || v == 0x205f || v == 0x3000
}

pub fn is_whitespace(c: char) -> (r: bool)
    ensures
        r == is_ws(c),
{
    let v = c as u32;
    (9 <= v && v <= 13) || v == 0x20 || v == 0x85 || v == 0xa0 || v == 0x1680 || (0x2000 <= v && v
        <= 0x200a) || v == 0x2028 || v == 0x2029 || v == 0x202f || v == 0x205f || v == 0x3000
}

/// A lexer over an expression: the current position, the start and end of
/// the word being read, and a token kept back to be handed out next.
#[derive(Debug)]
pub struct Tokenizer<'a, E> {
    pub string_marker: char,
    pub expr: &'a str,
    pub chars: Vec<char>,
    pub lnds: usize,
    pub lnde: usize,
    pub next_token: Option<Token<'a, E>>,
    pub pos: usize,
}

/// The model of a lexer.
pub struct TokenizerV<E> {
    pub marker: char,
    pub expr: Seq<char>,
    pub lnds: int,
    pub lnde: int,
    pub next_token: Option<TokenV<E>>,
    pub pos: int,
}

impl<'a, E> View for Tokenizer<'a, E> {
    type V = TokenizerV<E>;

    open spec fn view(&self) -> TokenizerV<E> {
        TokenizerV {
            marker: self.string_marker,
            expr: self.expr@,
            lnds: self.lnds as int,
            lnde: self.lnde as int,
            next_token: opt_token(self.next_token),
            pos: self.pos as int,
        }
    }
}

/// The length of the run of white space from position `i` on.
pub open spec fn ws_run(s: Seq<char>, i: int) -> int
    decreases s.len() - i,
{
    if i < 0 || i >= s.len() || !is_ws(s[i]) {
        0
    } else {
        1 + ws_run(s, i + 1)
    }
}

/// The position of the first `m` from position `i` on, or the end.
pub open spec fn find_char(s: Seq<char>, i: int, m: char) -> int
    decreases s.len() - i,
{
    if i < 0 || i >= s.len() || s[i] == m {
        if i < 0 {
            0
        } else {
            i
        }
    } else {
        find_char(s, i + 1, m)
    }
}

/// What the lexer makes of the character at its position: the number of
/// characters it takes, whether they are a delimiter (they end a word), and
/// the token they are. White space is a delimiter; a string between markers
/// is a literal (an unterminated one runs to the end); parentheses and
/// commas are tokens; an operator that the evaluator finds ahead is a
/// token; any other character belongs to a word.
pub open spec fn scan<E: Eval>(t: TokenizerV<E>) -> (int, bool, Option<TokenV<E>>) {
    let s = t.expr;
    let p = t.pos;
    if p < 0 || p >= s.len() {
        (0, false, None)
    } else {
        let c = s[p];
        if is_ws(c) {
            (ws_run(s, p), true, None)
        } else if c == t.marker {
            let m = find_char(s, p + 1, t.marker);
            (
                if m < s.len() {
                    m - p + 1
                } else {
                    s.len() - p
                },
                true,
                Some(TokenV::Eval(E::spec_from_string(s.subrange(p + 1, m)))),
            )
        } else if c == '(' {
            (1, true, Some(TokenV::LeftParenthesis))
        } else if c == ')' {
            (1, true, Some(TokenV::RightParenthesis))
        } else if c == ',' {
            (1, true, Some(TokenV::Comma))
        } else {
            match E::spec_match_str(s.subrange(p, s.len() as int), true) {
                Some((e, l)) => if e.spec_token_type() is Operator {
                    (l as int, true, Some(TokenV::Eval(e)))
                } else {
                    (1, false, None)
                },
                None => (1, false, None),
            }
        }
    }
}

/// The token a word is: the evaluator that takes all of it, else an
/// identifier.
pub open spec fn word_token<E: Eval>(s: Seq<char>, a: int, b: int) -> TokenV<E> {
    match E::spec_match_str(s.subrange(a, b), false) {
        Some((e, l)) => if l == b - a {
            TokenV::Eval(e)
        } else {
            TokenV::Identifier(s.subrange(a, b))
        },
        None => TokenV::Identifier(s.subrange(a, b)),
    }
}

/// The consistency of a lexer's positions.
pub open spec fn lexer_wf<E>(t: TokenizerV<E>) -> bool {
    0 <= t.lnds <= t.lnde <= t.pos <= t.expr.len()
}

/// The lexer from its position on, with no token kept back: the next
/// token and the lexer after it. A word is handed out when a delimiter or
/// the end follows it; a delimiter's token right after a word is kept back
/// for the next call.
pub open spec fn lex_loop<E: Eval>(t: TokenizerV<E>) -> (TokenizerV<E>, Option<TokenV<E>>)
    decreases t.expr.len() - t.pos,
{
    let (plen, is_delim, cur) = scan(t);
    let pos2 = t.pos + plen;
    let (lnds, lnde) = (t.lnds, t.lnde);
    if !lexer_wf(t) || plen < 0 || pos2 > t.expr.len() || (is_delim && plen == 0) {
        (t, None)
    } else if is_delim {
        let t1 = TokenizerV { lnds: pos2, lnde: pos2, pos: pos2, ..t };
        match cur {
            Some(tok) => if lnds == lnde {
                (t1, Some(tok))
            } else {
                (TokenizerV { next_token: Some(tok), ..t1 }, Some(word_token(t.expr, lnds, lnde)))
            },
            None => if lnds != lnde {
                (t1, Some(word_token(t.expr, lnds, lnde)))
            } else {
                lex_loop(t1)
            },
        }
    } else {
        let t1 = TokenizerV { pos: pos2, lnde: lnde + plen, ..t };
        if plen == 0 && lnds != lnde {
            (TokenizerV { lnds: pos2, lnde: pos2, ..t1 }, Some(word_token(t.expr, lnds, lnde)))
        } else if plen == 0 {
            (t1, None)
        } else {
            lex_loop(t1)
        }
    }
}

/// The next token of a lexer: the one kept back, else the next one read.
pub open spec fn lex<E: Eval>(t: TokenizerV<E>) -> (TokenizerV<E>, Option<TokenV<E>>) {
    match t.next_token {
        Some(tok) => (TokenizerV { next_token: None, ..t }, Some(tok)),
        None => lex_loop(t),
    }
}

/// What is left for a lexer to read: twice the characters after its
/// position, one for a token kept back, one for a word started.
pub open spec fn lex_measure<E>(t: TokenizerV<E>) -> int {
    2 * (t.expr.len() - t.pos) + (if t.next_token is Some {
        1int
    } else {
        0
    }) + (if t.lnds != t.lnde {
        1int
    } else {
        0
    })
}

/// A lexer between two tokens: no word is started.
pub open spec fn at_rest<E>(t: TokenizerV<E>) -> bool {
    lexer_wf(t) && t.lnds == t.pos && t.lnde == t.pos
}

/// The characters a lexer has consumed, the token kept back not counted.
pub open spec fn consumed<E>(t: TokenizerV<E>) -> int {
    t.pos - (if t.next_token is Some {
        1int
    } else {
        0
    })
}

/// Reading on from a word that ends at the position, a token comes out
/// only after the word's first character is consumed, and the lexer is at
/// rest again.
pub proof fn lemma_lex_loop_progress<E: Eval>(t: TokenizerV<E>)
    requires
        lexer_wf(t),
        t.lnde == t.pos,
        t.next_token is None,
    ensures
        lex_loop(t).1 is Some ==> {
            &&& at_rest(lex_loop(t).0)
            &&& lex_loop(t).0.expr == t.expr
            &&& lex_loop(t).0.marker == t.marker
            &&& consumed(lex_loop(t).0) >= t.lnds + 1
            &&& lex_measure(lex_loop(t).0) < lex_measure(t)
        },
    decreases t.expr.len() - t.pos,
{
    let (plen, is_delim, cur) = scan(t);
    let pos2 = t.pos + plen;
    if !lexer_wf(t) || plen < 0 || pos2 > t.expr.len() || (is_delim && plen == 0) {
    } else if is_delim {
        let t1 = TokenizerV { lnds: pos2, lnde: pos2, pos: pos2, ..t };
        if cur is None && t.lnds == t.lnde {
            lemma_lex_loop_progress(t1);
        }
    } else {
        let t1 = TokenizerV { pos: pos2, lnde: t.lnde + plen, ..t };
        if plen != 0 {
            lemma_lex_loop_progress(t1);
        }
    }
}

/// Each token handed out consumes at least one more character and leaves
/// less to read; the lexer stays at rest.
pub proof fn lemma_lex_progress<E: Eval>(t: TokenizerV<E>)
    requires
        at_rest(t),
    ensures
        lex(t).1 is Some ==> {
            &&& at_rest(lex(t).0)
            &&& lex(t).0.expr == t.expr
            &&& lex(t).0.marker == t.marker
            &&& consumed(lex(t).0) >= consumed(t) + 1
            &&& lex_measure(lex(t).0) < lex_measure(t)
        },
{
    if t.next_token is None {
        lemma_lex_loop_progress(t);
    }
}

/// The tokens a lexer hands out from its state on, up to the first time it
/// has none.
pub open spec fn lex_all<E: Eval>(t: TokenizerV<E>) -> Seq<TokenV<E>>
    decreases lex_measure(t),
{
    if !at_rest(t) {
        seq![]
    } else {
        match lex(t).1 {
            Some(tok) => {
                proof {
                    lemma_lex_progress(t);
                }
                seq![tok] + lex_all(lex(t).0)
            },
            None => seq![],
        }
    }
}

/// The models of a sequence of tokens.
pub open spec fn views<'a, E>(s: Seq<Token<'a, E>>) -> Seq<TokenV<E>> {
    s.map_values(|t: Token<'a, E>| t@)
}

/// The mathematical values of the parenthesis counters.
pub open spec fn counters(v: Seq<(usize, usize)>) -> Seq<(nat, nat)> {
    v.map_values(|p: (usize, usize)| (p.0 as nat, p.1 as nat))
}

/// The state of the conversion to reverse Polish notation: the output, the
/// stack of operators, functions and left parentheses, and for each open
/// parenthesis the number of commas in it and whether anything is in it.
pub struct RpnState<E> {
    pub out: Seq<TokenV<E>>,
    pub stack: Seq<TokenV<E>>,
    pub args: Seq<(nat, nat)>,
}

/// The innermost open parenthesis is marked as holding something.
pub open spec fn mark_nonempty(args: Seq<(nat, nat)>) -> Seq<(nat, nat)> {
    if args.len() > 0 && args.last().1 == 0 {
        args.update(args.len() - 1, (args.last().0, 1))
    } else {
        args
    }
}

/// A comma is counted in the innermost open parenthesis.
pub open spec fn count_comma(args: Seq<(nat, nat)>) -> Seq<(nat, nat)> {
    if args.len() > 0 {
        args.update(args.len() - 1, (args.last().0 + 1, args.last().1))
    } else {
        args
    }
}

/// Moves the stack's top to the output until a left parenthesis is on top
/// or the stack is empty.
pub open spec fn pop_to_paren<E>(out: Seq<TokenV<E>>, stack: Seq<TokenV<E>>) -> (
    Seq<TokenV<E>>,
    Seq<TokenV<E>>,
)
    decreases stack.len(),
{
    if stack.len() == 0 || stack.last() is LeftParenthesis {
        (out, stack)
    } else {
        pop_to_paren(out.push(stack.last()), stack.drop_last())
    }
}

/// Whether a token is an operator that is applied before a new operator of
/// precedence `p`: one of higher precedence, or of equal precedence when
/// the new one associates to the left.
pub open spec fn binds_over<E: Eval>(t: TokenV<E>, p: u16, left: bool) -> bool {
    match t {
        TokenV::Eval(oe) => match oe.spec_token_type() {
            TokenType::Operator { precedence: q, .. } => (left && p <= q) || (!left && p < q),
            _ => false,
        },
        _ => false,
    }
}

/// Moves the operators that `binds_over` picks from the stack's top to the
/// output.
pub open spec fn pop_ops<E: Eval>(
    out: Seq<TokenV<E>>,
    stack: Seq<TokenV<E>>,
    p: u16,
    left: bool,
) -> (Seq<TokenV<E>>, Seq<TokenV<E>>)
    decreases stack.len(),
{
    if stack.len() > 0 && binds_over(stack.last(), p, left) {
        pop_ops(out.push(stack.last()), stack.drop_last(), p, left)
    } else {
        (out, stack)
    }
}

/// Moves the stack's top to the output up to the nearest left parenthesis,
/// which is dropped.
pub open spec fn pop_through_paren<E>(out: Seq<TokenV<E>>, stack: Seq<TokenV<E>>) -> (
    Seq<TokenV<E>>,
    Seq<TokenV<E>>,
)
    decreases stack.len(),
{
    if stack.len() == 0 {
        (out, stack)
    } else if stack.last() is LeftParenthesis {
        (out, stack.drop_last())
    } else {
        pop_through_paren(out.push(stack.last()), stack.drop_last())
    }
}

/// After a right parenthesis, an evaluator on the stack's top is told its
/// number of arguments; a function then moves to the output.
pub open spec fn close_call<E: Eval>(out: Seq<TokenV<E>>, stack: Seq<TokenV<E>>, n: nat) -> (
    Seq<TokenV<E>>,
    Seq<TokenV<E>>,
) {
    if stack.len() > 0 && stack.last() is Eval {
        let e = stack.last()->Eval_0;
        let e2 = TokenV::Eval(e.spec_with_arg_num(n));
        if e.spec_token_type() is Function {
            (out.push(e2), stack.drop_last())
        } else {
            (out, stack.drop_last().push(e2))
        }
    } else {
        (out, stack)
    }
}

/// One token of the shunting-yard conversion.
pub open spec fn rpn_step<E: Eval>(st: RpnState<E>, tok: TokenV<E>) -> RpnState<E> {
    let args = if tok is RightParenthesis {
        st.args
    } else {
        mark_nonempty(st.args)
    };
    match tok {
        TokenV::Comma => {
            let (o, s) = pop_to_paren(st.out, st.stack);
            RpnState { out: o, stack: s, args: count_comma(args) }
        },
        TokenV::Eval(e) => match e.spec_token_type() {
            TokenType::Literal => RpnState { out: st.out.push(tok), stack: st.stack, args },
            TokenType::Function => RpnState { out: st.out, stack: st.stack.push(tok), args },
            TokenType::Operator { precedence, assoc } => {
                let (o, s) = pop_ops(st.out, st.stack, precedence, assoc == Assoc::Left);
                RpnState { out: o, stack: s.push(tok), args }
            },
        },
        TokenV::LeftParenthesis => RpnState {
            out: st.out,
            stack: st.stack.push(tok),
            args: args.push((0, 0)),
        },
        TokenV::RightParenthesis => {
            let n: nat = if args.len() > 0 {
                args.last().0 + args.last().1
            } else {
                0
            };
            let (o, s) = pop_through_paren(st.out, st.stack);
            let (o2, s2) = close_call(o, s, n);
            RpnState { out: o2, stack: s2, args: if args.len() > 0 {
                args.drop_last()
            } else {
                args
            } }
        },
        TokenV::Identifier(_) => RpnState { out: st.out.push(tok), stack: st.stack, args },
    }
}

/// The conversion's state after a sequence of tokens.
pub open spec fn rpn_run<E: Eval>(toks: Seq<TokenV<E>>) -> RpnState<E>
    decreases toks.len(),
{
    if toks.len() == 0 {
        RpnState { out: seq![], stack: seq![], args: seq![] }
    } else {
        rpn_step(rpn_run(toks.drop_last()), toks.last())
    }
}

/// The output followed by the stack, top first.
pub open spec fn flush<E>(out: Seq<TokenV<E>>, stack: Seq<TokenV<E>>) -> Seq<TokenV<E>>
    decreases stack.len(),
{
    if stack.len() == 0 {
        out
    } else {
        flush(out.push(stack.last()), stack.drop_last())
    }
}

/// A sequence of tokens in reverse Polish notation.
pub open spec fn rpn_of<E: Eval>(toks: Seq<TokenV<E>>) -> Seq<TokenV<E>> {
    flush(rpn_run(toks).out, rpn_run(toks).stack)
}

proof fn lemma_views_push<'a, E>(s: Seq<Token<'a, E>>, t: Token<'a, E>)
    ensures
        views(s.push(t)) == views(s).push(t@),
{
    assert(views(s.push(t)) =~= views(s).push(t@));
}

pub(crate) proof fn lemma_views_drop_last<'a, E>(s: Seq<Token<'a, E>>)
    requires
        s.len() > 0,
    ensures
        views(s.drop_last()) == views(s).drop_last(),
        views(s).last() == s.last()@,
{
    assert(views(s.drop_last()) =~= views(s).drop_last());
}

/// A step opens a counter at zero, adds at most one comma to the innermost
/// counter and marks it at most once.
proof fn lemma_args_bound<E: Eval>(st: RpnState<E>, tv: TokenV<E>, k: nat)
    requires
        forall|i: int| 0 <= i < st.args.len() ==> #[trigger] st.args[i].0 < k && st.args[i].1 <= 1,
    ensures
        forall|i: int|
            0 <= i < rpn_step(st, tv).args.len() ==> #[trigger] rpn_step(st, tv).args[i].0 < k + 1
                && rpn_step(st, tv).args[i].1 <= 1,
{
    let args = if tv is RightParenthesis {
        st.args
    } else {
        mark_nonempty(st.args)
    };
    assert forall|i: int| 0 <= i < args.len() implies #[trigger] args[i].0 < k && args[i].1 <= 1 by {
        assert(st.args[i].0 < k);
    }
    let a2 = rpn_step(st, tv).args;
    assert forall|i: int| 0 <= i < a2.len() implies #[trigger] a2[i].0 < k + 1 && a2[i].1 <= 1 by {
        if i < args.len() {
            assert(args[i].0 < k);
        }
    }
}

/// Moves the stack's top to the output until a left parenthesis is on top.
fn move_to_paren<'a, E: Eval>(out: &mut Vec<Token<'a, E>>, stack: &mut Vec<Token<'a, E>>)
    ensures
        (views(final(out)@), views(final(stack)@)) == pop_to_paren(
            views(old(out)@),
            views(old(stack)@),
        ),
{
    while stack.len() > 0 && !matches!(stack[stack.len() - 1], Token::LeftParenthesis)
        invariant
            pop_to_paren(views(old(out)@), views(old(stack)@)) == pop_to_paren(
                views(out@),
                views(stack@),
            ),
        decreases stack.len(),
    {
        proof {
            lemma_views_drop_last(stack@);
            assert(!(views(stack@).last() is LeftParenthesis));
        }
        let ghost s0 = stack@;
        let ghost o0 = out@;
        match stack.pop() {
            Some(t) => {
                out.push(t);
            },
            None => {},
        }
        proof {
            lemma_views_push(o0, s0.last());
        }
    }
    proof {
        if stack@.len() > 0 {
            lemma_views_drop_last(stack@);
        }
    }
}

/// Moves the operators that `binds_over` picks to the output.
fn move_ops<'a, E: Eval>(
    out: &mut Vec<Token<'a, E>>,
    stack: &mut Vec<Token<'a, E>>,
    p: u16,
    left: bool,
)
    ensures
        (views(final(out)@), views(final(stack)@)) == pop_ops(
            views(old(out)@),
            views(old(stack)@),
            p,
            left,
        ),
{
    loop
        invariant
            pop_ops(views(old(out)@), views(old(stack)@), p, left) == pop_ops(
                views(out@),
                views(stack@),
                p,
                left,
            ),
        decreases stack.len(),
    {
        let n = stack.len();
        if n == 0 {
            return;
        }
        proof {
            lemma_views_drop_last(stack@);
        }
        let binds = match &stack[n - 1] {
            Token::Eval(oe) => match oe.get_token_type() {
                TokenType::Operator { precedence: q, .. } => (left && p <= q) || (!left && p < q),
                _ => false,
            },
            _ => false,
        };
        if !binds {
            return;
        }
        let ghost s0 = stack@;
        let ghost o0 = out@;
        match stack.pop() {
            Some(t) => {
                out.push(t);
            },
            None => {},
        }
        proof {
            lemma_views_push(o0, s0.last());
        }
    }
}

/// Moves the stack's top to the output up to the nearest left parenthesis,
/// which is dropped.
fn move_through_paren<'a, E: Eval>(out: &mut Vec<Token<'a, E>>, stack: &mut Vec<Token<'a, E>>)
    ensures
        (views(final(out)@), views(final(stack)@)) == pop_through_paren(
            views(old(out)@),
            views(old(stack)@),
        ),
{
    loop
        invariant
            pop_through_paren(views(old(out)@), views(old(stack)@)) == pop_through_paren(
                views(out@),
                views(stack@),
            ),
        decreases stack.len(),
    {
        if stack.len() == 0 {
            return;
        }
        proof {
            lemma_views_drop_last(stack@);
        }
        let ghost s0 = stack@;
        let ghost o0 = out@;
        match stack.pop() {
            Some(Token::LeftParenthesis) => {
                return;
            },
            Some(t) => {
                out.push(t);
                proof {
                    lemma_views_push(o0, s0.last());
                }
            },
            None => {},
        }
    }
}

/// Tells an evaluator on the stack's top its number of arguments; moves a
/// function to the output.
fn close_call_at<'a, E: Eval>(out: &mut Vec<Token<'a, E>>, stack: &mut Vec<Token<'a, E>>, n: usize)
    ensures
        (views(final(out)@), views(final(stack)@)) == close_call(
            views(old(out)@),
            views(old(stack)@),
            n as nat,
        ),
{
    if stack.len() == 0 {
        return;
    }
    proof {
        lemma_views_drop_last(stack@);
    }
    let ghost s0 = stack@;
    let ghost o0 = out@;
    match stack.pop() {
        Some(Token::Eval(e)) => {
            let mut e = e;
            let is_fn = matches!(e.get_token_type(), TokenType::Function);
            e.set_arg_num(n);
            if is_fn {
                out.push(Token::Eval(e));
                proof {
                    lemma_views_push(o0, Token::Eval(e));
                }
            } else {
                stack.push(Token::Eval(e));
                proof {
                    lemma_views_push(s0.drop_last(), Token::Eval(e));
                }
            }
        },
        Some(t) => {
            stack.push(t);
            proof {
                assert(stack@ =~= s0);
            }
        },
        None => {},
    }
}

/// One token of the shunting-yard conversion, as `rpn_step` says; `k` is
/// the number of tokens before it, which bounds the counters.
#[verifier::spinoff_prover]
fn step_token<'a, E: Eval>(
    out: &mut Vec<Token<'a, E>>,
    stack: &mut Vec<Token<'a, E>>,
    a_stack: &mut Vec<(usize, usize)>,
    token: Token<'a, E>,
    Ghost(k): Ghost<nat>,
)
    requires
        k <= usize::MAX,
        forall|i: int|
            0 <= i < old(a_stack)@.len() ==> #[trigger] old(a_stack)@[i].0 < k && old(a_stack)@[i].1
                <= 1,
    ensures
        rpn_step(
            RpnState {
                out: views(old(out)@),
                stack: views(old(stack)@),
                args: counters(old(a_stack)@),
            },
            token@,
        ) == (RpnState {
            out: views(final(out)@),
            stack: views(final(stack)@),
            args: counters(final(a_stack)@),
        }),
{
    let ghost st = RpnState {
        out: views(out@),
        stack: views(stack@),
        args: counters(a_stack@),
    };
    let ghost tv = token@;
    let is_rp = matches!(token, Token::RightParenthesis);
    if !is_rp {
        let l = a_stack.len();
        if l > 0 && a_stack[l - 1].1 == 0 {
            let c = a_stack[l - 1].0;
            a_stack.set(l - 1, (c, 1));
        }
    }
    let ghost args = if tv is RightParenthesis {
        st.args
    } else {
        mark_nonempty(st.args)
    };
    proof {
        assert(counters(a_stack@) =~= args);
    }
    match token {
        Token::Comma => {
            let l = a_stack.len();
            if l > 0 {
                let (c, m) = a_stack[l - 1];
                a_stack.set(l - 1, (c + 1, m));
            }
            proof {
                assert(counters(a_stack@) =~= count_comma(args));
            }
            move_to_paren(out, stack);
        },
        Token::Eval(e) => {
            match e.get_token_type() {
                TokenType::Literal => {
                    out.push(Token::Eval(e));
                    proof {
                        assert(views(out@) =~= st.out.push(tv));
                    }
                },
                TokenType::Function => {
                    stack.push(Token::Eval(e));
                    proof {
                        assert(views(stack@) =~= st.stack.push(tv));
                    }
                },
                TokenType::Operator { precedence, assoc } => {
                    move_ops(out, stack, precedence, assoc == Assoc::Left);
                    let ghost s1 = stack@;
                    stack.push(Token::Eval(e));
                    proof {
                        lemma_views_push(s1, Token::Eval(e));
                    }
                },
            }
        },
        Token::LeftParenthesis => {
            stack.push(Token::LeftParenthesis);
            a_stack.push((0, 0));
            proof {
                assert(views(stack@) =~= st.stack.push(tv));
                assert(counters(a_stack@) =~= args.push((0, 0)));
            }
        },
        Token::RightParenthesis => {
            let n = match a_stack.pop() {
                Some((c, m)) => c + m,
                None => 0,
            };
            proof {
                if args.len() > 0 {
                    assert(counters(a_stack@) =~= args.drop_last());
                }
            }
            move_through_paren(out, stack);
            close_call_at(out, stack, n);
        },
        Token::Identifier(w) => {
            out.push(Token::Identifier(w));
            proof {
                assert(views(out@) =~= st.out.push(tv));
            }
        },
    }
}

/// Moves the whole stack, top first, to the output.
fn move_all<'a, E>(out: &mut Vec<Token<'a, E>>, stack: &mut Vec<Token<'a, E>>)
    ensures
        views(final(out)@) == flush(views(old(out)@), views(old(stack)@)),
{
    while stack.len() > 0
        invariant
            flush(views(old(out)@), views(old(stack)@)) == flush(views(out@), views(stack@)),
        decreases stack.len(),
    {
        proof {
            lemma_views_drop_last(stack@);
        }
        let ghost s0 = stack@;
        let ghost o0 = out@;
        match stack.pop() {
            Some(t) => {
                out.push(t);
            },
            None => {},
        }
        proof {
            lemma_views_push(o0, s0.last());
        }
    }
}

impl<'a, E: Eval> Tokenizer<'a, E> {
    /// The lexer's characters are those of its expression, and its
    /// positions are consistent.
    pub open spec fn inv(&self) -> bool {
        &&& self.chars@ == self.expr@
        &&& at_rest(self@)
    }

    /// The lexer in the middle of a word that ends at its position.
    pub open spec fn reading(&self) -> bool {
        &&& self.chars@ == self.expr@
        &&& lexer_wf(self@)
        &&& self.lnde == self.pos
    }

    /// A lexer at the start of an expression; strings are marked with `"`.
    pub fn new(expr: &'a str) -> (r: Self)
        ensures
            r.inv(),
            r@ == (TokenizerV::<E> {
                marker: '"',
                expr: expr@,
                lnds: 0,
                lnde: 0,
                next_token: None,
                pos: 0,
            }),
    {
        Tokenizer {
            string_marker: '"',
            expr,
            chars: chars_of(expr),
            lnds: 0,
            lnde: 0,
            next_token: None,
            pos: 0,
        }
    }

    /// What the character at the position is, as `scan` says.
    fn scan_at(&self) -> (r: (usize, bool, Option<Token<'a, E>>))
        requires
            self.reading(),
        ensures
            (r.0 as int, r.1, opt_token(r.2)) == scan(self@),
            self.pos + r.0 <= self.chars.len(),
            r.1 ==> r.0 > 0,
            !r.1 ==> (r.0 == 0 <==> self.pos == self.chars.len()),
    {
        let n = self.chars.len();
        if self.pos >= n {
            return (0, false, None);
        }
        let c = self.chars[self.pos];
        if is_whitespace(c) {
            let mut k = self.pos + 1;
            while k < n && is_whitespace(self.chars[k])
                invariant
                    self.pos < k <= n,
                    n == self.chars@.len(),
                    self.chars@ == self.expr@,
                    ws_run(self.expr@, self.pos as int) == (k - self.pos) + ws_run(
                        self.expr@,
                        k as int,
                    ),
                decreases n - k,
            {
                k += 1;
            }
            return (k - self.pos, true, None);
        } else if c == self.string_marker {
            let f = self.pos + 1;
            let mut m = f;
            while m < n && self.chars[m] != self.string_marker
                invariant
                    f <= m <= n,
                    n == self.chars@.len(),
                    self.chars@ == self.expr@,
                    find_char(self.expr@, f as int, self.string_marker) == find_char(
                        self.expr@,
                        m as int,
                        self.string_marker,
                    ),
                decreases n - m,
            {
                m += 1;
            }
            let content = self.expr.substring_char(f, m);
            let tok = Token::Eval(E::from_string(String::from_str(content)));
            let plen = if m < n {
                m - self.pos + 1
            } else {
                n - self.pos
            };
            return (plen, true, Some(tok));
        } else if c == '(' {
            return (1, true, Some(Token::LeftParenthesis));
        } else if c == ')' {
            return (1, true, Some(Token::RightParenthesis));
        } else if c == ',' {
            return (1, true, Some(Token::Comma));
        } else {
            let rest = self.expr.substring_char(self.pos, n);
            match E::match_str(rest, true) {
                Some((e, l)) => {
                    if matches!(e.get_token_type(), TokenType::Operator { .. }) {
                        return (l, true, Some(Token::Eval(e)));
                    } else {
                        return (1, false, None);
                    }
                },
                None => {
                    return (1, false, None);
                },
            }
        }
    }

    /// The token a word from `a` to `b` is, as `word_token` says.
    fn word(&self, a: usize, b: usize) -> (r: Token<'a, E>)
        requires
            self.reading(),
            a <= b <= self.chars@.len(),
        ensures
            r@ == word_token::<E>(self.expr@, a as int, b as int),
    {
        let w = self.expr.substring_char(a, b);
        match E::match_str(w, false) {
            Some((e, l)) => {
                if l == b - a {
                    Token::Eval(e)
                } else {
                    Token::Identifier(w)
                }
            },
            None => Token::Identifier(w),
        }
    }

    /// The next token, as `lex` says; each token handed out leaves less
    /// for the lexer to read.
    pub fn next(&mut self) -> (r: Option<Token<'a, E>>)
        requires
            old(self).inv(),
        ensures
            final(self).inv(),
            (final(self)@, opt_token(r)) == lex(old(self)@),
            final(self).string_marker == old(self).string_marker,
            final(self).expr == old(self).expr,
    {
        if self.next_token.is_some() {
            let mut t: Option<Token<'a, E>> = None;
            std::mem::swap(&mut t, &mut self.next_token);
            return t;
        }
        let ghost t0 = self@;
        loop
            invariant
                self.reading(),
                self.next_token is None,
                t0 == old(self)@,
                t0.next_token is None,
                lex_loop(t0) == lex_loop(self@),
                self.string_marker == t0.marker,
                self.expr@ == t0.expr,
                self.expr == old(self).expr,
            decreases self.chars@.len() - self.pos,
        {
            let (plen, is_delim, cur) = self.scan_at();
            let lnds = self.lnds;
            let lnde = self.lnde;
            let ghost t = self@;
            self.pos = self.pos + plen;
            if is_delim {
                self.lnds = self.pos;
                self.lnde = self.pos;
                match cur {
                    Some(tok) => {
                        if lnds == lnde {
                            return Some(tok);
                        } else {
                            self.next_token = Some(tok);
                            return Some(self.word(lnds, lnde));
                        }
                    },
                    None => {
                        if lnds != lnde {
                            return Some(self.word(lnds, lnde));
                        }
                    },
                }
            } else {
                self.lnde = self.lnde + plen;
                if plen == 0 && lnds != lnde {
                    self.lnds = self.pos;
                    self.lnde = self.pos;
                    return Some(self.word(lnds, lnde));
                }
            }
            if plen == 0 {
                return None;
            }
        }
    }
}

impl<'a, E: Eval> Tokenizer<'a, E> {
    /// Converts the tokens the lexer hands out from its state on to reverse
    /// Polish notation (the shunting-yard algorithm), as `rpn_of` says; a
    /// function or operator after a right parenthesis is told the number of
    /// its arguments. It always succeeds.
    #[verifier::spinoff_prover]
    pub fn rpn(&mut self) -> (r: Result<Vec<Token<'a, E>>, Error>)
        requires
            old(self).inv(),
        ensures
            final(self).inv(),
            final(self).string_marker == old(self).string_marker,
            final(self).expr == old(self).expr,
            r is Ok,
            views(r->Ok_0@) == rpn_of(lex_all(old(self)@)),
    {
        let mut out: Vec<Token<'a, E>> = Vec::new();
        let mut stack: Vec<Token<'a, E>> = Vec::new();
        let mut a_stack: Vec<(usize, usize)> = Vec::new();
        let ghost t0 = self@;
        let ghost mut toks: Seq<TokenV<E>> = seq![];
        proof {
            assert(views(out@) =~= seq![]);
            assert(views(stack@) =~= seq![]);
            assert(counters(a_stack@) =~= seq![]);
            assert(lex_all(t0) =~= toks + lex_all(self@));
        }
        loop
            invariant_except_break
                lex_all(t0) == toks + lex_all(self@),
                toks.len() + consumed(t0) <= consumed(self@),
            invariant
                self.inv(),
                self.string_marker == t0.marker,
                self.expr == old(self).expr,
                t0 == old(self)@,
                rpn_run(toks) == (RpnState {
                    out: views(out@),
                    stack: views(stack@),
                    args: counters(a_stack@),
                }),
                forall|i: int|
                    0 <= i < a_stack@.len() ==> #[trigger] a_stack@[i].0 < toks.len()
                        && a_stack@[i].1 <= 1,
            ensures
                self.inv(),
                self.string_marker == t0.marker,
                self.expr == old(self).expr,
                lex_all(t0) == toks,
                rpn_run(toks) == (RpnState {
                    out: views(out@),
                    stack: views(stack@),
                    args: counters(a_stack@),
                }),
            decreases lex_measure(self@),
        {
            let ghost before = self@;
            let next = self.next();
            proof {
                lemma_lex_progress(before);
            }
            match next {
                None => {
                    proof {
                        assert(lex_all(before) =~= seq![]);
                        assert(toks + seq![] =~= toks);
                    }
                    break;
                },
                Some(token) => {
                    let ghost st = rpn_run(toks);
                    let ghost tv = token@;
                    let ghost toks2 = toks.push(tv);
                    proof {
                        assert(lex_all(before) =~= seq![tv] + lex_all(self@));
                        assert(lex_all(t0) =~= toks2 + lex_all(self@));
                        assert(toks2.drop_last() =~= toks);
                        assert(self.pos <= self.chars.len());
                    }
                    proof {
                        assert forall|i: int| 0 <= i < st.args.len() implies #[trigger] st.args[i].0
                            < toks.len() && st.args[i].1 <= 1 by {
                            assert(st.args[i] == (a_stack@[i].0 as nat, a_stack@[i].1 as nat));
                        }
                        lemma_args_bound(st, tv, toks.len());
                    }
                    step_token(&mut out, &mut stack, &mut a_stack, token, Ghost(toks.len()));
                    proof {
                        assert forall|i: int| 0 <= i < a_stack@.len() implies #[trigger] a_stack@[i].0
                            < toks2.len() && a_stack@[i].1 <= 1 by {
                            assert(counters(a_stack@)[i] == rpn_step(st, tv).args[i]);
                        }
                    }
                    proof {
                        toks = toks2;
                    }
                },
            }
        }
        move_all(&mut out, &mut stack);
        Ok(out)
    }
}

impl<'a, E: Eval> Tokenizer<'a, E> {
    /// Takes an expression from the end of `tokens`, as `get_expr_post`
    /// says.
    pub fn get_expr(tokens: &mut Vec<Token<'a, E>>) -> (r: Result<E, Error>) where
        E::Error: core::fmt::Display,

        ensures
            get_expr_post(views(old(tokens)@), views(final(tokens)@), r),
            views(final(tokens)@) == expr_rest(views(old(tokens)@)),
    {
        let ghost t0 = tokens@;
        if tokens.len() > 0 {
            proof {
                lemma_views_drop_last(t0);
            }
        }
        match tokens.pop() {
            Some(Token::Eval(e)) => {
                let mut e = e;
                match e.build(tokens) {
                    Ok(()) => Ok(e),
                    Err(err) => {
                        let mut m = String::from_str("Error while build expression: ");
                        let t = display_text(&err);
                        m.append(t.as_str());
                        proof {
                            assert(m@ == build_error_prefix() + t@);
                            assert(m@.subrange(0, build_error_prefix().len() as int)
                                =~= build_error_prefix());
                        }
                        Err(Error::String(m))
                    },
                }
            },
            Some(_) => {
                let r = Err(Error::UnexpectedToken("Expected eval token in get_expr"));
                proof {
                    assert(!(views(t0).last() is Eval));
                    assert(views(tokens@) == views(t0).drop_last());
                }
                r
            },
            None => {
                proof {
                    assert(views(tokens@) =~= views(t0));
                }
                Err(Error::EmptyStack)
            },
        }
    }

    /// The expression of the tokens the lexer hands out: their reverse
    /// Polish notation, taken from its end.
    pub fn ast(&mut self) -> (r: Result<E, Error>) where
        E::Error: core::fmt::Display,

        requires
            old(self).inv(),
        ensures
            final(self).inv(),
            get_expr_post(
                rpn_of(lex_all(old(self)@)),
                expr_rest(rpn_of(lex_all(old(self)@))),
                r,
            ),
    {
        let mut v = match self.rpn() {
            Ok(v) => v,
            Err(e) => {
                return Err(e);
            },
        };
        let ghost v0 = views(v@);
        let r = Self::get_expr(&mut v);
        proof {
            assert(get_expr_post(v0, views(v@), r));
        }
        r
    }
}

/// The basic operators.
#[derive(Debug, Clone, Copy, PartialEq, Eq, Structural)]
pub enum StdOp {
    BoolAnd,
    BoolOr,
    BoolNeg,
    BitAnd,
    BitOr,
    Eq,
    Neq,
    Neg,
    Add,
    Sub,
    Mul,
    Div,
    Gt,
    Lt,
}

/// The basic operators over the expressions of an evaluator `E`, with
/// their operands; `Empty` is an operator not yet chosen.
#[derive(Clone, Debug)]
pub enum StdEval<E> {
    BoolAnd { a1: E, a2: E },
    BoolOr { a1: E, a2: E },
    BoolNeg { a: E },
    BitAnd { a1: E, a2: E },
    BitOr { a1: E, a2: E },
    Eq { a1: E, a2: E },
    Neq { a1: E, a2: E },
    Neg { a: E },
    Add { a1: E, a2: E },
    Sub { a1: E, a2: E },
    Mul { a1: E, a2: E },
    Div { a1: E, a2: E },
    Gt { a1: E, a2: E },
    Lt { a1: E, a2: E },
    Empty,
}

impl<E> View for StdEval<E> {
    type V = Option<StdOp>;

    /// The operator, if one is chosen.
    open spec fn view(&self) -> Option<StdOp> {
        match self {
            StdEval::BoolAnd { .. } => Some(StdOp::BoolAnd),
            StdEval::BoolOr { .. } => Some(StdOp::BoolOr),
            StdEval::BoolNeg { .. } => Some(StdOp::BoolNeg),
            StdEval::BitAnd { .. } => Some(StdOp::BitAnd),
            StdEval::BitOr { .. } => Some(StdOp::BitOr),
            StdEval::Eq { .. } => Some(StdOp::Eq),
            StdEval::Neq { .. } => Some(StdOp::Neq),
            StdEval::Neg { .. } => Some(StdOp::Neg),
            StdEval::Add { .. } => Some(StdOp::Add),
            StdEval::Sub { .. } => Some(StdOp::Sub),
            StdEval::Mul { .. } => Some(StdOp::Mul),
            StdEval::Div { .. } => Some(StdOp::Div),
            StdEval::Gt { .. } => Some(StdOp::Gt),
            StdEval::Lt { .. } => Some(StdOp::Lt),
            StdEval::Empty => None,
        }
    }
}

impl<E> Default for StdEval<E> {
    fn default() -> (r: Self)
        ensures
            r is Empty,
    {
        StdEval::Empty
    }
}

/// Whether an operator takes one operand.
pub open spec fn is_unary(op: StdOp) -> bool {
    op == StdOp::BoolNeg || op == StdOp::Neg
}

/// The precedence of an operator (all associate to the left).
pub open spec fn std_precedence(op: StdOp) -> u16 {
    match op {
        StdOp::BoolAnd => 7,
        StdOp::BoolOr => 5,
        StdOp::BitAnd => 4,
        StdOp::BitOr => 3,
        StdOp::Lt => 9,
        StdOp::Gt => 9,
        StdOp::Eq => 8,
        StdOp::Neq => 8,
        StdOp::Neg => 14,
        StdOp::BoolNeg => 14,
        StdOp::Add => 11,
        StdOp::Sub => 11,
        StdOp::Mul => 12,
        StdOp::Div => 12,
    }
}

/// The kind of a basic operator: an operator of its precedence; with no
/// operator chosen, a literal.
pub open spec fn std_token_type(op: Option<StdOp>) -> TokenType {
    match op {
        Some(o) => TokenType::Operator { precedence: std_precedence(o), assoc: Assoc::Left },
        None => TokenType::Literal,
    }
}

/// The operator a string starts with and its length: `+ - * / ~` alone;
/// then, in a string of at least two characters, `&& || == !=`, then
/// `& | ! > <`, then, in one of at least three, `not`.
pub open spec fn std_match(s: Seq<char>) -> Option<(StdOp, nat)> {
    if s.len() == 0 {
        None
    } else if s[0] == '+' {
        Some((StdOp::Add, 1))
    } else if s[0] == '-' {
        Some((StdOp::Sub, 1))
    } else if s[0] == '*' {
        Some((StdOp::Mul, 1))
    } else if s[0] == '/' {
        Some((StdOp::Div, 1))
    } else if s[0] == '~' {
        Some((StdOp::Neg, 1))
    } else if s.len() < 2 {
        None
    } else if s[0] == '&' && s[1] == '&' {
        Some((StdOp::BoolAnd, 2))
    } else if s[0] == '|' && s[1] == '|' {
        Some((StdOp::BoolOr, 2))
    } else if s[0] == '=' && s[1] == '=' {
        Some((StdOp::Eq, 2))
    } else if s[0] == '!' && s[1] == '=' {
        Some((StdOp::Neq, 2))
    } else if s[0] == '&' {
        Some((StdOp::BitAnd, 1))
    } else if s[0] == '|' {
        Some((StdOp::BitOr, 1))
    } else if s[0] == '!' {
        Some((StdOp::BoolNeg, 1))
    } else if s[0] == '>' {
        Some((StdOp::Gt, 1))
    } else if s[0] == '<' {
        Some((StdOp::Lt, 1))
    } else if s.len() >= 3 && s[0] == 'n' && s[1] == 'o' && s[2] == 't' {
        Some((StdOp::BoolNeg, 3))
    } else {
        None
    }
}

/// Whether a character takes one byte in UTF-8.
pub open spec fn is_ascii_char(c: char) -> bool {
    (c as u32) < 0x80
}

/// The strings on which the operator match looks only at whole characters
/// (it compares the first one, two and three bytes): the characters it
/// looks at are ASCII.
pub open spec fn std_match_defined(s: Seq<char>) -> bool {
    s.len() == 0 || (is_ascii_char(s[0]) && (s[0] == '+' || s[0] == '-' || s[0] == '*' || s[0]
        == '/' || s[0] == '~' || s.len() < 2 || (is_ascii_char(s[1]) && ((s[0] == '&' || s[0]
        == '|' || s[0] == '!' || s[0] == '>' || s[0] == '<' || s[0] == '=') || s.len() < 3
        || is_ascii_char(s[2])))))
}

/// An expression taken from the end of a token sequence, if taking it
/// succeeds.
pub open spec fn expr_of<E: Eval>(before: Seq<TokenV<E>>) -> Option<E> {
    if before.len() == 0 {
        None
    } else {
        match before.last() {
            TokenV::Eval(e) => {
                let (built, _, ok) = E::spec_build(e, before.drop_last());
                if ok {
                    Some(built)
                } else {
                    None
                }
            },
            _ => None,
        }
    }
}

/// A basic operator with one operand.
pub open spec fn spec_unary<E>(op: StdOp, a: E) -> StdEval<E> {
    if op == StdOp::Neg {
        StdEval::Neg { a }
    } else {
        StdEval::BoolNeg { a }
    }
}

/// A basic operator with two operands.
pub open spec fn spec_binary<E>(op: StdOp, a1: E, a2: E) -> StdEval<E> {
    match op {
        StdOp::BoolAnd => StdEval::BoolAnd { a1, a2 },
        StdOp::BoolOr => StdEval::BoolOr { a1, a2 },
        StdOp::BitAnd => StdEval::BitAnd { a1, a2 },
        StdOp::BitOr => StdEval::BitOr { a1, a2 },
        StdOp::Eq => StdEval::Eq { a1, a2 },
        StdOp::Neq => StdEval::Neq { a1, a2 },
        StdOp::Add => StdEval::Add { a1, a2 },
        StdOp::Sub => StdEval::Sub { a1, a2 },
        StdOp::Mul => StdEval::Mul { a1, a2 },
        StdOp::Div => StdEval::Div { a1, a2 },
        StdOp::Gt => StdEval::Gt { a1, a2 },
        _ => StdEval::Lt { a1, a2 },
    }
}

/// The first operand of a two-operand operator.
pub open spec fn first_operand<E>(e: StdEval<E>) -> E {
    match e {
        StdEval::BoolAnd { a1, .. } => a1,
        StdEval::BoolOr { a1, .. } => a1,
        StdEval::BitAnd { a1, .. } => a1,
        StdEval::BitOr { a1, .. } => a1,
        StdEval::Eq { a1, .. } => a1,
        StdEval::Neq { a1, .. } => a1,
        StdEval::Add { a1, .. } => a1,
        StdEval::Sub { a1, .. } => a1,
        StdEval::Mul { a1, .. } => a1,
        StdEval::Div { a1, .. } => a1,
        StdEval::Gt { a1, .. } => a1,
        StdEval::Lt { a1, .. } => a1,
        StdEval::BoolNeg { a } => a,
        StdEval::Neg { a } => a,
        StdEval::Empty => arbitrary(),
    }
}

/// Building a basic operator: a one-operand operator takes its operand
/// from the end of the tokens; a two-operand one takes its second operand,
/// then its first. The operands taken before a failure stay set.
pub open spec fn std_build<E: Eval>(e: StdEval<E>, before: Seq<TokenV<E>>) -> (
    StdEval<E>,
    Seq<TokenV<E>>,
    bool,
) {
    match e@ {
        None => (e, before, true),
        Some(op) => if is_unary(op) {
            match expr_of(before) {
                Some(x) => (spec_unary(op, x), expr_rest(before), true),
                None => (e, expr_rest(before), false),
            }
        } else {
            match expr_of(before) {
                None => (e, expr_rest(before), false),
                Some(x2) => {
                    let b1 = expr_rest(before);
                    match expr_of(b1) {
                        Some(x1) => (spec_binary(op, x1, x2), expr_rest(b1), true),
                        None => (spec_binary(op, first_operand(e), x2), expr_rest(b1), false),
                    }
                },
            }
        },
    }
}

/// The basic operator a string starts with, and the number of characters
/// it takes, as `std_match` says.
pub fn match_std_op(s: &str) -> (r: Option<(StdOp, usize)>)
    requires
        std_match_defined(s@),
    ensures
        match std_match(s@) {
            Some((op, l)) => r == Some((op, l as usize)),
            None => r is None,
        },
{
    let n = s.unicode_len();
    if n == 0 {
        return None;
    }
    let c0 = s.get_char(0);
    let one = if c0 == '+' {
        Some(StdOp::Add)
    } else if c0 == '-' {
        Some(StdOp::Sub)
    } else if c0 == '*' {
        Some(StdOp::Mul)
    } else if c0 == '/' {
        Some(StdOp::Div)
    } else if c0 == '~' {
        Some(StdOp::Neg)
    } else {
        None
    };
    if let Some(op) = one {
        return Some((op, 1));
    }
    if n < 2 {
        return None;
    }
    let c1 = s.get_char(1);
    let two = if c0 == '&' && c1 == '&' {
        Some(StdOp::BoolAnd)
    } else if c0 == '|' && c1 == '|' {
        Some(StdOp::BoolOr)
    } else if c0 == '=' && c1 == '=' {
        Some(StdOp::Eq)
    } else if c0 == '!' && c1 == '=' {
        Some(StdOp::Neq)
    } else {
        None
    };
    if let Some(op) = two {
        return Some((op, 2));
    }
    let single = if c0 == '&' {
        Some(StdOp::BitAnd)
    } else if c0 == '|' {
        Some(StdOp::BitOr)
    } else if c0 == '!' {
        Some(StdOp::BoolNeg)
    } else if c0 == '>' {
        Some(StdOp::Gt)
    } else if c0 == '<' {
        Some(StdOp::Lt)
    } else {
        None
    };
    if let Some(op) = single {
        return Some((op, 1));
    }
    if n >= 3 && c0 == 'n' && c1 == 'o' && s.get_char(2) == 't' {
        return Some((StdOp::BoolNeg, 3));
    }
    None
}

impl<E: Eval> StdEval<E> {
    /// The operator, if one is chosen.
    pub fn op(&self) -> (r: Option<StdOp>)
        ensures
            r == self@,
    {
        match self {
            StdEval::BoolAnd { .. } => Some(StdOp::BoolAnd),
            StdEval::BoolOr { .. } => Some(StdOp::BoolOr),
            StdEval::BoolNeg { .. } => Some(StdOp::BoolNeg),
            StdEval::BitAnd { .. } => Some(StdOp::BitAnd),
            StdEval::BitOr { .. } => Some(StdOp::BitOr),
            StdEval::Eq { .. } => Some(StdOp::Eq),
            StdEval::Neq { .. } => Some(StdOp::Neq),
            StdEval::Neg { .. } => Some(StdOp::Neg),
            StdEval::Add { .. } => Some(StdOp::Add),
            StdEval::Sub { .. } => Some(StdOp::Sub),
            StdEval::Mul { .. } => Some(StdOp::Mul),
            StdEval::Div { .. } => Some(StdOp::Div),
            StdEval::Gt { .. } => Some(StdOp::Gt),
            StdEval::Lt { .. } => Some(StdOp::Lt),
            StdEval::Empty => None,
        }
    }

    /// The operator with default operands.
    fn with_defaults(op: StdOp) -> (r: Self)
        ensures
            r@ == Some(op),
    {
        if op == StdOp::BoolNeg || op == StdOp::Neg {
            Self::unary(op, E::default())
        } else {
            Self::binary(op, E::default(), E::default())
        }
    }

    fn unary(op: StdOp, a: E) -> (r: Self)
        requires
            is_unary(op),
        ensures
            r == spec_unary(op, a),
            r@ == Some(op),
    {
        if op == StdOp::Neg {
            StdEval::Neg { a }
        } else {
            StdEval::BoolNeg { a }
        }
    }

    fn binary(op: StdOp, a1: E, a2: E) -> (r: Self)
        requires
            !is_unary(op),
        ensures
            r == spec_binary(op, a1, a2),
            r@ == Some(op),
    {
        match op {
            StdOp::BoolAnd => StdEval::BoolAnd { a1, a2 },
            StdOp::BoolOr => StdEval::BoolOr { a1, a2 },
            StdOp::BitAnd => StdEval::BitAnd { a1, a2 },
            StdOp::BitOr => StdEval::BitOr { a1, a2 },
            StdOp::Eq => StdEval::Eq { a1, a2 },
            StdOp::Neq => StdEval::Neq { a1, a2 },
            StdOp::Add => StdEval::Add { a1, a2 },
            StdOp::Sub => StdEval::Sub { a1, a2 },
            StdOp::Mul => StdEval::Mul { a1, a2 },
            StdOp::Div => StdEval::Div { a1, a2 },
            StdOp::Gt => StdEval::Gt { a1, a2 },
            _ => StdEval::Lt { a1, a2 },
        }
    }

    fn into_first(self) -> (r: E)
        requires
            self@ is Some,
        ensures
            r == first_operand(self),
    {
        match self {
            StdEval::BoolAnd { a1, .. } => a1,
            StdEval::BoolOr { a1, .. } => a1,
            StdEval::BitAnd { a1, .. } => a1,
            StdEval::BitOr { a1, .. } => a1,
            StdEval::Eq { a1, .. } => a1,
            StdEval::Neq { a1, .. } => a1,
            StdEval::Add { a1, .. } => a1,
            StdEval::Sub { a1, .. } => a1,
            StdEval::Mul { a1, .. } => a1,
            StdEval::Div { a1, .. } => a1,
            StdEval::Gt { a1, .. } => a1,
            StdEval::Lt { a1, .. } => a1,
            StdEval::BoolNeg { a } => a,
            StdEval::Neg { a } => a,
            StdEval::Empty => E::default(),
        }
    }

    /// The kind of the operator, as `std_token_type` says.
    pub fn get_token_type(&self) -> (r: TokenType)
        ensures
            r == std_token_type(self@),
    {
        match self {
            StdEval::BoolAnd { .. } => TokenType::Operator { precedence: 7, assoc: Assoc::Left },
            StdEval::BoolOr { .. } => TokenType::Operator { precedence: 5, assoc: Assoc::Left },
            StdEval::BitAnd { .. } => TokenType::Operator { precedence: 4, assoc: Assoc::Left },
            StdEval::BitOr { .. } => TokenType::Operator { precedence: 3, assoc: Assoc::Left },
            StdEval::Lt { .. } => TokenType::Operator { precedence: 9, assoc: Assoc::Left },
            StdEval::Gt { .. } => TokenType::Operator { precedence: 9, assoc: Assoc::Left },
            StdEval::Eq { .. } => TokenType::Operator { precedence: 8, assoc: Assoc::Left },
            StdEval::Neq { .. } => TokenType::Operator { precedence: 8, assoc: Assoc::Left },
            StdEval::Neg { .. } => TokenType::Operator { precedence: 14, assoc: Assoc::Left },
            StdEval::BoolNeg { .. } => TokenType::Operator { precedence: 14, assoc: Assoc::Left },
            StdEval::Add { .. } => TokenType::Operator { precedence: 11, assoc: Assoc::Left },
            StdEval::Sub { .. } => TokenType::Operator { precedence: 11, assoc: Assoc::Left },
            StdEval::Mul { .. } => TokenType::Operator { precedence: 12, assoc: Assoc::Left },
            StdEval::Div { .. } => TokenType::Operator { precedence: 12, assoc: Assoc::Left },
            StdEval::Empty => TokenType::Literal,
        }
    }

    /// The basic operator a string starts with, as `std_match` says, with
    /// default operands, and the number of characters it takes. Only
    /// operators are matched, with `ahead` or without.
    pub fn match_str(s: &str, ahead: bool) -> (r: Option<(Self, usize)>)
        requires
            std_match_defined(s@),
        ensures
            match std_match(s@) {
                Some((op, l)) => r matches Some((e, k)) && e@ == Some(op) && k == l,
                None => r is None,
            },
    {
        match match_std_op(s) {
            Some((op, k)) => Some((Self::with_defaults(op), k)),
            None => None,
        }
    }

    /// Takes the operands from the end of `tokens`, as `std_build` says; a
    /// failure to take one is reported through the evaluator's error.
    pub fn build<'a>(&mut self, tokens: &mut Vec<Token<'a, E>>) -> (r: Result<(), E::Error>) where
        E::Error: From<Error> + core::fmt::Display,

        ensures
            (*final(self), views(final(tokens)@), r is Ok) == std_build(
                *old(self),
                views(old(tokens)@),
            ),
    {
        let op = match self.op() {
            None => {
                return Ok(());
            },
            Some(op) => op,
        };
        if op == StdOp::BoolNeg || op == StdOp::Neg {
            match Tokenizer::<E>::get_expr(tokens) {
                Ok(x) => {
                    *self = Self::unary(op, x);
                    Ok(())
                },
                Err(err) => Err(E::Error::from(err)),
            }
        } else {
            match Tokenizer::<E>::get_expr(tokens) {
                Err(err) => Err(E::Error::from(err)),
                Ok(x2) => {
                    let mut cur: StdEval<E> = StdEval::Empty;
                    std::mem::swap(&mut cur, self);
                    let a1 = cur.into_first();
                    match Tokenizer::<E>::get_expr(tokens) {
                        Ok(x1) => {
                            *self = Self::binary(op, x1, x2);
                            Ok(())
                        },
                        Err(err) => {
                            *self = Self::binary(op, a1, x2);
                            Err(E::Error::from(err))
                        },
                    }
                },
            }
        }
    }
}

/// The length of the run of white space that ends at position `j`.
pub open spec fn ws_back(s: Seq<char>, j: int) -> int
    decreases j,
{
    if j <= 0 || j > s.len() || !is_ws(s[j - 1]) {
        0
    } else {
        1 + ws_back(s, j - 1)
    }
}

/// A text without the white space at its start and end (`str::trim`).
pub open spec fn trim_ws(s: Seq<char>) -> Seq<char> {
    let t = s.subrange(ws_run(s, 0), s.len() as int);
    t.subrange(0, t.len() - ws_back(t, t.len() as int))
}

proof fn lemma_ws_run_bound(s: Seq<char>, i: int)
    requires
        0 <= i <= s.len(),
    ensures
        0 <= ws_run(s, i) <= s.len() - i,
    decreases s.len() - i,
{
    if i < s.len() && is_ws(s[i]) {
        lemma_ws_run_bound(s, i + 1);
    }
}

proof fn lemma_ws_back_bound(s: Seq<char>, j: int)
    requires
        0 <= j <= s.len(),
    ensures
        0 <= ws_back(s, j) <= j,
    decreases j,
{
    if j > 0 && is_ws(s[j - 1]) {
        lemma_ws_back_bound(s, j - 1);
    }
}

/// A string without the white space at its start and end, as `trim_ws`
/// says.
pub fn trim_text(s: &str) -> (r: String)
    ensures
        r@ == trim_ws(s@),
{
    let cs = chars_of(s);
    let n = cs.len();
    let mut i: usize = 0;
    while i < n && is_whitespace(cs[i])
        invariant
            i <= n,
            n == cs@.len(),
            cs@ == s@,
            ws_run(s@, 0) == i + ws_run(s@, i as int),
        decreases n - i,
    {
        i += 1;
    }
    let ghost t = s@.subrange(i as int, n as int);
    proof {
        assert(ws_run(s@, i as int) == 0);
    }
    let mut j: usize = n;
    while j > i && is_whitespace(cs[j - 1])
        invariant
            i <= j <= n,
            n == cs@.len(),
            cs@ == s@,
            t == s@.subrange(i as int, n as int),
            ws_back(t, t.len() as int) == (n - j) + ws_back(t, j - i),
        decreases j,
    {
        proof {
            assert(t[j - 1 - i] == cs@[j - 1]);
        }
        j -= 1;
    }
    proof {
        if j > i {
            assert(t[j - 1 - i] == cs@[j - 1]);
        }
        assert(ws_back(t, j - i) == 0);
        assert(t.subrange(0, t.len() - ws_back(t, t.len() as int)) =~= cs@.subrange(i as int, j as int));
    }
    string_of(&cs.as_slice()[i..j])
}

/// The basic operators bind, from the loosest to the tightest: `|`, `&`,
/// `||`, `&&`, then `==` and `!=`, then `<` and `>`, then `+` and `-`, then
/// `*` and `/`, then the unary `-` and `!`; each associates to the left.
pub proof fn lemma_std_precedence_order(op: StdOp)
    ensures
        std_precedence(StdOp::BitOr) < std_precedence(StdOp::BitAnd),
        std_precedence(StdOp::BitAnd) < std_precedence(StdOp::BoolOr),
        std_precedence(StdOp::BoolOr) < std_precedence(StdOp::BoolAnd),
        std_precedence(StdOp::BoolAnd) < std_precedence(StdOp::Eq),
        std_precedence(StdOp::Eq) == std_precedence(StdOp::Neq),
        std_precedence(StdOp::Neq) < std_precedence(StdOp::Lt),
        std_precedence(StdOp::Lt) == std_precedence(StdOp::Gt),
        std_precedence(StdOp::Gt) < std_precedence(StdOp::Add),
        std_precedence(StdOp::Add) == std_precedence(StdOp::Sub),
        std_precedence(StdOp::Sub) < std_precedence(StdOp::Mul),
        std_precedence(StdOp::Mul) == std_precedence(StdOp::Div),
        std_precedence(StdOp::Div) < std_precedence(StdOp::Neg),
        std_precedence(StdOp::Neg) == std_precedence(StdOp::BoolNeg),
        std_token_type(Some(op)) matches TokenType::Operator { precedence, assoc } && precedence
            == std_precedence(op) && assoc == Assoc::Left,
{
}

} // verus!
