use std::fmt;
use switcher::tokenizer::{Assoc, Error, Eval, StdEval, StdOp, Token, TokenType, Tokenizer};

/// A small evaluator over integers: numbers and strings, the basic
/// operators, and a `max` function.
#[derive(Debug)]
enum Ex {
    Nothing,
    Num(i64),
    Str(String),
    Op(Box<StdEval<Ex>>),
    Max { n: usize, args: Vec<Ex> },
}

impl Default for Ex {
    fn default() -> Self {
        Ex::Nothing
    }
}

#[derive(Debug)]
struct ExError(String);

impl From<Error> for ExError {
    fn from(e: Error) -> Self {
        ExError(match e {
            Error::EmptyStack => "Empty stack".to_string(),
            Error::String(s) => s,
            Error::UnexpectedToken(s) => s.to_string(),
            _ => "other".to_string(),
        })
    }
}

impl fmt::Display for ExError {
    fn fmt(&self, f: &mut fmt::Formatter<'_>) -> fmt::Result {
        f.write_str(&self.0)
    }
}

impl Eval for Ex {
    type EvalRes = i64;
    type EvalCtx = ();
    type Error = ExError;

    fn match_str(s: &str, ahead: bool) -> Option<(Self, usize)> {
        if let Some((op, l)) = StdEval::<Ex>::match_str(s, ahead) {
            return Some((Ex::Op(Box::new(op)), l));
        }
        if ahead {
            return None;
        }
        if s == "max" {
            return Some((Ex::Max { n: 0, args: vec![] }, 3));
        }
        s.parse::<i64>().ok().map(|n| (Ex::Num(n), s.chars().count()))
    }

    fn get_token_type(&self) -> TokenType {
        match self {
            Ex::Op(op) => op.get_token_type(),
            Ex::Max { .. } => TokenType::Function,
            _ => TokenType::Literal,
        }
    }

    fn set_arg_num(&mut self, num: usize) {
        if let Ex::Max { n, .. } = self {
            *n = num;
        }
    }

    fn build<'a>(&mut self, tokens: &mut Vec<Token<'a, Self>>) -> Result<(), ExError> {
        match self {
            Ex::Op(op) => op.build(tokens),
            Ex::Max { n, args } => {
                for _ in 0..*n {
                    args.insert(0, Tokenizer::<Ex>::get_expr(tokens)?);
                }
                Ok(())
            }
            _ => Ok(()),
        }
    }

    fn eval(&self, ctx: &mut ()) -> Result<i64, ExError> {
        match self {
            Ex::Num(n) => Ok(*n),
            Ex::Str(s) => Ok(s.len() as i64),
            Ex::Max { args, .. } => {
                let mut m = i64::MIN;
                for a in args {
                    m = m.max(a.eval(ctx)?);
                }
                Ok(m)
            }
            Ex::Op(op) => match op.as_ref() {
                StdEval::Add { a1, a2 } => Ok(a1.eval(ctx)? + a2.eval(ctx)?),
                StdEval::Sub { a1, a2 } => Ok(a1.eval(ctx)? - a2.eval(ctx)?),
                StdEval::Mul { a1, a2 } => Ok(a1.eval(ctx)? * a2.eval(ctx)?),
                StdEval::Div { a1, a2 } => Ok(a1.eval(ctx)? / a2.eval(ctx)?),
                StdEval::Lt { a1, a2 } => Ok((a1.eval(ctx)? < a2.eval(ctx)?) as i64),
                StdEval::Neg { a } => Ok(-a.eval(ctx)?),
                _ => Err(ExError("unsupported".to_string())),
            },
            Ex::Nothing => Err(ExError("nothing".to_string())),
        }
    }

    fn from_string(s: String) -> Self {
        Ex::Str(s)
    }
}

fn value(expr: &str) -> i64 {
    let mut t = Tokenizer::<Ex>::new(expr);
    let e = match t.ast() {
        Ok(e) => e,
        Err(_) => panic!("no expression in {}", expr),
    };
    e.eval(&mut ()).unwrap()
}

fn describe(t: &Token<Ex>) -> String {
    match t {
        Token::LeftParenthesis => "(".to_string(),
        Token::RightParenthesis => ")".to_string(),
        Token::Comma => ",".to_string(),
        Token::Identifier(s) => format!("id:{}", s),
        Token::Eval(Ex::Num(n)) => n.to_string(),
        Token::Eval(Ex::Str(s)) => format!("str:{}", s),
        Token::Eval(Ex::Max { n, .. }) => format!("max/{}", n),
        Token::Eval(Ex::Op(op)) => format!("{:?}", op.op().unwrap()),
        Token::Eval(Ex::Nothing) => "nothing".to_string(),
    }
}

fn lex(expr: &str) -> Vec<String> {
    let mut t = Tokenizer::<Ex>::new(expr);
    let mut v = Vec::new();
    while let Some(tok) = t.next() {
        v.push(describe(&tok));
    }
    v
}

#[test]
fn lexer_cuts_words_at_delimiters() {
    assert_eq!(lex("a + 12"), vec!["id:a", "Add", "12"]);
    assert_eq!(lex("max(1,x)"), vec!["max/0", "(", "1", ",", "id:x", ")"]);
    assert_eq!(lex("a+b"), vec!["id:a", "Add", "id:b"]);
    assert_eq!(lex("  "), Vec::<String>::new());
    assert_eq!(lex("\"hi there\" == y"), vec!["str:hi there", "Eq", "id:y"]);
    assert_eq!(lex("\"open"), vec!["str:open"]);
}

#[test]
fn reverse_polish_order() {
    let mut t = Tokenizer::<Ex>::new("1 + 2 * 3");
    let out = match t.rpn() {
        Ok(v) => v,
        Err(_) => panic!("rpn failed"),
    };
    let d: Vec<String> = out.iter().map(describe).collect();
    assert_eq!(d, vec!["1", "2", "3", "Mul", "Add"]);
    let mut t = Tokenizer::<Ex>::new("(1 + 2) * 3");
    let d: Vec<String> = match t.rpn() {
        Ok(v) => v.iter().map(describe).collect(),
        Err(_) => panic!("rpn failed"),
    };
    assert_eq!(d, vec!["1", "2", "Add", "3", "Mul"]);
    let mut t = Tokenizer::<Ex>::new("8 - 3 - 2");
    let d: Vec<String> = match t.rpn() {
        Ok(v) => v.iter().map(describe).collect(),
        Err(_) => panic!("rpn failed"),
    };
    assert_eq!(d, vec!["8", "3", "Sub", "2", "Sub"]);
}

#[test]
fn function_is_told_its_arguments() {
    let mut t = Tokenizer::<Ex>::new("max(1, 5, 3)");
    let d: Vec<String> = match t.rpn() {
        Ok(v) => v.iter().map(describe).collect(),
        Err(_) => panic!("rpn failed"),
    };
    assert_eq!(d, vec!["1", "5", "3", "max/3"]);
    let mut t = Tokenizer::<Ex>::new("max()");
    let d: Vec<String> = match t.rpn() {
        Ok(v) => v.iter().map(describe).collect(),
        Err(_) => panic!("rpn failed"),
    };
    assert_eq!(d, vec!["max/0"]);
}

#[test]
fn expressions_evaluate() {
    assert_eq!(value("1 + 2 * 3"), 7);
    assert_eq!(value("(1 + 2) * 3"), 9);
    assert_eq!(value("8 - 3 - 2"), 3);
    assert_eq!(value("max(1, 5, 3) * 2"), 10);
    assert_eq!(value("~4 + 10"), 6);
    assert_eq!(value("2 < 3"), 1);
    assert_eq!(value("\"abc\" + 1"), 4);
}

#[test]
fn missing_operand_is_reported() {
    let mut t = Tokenizer::<Ex>::new("1 +");
    match t.ast() {
        Err(Error::String(m)) => assert!(m.starts_with("Error while build expression: ")),
        _ => panic!("an operand is missing"),
    }
    let mut t = Tokenizer::<Ex>::new("");
    assert!(matches!(t.ast(), Err(Error::EmptyStack)));
    let mut t = Tokenizer::<Ex>::new("x");
    assert!(matches!(t.ast(), Err(Error::UnexpectedToken(_))));
}

#[test]
fn basic_operator_match() {
    let m = |s: &str| StdEval::<Ex>::match_str(s, true).map(|(e, l)| (e.op().unwrap(), l));
    assert_eq!(m("+1"), Some((StdOp::Add, 1)));
    assert_eq!(m("&&x"), Some((StdOp::BoolAnd, 2)));
    assert_eq!(m("&x"), Some((StdOp::BitAnd, 1)));
    assert_eq!(m("!=3"), Some((StdOp::Neq, 2)));
    assert_eq!(m("not a"), Some((StdOp::BoolNeg, 3)));
    assert_eq!(m("<="), Some((StdOp::Lt, 1)));
    assert_eq!(m("=="), Some((StdOp::Eq, 2)));
    assert_eq!(m("="), None);
    // a lone `&` or `!` at the end is not matched
    assert_eq!(m("&"), None);
    assert_eq!(m("!"), None);
    assert_eq!(m("abc"), None);
    assert_eq!(m(""), None);
}

#[test]
fn basic_operator_kinds() {
    let t = |s: &str| StdEval::<Ex>::match_str(s, false).unwrap().0.get_token_type();
    assert_eq!(t("*"), TokenType::Operator { precedence: 12, assoc: Assoc::Left });
    assert_eq!(t("||"), TokenType::Operator { precedence: 5, assoc: Assoc::Left });
    assert_eq!(t("~"), TokenType::Operator { precedence: 14, assoc: Assoc::Left });
    assert_eq!(StdEval::<Ex>::default().get_token_type(), TokenType::Literal);
    assert!(StdEval::<Ex>::default().op().is_none());
}
