use switcher::switcher::eval::{
    i32_to_text, parse_hex_i32, parse_i32, str_less, EvalDev, EvalError, SwEvalCtx, SwEvaluator, SwValue,
};
use switcher::tokenizer::{Assoc, Eval, StdOp, TokenType};

fn ctx() -> SwEvalCtx {
    SwEvalCtx {
        val: None,
        vals: None,
        vals_prefix: None,
        data: None,
        topic: None,
        dev: None,
        msgs: None,
        now: 1000,
    }
}

fn lit(v: SwValue) -> Box<SwEvaluator> {
    Box::new(SwEvaluator::SwValue(v))
}

fn num(n: i32) -> Box<SwEvaluator> {
    lit(SwValue::Numeric(n))
}

fn text(s: &str) -> Box<SwEvaluator> {
    lit(SwValue::String(s.to_string()))
}

fn op(op: StdOp, a1: Box<SwEvaluator>, a2: Box<SwEvaluator>) -> SwEvaluator {
    SwEvaluator::Std { op, a1, a2 }
}

fn eval(e: &SwEvaluator) -> Result<SwValue, EvalError> {
    e.eval(&mut ctx())
}

fn is_num(r: Result<SwValue, EvalError>, n: i32) -> bool {
    matches!(r, Ok(SwValue::Numeric(x)) if x == n)
}

fn is_text(r: Result<SwValue, EvalError>, s: &str) -> bool {
    matches!(r, Ok(SwValue::String(ref x)) if x == s)
}

fn is_bool(r: Result<SwValue, EvalError>, b: bool) -> bool {
    matches!(r, Ok(SwValue::Bool(x)) if x == b)
}

#[test]
fn integer_arithmetic() {
    assert!(is_num(eval(&op(StdOp::Add, num(2), num(3))), 5));
    assert!(is_num(eval(&op(StdOp::Sub, num(2), num(3))), -1));
    assert!(is_num(eval(&op(StdOp::Mul, num(-4), num(3))), -12));
    assert!(is_num(eval(&op(StdOp::Div, num(7), num(2))), 3));
    assert!(is_num(eval(&op(StdOp::Div, num(-7), num(2))), -3));
    assert!(is_num(eval(&op(StdOp::Neg, num(5), num(0))), -5));
    assert!(is_num(eval(&op(StdOp::BitAnd, num(6), text("3"))), 2));
    assert!(is_num(eval(&op(StdOp::BitOr, num(4), num(1))), 5));
    assert!(matches!(eval(&op(StdOp::Div, num(1), num(0))), Err(EvalError::DivisionByZero)));
    assert!(matches!(eval(&op(StdOp::Add, num(i32::MAX), num(1))), Err(EvalError::Overflow)));
    assert!(matches!(eval(&op(StdOp::Sub, text("a"), num(1))), Ok(SwValue::Empty)));
}

#[test]
fn addition_joins_texts() {
    assert!(is_text(eval(&op(StdOp::Add, text("t="), num(-12))), "t=-12"));
    assert!(is_text(eval(&op(StdOp::Add, num(1), text("x"))), "1x"));
    assert!(is_text(eval(&op(StdOp::Add, lit(SwValue::Bool(true)), lit(SwValue::Empty))), "truenone"));
}

#[test]
fn comparisons_and_logic() {
    assert!(is_bool(eval(&op(StdOp::Eq, num(1), num(1))), true));
    assert!(is_bool(eval(&op(StdOp::Eq, num(1), text("1"))), false));
    assert!(is_bool(eval(&op(StdOp::Neq, text("a"), text("b"))), true));
    assert!(is_bool(eval(&op(StdOp::Lt, num(1), num(2))), true));
    assert!(is_bool(eval(&op(StdOp::Gt, text("b"), text("a"))), true));
    assert!(is_bool(eval(&op(StdOp::Lt, text("10"), num(9))), true));
    assert!(is_bool(eval(&op(StdOp::Lt, num(1), text("2"))), false));
    assert!(is_bool(eval(&op(StdOp::BoolAnd, num(1), text("true"))), true));
    assert!(is_bool(eval(&op(StdOp::BoolOr, lit(SwValue::Bool(false)), num(0))), false));
    assert!(is_bool(eval(&op(StdOp::BoolNeg, lit(SwValue::Bool(false)), num(0))), true));
    // the second operand is not evaluated where the first decides
    let e = op(StdOp::BoolAnd, lit(SwValue::Bool(false)), Box::new(SwEvaluator::Topic));
    assert!(is_bool(eval(&e), false));
    let e = op(StdOp::BoolOr, lit(SwValue::Bool(true)), Box::new(SwEvaluator::Topic));
    assert!(is_bool(eval(&e), true));
    assert!(matches!(eval(&op(StdOp::BoolAnd, lit(SwValue::Empty), num(1))), Err(EvalError::NotBool)));
}

#[test]
fn conditionals_and_sequences() {
    let e = SwEvaluator::If { n: 3, a1: num(1), a2: text("yes"), a3: text("no") };
    assert!(is_text(eval(&e), "yes"));
    let e = SwEvaluator::If { n: 3, a1: text("false"), a2: text("yes"), a3: text("no") };
    assert!(is_text(eval(&e), "no"));
    let e = SwEvaluator::If { n: 2, a1: num(0), a2: text("yes"), a3: text("no") };
    assert!(matches!(eval(&e), Ok(SwValue::Empty)));
    let e = SwEvaluator::Semicolon { a1: num(1), a2: num(2) };
    assert!(is_num(eval(&e), 2));
}

#[test]
fn values_constants_and_messages() {
    let mut c = ctx();
    c.vals = Some(vec![("lamp.on".to_string(), SwValue::Bool(true))]);
    c.vals_prefix = Some("lamp".to_string());
    c.msgs = Some(Vec::new());
    c.dev = Some(EvalDev { consts: Some(vec![("max".to_string(), SwValue::Numeric(100))]) });
    let get = SwEvaluator::Val { n: 1, a1: text("on"), a2: num(0) };
    assert!(matches!(get.eval(&mut c), Ok(SwValue::Bool(true))));
    let missing = SwEvaluator::Val { n: 1, a1: text("off"), a2: num(0) };
    assert!(matches!(missing.eval(&mut c), Ok(SwValue::Empty)));
    let set = SwEvaluator::Val { n: 2, a1: text("level"), a2: num(42) };
    assert!(matches!(set.eval(&mut c), Ok(SwValue::Empty)));
    let msgs = c.msgs.as_ref().unwrap();
    assert_eq!(msgs.len(), 1);
    assert_eq!(msgs[0].0, "lamp.level");
    assert!(matches!(msgs[0].1, SwValue::Numeric(42)));
    let k = SwEvaluator::Const { a: text("max") };
    assert!(matches!(k.eval(&mut c), Ok(SwValue::Numeric(100))));
    let too_many = SwEvaluator::Val { n: 3, a1: num(0), a2: num(0) };
    assert!(matches!(too_many.eval(&mut c), Err(EvalError::TooManyArgs)));
    // without values, messages or a device
    assert!(matches!(get.eval(&mut ctx()), Err(EvalError::NoVals)));
    assert!(matches!(set.eval(&mut ctx()), Err(EvalError::NoMsgs)));
    assert!(matches!(k.eval(&mut ctx()), Err(EvalError::NoDev)));
}

#[test]
fn data_topic_and_time() {
    let mut c = ctx();
    c.data = Some("21.5".to_string());
    c.topic = Some("devices/x".to_string());
    let v = SwEvaluator::Val { n: 0, a1: num(0), a2: num(0) };
    assert!(matches!(v.eval(&mut c), Ok(SwValue::String(ref s)) if s == "21.5"));
    assert!(matches!(SwEvaluator::Topic.eval(&mut c), Ok(SwValue::String(ref s)) if s == "devices/x"));
    assert!(matches!(SwEvaluator::Now.eval(&mut c), Ok(SwValue::Numeric(1000))));
    let d = SwEvaluator::Duration { n: 1, a1: num(400), a2: Box::new(SwEvaluator::Now) };
    assert!(matches!(d.eval(&mut c), Ok(SwValue::Numeric(600))));
    assert!(matches!(v.eval(&mut ctx()), Err(EvalError::NoValue)));
    assert!(matches!(SwEvaluator::Topic.eval(&mut ctx()), Err(EvalError::NoTopic)));
    let mut c = ctx();
    c.val = Some(SwValue::Numeric(3));
    assert!(matches!(v.eval(&mut c), Ok(SwValue::Numeric(3))));
}

#[test]
fn scale_and_parse_num() {
    let e = SwEvaluator::Scale { a1: num(50), a2: num(0), a3: num(100), a4: num(0), a5: num(254) };
    assert!(is_num(eval(&e), 127));
    let e = SwEvaluator::Scale { a1: lit(SwValue::Empty), a2: num(0), a3: num(100), a4: num(0), a5: num(254) };
    assert!(matches!(eval(&e), Ok(SwValue::Empty)));
    let e = SwEvaluator::Scale { a1: num(5), a2: num(1), a3: num(1), a4: num(0), a5: num(2) };
    assert!(matches!(eval(&e), Err(EvalError::DivisionByZero)));
    assert!(is_num(eval(&SwEvaluator::ParseNum { a: text("-17") }), -17));
    assert!(matches!(eval(&SwEvaluator::ParseNum { a: text("1x") }), Err(EvalError::BadNumber)));
}

#[test]
fn integer_text_and_parsing() {
    assert_eq!(i32_to_text(0), "0");
    assert_eq!(i32_to_text(-2147483648), "-2147483648");
    assert_eq!(parse_i32("+12"), Some(12));
    assert_eq!(parse_i32("-2147483648"), Some(i32::MIN));
    assert_eq!(parse_i32("2147483648"), None);
    assert_eq!(parse_i32("-+1"), None);
    assert_eq!(parse_i32("-"), None);
    assert!(str_less("ab", "b"));
    assert!(str_less("a", "ab"));
    assert!(!str_less("b", "b"));
}

#[test]
fn words_are_matched_to_expressions() {
    assert!(matches!(
        SwEvaluator::match_str("+1", false),
        Some((SwEvaluator::Std { op: StdOp::Add, .. }, 1))
    ));
    assert!(matches!(
        SwEvaluator::match_str("&&", true),
        Some((SwEvaluator::Std { op: StdOp::BoolAnd, .. }, 2))
    ));
    assert!(matches!(SwEvaluator::match_str(";", true), Some((SwEvaluator::Semicolon { .. }, 1))));
    assert!(matches!(SwEvaluator::match_str("if(", false), Some((SwEvaluator::If { n: 3, .. }, 2))));
    assert!(matches!(SwEvaluator::match_str("val", false), Some((SwEvaluator::Val { n: 0, .. }, 3))));
    assert!(matches!(SwEvaluator::match_str("now", false), Some((SwEvaluator::Now, 3))));
    assert!(matches!(SwEvaluator::match_str("topic", false), Some((SwEvaluator::Topic, 5))));
    assert!(matches!(SwEvaluator::match_str("duration", false), Some((SwEvaluator::Duration { .. }, 8))));
    assert!(matches!(SwEvaluator::match_str("parse_num", false), Some((SwEvaluator::ParseNum { .. }, 9))));
    assert!(matches!(SwEvaluator::match_str("none", false), Some((SwEvaluator::SwValue(SwValue::Empty), 4))));
    assert!(matches!(
        SwEvaluator::match_str("true", false),
        Some((SwEvaluator::SwValue(SwValue::Bool(true)), 4))
    ));
    assert!(matches!(
        SwEvaluator::match_str("-12", false),
        Some((SwEvaluator::Std { op: StdOp::Sub, .. }, 1))
    ));
    assert!(matches!(
        SwEvaluator::match_str("12", false),
        Some((SwEvaluator::SwValue(SwValue::Numeric(12)), 2))
    ));
    // literals only where whole words are read
    assert!(SwEvaluator::match_str("12", true).is_none());
    // functions this evaluator does not evaluate
    assert!(SwEvaluator::match_str("map", false).is_none());
    assert!(SwEvaluator::match_str("date", false).is_none());
    assert!(SwEvaluator::match_str("word", false).is_none());
}

#[test]
fn token_types_and_argument_counts() {
    assert!(matches!(SwEvaluator::SwValue(SwValue::Empty).get_token_type(), TokenType::Literal));
    assert!(matches!(
        op(StdOp::Mul, num(1), num(2)).get_token_type(),
        TokenType::Operator { precedence: 12, assoc: Assoc::Left }
    ));
    assert!(matches!(
        SwEvaluator::Semicolon { a1: num(1), a2: num(2) }.get_token_type(),
        TokenType::Operator { precedence: 1, assoc: Assoc::Left }
    ));
    assert!(matches!(SwEvaluator::Now.get_token_type(), TokenType::Function));
    let mut e = SwEvaluator::Val { n: 0, a1: num(0), a2: num(0) };
    e.set_arg_num(2);
    assert!(matches!(e, SwEvaluator::Val { n: 2, .. }));
    let mut e = SwEvaluator::Topic;
    e.set_arg_num(2);
    assert!(matches!(e, SwEvaluator::Topic));
}

#[test]
fn hexdec_reads_hexadecimal_integers() {
    assert!(is_num(eval(&SwEvaluator::Hexdec { a: text("ff") }), 255));
    assert!(is_num(eval(&SwEvaluator::Hexdec { a: text("-1A") }), -26));
    assert!(is_num(eval(&SwEvaluator::Hexdec { a: text("+7fffffff") }), i32::MAX));
    assert!(is_num(eval(&SwEvaluator::Hexdec { a: text("-80000000") }), i32::MIN));
    assert!(matches!(eval(&SwEvaluator::Hexdec { a: text("80000000") }), Ok(SwValue::Empty)));
    assert!(matches!(eval(&SwEvaluator::Hexdec { a: text("xyz") }), Ok(SwValue::Empty)));
    assert!(matches!(eval(&SwEvaluator::Hexdec { a: text("") }), Ok(SwValue::Empty)));
    assert!(matches!(SwEvaluator::match_str("hexdec", false), Some((SwEvaluator::Hexdec { .. }, 6))));
    assert_eq!(parse_hex_i32("10"), Some(16));
    assert_eq!(parse_hex_i32("-"), None);
}

#[test]
fn strpos_gives_the_byte_position() {
    let sp = |h: &str, n: &str| SwEvaluator::Strpos { a1: text(h), a2: text(n) };
    assert!(is_num(eval(&sp("hello world", "o")), 4));
    assert!(is_num(eval(&sp("hello", "")), 0));
    assert!(is_num(eval(&sp("žluť", "uť")), 3));
    assert!(matches!(eval(&sp("hello", "x")), Ok(SwValue::Empty)));
    assert!(is_num(eval(&SwEvaluator::Strpos { a1: num(1234), a2: text("3") }), 2));
    assert!(matches!(SwEvaluator::match_str("strpos", false), Some((SwEvaluator::Strpos { .. }, 6))));
}

#[test]
fn dechex_writes_padded_hexadecimal() {
    let dh = |n: Box<SwEvaluator>, w: Box<SwEvaluator>| SwEvaluator::Dechex { a1: n, a2: w };
    assert!(is_text(eval(&dh(num(255), num(4))), "00ff"));
    assert!(is_text(eval(&dh(num(255), num(1))), "ff"));
    assert!(is_text(eval(&dh(num(0), num(0))), "0"));
    assert!(is_text(eval(&dh(num(-1), num(0))), "ffffffff"));
    assert!(is_text(eval(&dh(text("26"), num(3))), "01a"));
    assert!(matches!(eval(&dh(num(1), num(-2))), Err(EvalError::NegativeWidth)));
    assert!(matches!(SwEvaluator::match_str("dechex", false), Some((SwEvaluator::Dechex { .. }, 6))));
}
