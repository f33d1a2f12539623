use switcher::switcher::eval::{substr, EvalError, SwEvalCtx, SwEvaluator, SwValue};
use switcher::switcher::expr::parse_expression;
use switcher::tokenizer::{Error, Eval, StdOp};

fn ctx(vals: Vec<(&str, SwValue)>) -> SwEvalCtx {
    SwEvalCtx {
        val: None,
        vals: Some(vals.into_iter().map(|(k, v)| (k.to_string(), v)).collect()),
        vals_prefix: None,
        data: None,
        topic: None,
        dev: None,
        msgs: Some(Vec::new()),
        now: 1000,
    }
}

fn run(s: &str, c: &mut SwEvalCtx) -> SwValue {
    match parse_expression(s) {
        Ok(e) => match e.eval(c) {
            Ok(v) => v,
            Err(e) => panic!("evaluation of {} failed: {:?}", s, e),
        },
        Err(e) => panic!("{} does not parse: {:?}", s, e),
    }
}

#[test]
fn arithmetic_follows_precedence() {
    let mut c = ctx(vec![]);
    assert!(matches!(run("1 + 2 * 3", &mut c), SwValue::Numeric(7)));
    assert!(matches!(run("(1 + 2) * 3", &mut c), SwValue::Numeric(9)));
    assert!(matches!(run("scale(5, 0, 10, 0, 100)", &mut c), SwValue::Numeric(50)));
    assert!(matches!(run("hexdec(\"ff\")", &mut c), SwValue::Numeric(255)));
}

#[test]
fn condition_reads_values() {
    let mut c = ctx(vec![("t", SwValue::Numeric(25))]);
    let e = parse_expression("val(\"t\") > 20").unwrap();
    match &e {
        SwEvaluator::Std { op: StdOp::Gt, a1, a2 } => {
            assert!(matches!(**a1, SwEvaluator::Val { n: 1, .. }));
            assert!(matches!(**a2, SwEvaluator::SwValue(SwValue::Numeric(20))));
        }
        _ => panic!("a comparison"),
    }
    assert!(matches!(e.eval(&mut c), Ok(SwValue::Bool(true))));
}

#[test]
fn strings_and_branches() {
    let mut c = ctx(vec![]);
    assert!(matches!(run("if(1 > 2, \"a\", \"b\")", &mut c), SwValue::String(ref s) if s == "b"));
    assert!(matches!(run("strpos(\"hello\", \"l\")", &mut c), SwValue::Numeric(2)));
    assert!(matches!(run("dechex(255, 4)", &mut c), SwValue::String(ref s) if s == "00ff"));
}

#[test]
fn setting_a_value_leaves_a_message() {
    let mut c = ctx(vec![]);
    run("val(\"fan\", 1); 2", &mut c);
    let msgs = c.msgs.unwrap();
    assert_eq!(msgs.len(), 1);
    assert_eq!(msgs[0].0, "fan");
    assert!(matches!(msgs[0].1, SwValue::Numeric(1)));
}

#[test]
fn bad_expressions_are_refused() {
    assert!(matches!(parse_expression(""), Err(Error::EmptyStack)));
    assert!(parse_expression("1 +").is_err());
}

#[test]
fn string_literal_is_a_text_token() {
    let e = SwEvaluator::from_string("abc".to_string());
    let mut c = ctx(vec![]);
    assert!(matches!(e.eval(&mut c), Ok(SwValue::String(ref s)) if s == "abc"));
    assert!(matches!(SwEvaluator::match_str("žx", false), None));
}

#[test]
fn base64_and_lpad() {
    let mut c = ctx(vec![]);
    assert!(matches!(run("base64(\"hello\")", &mut c), SwValue::String(ref s) if s == "aGVsbG8"));
    assert!(matches!(run("base64(\"hi!\")", &mut c), SwValue::String(ref s) if s == "aGkh"));
    assert!(matches!(run("lpad(\"7\", 3, \"0\")", &mut c), SwValue::String(ref s) if s == "007"));
    assert!(matches!(run("lpad(\"7\", 4, \"ab\")", &mut c), SwValue::String(ref s) if s == "abab7"));
    assert!(matches!(run("lpad(\"long\", 2, \"0\")", &mut c), SwValue::String(ref s) if s == "long"));
    let e = parse_expression("lpad(\"7\", 3, \"\")").unwrap();
    assert!(matches!(e.eval(&mut c), Err(EvalError::EmptyPad)));
}

#[test]
fn substr_takes_bytes() {
    let mut c = ctx(vec![]);
    assert!(matches!(run("substr(\"hello\", 1, 3)", &mut c), SwValue::String(ref s) if s == "ell"));
    assert!(matches!(run("substr(\"hello\", 2)", &mut c), SwValue::String(ref s) if s == "llo"));
    assert!(matches!(run("substr(\"hello\", 9)", &mut c), SwValue::String(ref s) if s.is_empty()));
    assert!(matches!(run("substr(\"hello\", 3, 10)", &mut c), SwValue::String(ref s) if s == "lo"));
    assert!(matches!(substr("hello".to_string(), -1, None), Ok(SwValue::String(ref s)) if s.is_empty()));
    assert!(matches!(substr("hello".to_string(), 1, Some(-1)), Err(EvalError::BadRange)));
    assert!(matches!(substr("žluť".to_string(), 1, Some(1)), Err(EvalError::BadRange)));
    assert!(matches!(substr("žluť".to_string(), 2, Some(2)), Ok(SwValue::String(ref s)) if s == "lu"));
}

#[test]
fn decode_hex_gives_trimmed_text() {
    let mut c = ctx(vec![]);
    assert!(matches!(run("decode_hex(\"48692020\")", &mut c), SwValue::String(ref s) if s == "Hi"));
    assert!(matches!(run("decode_hex(\"zz\")", &mut c), SwValue::Empty));
    let e = parse_expression("decode_hex(\"abc\")").unwrap();
    assert!(matches!(e.eval(&mut c), Err(EvalError::NotHexPairs)));
}

#[test]
fn in_looks_for_an_equal_value() {
    let e = SwEvaluator::In {
        n: 2,
        a: Box::new(SwEvaluator::SwValue(SwValue::Numeric(2))),
        args: Box::new(switcher::switcher::eval::ExprList::Cons(
            Box::new(SwEvaluator::SwValue(SwValue::Numeric(3))),
            Box::new(switcher::switcher::eval::ExprList::Cons(
                Box::new(SwEvaluator::SwValue(SwValue::Numeric(2))),
                Box::new(switcher::switcher::eval::ExprList::Nil),
            )),
        )),
    };
    let mut c = ctx(vec![]);
    assert!(matches!(e.eval(&mut c), Ok(SwValue::Bool(true))));
    assert!(matches!(SwEvaluator::match_str("in", false), Some((SwEvaluator::In { n: 0, .. }, 2))));
}

#[test]
fn in_is_read_from_text() {
    let mut c = ctx(vec![]);
    match parse_expression("2 in (1, 2, 3)") {
        Ok(e) => {
            let r = e.eval(&mut c);
            println!("{:?} gives {:?}", e, r);
            assert!(matches!(r, Ok(SwValue::Bool(true))));
        }
        Err(err) => panic!("{:?}", err),
    }
    assert!(matches!(run("5 in (1, 2)", &mut c), SwValue::Bool(false)));
}
