use switcher::switcher::device::{device_step, DeviceEvent, DeviceState};
use switcher::switcher::eval::{SwEvaluator, SwValue};
use switcher::tokenizer::StdOp;

fn lit(v: SwValue) -> Box<SwEvaluator> {
    Box::new(SwEvaluator::SwValue(v))
}

fn data_expr() -> SwEvaluator {
    SwEvaluator::Val { n: 0, a1: lit(SwValue::Empty), a2: lit(SwValue::Empty) }
}

fn device(check_dup: bool) -> DeviceState {
    DeviceState {
        id: "lamp".to_string(),
        sender_id: 4,
        check_dup,
        consts: None,
        read: vec![
            // the data as it came
            ("raw".to_string(), data_expr()),
            // nothing: the attribute is skipped
            ("skip".to_string(), SwEvaluator::SwValue(SwValue::Empty)),
            // the data read as a number, plus one
            (
                "next".to_string(),
                SwEvaluator::Std {
                    op: StdOp::Add,
                    a1: Box::new(SwEvaluator::ParseNum { a: Box::new(data_expr()) }),
                    a2: lit(SwValue::Numeric(1)),
                },
            ),
        ],
        write: vec![(
            "level".to_string(),
            SwEvaluator::Val {
                n: 2,
                a1: lit(SwValue::String("lamp.level_set".to_string())),
                a2: Box::new(SwEvaluator::Val { n: 0, a1: lit(SwValue::Empty), a2: lit(SwValue::Empty) }),
            },
        )],
        vals: Vec::new(),
    }
}

fn data(s: &str) -> DeviceEvent {
    DeviceEvent::Data { data: s.to_string(), topic: None, now: 0 }
}

#[test]
fn data_is_read_into_attributes() {
    let mut st = device(false);
    let acts = device_step(&mut st, data("41"));
    let names: Vec<&str> = acts.iter().map(|a| a.name.as_str()).collect();
    assert_eq!(names, vec!["lamp.raw", "lamp.next"]);
    assert!(acts.iter().all(|a| a.sender_id == 4));
    assert!(matches!(acts[1].value, SwValue::Numeric(42)));
    assert_eq!(st.vals.len(), 2);
    assert_eq!(st.vals[0].0, "raw");
    assert!(matches!(st.vals[1].1, SwValue::Numeric(42)));
    // without checking for changes the same data goes on again
    let acts = device_step(&mut st, data("41"));
    assert_eq!(acts.len(), 2);
    assert_eq!(st.vals.len(), 2);
}

#[test]
fn polled_device_passes_on_changes_only() {
    let mut st = device(true);
    assert_eq!(device_step(&mut st, data("1")).len(), 2);
    assert_eq!(device_step(&mut st, data("1")).len(), 0);
    let acts = device_step(&mut st, data("2"));
    assert_eq!(acts.len(), 2);
    assert!(matches!(acts[1].value, SwValue::Numeric(3)));
}

#[test]
fn read_errors_skip_the_attribute() {
    let mut st = device(false);
    let acts = device_step(&mut st, data("x"));
    // parse_num fails: only the raw value is read
    assert_eq!(acts.len(), 1);
    assert_eq!(acts[0].name, "lamp.raw");
}

#[test]
fn set_value_goes_through_write_expression() {
    let mut st = device(false);
    let acts = device_step(
        &mut st,
        DeviceEvent::SetAttr { name: "lamp.level".to_string(), value: SwValue::Numeric(7), now: 0 },
    );
    assert_eq!(acts.len(), 1);
    assert_eq!(acts[0].sender_id, 0);
    assert_eq!(acts[0].name, "lamp.level_set");
    assert!(matches!(acts[0].value, SwValue::Numeric(7)));
    assert!(st.vals.is_empty());
}

#[test]
fn set_value_without_write_expression_is_kept() {
    let mut st = device(false);
    let acts = device_step(
        &mut st,
        DeviceEvent::SetAttr { name: "lamp.on".to_string(), value: SwValue::Bool(true), now: 0 },
    );
    assert_eq!(acts.len(), 1);
    assert_eq!(acts[0].sender_id, 4);
    assert_eq!(acts[0].name, "lamp.on");
    assert_eq!(st.vals.len(), 1);
    assert_eq!(st.vals[0].0, "on");
    // too short a name changes nothing
    let acts = device_step(
        &mut st,
        DeviceEvent::SetAttr { name: "lamp.".to_string(), value: SwValue::Bool(true), now: 0 },
    );
    assert!(acts.is_empty());
}
