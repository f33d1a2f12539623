use switcher::switcher::action::{action_obs, action_step, ActionState};
use switcher::switcher::eval::{SwEvaluator, SwValue};
use switcher::switcher::routing::SwMessage;
use switcher::tokenizer::StdOp;

fn text(s: &str) -> Box<SwEvaluator> {
    Box::new(SwEvaluator::SwValue(SwValue::String(s.to_string())))
}

fn num(n: i32) -> Box<SwEvaluator> {
    Box::new(SwEvaluator::SwValue(SwValue::Numeric(n)))
}

fn get(name: &str) -> Box<SwEvaluator> {
    Box::new(SwEvaluator::Val { n: 1, a1: text(name), a2: num(0) })
}

/// `on: val("t") > 20`, `do: val("fan", val("level"))`.
fn fan_action(prefix: Option<&str>) -> ActionState {
    ActionState {
        on: Some(SwEvaluator::Std { op: StdOp::Gt, a1: get("t"), a2: num(20) }),
        tdo: SwEvaluator::Val { n: 2, a1: text("fan"), a2: get("level") },
        vals: Vec::new(),
        obs: Vec::new(),
        dev_prefix: prefix.map(|p| p.to_string()),
        sender_id: 4,
    }
}

fn attr(name: &str, n: i32) -> SwMessage {
    SwMessage::DevAttr { sender_id: 2, name: name.to_string(), value: SwValue::Numeric(n) }
}

#[test]
fn action_observes_what_it_reads() {
    let st = fan_action(None);
    let (obs, msgs) = action_obs(&st, 0);
    assert_eq!(obs, vec![("t".to_string(), true), ("level".to_string(), false)]);
    assert_eq!(msgs.len(), 2);
    assert!(matches!(&msgs[0], SwMessage::ObserveAttr { sender_id: 4, name } if name == "t"));
    assert!(matches!(&msgs[1], SwMessage::ObserveAttr { sender_id: 4, name } if name == "level"));
    // in a device, names without a dot are the device's own
    let st = fan_action(Some("room"));
    let (obs, _) = action_obs(&st, 0);
    assert_eq!(obs, vec![("room.t".to_string(), true), ("room.level".to_string(), false)]);
}

#[test]
fn action_runs_when_its_condition_holds() {
    let mut st = fan_action(None);
    let (obs, _) = action_obs(&st, 0);
    st.obs = obs;
    // a value only the body reads is remembered and sends nothing
    assert!(action_step(&mut st, attr("level", 3), 0).is_empty());
    // the condition does not hold
    assert!(action_step(&mut st, attr("t", 10), 0).is_empty());
    // it holds: the body sets the fan from the level seen
    let out = action_step(&mut st, attr("t", 25), 0);
    assert_eq!(out.len(), 1);
    assert!(matches!(&out[0], SwMessage::DevAttr { sender_id: 0, name, value: SwValue::Numeric(3) } if name == "fan"));
    assert_eq!(st.vals.len(), 2);
    // other messages change nothing
    assert!(action_step(&mut st, SwMessage::ObserveAttr { sender_id: 1, name: "x".to_string() }, 0).is_empty());
    assert_eq!(st.vals.len(), 2);
}
