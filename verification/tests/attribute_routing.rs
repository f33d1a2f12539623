use switcher::switcher::eval::SwValue;
use switcher::switcher::routing::{route, Delivery, Routing, SwMessage};

fn routing(services: usize) -> Routing {
    Routing { owners: Vec::new(), observers: Vec::new(), services }
}

fn attr(sender_id: usize, name: &str, n: i32) -> SwMessage {
    SwMessage::DevAttr { sender_id, name: name.to_string(), value: SwValue::Numeric(n) }
}

fn receivers(ds: &[Delivery]) -> Vec<usize> {
    ds.iter().map(|d| d.receiver_id).collect()
}

#[test]
fn first_owner_wins() {
    let mut st = routing(10);
    assert!(route(&mut st, SwMessage::AttrOwner { sender_id: 3, name: "lamp".to_string() }).is_empty());
    assert!(route(&mut st, SwMessage::AttrOwner { sender_id: 4, name: "lamp".to_string() }).is_empty());
    assert_eq!(st.owners, vec![("lamp".to_string(), 3)]);
}

#[test]
fn value_from_outside_goes_to_owner_alone() {
    let mut st = routing(10);
    route(&mut st, SwMessage::AttrOwner { sender_id: 3, name: "lamp".to_string() });
    route(&mut st, SwMessage::ObserveAttr { sender_id: 5, name: "#".to_string() });
    let out = route(&mut st, attr(0, "lamp.on", 1));
    assert_eq!(receivers(&out), vec![3]);
    assert_eq!(out[0].name, "lamp.on");
    assert_eq!(out[0].sender_id, 0);
    assert!(matches!(out[0].value, SwValue::Numeric(1)));
}

#[test]
fn value_from_device_goes_to_observers() {
    let mut st = routing(10);
    route(&mut st, SwMessage::AttrOwner { sender_id: 3, name: "lamp".to_string() });
    route(&mut st, SwMessage::ObserveAttr { sender_id: 5, name: "#".to_string() });
    route(&mut st, SwMessage::ObserveAttr { sender_id: 6, name: "lamp.on".to_string() });
    route(&mut st, SwMessage::ObserveAttr { sender_id: 3, name: "lamp.on".to_string() });
    route(&mut st, SwMessage::ObserveAttr { sender_id: 6, name: "lamp.on".to_string() });
    // the sender is left out, `#` observers come first
    let out = route(&mut st, attr(3, "lamp.on", 1));
    assert_eq!(receivers(&out), vec![5, 6]);
    // an attribute without a device part, from outside, goes to observers too
    let out = route(&mut st, attr(0, "plain", 2));
    assert_eq!(receivers(&out), vec![5]);
}

#[test]
fn owner_beyond_services_is_skipped() {
    let mut st = routing(4);
    route(&mut st, SwMessage::AttrOwner { sender_id: 7, name: "lamp".to_string() });
    route(&mut st, SwMessage::ObserveAttr { sender_id: 2, name: "lamp.on".to_string() });
    route(&mut st, SwMessage::ObserveAttr { sender_id: 9, name: "lamp.on".to_string() });
    let out = route(&mut st, attr(0, "lamp.on", 1));
    assert_eq!(receivers(&out), vec![2]);
}

#[test]
fn unobserve_stops_deliveries() {
    let mut st = routing(10);
    route(&mut st, SwMessage::ObserveAttr { sender_id: 5, name: "a.b".to_string() });
    route(&mut st, SwMessage::ObserveAttr { sender_id: 6, name: "a.b".to_string() });
    route(&mut st, SwMessage::UnobserveAttr { sender_id: 5, name: "a.b".to_string() });
    route(&mut st, SwMessage::UnobserveAttr { sender_id: 5, name: "x.y".to_string() });
    let out = route(&mut st, attr(1, "a.b", 0));
    assert_eq!(receivers(&out), vec![6]);
}

#[test]
fn observer_of_all_and_of_the_name_is_served_once() {
    let mut st = routing(10);
    route(&mut st, SwMessage::ObserveAttr { sender_id: 5, name: "#".to_string() });
    route(&mut st, SwMessage::ObserveAttr { sender_id: 5, name: "a.b".to_string() });
    route(&mut st, SwMessage::ObserveAttr { sender_id: 7, name: "a.b".to_string() });
    let out = route(&mut st, attr(1, "a.b", 4));
    assert_eq!(receivers(&out), vec![5, 7]);
}
