use switcher::mqtt::mqtt_packet::{
    ConnackReturnCode, ConnectProps, DisconnectProps, MqttPacket, MqttProperty, PublishProps,
    SubackRet, SubscribeProps, SubscribeTopic, UnsubscribeProps,
};
use switcher::switcher::mqtt_session::{
    session_step, subscribe_attrs, wants, Session, SessionPhase,
};

fn connect(user_name: Option<&str>, password: Option<&str>, level: u8) -> MqttPacket {
    MqttPacket::Connect(ConnectProps {
        protocol_name: "MQTT".to_string(),
        protocol_level: level,
        client_identifier: "client-1".to_string(),
        user_name: user_name.map(|s| s.to_string()),
        password: password.map(|s| s.to_string()),
        ..ConnectProps::default()
    })
}

fn subscribe(topics: &[&str]) -> MqttPacket {
    MqttPacket::Subscribe(SubscribeProps {
        packet_identifier: 7,
        topics: topics
            .iter()
            .map(|t| SubscribeTopic { topic_name: t.to_string(), req_qos: 1, ..SubscribeTopic::default() })
            .collect(),
        ..SubscribeProps::default()
    })
}

fn open_session(level: u8) -> Session {
    let mut st = Session::new(None, None);
    let r = session_step(&mut st, connect(None, None, level));
    assert!(r.go_on);
    st
}

#[test]
fn accepted_connect_opens_session() {
    let mut st = Session::new(Some("u".to_string()), Some("p".to_string()));
    assert_eq!(st.phase, SessionPhase::AwaitConnect);
    assert_eq!(st.protocol_level, 5);
    let r = session_step(&mut st, connect(Some("u"), Some("p"), 4));
    assert!(r.go_on);
    assert_eq!(r.packets.len(), 1);
    match &r.packets[0] {
        MqttPacket::Connack(c) => {
            assert_eq!(c.return_code, ConnackReturnCode::Accepted);
            assert!(!c.session_present);
            assert!(c.properties.is_none());
        }
        _ => panic!("expected CONNACK"),
    }
    assert_eq!(st.phase, SessionPhase::Open);
    assert_eq!(st.protocol_level, 4);
    assert_eq!(st.client_identifier, "client-1");
}

#[test]
fn refused_connect_ends_session() {
    let mut st = Session::new(Some("u".to_string()), None);
    let r = session_step(&mut st, connect(Some("other"), None, 4));
    assert!(!r.go_on);
    match &r.packets[0] {
        MqttPacket::Connack(c) => assert_eq!(c.return_code, ConnackReturnCode::NotAuthorized),
        _ => panic!("expected CONNACK"),
    }
    assert_eq!(st.phase, SessionPhase::Closed);
    // nothing later is answered or stored
    let r = session_step(&mut st, MqttPacket::Pingreq);
    assert!(r.packets.is_empty());
    assert!(!r.go_on);
    let r = session_step(&mut st, subscribe(&["#"]));
    assert!(r.packets.is_empty());
    assert!(st.subscriptions.is_empty());
}

#[test]
fn first_packet_must_be_connect() {
    let mut st = Session::new(None, None);
    let r = session_step(&mut st, MqttPacket::Pingreq);
    assert!(r.packets.is_empty());
    assert!(!r.go_on);
    assert_eq!(st.phase, SessionPhase::Closed);
}

#[test]
fn subscribe_is_acknowledged_and_recorded() {
    let mut st = open_session(5);
    let r = session_step(&mut st, subscribe(&["devices/lamp/actual/on", "other/topic", "#"]));
    assert!(r.go_on);
    match &r.packets[0] {
        MqttPacket::Suback(sa) => {
            assert_eq!(sa.packet_identifier, 7);
            assert_eq!(sa.topics.len(), 3);
            assert!(sa.topics.iter().all(|t| matches!(t, SubackRet::Success(1))));
            match &sa.properties {
                Some(ps) => {
                    assert_eq!(ps.len(), 1);
                    assert!(matches!(&ps[0], MqttProperty::ReasonString(s) if s == "Welcome"));
                }
                None => panic!("a reason string at level 5"),
            }
        }
        _ => panic!("expected SUBACK"),
    }
    assert_eq!(r.new_attrs, vec!["lamp.on".to_string(), "#".to_string()]);
    assert_eq!(st.subscriptions, vec!["lamp.on".to_string(), "#".to_string()]);
}

#[test]
fn subscribe_at_level_4_has_no_properties() {
    let mut st = open_session(4);
    let r = session_step(&mut st, subscribe(&["devices/lamp/actual/on"]));
    match &r.packets[0] {
        MqttPacket::Suback(sa) => assert!(sa.properties.is_none()),
        _ => panic!("expected SUBACK"),
    }
}

#[test]
fn publish_is_acknowledged_at_qos_1_and_stored() {
    let mut st = open_session(4);
    let p = MqttPacket::Publish(PublishProps {
        qos: 1,
        packet_identifier: 33,
        topic_name: "devices/lamp/store/on".to_string(),
        payload: b"true".to_vec(),
        ..PublishProps::default()
    });
    let r = session_step(&mut st, p);
    assert!(r.go_on);
    match &r.packets[..] {
        [MqttPacket::Puback(a)] => {
            assert_eq!(a.packet_identifier, 33);
            assert_eq!(a.reason_code, 0);
        }
        _ => panic!("expected one PUBACK"),
    }
    assert_eq!(r.store, Some(("lamp.on".to_string(), b"true".to_vec())));
    let p0 = MqttPacket::Publish(PublishProps {
        qos: 0,
        topic_name: "somewhere/else".to_string(),
        ..PublishProps::default()
    });
    let r = session_step(&mut st, p0);
    assert!(r.packets.is_empty());
    assert!(r.store.is_none());
}

#[test]
fn ping_unsubscribe_and_disconnect() {
    let mut st = open_session(4);
    let r = session_step(&mut st, MqttPacket::Pingreq);
    assert!(matches!(&r.packets[..], [MqttPacket::Pingresp]));
    let r = session_step(
        &mut st,
        MqttPacket::Unsubscribe(UnsubscribeProps { packet_identifier: 9, topics: vec!["a".to_string()], properties: None }),
    );
    match &r.packets[..] {
        [MqttPacket::Unsuback(a)] => assert_eq!(a.packet_identifier, 9),
        _ => panic!("expected UNSUBACK"),
    }
    let r = session_step(
        &mut st,
        MqttPacket::Disconnect(DisconnectProps { reason_code: 0, properties: None }),
    );
    assert!(!r.go_on);
    assert!(r.packets.is_empty());
    assert_eq!(st.phase, SessionPhase::Closed);
}

#[test]
fn subscription_attributes_and_wants() {
    let sp = SubscribeProps {
        topics: vec![
            SubscribeTopic { topic_name: "devices/a/actual/b".to_string(), ..SubscribeTopic::default() },
            SubscribeTopic { topic_name: "devices/a/store/b".to_string(), ..SubscribeTopic::default() },
        ],
        ..SubscribeProps::default()
    };
    assert_eq!(subscribe_attrs(&sp), vec!["a.b".to_string()]);
    let subs = vec!["a.b".to_string()];
    assert!(wants(&subs, "a.b"));
    assert!(!wants(&subs, "a.c"));
    assert!(wants(&vec!["#".to_string()], "x.y"));
    assert!(!wants(&Vec::new(), "x.y"));
}
