use switcher::mqtt::mqtt_packet::MqttPacket as BridgePacket;
use switcher::switcher::mqtt_client::{ping_after, relay, Relay};
use switcher::mqtt::mqtt_packet::{ConnackReturnCode, MqttProperty, PublishProps, SubackRet, SubscribeProps, SubscribeTopic};
use switcher::switcher::discover_upnp::DiscoverUpnp;
use switcher::switcher::http_server::SwServerHttp;
use switcher::switcher::mqtt_server::{
    attr_topic, auth_ok, connack_for, puback_for, store_attr, suback_for, topic_attr, SwServerMqtt,
};
use switcher::switcher::sw_device::{decode_hex, HexError, RGBW};
use switcher::switcher::{SwConn, SwServerData, SwServerType};

#[test]
fn colours_as_hex() {
    let c = RGBW { r: 255, g: 0, b: 16, w: 1 };
    assert_eq!(c.to_string(), "ff001001");
    assert_eq!(RGBW::from_str("ff001001"), Ok(RGBW { r: 255, g: 0, b: 16, w: 1 }));
    assert_eq!(RGBW::from_str("FFa0B0c0"), Ok(RGBW { r: 255, g: 0xa0, b: 0xb0, w: 0xc0 }));
    assert_eq!(RGBW::from_str("zz001001"), Err(HexError::InvalidDigit));
    let d = RGBW { r: 1, g: 2, b: 3, w: 4 };
    assert_eq!(RGBW::from_str(&d.to_string()), Ok(d));
}

#[test]
fn hex_pairs() {
    assert_eq!(decode_hex("00ff7f"), Ok(vec![0, 255, 127]));
    assert_eq!(decode_hex(""), Ok(vec![]));
    assert_eq!(decode_hex("+f"), Ok(vec![15]));
    assert_eq!(decode_hex("0g"), Err(HexError::InvalidDigit));
}

#[test]
fn broker_authentication() {
    let none: Option<String> = None;
    let u = Some("user".to_string());
    let p = Some("pw".to_string());
    assert!(auth_ok(&none, &none, &none, &none));
    assert!(auth_ok(&none, &none, &u, &p));
    assert!(auth_ok(&u, &p, &u, &p));
    assert!(!auth_ok(&u, &p, &u, &none));
    assert!(!auth_ok(&u, &none, &Some("other".to_string()), &none));
    assert_eq!(connack_for(true).return_code, ConnackReturnCode::Accepted);
    assert_eq!(connack_for(false).return_code, ConnackReturnCode::NotAuthorized);
    assert!(!connack_for(true).session_present);
}

#[test]
fn topics_and_attributes() {
    assert_eq!(topic_attr("#").as_deref(), Some("#"));
    assert_eq!(topic_attr("devices/lamp/actual/on").as_deref(), Some("lamp.on"));
    assert_eq!(topic_attr("devices/lamp/store/on"), None);
    assert_eq!(topic_attr("devices/lamp/actual"), None);
    assert_eq!(store_attr("devices/lamp/store/on").as_deref(), Some("lamp.on"));
    assert_eq!(store_attr("devices/lamp/actual/on"), None);
    assert_eq!(attr_topic("lamp.on").as_deref(), Some("devices/lamp/actual/on"));
    assert_eq!(attr_topic("lamp"), None);
    assert_eq!(attr_topic("a.b.c"), None);
}

#[test]
fn attribute_topic_round_trip() {
    let t = attr_topic("kitchen.temperature").unwrap();
    assert_eq!(topic_attr(&t).as_deref(), Some("kitchen.temperature"));
}

#[test]
fn subscriptions_are_granted() {
    let sp = SubscribeProps {
        packet_identifier: 11,
        topics: vec![
            SubscribeTopic { topic_name: "a".into(), req_qos: 0, ..SubscribeTopic::default() },
            SubscribeTopic { topic_name: "b".into(), req_qos: 1, ..SubscribeTopic::default() },
        ],
        properties: None,
    };
    let a = suback_for(&sp, 4);
    assert_eq!(a.packet_identifier, 11);
    assert_eq!(a.topics, vec![SubackRet::Success(0), SubackRet::Success(1)]);
    assert!(a.properties.is_none());
    let a5 = suback_for(&sp, 5);
    let ps = a5.properties.unwrap();
    assert_eq!(ps.len(), 1);
    assert!(matches!(&ps[0], MqttProperty::ReasonString(s) if s == "Welcome"));
}

#[test]
fn publishes_are_acknowledged_at_qos_one() {
    let mut pp = PublishProps { qos: 1, packet_identifier: 77, ..PublishProps::default() };
    let a = puback_for(&pp).unwrap();
    assert_eq!(a.packet_identifier, 77);
    assert_eq!(a.reason_code, 0);
    pp.qos = 0;
    assert!(puback_for(&pp).is_none());
    pp.qos = 2;
    assert!(puback_for(&pp).is_none());
}

#[test]
fn servers_register_their_addresses() {
    let m = SwServerMqtt { id: "m".into(), ip: None, port: None, user_name: Some("u".into()), password: None };
    assert_eq!(m.port(), 1883);
    let (data, addr) = m.server_data("10.0.0.1");
    assert_eq!(addr, "10.0.0.1:1883");
    assert_eq!(data.get_server_type(), SwServerType::Mqtt);
    match data {
        SwServerData::Mqtt { host, port, user_name, password } => {
            assert_eq!(host, "10.0.0.1");
            assert_eq!(port, 1883);
            assert_eq!(user_name.as_deref(), Some("u"));
            assert_eq!(password, None);
        }
        _ => panic!("not an MQTT server"),
    }
    let h = SwServerHttp { id: "h".into(), ip: Some("0.0.0.0".into()), port: Some(8080) };
    let (data, addr) = h.server_data("10.0.0.1");
    assert_eq!(addr, "0.0.0.0:8080");
    assert!(matches!(data, SwServerData::Http { ref host, port: 8080 } if host == "0.0.0.0"));
    let h80 = SwServerHttp { id: "h".into(), ip: None, port: None };
    assert_eq!(h80.server_data("1.2.3.4").1, "1.2.3.4:80");
    assert_eq!(SwServerData::Zigbee.get_server_type(), SwServerType::Zigbee);
}

#[test]
fn connections_needing_init() {
    assert!(SwConn::check_init(&SwConn::NoConn));
    assert!(SwConn::check_init(&SwConn::Zigbee { server_sender_id: 3 }));
    assert!(!SwConn::check_init(&SwConn::Tcp));
    assert!(!SwConn::check_init(&SwConn::Mqtt { protocol_level: 4 }));
}

#[test]
fn ssdp_search_headers() {
    let _ = DiscoverUpnp::new();
    let h = DiscoverUpnp::msearch_headers();
    assert_eq!(h.get_header("host"), Some("239.255.255.250:1900"));
    assert_eq!(h.get_header("man"), Some("\"ssdp:discover\""));
    assert_eq!(h.get_header("mx"), Some("10"));
    assert_eq!(h.get_header("st"), Some("ssdp:all"));
}

fn bridge_settings() -> switcher::switcher::mqtt_client::SwServerMqttClient {
    switcher::switcher::mqtt_client::SwServerMqttClient {
        id: "bridge".to_string(),
        ip: "10.0.0.2".to_string(),
        topics: vec!["zigbee/#".to_string(), "home/+".to_string()],
        port: None,
        protocol_level: None,
        user_name: Some("u".to_string()),
        password: None,
        keep_alive: Some(60),
        local_ip: None,
        local_port: Some(1884),
    }
}

#[test]
fn mqtt_bridge_addresses_and_packets() {
    let c = bridge_settings();
    assert_eq!(c.out_addr(), "10.0.0.2:1883");
    assert_eq!(c.local_addr("192.168.1.5"), "192.168.1.5:1884");
    assert_eq!(c.protocol_level(), 4);
    assert_eq!(c.keep_alive(), 60);
    match c.out_connect() {
        BridgePacket::Connect(cp) => {
            assert_eq!(cp.protocol_name, "MQTT");
            assert_eq!(cp.client_identifier, "bridge");
            assert_eq!(cp.user_name, Some("u".to_string()));
            assert_eq!(cp.keep_alive, 60);
            assert!(!cp.clean_session);
        }
        other => panic!("unexpected packet {:?}", other),
    }
    match c.local_connect() {
        BridgePacket::Connect(cp) => assert_eq!(cp.user_name, None),
        other => panic!("unexpected packet {:?}", other),
    }
    match c.out_subscribe() {
        BridgePacket::Subscribe(sp) => {
            assert_eq!(sp.packet_identifier, 1);
            assert_eq!(sp.topics.len(), 2);
            assert_eq!(sp.topics[1].topic_name, "home/+");
            assert_eq!(sp.topics[1].req_qos, 0);
        }
        other => panic!("unexpected packet {:?}", other),
    }
}

#[test]
fn mqtt_bridge_relays() {
    assert_eq!(relay(3), Relay::Forward);
    assert_eq!(relay(12), Relay::Forward);
    assert_eq!(relay(14), Relay::Stop);
    assert_eq!(relay(8), Relay::Drop);
    assert_eq!(ping_after(60), Some(59));
    assert_eq!(ping_after(1), None);
}

#[test]
fn hex_digits_of_either_case_decode() {
    assert_eq!(decode_hex("0A0b"), Ok(vec![10, 11]));
    assert_eq!(decode_hex("FFfe"), Ok(vec![255, 254]));
    assert_eq!(decode_hex("aBcD"), decode_hex("ABCD"));
}
