use switcher::mqtt::mqtt_packet::{
    create_packet, get_packet_type, push_vbi, read_binary_data, read_vbi, vbi_len, ConnackProps, ConnackReturnCode, PubrecProps,
    ConnectProps, Error, MqttPacket, MqttProperty, PubackProps, PublishProps, SubackProps,
    SubackRet, SubscribeProps, SubscribeTopic,
};

fn connect_v4() -> MqttPacket {
    MqttPacket::Connect(ConnectProps {
        protocol_name: "MQTT".to_string(),
        protocol_level: 4,
        keep_alive: 60,
        client_identifier: "abc".to_string(),
        ..ConnectProps::default()
    })
}

#[test]
fn connect_encodes_header_and_fields() {
    let mut buf = Vec::new();
    assert!(connect_v4().as_bytes(4, &mut buf).is_ok());
    assert_eq!(
        buf,
        vec![0x10, 15, 0, 4, b'M', b'Q', b'T', b'T', 4, 0, 0, 60, 0, 3, b'a', b'b', b'c']
    );
}

#[test]
fn connect_round_trip() {
    let mut buf = Vec::new();
    connect_v4().as_bytes(4, &mut buf).unwrap();
    match MqttPacket::from_buf(&buf, 4).unwrap() {
        MqttPacket::Connect(cp) => {
            assert_eq!(cp.protocol_name, "MQTT");
            assert_eq!(cp.protocol_level, 4);
            assert_eq!(cp.keep_alive, 60);
            assert_eq!(cp.client_identifier, "abc");
            assert!(!cp.clean_session);
            assert_eq!(cp.will_topic, None);
            assert_eq!(cp.user_name, None);
            assert_eq!(cp.password, None);
        }
        other => panic!("not a connect: {:?}", other),
    }
}

#[test]
fn connect_with_user_and_password_is_read() {
    // flags: user name and password present
    let buf = vec![
        0x10, 21, 0, 4, b'M', b'Q', b'T', b'T', 4, 0b1100_0000, 0, 10, 0, 1, b'c', 0, 2, b'u',
        b'1', 0, 2, b'p', b'w',
    ];
    match MqttPacket::from_buf(&buf, 4).unwrap() {
        MqttPacket::Connect(cp) => {
            assert_eq!(cp.client_identifier, "c");
            assert_eq!(cp.user_name.as_deref(), Some("u1"));
            assert_eq!(cp.password.as_deref(), Some("pw"));
            assert_eq!(cp.keep_alive, 10);
        }
        other => panic!("not a connect: {:?}", other),
    }
}

#[test]
fn publish_qos0_encodes_topic_and_payload() {
    let p = MqttPacket::Publish(PublishProps {
        topic_name: "a/b".to_string(),
        payload: vec![1, 2, 3],
        ..PublishProps::default()
    });
    let mut buf = Vec::new();
    p.as_bytes(4, &mut buf).unwrap();
    assert_eq!(buf, vec![0x30, 8, 0, 3, b'a', b'/', b'b', 1, 2, 3]);
    match MqttPacket::from_buf(&buf, 4).unwrap() {
        MqttPacket::Publish(pp) => {
            assert_eq!(pp.topic_name, "a/b");
            assert_eq!(pp.payload, vec![1, 2, 3]);
            assert_eq!(pp.qos, 0);
            assert!(!pp.retain);
            assert!(!pp.dup);
        }
        other => panic!("not a publish: {:?}", other),
    }
}

#[test]
fn publish_qos1_carries_packet_identifier() {
    let p = MqttPacket::Publish(PublishProps {
        qos: 1,
        retain: true,
        topic_name: "t".to_string(),
        packet_identifier: 0x1234,
        payload: vec![9],
        ..PublishProps::default()
    });
    let mut buf = Vec::new();
    p.as_bytes(4, &mut buf).unwrap();
    assert_eq!(buf, vec![0x33, 6, 0, 1, b't', 0x12, 0x34, 9]);
}

#[test]
fn publish_v5_with_properties_round_trip() {
    let p = MqttPacket::Publish(PublishProps {
        topic_name: "x".to_string(),
        payload: vec![7],
        properties: Some(vec![
            MqttProperty::ContentType("json".to_string()),
            MqttProperty::MessageExpiryInterval(30),
        ]),
        ..PublishProps::default()
    });
    let mut buf = Vec::new();
    p.as_bytes(5, &mut buf).unwrap();
    // topic, property block (7 + 5 bytes), payload
    assert_eq!(
        buf,
        vec![0x30, 17, 0, 1, b'x', 12, 3, 0, 4, b'j', b's', b'o', b'n', 2, 0, 0, 0, 30, 7]
    );
    match MqttPacket::from_buf(&buf, 5).unwrap() {
        MqttPacket::Publish(pp) => {
            let props = pp.properties.unwrap();
            assert_eq!(props.len(), 2);
            assert!(matches!(&props[0], MqttProperty::ContentType(s) if s == "json"));
            assert!(matches!(props[1], MqttProperty::MessageExpiryInterval(30)));
            assert_eq!(pp.payload, vec![7]);
        }
        other => panic!("not a publish: {:?}", other),
    }
}

#[test]
fn connack_encodes_return_code() {
    let p = MqttPacket::Connack(ConnackProps {
        session_present: true,
        return_code: ConnackReturnCode::NotAuthorized,
        properties: None,
    });
    let mut buf = Vec::new();
    p.as_bytes(4, &mut buf).unwrap();
    assert_eq!(buf, vec![0x20, 2, 1, 5]);
    match MqttPacket::from_buf(&buf, 4).unwrap() {
        MqttPacket::Connack(cp) => {
            assert!(cp.session_present);
            assert_eq!(cp.return_code, ConnackReturnCode::NotAuthorized);
        }
        other => panic!("not a connack: {:?}", other),
    }
}

#[test]
fn subscribe_and_suback_round_trip() {
    let s = MqttPacket::Subscribe(SubscribeProps {
        packet_identifier: 7,
        topics: vec![SubscribeTopic { topic_name: "a/#".to_string(), req_qos: 1, ..SubscribeTopic::default() }],
        properties: None,
    });
    let mut buf = Vec::new();
    s.as_bytes(4, &mut buf).unwrap();
    assert_eq!(buf, vec![0x82, 8, 0, 7, 0, 3, b'a', b'/', b'#', 1]);
    match MqttPacket::from_buf(&buf, 4).unwrap() {
        MqttPacket::Subscribe(sp) => {
            assert_eq!(sp.packet_identifier, 7);
            assert_eq!(sp.topics.len(), 1);
            assert_eq!(sp.topics[0].topic_name, "a/#");
            assert_eq!(sp.topics[0].req_qos, 1);
        }
        other => panic!("not a subscribe: {:?}", other),
    }
    let a = MqttPacket::Suback(SubackProps {
        packet_identifier: 7,
        topics: vec![SubackRet::Success(1), SubackRet::Failure(0x80)],
        properties: None,
    });
    let mut buf = Vec::new();
    a.as_bytes(4, &mut buf).unwrap();
    assert_eq!(buf, vec![0x90, 4, 0, 7, 1, 0x80]);
}

#[test]
fn puback_and_ping() {
    let mut buf = Vec::new();
    MqttPacket::Puback(PubackProps { packet_identifier: 0x0102, ..PubackProps::default() })
        .as_bytes(4, &mut buf)
        .unwrap();
    assert_eq!(buf, vec![0x40, 2, 1, 2]);
    let mut buf = Vec::new();
    MqttPacket::Pingreq.as_bytes(4, &mut buf).unwrap();
    assert_eq!(buf, vec![0xc0, 0]);
    assert!(matches!(MqttPacket::from_buf(&[0xd0, 0], 4).unwrap(), MqttPacket::Pingresp));
}

#[test]
fn get_buffer_len_counts_missing_bytes() {
    assert_eq!(MqttPacket::get_buffer_len(&[]).unwrap(), 1);
    assert_eq!(MqttPacket::get_buffer_len(&[0x30]).unwrap(), 1);
    assert_eq!(MqttPacket::get_buffer_len(&[0x30, 0x03]).unwrap(), 3);
    assert_eq!(MqttPacket::get_buffer_len(&[0x30, 0x03, 1, 2, 3]).unwrap(), 0);
    assert_eq!(MqttPacket::get_buffer_len(&[0x30, 0x80]).unwrap(), 1);
    assert!(matches!(MqttPacket::get_buffer_len(&[0x30, 0x01, 9, 9]), Err(Error::BuffTooLong)));
}

#[test]
fn variable_byte_integers() {
    assert_eq!(vbi_len(0), 1);
    assert_eq!(vbi_len(127), 1);
    assert_eq!(vbi_len(128), 2);
    assert_eq!(vbi_len(16384), 3);
    let mut buf = Vec::new();
    push_vbi(&mut buf, 321);
    assert_eq!(buf, vec![0xc1, 0x02]);
    let mut pos = 0;
    assert_eq!(read_vbi(&buf, &mut pos).unwrap(), 321);
    assert_eq!(pos, 2);
    let mut pos = 0;
    assert_eq!(read_vbi(&[0x80, 0x80, 0x80, 0x01], &mut pos).unwrap(), 2097152);
    assert_eq!(pos, 4);
    let mut pos = 0;
    assert!(matches!(
        read_vbi(&[0x80, 0x80, 0x80, 0x80, 0x01], &mut pos),
        Err(Error::MalformedRemainingLength)
    ));
    for v in [2097152u32, 268435455] {
        let mut buf = Vec::new();
        push_vbi(&mut buf, v);
        assert_eq!(buf.len(), 4);
        let mut pos = 0;
        assert_eq!(read_vbi(&buf, &mut pos).unwrap(), v);
        assert_eq!(pos, 4);
    }
    let mut pos = 0;
    assert!(matches!(read_vbi(&[0x80], &mut pos), Err(Error::PacketTooShort)));
}

#[test]
fn packet_type_and_empty_packets() {
    assert_eq!(get_packet_type(&[0x82, 0]), 8);
    assert!(matches!(create_packet(12, 0), MqttPacket::Pingreq));
    assert!(matches!(create_packet(3, 0), MqttPacket::Publish(_)));
    assert!(matches!(create_packet(0, 0), MqttPacket::Reserved));
}

#[test]
fn bad_header_is_refused() {
    // a PUBREL with flags other than 0b0010
    assert!(MqttPacket::from_buf(&[0x60, 2, 0, 1], 4).is_err());
    // a remaining length longer than the bytes
    assert!(MqttPacket::from_buf(&[0x40, 2, 0], 4).is_err());
}

#[test]
fn property_types() {
    assert_eq!(MqttProperty::PayloadFormatIndicator(1).get_prop_type(), 0x01);
    assert_eq!(MqttProperty::UserProperty("a".into(), "b".into()).get_prop_type(), 0x26);
    assert_eq!(MqttProperty::SharedSubscriptionAvailable(1).get_prop_type(), 0x2a);
}

#[test]
fn properties_round_trip_at_level_5() {
    let p = MqttPacket::Suback(SubackProps {
        packet_identifier: 7,
        topics: vec![SubackRet::Success(1)],
        properties: Some(vec![MqttProperty::ReasonString("Welcome".to_string()), MqttProperty::ReceiveMaximum(10)]),
    });
    let mut buf = Vec::new();
    p.as_bytes(5, &mut buf).unwrap();
    match MqttPacket::from_buf(&buf, 5).unwrap() {
        MqttPacket::Suback(sa) => {
            assert_eq!(sa.packet_identifier, 7);
            let ps = sa.properties.expect("properties");
            assert_eq!(ps.len(), 2);
            assert!(matches!(&ps[0], MqttProperty::ReasonString(s) if s == "Welcome"));
            assert!(matches!(&ps[1], MqttProperty::ReceiveMaximum(10)));
        }
        _ => panic!("expected SUBACK"),
    }
    let ack = MqttPacket::Puback(PubackProps {
        packet_identifier: 3,
        reason_code: 0x10,
        properties: Some(vec![MqttProperty::UserProperty("k".to_string(), "v".to_string())]),
    });
    let mut buf = Vec::new();
    ack.as_bytes(5, &mut buf).unwrap();
    match MqttPacket::from_buf(&buf, 5).unwrap() {
        MqttPacket::Puback(a) => {
            assert_eq!(a.packet_identifier, 3);
            assert_eq!(a.reason_code, 0x10);
            let ps = a.properties.expect("properties");
            assert!(matches!(&ps[0], MqttProperty::UserProperty(k, v) if k == "k" && v == "v"));
        }
        _ => panic!("expected PUBACK"),
    }
}

#[test]
fn unwritable_packet_type_is_named_in_the_error() {
    let p = MqttPacket::Pubrec(PubrecProps { packet_identifier: 1, reason_code: 0, properties: None });
    let mut buf = vec![9u8];
    match p.as_bytes(4, &mut buf) {
        Err(Error::NotImplemented(m)) => assert_eq!(m, "Not implemented packet type 5"),
        _ => panic!("expected NotImplemented"),
    }
    // the fixed header goes out before the error
    assert_eq!(buf, vec![9u8, 0x50, 2]);
}

#[test]
fn written_packet_is_a_whole_frame() {
    let p = MqttPacket::Suback(SubackProps {
        packet_identifier: 2,
        topics: vec![SubackRet::Success(0), SubackRet::Success(1)],
        properties: Some(vec![MqttProperty::ReasonString("ok".to_string())]),
    });
    let mut buf = vec![1u8, 2, 3];
    p.as_bytes(5, &mut buf).unwrap();
    assert_eq!(&buf[..3], &[1u8, 2, 3][..]);
    assert_eq!(get_packet_type(&buf[3..]), 9);
    assert_eq!(MqttPacket::get_buffer_len(&buf[3..]).unwrap(), 0);
    assert_eq!(MqttPacket::get_buffer_len(&buf[3..buf.len() - 1]).unwrap(), 1);
}

#[test]
fn qos1_publish_is_read_with_its_identifier() {
    let buf = [0x32, 0x09, 0x00, 0x03, b'a', b'/', b'b', 0x00, 0x0A, b'h', b'i'];
    match MqttPacket::from_buf(&buf, 4).unwrap() {
        MqttPacket::Publish(p) => {
            assert_eq!(p.qos, 1);
            assert!(!p.dup);
            assert!(!p.retain);
            assert_eq!(p.topic_name, "a/b");
            assert_eq!(p.packet_identifier, 10);
            assert_eq!(p.payload, b"hi".to_vec());
        }
        _ => panic!("a publish"),
    }
    let mut out = Vec::new();
    let p = MqttPacket::Publish(PublishProps {
        qos: 1,
        topic_name: "a/b".to_string(),
        packet_identifier: 10,
        payload: b"hi".to_vec(),
        ..PublishProps::default()
    });
    p.as_bytes(4, &mut out).unwrap();
    assert_eq!(out, buf.to_vec());
}

#[test]
fn clean_session_connect_sets_its_flag() {
    let p = MqttPacket::Connect(ConnectProps {
        protocol_name: "MQTT".to_string(),
        protocol_level: 4,
        clean_session: true,
        keep_alive: 60,
        client_identifier: "c".to_string(),
        ..ConnectProps::default()
    });
    let mut buf = Vec::new();
    p.as_bytes(4, &mut buf).unwrap();
    assert_eq!(
        buf,
        vec![0x10, 0x0D, 0x00, 0x04, b'M', b'Q', b'T', b'T', 0x04, 0x02, 0x00, 0x3C, 0x00, 0x01, b'c']
    );
    match MqttPacket::from_buf(&buf, 4).unwrap() {
        MqttPacket::Connect(c) => assert!(c.clean_session),
        _ => panic!("a connect"),
    }
}

#[test]
fn credentials_are_written_and_read_back() {
    let p = MqttPacket::Connect(ConnectProps {
        protocol_name: "MQTT".to_string(),
        protocol_level: 4,
        keep_alive: 10,
        client_identifier: "c".to_string(),
        user_name: Some("u".to_string()),
        password: Some("pw".to_string()),
        ..ConnectProps::default()
    });
    let mut buf = Vec::new();
    p.as_bytes(4, &mut buf).unwrap();
    assert_eq!(buf[9], 0xC0);
    match MqttPacket::from_buf(&buf, 4).unwrap() {
        MqttPacket::Connect(c) => {
            assert_eq!(c.user_name.as_deref(), Some("u"));
            assert_eq!(c.password.as_deref(), Some("pw"));
        }
        _ => panic!("a connect"),
    }
}

#[test]
fn binary_data_is_length_then_bytes() {
    let mut pos = 0;
    assert_eq!(read_binary_data(&[0x00, 0x02, 0xAA, 0xBB], &mut pos).unwrap(), vec![0xAA, 0xBB]);
    assert_eq!(pos, 4);
}

#[test]
fn correlation_data_round_trips() {
    let p = MqttPacket::Publish(PublishProps {
        topic_name: "t".to_string(),
        payload: vec![1],
        properties: Some(vec![MqttProperty::CorrelationData(vec![7, 8, 9])]),
        ..PublishProps::default()
    });
    let mut buf = Vec::new();
    p.as_bytes(5, &mut buf).unwrap();
    match MqttPacket::from_buf(&buf, 5).unwrap() {
        MqttPacket::Publish(q) => match q.properties {
            Some(ps) => {
                assert_eq!(ps.len(), 1);
                assert!(matches!(&ps[0], MqttProperty::CorrelationData(d) if d == &vec![7, 8, 9]));
            }
            None => panic!("properties"),
        },
        _ => panic!("a publish"),
    }
}
