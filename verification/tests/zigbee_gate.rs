use switcher::switcher::zgate::{
    attribute_write, incoming_values, init_commands, on_response, outgoing_command, tuya_write, uses_tuya,
    zcl_message, zdo_message, ProviderAction, SwZGateConfig, SwZGateNetwork, SwZbDataValue, SwZigbeeExtensionType,
    TransactionCounters, ZbNodes, ZigbeeData, GATE_CLUSTER, JOIN_DURATION,
};
use switcher::zigbee::ezsp_data::{
    Bool, CommandData, EmberApsFrame, EmberIncomingMessageType, EmberJoinDecision, EmberNodeType, EmberStatus,
    EzspConfigId, ResponseData,
};
use switcher::zigbee::zcl::{Command, CommandExtensionType, ZclFrame};
use switcher::zigbee::zcl_command::{AttributeRecord, AttributeValue, DpDataValue, GenericCommand};
use switcher::zigbee::zdp::{BindReqAddr, ZdoBindReq, ZdoCommand, ZdoNodeDescReq};

fn config(groups: Vec<u16>) -> SwZGateConfig {
    SwZGateConfig {
        debug: 0,
        multicast_groups: groups,
        network: SwZGateNetwork { pan_id: 0x1a62, extended_pan_id: [1, 2, 3, 4, 5, 6, 7, 8], key: [9; 16], channel: 20 },
    }
}

#[test]
fn startup_sequence() {
    let cmds = init_commands(&config(vec![0x1234]));
    // 36 settings, 2 endpoints, security, network, 2 multicast entries, eui64, permit joining
    assert_eq!(cmds.len(), 44);
    assert_eq!(
        cmds[0],
        CommandData::SetConfigurationValue { config_id: EzspConfigId::EzspConfigSecurityLevel, value: 5 }
    );
    match &cmds[39] {
        CommandData::FormNetwork(p) => {
            assert_eq!(p.pan_id, 0x1a62);
            assert_eq!(p.radio_channel, 20);
            assert_eq!(p.radio_tx_power, 9);
        },
        other => panic!("unexpected command {:?}", other),
    }
    match &cmds[38] {
        CommandData::SetInitialSecurityState { state } => {
            assert_eq!(state.bitmask, 0x1304);
            assert_eq!(&state.preconfigured_key.contents, b"ZigBeeAlliance09");
            assert_eq!(state.network_key.contents, [9; 16]);
        },
        other => panic!("unexpected command {:?}", other),
    }
    match &cmds[41] {
        CommandData::SetMulticastTableEntry { index, value } => {
            assert_eq!(*index, 1);
            assert_eq!(value.multicast_id, 0x1234);
            assert_eq!(value.endpoint, 1);
        },
        other => panic!("unexpected command {:?}", other),
    }
    assert_eq!(cmds[42], CommandData::GetEui64);
    assert_eq!(cmds[43], CommandData::PermitJoining { duration: JOIN_DURATION });
    assert_eq!(init_commands(&config(vec![])).len(), 43);
}

#[test]
fn gate_cluster_writes_open_the_network() {
    let frame = ZclFrame::from_command(Command::Generic(GenericCommand::WriteAttributes {
        values: vec![AttributeRecord { identifier: 0, data: AttributeValue::Bool { val: false } }],
    }));
    let m = ZigbeeData::OutgoingMessage {
        profile_id: 260,
        cluster_id: GATE_CLUSTER,
        endpoint: 1,
        receiver: 0,
        message_contents: frame.to_bytes().unwrap(),
    };
    let (c, seq) = outgoing_command(&m, 4);
    assert_eq!(c, Some(CommandData::PermitJoining { duration: 0 }));
    assert_eq!(seq, 4);
    // anything else to the coordinator's cluster is dropped
    let other = ZigbeeData::OutgoingMessage { profile_id: 260, cluster_id: GATE_CLUSTER, endpoint: 1, receiver: 0, message_contents: vec![0x00, 1, 0x0b, 0, 0] };
    assert_eq!(outgoing_command(&other, 4).0, None);
}

#[test]
fn outgoing_messages_are_unicasts() {
    let m = ZigbeeData::OutgoingMessage { profile_id: 260, cluster_id: 6, endpoint: 1, receiver: 0x1234, message_contents: vec![1, 2, 3] };
    let (c, seq) = outgoing_command(&m, 255);
    assert_eq!(seq, 0);
    match c {
        Some(CommandData::SendUnicast { index_or_destination, aps_frame, message_tag, message_length, message_contents, .. }) => {
            assert_eq!(index_or_destination, 0x1234);
            assert_eq!(aps_frame.cluster_id, 6);
            assert_eq!(aps_frame.sequence, 255);
            assert_eq!(aps_frame.options, 0x0100);
            assert_eq!(message_tag, 1);
            assert_eq!(message_length, 3);
            assert_eq!(message_contents, vec![1, 2, 3]);
        },
        other => panic!("unexpected command {:?}", other),
    }
    assert_eq!(outgoing_command(&ZigbeeData::LocalEui64 { eui64: 1 }, 3), (None, 3));
}

fn aps(cluster_id: u16) -> EmberApsFrame {
    EmberApsFrame { profile_id: 260, cluster_id, source_endpoint: 1, destination_endpoint: 1, options: 0, group_id: 0, sequence: 0 }
}

#[test]
fn callbacks_are_passed_on() {
    let (a, last) = on_response(ResponseData::StackStatusHandler { status: EmberStatus::EmberNetworkOpened }, None);
    match a {
        ProviderAction::Forward(ZigbeeData::IncomingMessage { cluster_id, message_contents, sender_eui64, .. }) => {
            assert_eq!(cluster_id, GATE_CLUSTER);
            assert_eq!(sender_eui64, Some(0));
            assert_eq!(message_contents, vec![0x00, 0x00, 0x0a, 0x00, 0x00, 0x10, 1]);
        },
        other => panic!("unexpected action {:?}", other),
    }
    assert_eq!(last, None);
    let (a, last) = on_response(ResponseData::StackStatusHandler { status: EmberStatus::EmberNetworkUp }, Some(5));
    assert!(matches!(a, ProviderAction::Ignore));
    assert_eq!(last, Some(5));
    let (a, last) = on_response(ResponseData::IncomingSenderEui64Handler { sender_eui64: 0xabcd }, None);
    assert!(matches!(a, ProviderAction::Ignore));
    assert_eq!(last, Some(0xabcd));
    let msg = ResponseData::IncomingMessageHandler {
        message_type: EmberIncomingMessageType::EmberIncomingUnicast,
        aps_frame: aps(6),
        last_hop_lqi: 0,
        last_hop_rssi: 0,
        sender: 0x1234,
        binding_index: 0,
        address_index: 0,
        message_length: 1,
        message_contents: vec![7],
        d: vec![],
    };
    let (a, last) = on_response(msg, Some(0xabcd));
    assert_eq!(last, None);
    match a {
        ProviderAction::Forward(ZigbeeData::IncomingMessage { sender, sender_eui64, cluster_id, message_contents, .. }) => {
            assert_eq!((sender, sender_eui64, cluster_id, message_contents), (0x1234, Some(0xabcd), 6, vec![7]));
        },
        other => panic!("unexpected action {:?}", other),
    }
    let tc = ResponseData::TrustCenterJoinHandler {
        new_node_id: 7,
        new_node_eui64: 8,
        statue: 0,
        policy_decision: EmberJoinDecision::EmberDenyJoin,
        parent_of_new_node_id: 0,
    };
    assert!(matches!(
        on_response(tc, None).0,
        ProviderAction::Forward(ZigbeeData::IncomingNode { node_id: 7, node_eui64: 8, is_child_join: false })
    ));
    let child = ResponseData::ChildJoinHandler { index: 0, joining: Bool::True, child_id: 3, child_eui64: 4, child_type: EmberNodeType::EmberRouter };
    assert!(matches!(
        on_response(child, None).0,
        ProviderAction::Forward(ZigbeeData::IncomingNode { node_id: 3, node_eui64: 4, is_child_join: true })
    ));
    assert!(matches!(
        on_response(ResponseData::GetEui64 { eui64: 1 }, None).0,
        ProviderAction::Answer(ResponseData::GetEui64 { eui64: 1 })
    ));
}

#[test]
fn node_addresses() {
    let mut n = ZbNodes::new();
    assert!(n.note(0x1234, 0xaa));
    assert!(!n.note(0x1234, 0xaa));
    assert!(n.note(0x4321, 0xaa));
    assert_eq!(n.eui_of(0x4321), Some(0xaa));
    assert_eq!(n.short_of(0xaa), Some(0x4321));
    assert_eq!(n.short_of(0xbb), None);
}

#[test]
fn incoming_frames_give_values() {
    // an attribute report
    let b = [0x18, 1, 0x0a, 0x00, 0x00, 0x10, 0x01, 0x05, 0x00, 0x20, 0x07];
    let v = incoming_values(&b, 6, CommandExtensionType::Raw).unwrap();
    assert_eq!(v.len(), 2);
    assert!(matches!(v[0], SwZbDataValue::Attribute { identifier: 0, value: AttributeValue::Bool { val: true } }));
    assert!(matches!(v[1], SwZbDataValue::Attribute { identifier: 5, value: AttributeValue::Uint8 { val: 7 } }));
    // a read attributes response keeps the values that are there
    let r = [0x18, 2, 0x01, 0x00, 0x00, 0x86, 0x05, 0x00, 0x00, 0x20, 0x07];
    let v = incoming_values(&r, 6, CommandExtensionType::Raw).unwrap();
    assert_eq!(v.len(), 1);
    assert!(matches!(v[0], SwZbDataValue::Attribute { identifier: 5, value: AttributeValue::Uint8 { val: 7 } }));
    // a Tuya report gives its data point
    let t = [0x09, 3, 0x02, 0x10, 0x00, 0x01, 0x04, 0x00, 0x01, 0x02];
    let v = incoming_values(&t, 0xef00, CommandExtensionType::Tuya).unwrap();
    assert!(matches!(v[0], SwZbDataValue::Attribute { identifier: 1, value: AttributeValue::Enum8 { val: 2 } }));
    // another command is passed on whole
    let o = [0x01, 4, 0x02];
    let v = incoming_values(&o, 6, CommandExtensionType::Raw).unwrap();
    assert!(matches!(v[0], SwZbDataValue::ZclCommand(Command::OnOffCommand(_))));
    assert!(incoming_values(&[0x01], 6, CommandExtensionType::Raw).is_none());
}

#[test]
fn outgoing_zdo_and_zcl() {
    let bind = ZdoCommand::BindReq(ZdoBindReq::default());
    let m = zdo_message(bind, 0x11, 0x22, 0, 1, 5).unwrap();
    assert_eq!(m.cluster_id, 0x0021);
    assert_eq!(m.endpoint, 0);
    let mut expected = vec![5, 0x11, 0, 0, 0, 0, 0, 0, 0, 1, 0, 0, 3, 0x22, 0, 0, 0, 0, 0, 0, 0, 1];
    assert_eq!(m.message_contents, expected);
    let raw = zdo_message(ZdoCommand::raw(vec![9]), 0x11, 0x22, 0x0031, 1, 6).unwrap();
    assert_eq!((raw.cluster_id, raw.endpoint, raw.message_contents), (0x0031, 1, vec![6, 9]));
    let n = zdo_message(ZdoCommand::NodeDescReq(ZdoNodeDescReq { nwk_addr_of_interest: 1 }), 0, 0, 0x0031, 1, 0).unwrap();
    assert_eq!(n.cluster_id, 0x0002);
    expected.clear();
    assert!(uses_tuya(SwZigbeeExtensionType::Tuya, 0xef00));
    assert!(!uses_tuya(SwZigbeeExtensionType::Raw, 0xef00));
    let (c, ft) = attribute_write(0x4003, AttributeValue::Enum8 { val: 1 });
    assert_eq!(ft, 0);
    assert_eq!(zcl_message(c, ft, 0, 9).unwrap(), vec![0x10, 9, 0x02, 0x03, 0x40, 0x30, 1]);
    let (t, tft) = tuya_write(1, DpDataValue::Boolean { count: 1, value: true });
    assert_eq!(tft, 1);
    assert_eq!(zcl_message(t, tft, 1, 0).unwrap(), vec![0x01, 0, 0x00, 1, 0, 1, 1, 0, 1, 1]);
    let (c, _) = attribute_write(0, AttributeValue::Bool { val: true });
    assert!(zcl_message(c, 4, 0, 0).is_err());
    let _ = BindReqAddr::Short { dst_addr: 0 };
}

#[test]
fn transaction_numbers_count_on() {
    let mut tc = TransactionCounters::new();
    tc.zcl = 255;
    let (c, ft) = attribute_write(0x4003, AttributeValue::Enum8 { val: 1 });
    assert_eq!(tc.next_zcl_message(c, ft, 0).unwrap()[1], 255);
    let (c, ft) = attribute_write(0x4003, AttributeValue::Enum8 { val: 1 });
    assert_eq!(tc.next_zcl_message(c, ft, 0).unwrap()[1], 0);
    assert_eq!(tc.zcl, 1);
    let m = tc.next_zdo_message(ZdoCommand::raw(vec![9]), 0x11, 0x22, 0x0031, 1).unwrap();
    assert_eq!(m.message_contents, vec![0, 9]);
    let m = tc.next_zdo_message(ZdoCommand::raw(vec![9]), 0x11, 0x22, 0x0031, 1).unwrap();
    assert_eq!(m.message_contents, vec![1, 9]);
    assert_eq!(tc.zdp, 2);
}
