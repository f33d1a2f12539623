use switcher::zigbee::ezsp::{RawCommand, RawResponse};
use switcher::zigbee::ezsp_data::{
    Bool, CommandData, EmberApsFrame, EmberIncomingMessageType, EmberJoinDecision, EmberNetworkParameters,
    EmberNodeType, EmberOutgoingMessageType, EmberStatus, EzspConfigId, EzspStatus, EzspValueId, ResponseData,
};
use switcher::zigbee::zcl_command::FormatError;

fn raw(frame_id: u16, params: Vec<u8>) -> RawResponse {
    RawResponse { frame_id, params }
}

#[test]
fn enumeration_bytes() {
    assert_eq!(EmberStatus::of(0x00), Some(EmberStatus::EmberSuccess));
    assert_eq!(EmberStatus::of(0x9c), Some(EmberStatus::EmberNetworkOpened));
    assert_eq!(EmberStatus::EmberNetworkClosed.id(), 0x9d);
    // a status the stack does not name is kept
    assert_eq!(EmberStatus::of(0x03), Some(EmberStatus::Unknown(0x03)));
    assert_eq!(EmberStatus::Unknown(0xfe).id(), 0xfe);
    assert_eq!(EzspConfigId::EzspConfigSecurityLevel.id(), 0x0d);
    assert_eq!(Bool::of(2), None);
    assert_eq!(EmberJoinDecision::of(1), Some(EmberJoinDecision::EmberSendKeyInTheClear));
    assert_eq!(EzspStatus::of(0x00), Some(EzspStatus::EzspSuccess));
}

#[test]
fn command_parameters() {
    let c = CommandData::SetConfigurationValue { config_id: EzspConfigId::EzspConfigSecurityLevel, value: 5 };
    let r: RawCommand = c.to_raw();
    assert_eq!(r.frame_id, 0x0053);
    assert_eq!(r.params, vec![0x0d, 0x05, 0x00]);
    let p = CommandData::PermitJoining { duration: 100 }.to_raw();
    assert_eq!((p.frame_id, p.params), (0x0022, vec![100]));
    let v = CommandData::SetValue { value_id: EzspValueId::EzspValueCcaThreshold, value_length: 2, value: vec![0xb5, 0xf2] };
    assert_eq!(v.to_raw().params[1..], [2, 0xb5, 0xf2]);
    let e = CommandData::AddEndpoint {
        endpoint: 1,
        profile_id: 0x0104,
        device_id: 5,
        app_flags: 0,
        input_cluster_count: 1,
        output_cluster_count: 0,
        input_cluster_list: vec![0x0006],
        output_cluster_list: vec![],
    };
    assert_eq!(e.to_raw().params, vec![1, 0x04, 0x01, 5, 0, 0, 1, 0, 0x06, 0x00]);
    let f = CommandData::FormNetwork(EmberNetworkParameters {
        extended_pan_id: [1, 2, 3, 4, 5, 6, 7, 8],
        pan_id: 0x1234,
        radio_tx_power: 9,
        radio_channel: 20,
        join_method: switcher::zigbee::ezsp_data::EmberJoinMethod::EmberUseMacAssociation,
        nwk_manager_id: 0xffff,
        nwk_update_id: 0,
        channels: 0,
    });
    let fr = f.to_raw();
    assert_eq!(fr.frame_id, 0x001e);
    assert_eq!(fr.params, vec![1, 2, 3, 4, 5, 6, 7, 8, 0x34, 0x12, 9, 20, 0, 0xff, 0xff, 0, 0, 0, 0, 0]);
    let u = CommandData::SendUnicast {
        message_type: EmberOutgoingMessageType::EmberOutgoingDirect,
        index_or_destination: 0x1234,
        aps_frame: EmberApsFrame {
            profile_id: 0x0104,
            cluster_id: 6,
            source_endpoint: 1,
            destination_endpoint: 1,
            options: 0x0100,
            group_id: 0,
            sequence: 7,
        },
        message_tag: 1,
        message_length: 2,
        message_contents: vec![0xaa, 0xbb],
    };
    assert_eq!(
        u.to_raw().params,
        vec![0, 0x34, 0x12, 0x04, 0x01, 6, 0, 1, 1, 0x00, 0x01, 0, 0, 7, 1, 2, 0xaa, 0xbb]
    );
}

#[test]
fn responses_read() {
    assert_eq!(
        ResponseData::from_raw(&raw(0x0019, vec![0x9c])),
        Ok(ResponseData::StackStatusHandler { status: EmberStatus::EmberNetworkOpened })
    );
    assert_eq!(
        ResponseData::from_raw(&raw(0x0026, vec![1, 2, 3, 4, 5, 6, 7, 8])),
        Ok(ResponseData::GetEui64 { eui64: 0x0807_0605_0403_0201 })
    );
    let child = ResponseData::from_raw(&raw(0x0023, vec![0, 1, 0x34, 0x12, 1, 0, 0, 0, 0, 0, 0, 0, 3])).unwrap();
    assert_eq!(
        child,
        ResponseData::ChildJoinHandler {
            index: 0,
            joining: Bool::True,
            child_id: 0x1234,
            child_eui64: 1,
            child_type: EmberNodeType::EmberEndDevice,
        }
    );
    let mut m = vec![0x00, 0x04, 0x01, 0x06, 0x00, 1, 1, 0x00, 0x01, 0, 0, 9, 0xff, 0xc4, 0x34, 0x12, 0, 0, 2, 0xaa, 0xbb];
    let r = ResponseData::from_raw(&raw(0x0045, m.clone())).unwrap();
    match r {
        ResponseData::IncomingMessageHandler { message_type, aps_frame, last_hop_rssi, sender, message_contents, d, .. } => {
            assert_eq!(message_type, EmberIncomingMessageType::EmberIncomingUnicast);
            assert_eq!(aps_frame.cluster_id, 6);
            assert_eq!(last_hop_rssi, -60);
            assert_eq!(sender, 0x1234);
            assert_eq!(message_contents, vec![0xaa, 0xbb]);
            assert!(d.is_empty());
        },
        other => panic!("unexpected response {:?}", other),
    }
    // whatever follows the message is kept
    m.push(0x77);
    match ResponseData::from_raw(&raw(0x0045, m.clone())).unwrap() {
        ResponseData::IncomingMessageHandler { d, .. } => assert_eq!(d, vec![0x77]),
        other => panic!("unexpected response {:?}", other),
    }
    assert_eq!(ResponseData::from_raw(&raw(0x0045, m[..20].to_vec())), Err(FormatError::Incomplete));
    assert_eq!(ResponseData::from_raw(&raw(0x0045, vec![0x09])), Err(FormatError::UnknownVariant(0x09)));
    assert_eq!(ResponseData::from_raw(&raw(0x0019, vec![0x9c, 0])), Err(FormatError::TooMuchData));
    assert_eq!(ResponseData::from_raw(&raw(0x0053, vec![])), Err(FormatError::Incomplete));
    assert_eq!(ResponseData::from_raw(&raw(0x0053, vec![0x00])), Ok(ResponseData::SetConfigurationValue { status: EzspStatus::EzspSuccess }));
    assert_eq!(ResponseData::from_raw(&raw(0x0099, vec![])), Err(FormatError::UnknownFrameId(0x0099)));
    // two responses share 0x0081: the route error callback is the one read
    assert_eq!(
        ResponseData::from_raw(&raw(0x0081, vec![0x00, 0x34, 0x12])),
        Ok(ResponseData::IncomingRouteErrorHandler { status: EmberStatus::EmberSuccess, target: 0x1234 })
    );
    let tc = ResponseData::from_raw(&raw(0x0024, vec![0x34, 0x12, 1, 0, 0, 0, 0, 0, 0, 0, 1, 0, 0, 0])).unwrap();
    assert_eq!(
        tc,
        ResponseData::TrustCenterJoinHandler {
            new_node_id: 0x1234,
            new_node_eui64: 1,
            statue: 1,
            policy_decision: EmberJoinDecision::EmberUsePreconfiguredKey,
            parent_of_new_node_id: 0,
        }
    );
}
