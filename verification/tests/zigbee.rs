use switcher::zigbee::ezsp::{
    AshControl, AshControlAck, AshControlData, AshData, AshFormat, AshFrame, AshProcessor,
    AshProcessorState, CommandControl, RawCommand, Error, EzspFrame, FrameControl, FrameData,
    Random, FRAME_ID_VERSION,
};
use switcher::zigbee::zcl::{
    BufferTooSmall, Command, CommandExtensionType, Error as ZclError, ZclFrame, ZclFrameControl, ZclTuyaFrame,
};
use switcher::zigbee::zcl_command::{
    AttributeRecord, AttributeValue, DpData, DpDataValue, FormatError, GenericCommand, LevelCommand, OnOffCommand,
    ReadAttributeRecord, TuyaCommand, WriteAttributeStatus, ZoneCommand,
};
use switcher::zigbee::zdp::{
    BindReqAddr, Error as ZdpError, ZdoBindReq, ZdoCabability, ZdoCommand, ZdoDeviceAnnce, ZdoMatchDescReq,
    ZdoNodeDescReq, ZdpFrame,
};

fn version_command(protocol: u8) -> AshFrame {
    AshFrame {
        control: AshControl::Data(AshControlData { frm_num: 0, re_tx: 0, ack_num: 0 }),
        data: AshData::Ezsp(EzspFrame {
            sequence: 0,
            control: FrameControl::Command(CommandControl {
                network_index: 0,
                sleep_mode: 0,
                security_enabled: 0,
                padding_enabled: 0,
                frame_format_version: 0,
            }),
            data: FrameData::Command(RawCommand { frame_id: FRAME_ID_VERSION, params: vec![protocol] }),
        }),
    }
}

#[test]
fn crc16_check_value() {
    assert_eq!(AshFrame::crc16(b"123456789"), 0x29b1);
    assert_eq!(AshFrame::crc16(&[0xc0]), 0x38bc);
}

#[test]
fn random_sequence_starts_as_ash_specifies() {
    let mut r = Random::new();
    let v: Vec<u8> = (0..5).map(|_| r.next()).collect();
    assert_eq!(v, vec![0x42, 0x21, 0xa8, 0x54, 0x2a]);
}

#[test]
fn rst_frame_bytes() {
    let f = AshFrame { control: AshControl::Rst, data: AshData::Empty };
    let mut buf = Vec::new();
    assert!(f.as_bytes(true, &mut buf).is_ok());
    assert_eq!(buf, vec![0xc0, 0x38, 0xbc, 0x7e]);
}

#[test]
fn version_command_bytes() {
    let mut buf = Vec::new();
    version_command(4).as_bytes(true, &mut buf).unwrap();
    assert_eq!(buf, vec![0x00, 0x42, 0x21, 0xa8, 0x50, 0xed, 0x2c, 0x7e]);
}

#[test]
fn data_frame_round_trip() {
    let mut buf = Vec::new();
    version_command(8).as_bytes(true, &mut buf).unwrap();
    let f = AshFrame::from_buf(&buf, true).unwrap();
    assert!(matches!(f.control, AshControl::Data(AshControlData { frm_num: 0, re_tx: 0, ack_num: 0 })));
    match f.data {
        AshData::Ezsp(ef) => {
            assert_eq!(ef.sequence, 0);
            match ef.data {
                FrameData::Command(cd) => {
                    assert_eq!(cd.frame_id, FRAME_ID_VERSION);
                    assert_eq!(cd.params, vec![8]);
                }
                FrameData::Response(_) => panic!("not a command"),
            }
        }
        _ => panic!("no EZSP frame"),
    }
}

#[test]
fn rstack_frame_is_read() {
    let f = AshFrame::from_buf(&[0xc1, 0x02, 0x02, 0x9b, 0x7b, 0x7e], true).unwrap();
    assert!(matches!(f.control, AshControl::Rstack));
    assert!(matches!(f.data, AshData::Rstack { version: 2, code: 2 }));
}

#[test]
fn ack_frame_and_bad_crc() {
    let f = AshFrame {
        control: AshControl::Ack(AshControlAck { res: 0, n_rdy: 0, ack_num: 1 }),
        data: AshData::Empty,
    };
    let mut buf = Vec::new();
    f.as_bytes(true, &mut buf).unwrap();
    assert_eq!(buf[0], 0x81);
    assert_eq!(*buf.last().unwrap(), 0x7e);
    let g = AshFrame::from_buf(&buf, true).unwrap();
    assert!(matches!(g.control, AshControl::Ack(AshControlAck { ack_num: 1, n_rdy: 0, res: 0 })));
    let mut bad = buf.clone();
    bad[1] ^= 0x01;
    assert!(matches!(AshFrame::from_buf(&bad, true), Err(Error::AshFormatError(AshFormat::BadCrc))));
    assert!(matches!(AshFrame::from_buf(&[0xc0, 0x38], true), Err(Error::AshFormatError(AshFormat::BadFrameEnding))));
}

#[test]
fn stuffed_bytes_are_escaped() {
    // an ACK numbered 6 has the control byte 0x86; a CRC byte of 0x7e would be escaped
    let f = AshFrame {
        control: AshControl::Ack(AshControlAck { res: 0, n_rdy: 0, ack_num: 6 }),
        data: AshData::Empty,
    };
    let mut buf = Vec::new();
    f.as_bytes(true, &mut buf).unwrap();
    // no reserved byte appears before the closing flag
    for b in &buf[..buf.len() - 1] {
        assert!(![0x7e, 0x11, 0x13, 0x18, 0x1a].contains(b));
    }
    let g = AshFrame::from_buf(&buf, true).unwrap();
    assert!(matches!(g.control, AshControl::Ack(AshControlAck { ack_num: 6, .. })));
}

#[test]
fn buffer_len_drops_flow_control() {
    let mut b = vec![0xc1, 0x7e];
    assert_eq!(AshFrame::get_buffer_len(&mut b).unwrap(), 0);
    let mut b = vec![0xc1, 0x11];
    assert_eq!(AshFrame::get_buffer_len(&mut b).unwrap(), 1);
    assert_eq!(b, vec![0xc1]);
    let mut b = vec![0xc1, 0x02, 0x1a];
    assert_eq!(AshFrame::get_buffer_len(&mut b).unwrap(), 1);
    assert!(b.is_empty());
}

#[test]
fn ezsp_frame_round_trip_not_legacy() {
    let ef = EzspFrame {
        sequence: 5,
        control: FrameControl::Command(CommandControl {
            network_index: 0,
            sleep_mode: 0,
            security_enabled: 0,
            padding_enabled: 0,
            frame_format_version: 1,
        }),
        data: FrameData::Command(RawCommand { frame_id: 0x0034, params: vec![1, 2] }),
    };
    let mut buf = Vec::new();
    ef.as_bytes(false, &mut buf);
    assert_eq!(buf, vec![5, 0x00, 0x01, 0x34, 0x00, 1, 2]);
    let back = EzspFrame::from_buf(&buf, false).unwrap();
    assert_eq!(back.sequence, 5);
    match back.data {
        FrameData::Command(cd) => {
            assert_eq!(cd.frame_id, 0x0034);
            assert_eq!(cd.params, vec![1, 2]);
        }
        FrameData::Response(_) => panic!("not a command"),
    }
}

#[test]
fn processor_connects_with_reset_then_version() {
    let mut p = AshProcessor::new();
    let (out, frame) = p.run(None, None, true).unwrap();
    assert!(out.is_none());
    assert!(matches!(frame, Some(AshFrame { control: AshControl::Rst, .. })));
    assert_eq!(p.state, AshProcessorState::RstSend);
    let rstack = AshFrame { control: AshControl::Rstack, data: AshData::Rstack { version: 2, code: 2 } };
    let (_, frame) = p.run(None, Some(rstack), true).unwrap();
    assert_eq!(p.state, AshProcessorState::VersionReqSend);
    match frame {
        Some(AshFrame { control: AshControl::Data(_), data: AshData::Ezsp(ef) }) => match ef.data {
            FrameData::Command(cd) => {
                assert_eq!(cd.frame_id, FRAME_ID_VERSION);
                assert_eq!(cd.params, vec![8]);
            }
            FrameData::Response(_) => panic!("not a command"),
        },
        _ => panic!("no version request"),
    }
}

#[test]
fn commands_wait_until_connected() {
    let mut p = AshProcessor::new();
    p.accept_command(RawCommand { frame_id: 0x0034, params: vec![] });
    assert_eq!(p.nc_buf.len(), 1);
    assert!(p.buf_out.is_empty());
}

#[test]
fn error_texts() {
    assert_eq!(Error::AshFormatError(AshFormat::BadCrc).text(), "Bad CRC");
    assert!(Error::AshError { code: 0x51, version: 2 }.need_reset());
    assert!(!Error::BufferTooShort.need_reset());
}

#[test]
fn zcl_frames() {
    // a general ReadAttributes command (frame type 0)
    let f = ZclFrame::from_buf(&[0x18, 7, 0x00, 0x05, 0x00, 0x01, 0x40], 0x0000, CommandExtensionType::Raw).unwrap();
    assert_eq!(
        f.control,
        ZclFrameControl { disable_default_response: true, direction: 1, manufacturer_specific: 0, frame_type: 0 }
    );
    assert_eq!(f.manufacturer_code, None);
    assert_eq!(f.transaction_sequence_number, 7);
    match &f.command {
        Command::Generic(GenericCommand::ReadAttributes { identifiers }) => {
            assert_eq!(identifiers, &vec![0x0005, 0x4001])
        },
        other => panic!("unexpected command {:?}", other),
    }
    assert_eq!(f.to_bytes().unwrap(), vec![0x18, 7, 0x00, 0x05, 0x00, 0x01, 0x40]);
    let g = ZclFrame::from_command(Command::Raw(vec![0, 1]));
    assert_eq!(g.to_bytes().unwrap(), vec![0, 0, 0, 1]);
    assert!(matches!(
        ZclFrame::from_buf(&[], 6, CommandExtensionType::Raw),
        Err(ZclError::BufferTooSmall(BufferTooSmall::EmptyBuffer))
    ));
    assert!(matches!(
        ZclFrame::from_buf(&[0x00, 1], 6, CommandExtensionType::Raw),
        Err(ZclError::BufferTooSmall(BufferTooSmall::NoCommand))
    ));
    assert!(matches!(
        ZclFrame::from_buf(&[0x04, 1], 6, CommandExtensionType::Raw),
        Err(ZclError::BufferTooSmall(BufferTooSmall::NoManufacturerCode))
    ));
    assert!(matches!(
        ZclFrame::from_buf(&[0x04, 1, 2], 6, CommandExtensionType::Raw),
        Err(ZclError::BufferTooSmall(BufferTooSmall::NoSeqNumber))
    ));
}

#[test]
fn zcl_manufacturer_code_as_read() {
    // the manufacturer code is little-endian
    let f = ZclFrame::from_buf(&[0x05, 0x34, 0x12, 9, 0x01], 0x0006, CommandExtensionType::Raw).unwrap();
    assert_eq!(f.manufacturer_code, Some(0x1234));
    assert_eq!(f.transaction_sequence_number, 9);
    assert!(matches!(f.command, Command::OnOffCommand(OnOffCommand::On)));
}

#[test]
fn zcl_cluster_commands_by_cluster() {
    // on/off cluster
    let f = ZclFrame::from_buf(&[0x01, 3, 0x42, 1, 0x10, 0x00, 0x20, 0x00], 0x0006, CommandExtensionType::Raw).unwrap();
    assert!(matches!(
        f.command,
        Command::OnOffCommand(OnOffCommand::OnWithTimedOff { on_off_control: 1, on_time: 0x10, off_wait_time: 0x20 })
    ));
    // another cluster: the bytes are kept
    let g = ZclFrame::from_buf(&[0x01, 3, 0x42, 1], 0x0300, CommandExtensionType::Raw).unwrap();
    match &g.command {
        Command::Raw(v) => assert_eq!(v, &vec![0x42, 1]),
        other => panic!("unexpected command {:?}", other),
    }
    // Tuya cluster without the Tuya extension: raw bytes too
    let h = ZclFrame::from_buf(&[0x01, 3, 0x03], 0xef00, CommandExtensionType::Raw).unwrap();
    assert!(matches!(h.command, Command::Raw(_)));
    let t = ZclFrame::from_buf(&[0x01, 3, 0x03], 0xef00, CommandExtensionType::Tuya).unwrap();
    assert!(matches!(t.command, Command::Tuya(TuyaCommand::TyDataQuery)));
    // a malformed cluster command is refused
    assert!(matches!(
        ZclFrame::from_buf(&[0x01, 3, 0x07], 0x0006, CommandExtensionType::Raw),
        Err(ZclError::Format(FormatError::UnknownVariant(7)))
    ));
}

#[test]
fn onoff_commands() {
    assert_eq!(OnOffCommand::from_buf(&[0x00]).unwrap(), OnOffCommand::Off);
    assert_eq!(OnOffCommand::Toggle.to_bytes(), vec![0x02]);
    let c = OnOffCommand::OffWithEffect { effect_identifier: 1, effect_variant: 2 };
    assert_eq!(c.to_bytes(), vec![0x40, 1, 2]);
    assert_eq!(OnOffCommand::from_buf(&[0x40, 1, 2]).unwrap(), c);
    let t = OnOffCommand::OnWithTimedOff { on_off_control: 0, on_time: 0x0102, off_wait_time: 0x0304 };
    assert_eq!(t.to_bytes(), vec![0x42, 0, 0x02, 0x01, 0x04, 0x03]);
    assert_eq!(OnOffCommand::from_buf(&[0x00, 0x01]), Err(FormatError::TooMuchData));
    assert_eq!(OnOffCommand::from_buf(&[0x40, 1]), Err(FormatError::Incomplete));
    assert_eq!(OnOffCommand::from_buf(&[]), Err(FormatError::Incomplete));
    assert_eq!(OnOffCommand::from_buf(&[0x03]), Err(FormatError::UnknownVariant(3)));
}

#[test]
fn level_commands() {
    let c = LevelCommand::MoveToLevel { level: 0x80, transistion_time: 0x000a, option_mask: 0, options_override: 0 };
    let b = c.to_bytes();
    assert_eq!(b, vec![0x00, 0x80, 0x0a, 0x00, 0x00, 0x00]);
    assert_eq!(LevelCommand::from_buf(&b).unwrap(), c);
    // the step commands keep what follows as options
    let s = LevelCommand::from_buf(&[0x02, 0x00, 0x10, 0x05, 0x00, 0xaa, 0xbb]).unwrap();
    assert_eq!(
        s,
        LevelCommand::Step { step_mode: 0, step_size: 0x10, transistion_time: 5, options: vec![0xaa, 0xbb] }
    );
    assert_eq!(s.to_bytes(), vec![0x02, 0x00, 0x10, 0x05, 0x00, 0xaa, 0xbb]);
    let f = LevelCommand::from_buf(&[0x08, 0x34, 0x12]).unwrap();
    assert_eq!(f, LevelCommand::MoveToClosestFrequency { frequency: 0x1234 });
    assert_eq!(LevelCommand::from_buf(&[0x03, 0]), Err(FormatError::Incomplete));
    assert_eq!(LevelCommand::from_buf(&[0x03, 0, 0, 0]), Err(FormatError::TooMuchData));
    assert_eq!(LevelCommand::from_buf(&[0x09]), Err(FormatError::UnknownVariant(9)));
}

#[test]
fn zone_commands() {
    let c = ZoneCommand::StatusChange { status: 0x0021, extended_status: 0, zone_id: 3, delay: 0x0100 };
    let b = c.to_bytes();
    assert_eq!(b, vec![0x00, 0x21, 0x00, 0x00, 3, 0x00, 0x01]);
    assert_eq!(ZoneCommand::from_buf(&b).unwrap(), c);
    let e = ZoneCommand::from_buf(&[0x01, 0x0d, 0x00, 0x34, 0x12]).unwrap();
    assert_eq!(e, ZoneCommand::EnrollRequest { zone_type: 0x000d, manufacturer_code: 0x1234 });
    assert_eq!(ZoneCommand::from_buf(&[0x02]), Err(FormatError::UnknownVariant(2)));
}

#[test]
fn attribute_values() {
    let v = AttributeValue::from_buf(&[0x20, 0x7f]).unwrap();
    assert_eq!(v, AttributeValue::Uint8 { val: 0x7f });
    assert_eq!(v.to_bytes().unwrap(), vec![0x20, 0x7f]);
    // a 24 bit signed value is sign extended when read
    assert_eq!(AttributeValue::from_buf(&[0x2a, 0xff, 0xff, 0xff]).unwrap(), AttributeValue::Int24 { val: -1 });
    assert_eq!(
        AttributeValue::from_buf(&[0x2a, 0x00, 0x00, 0x80]).unwrap(),
        AttributeValue::Int24 { val: -0x80_0000 }
    );
    assert_eq!(AttributeValue::Int24 { val: 0x12_3456 }.to_bytes().unwrap(), vec![0x2a, 0x56, 0x34, 0x12]);
    // but a negative one does not fit its 24 bits when written
    assert_eq!(AttributeValue::Int24 { val: -1 }.to_bytes(), Err(FormatError::TooWide));
    assert_eq!(AttributeValue::Int16 { val: -2 }.to_bytes().unwrap(), vec![0x29, 0xfe, 0xff]);
    assert_eq!(AttributeValue::from_buf(&[0x10, 0x02]), Err(FormatError::BadBool(2)));
    assert_eq!(AttributeValue::from_buf(&[0x10, 0x01]).unwrap(), AttributeValue::Bool { val: true });
    assert_eq!(AttributeValue::from_buf(&[0x20, 1, 2]), Err(FormatError::TooMuchData));
    assert_eq!(AttributeValue::from_buf(&[0x21, 1]), Err(FormatError::Incomplete));
    assert_eq!(AttributeValue::from_buf(&[0x05]), Err(FormatError::UnknownVariant(0x05)));
    let s = AttributeValue::from_buf(&[0x42, 2, b'h', b'i']).unwrap();
    assert_eq!(s, AttributeValue::String { count: 2, val: vec![b'h', b'i'] });
    assert_eq!(s.to_bytes().unwrap(), vec![0x42, 2, b'h', b'i']);
    // a single precision float travels as its bits
    assert_eq!(
        AttributeValue::from_buf(&[0x39, 0x00, 0x00, 0x80, 0x3f]).unwrap(),
        AttributeValue::Single { val: 1.0f32.to_bits() }
    );
}

#[test]
fn general_commands() {
    let c = GenericCommand::from_buf(&[0x01, 0x05, 0x00, 0x00, 0x20, 0x07, 0x06, 0x00, 0x86]).unwrap();
    assert_eq!(
        c,
        GenericCommand::ReadAttributesResponse {
            values: vec![
                ReadAttributeRecord { identifier: 5, status: 0, data: Some(AttributeValue::Uint8 { val: 7 }) },
                ReadAttributeRecord { identifier: 6, status: 0x86, data: None },
            ],
        }
    );
    assert_eq!(c.id(), 0x01);
    assert_eq!(c.to_bytes().unwrap(), vec![0x01, 0x05, 0x00, 0x00, 0x20, 0x07, 0x06, 0x00, 0x86]);
    let r = GenericCommand::from_buf(&[0x0a, 0x00, 0x00, 0x21, 0x34, 0x12]).unwrap();
    assert_eq!(
        r,
        GenericCommand::ReportAttributes {
            values: vec![AttributeRecord { identifier: 0, data: AttributeValue::Uint16 { val: 0x1234 } }],
        }
    );
    let w = GenericCommand::from_buf(&[0x04, 0x00, 0x01, 0x00]).unwrap();
    assert_eq!(
        w,
        GenericCommand::WriteAttributesResponse { values: vec![WriteAttributeStatus { status: 0, identifier: 1 }] }
    );
    let d = GenericCommand::from_buf(&[0x0b, 0x01, 0x00]).unwrap();
    assert_eq!(d, GenericCommand::DefaultResponse { values: vec![0x01, 0x00] });
    assert_eq!(GenericCommand::from_buf(&[0x00, 0x05]), Err(FormatError::Incomplete));
    assert_eq!(GenericCommand::from_buf(&[0x30]), Err(FormatError::UnknownVariant(0x30)));
    let bad = GenericCommand::ReportAttributes {
        values: vec![AttributeRecord { identifier: 0, data: AttributeValue::Int24 { val: -1 } }],
    };
    assert_eq!(bad.to_bytes(), Err(FormatError::TooWide));
}

#[test]
fn tuya_commands() {
    let b = [0x02, 0x10, 0x00, 0x02, 0x02, 0x00, 0x04, 0x00, 0x00, 0x01, 0x2c];
    let c = TuyaCommand::from_buf(&b).unwrap();
    assert_eq!(
        c,
        TuyaCommand::TyDataReport {
            sequence_number: 0x0010,
            data: DpData { dp_id: 2, value: DpDataValue::Value { count: 4, value: 300 } },
        }
    );
    assert_eq!(c.to_bytes(), b.to_vec());
    let t = TuyaCommand::TuyaMcuSyncTime { sequence_number: 1, standard_timestamp: 0x01020304, local_timestamp: 5 };
    let tb = t.to_bytes();
    assert_eq!(tb, vec![0x24, 0x01, 0x00, 0x04, 0x03, 0x02, 0x01, 0x05, 0x00, 0x00, 0x00]);
    assert_eq!(TuyaCommand::from_buf(&tb).unwrap(), t);
    assert_eq!(
        TuyaCommand::from_buf(&[0x02, 0x10, 0x00, 0x02, 0x01, 0x00, 0x01, 0x02]),
        Err(FormatError::BadBool(2))
    );
    assert_eq!(TuyaCommand::from_buf(&[0x02, 0x10, 0x00, 0x02, 0x09]), Err(FormatError::UnknownVariant(9)));
    assert_eq!(TuyaCommand::from_buf(&[0x20]), Err(FormatError::UnknownVariant(0x20)));
}

#[test]
fn zdp_frames() {
    let f = ZdpFrame::from_buf(&[3, 0xaa, 0xbb], 0x0031).unwrap();
    assert_eq!(f.command_no, 0x0031);
    assert_eq!(f.sequence_number, 3);
    assert_eq!(f.command, ZdoCommand::raw(vec![0xaa, 0xbb]));
    assert_eq!(f.to_bytes().unwrap(), vec![3, 0xaa, 0xbb]);
    assert!(matches!(ZdpFrame::from_buf(&[], 1), Err(ZdpError::BufferTooSmall)));
    let g = ZdpFrame::from_command(ZdoCommand::NodeDescReq(ZdoNodeDescReq { nwk_addr_of_interest: 0x1234 }));
    assert_eq!(g.command_no, 0x0002);
    assert_eq!(g.to_bytes().unwrap(), vec![0, 0x34, 0x12]);
    let r = ZdpFrame::from_command(ZdoCommand::raw(vec![9]));
    assert_eq!(r.command_no, 0);
    assert_eq!(r.to_bytes().unwrap(), vec![0, 9]);
}

#[test]
fn zdo_device_announce() {
    let b = [7, 0x34, 0x12, 1, 2, 3, 4, 5, 6, 7, 8, 0x8e];
    let f = ZdpFrame::from_buf(&b, 0x0013).unwrap();
    let a = ZdoDeviceAnnce {
        nwk_addr: 0x1234,
        ieee_addr: 0x0807_0605_0403_0201,
        capability: ZdoCabability {
            allocate_address: true,
            security_capability: false,
            receiver_on_when_idle: true,
            power_source: true,
            device_type: 1,
            alternate_pan_coordinator: false,
        },
    };
    assert_eq!(f.command, ZdoCommand::DeviceAnnce(a));
    assert_eq!(f.to_bytes().unwrap(), b.to_vec());
    // the two unused bits of the capability byte are dropped
    let g = ZdpFrame::from_buf(&[7, 0x34, 0x12, 1, 2, 3, 4, 5, 6, 7, 8, 0xbe], 0x0013).unwrap();
    assert_eq!(g.command, ZdoCommand::DeviceAnnce(a));
    // a device type of more than one bit is refused
    let mut wide = a;
    wide.capability.device_type = 2;
    assert!(matches!(
        ZdpFrame::from_command(ZdoCommand::DeviceAnnce(wide)).to_bytes(),
        Err(ZdpError::Format(FormatError::TooWide))
    ));
    assert!(matches!(
        ZdpFrame::from_buf(&b[..11], 0x0013),
        Err(ZdpError::Format(FormatError::Incomplete))
    ));
}

#[test]
fn zdo_match_descriptor() {
    let b = [0x00, 0x00, 0x04, 0x01, 2, 0x06, 0x08, 1, 0x00, 0x05];
    let c = ZdoCommand::from_buf(&b, 0x0006).unwrap();
    assert_eq!(
        c,
        ZdoCommand::MatchDescReq(ZdoMatchDescReq {
            nwk_addr_of_interest: 0,
            profile_id: 0x0104,
            num_in_clusters: 2,
            in_cluster_list: vec![0x06, 0x08],
            num_out_clusters: 1,
            out_cluster_list: vec![0x0500],
        })
    );
    assert_eq!(c.get_cluster_id(), 0x0006);
    let mut out = Vec::new();
    c.write(&mut out).unwrap();
    assert_eq!(out, b.to_vec());
    assert!(matches!(ZdoCommand::from_buf(&b[..9], 0x0006), Err(ZdpError::Format(FormatError::Incomplete))));
    let mut longer = b.to_vec();
    longer.push(0);
    assert!(matches!(ZdoCommand::from_buf(&longer, 0x0006), Err(ZdpError::Format(FormatError::TooMuchData))));
}

#[test]
fn zdo_bind_request() {
    let mut b = vec![1, 0, 0, 0, 0, 0, 0, 0, 1, 0x06, 0x00, 3];
    b.extend_from_slice(&[2, 0, 0, 0, 0, 0, 0, 0, 1]);
    let c = ZdoCommand::from_buf(&b, 0x0021).unwrap();
    let r = ZdoBindReq { src_address: 1, src_endp: 1, cluster_id: 6, dst_addr: BindReqAddr::Long { dst_addr: 2, dst_endp: 1 } };
    assert_eq!(c, ZdoCommand::BindReq(r));
    let mut out = Vec::new();
    c.write(&mut out).unwrap();
    assert_eq!(out, b);
    let s = ZdoCommand::from_buf(&[1, 0, 0, 0, 0, 0, 0, 0, 1, 0x06, 0x00, 1, 0x34, 0x12], 0x0021).unwrap();
    assert_eq!(
        s,
        ZdoCommand::BindReq(ZdoBindReq { src_address: 1, src_endp: 1, cluster_id: 6, dst_addr: BindReqAddr::Short { dst_addr: 0x1234 } })
    );
    assert!(matches!(
        ZdoCommand::from_buf(&[1, 0, 0, 0, 0, 0, 0, 0, 1, 0x06, 0x00, 2], 0x0021),
        Err(ZdpError::Format(FormatError::UnknownVariant(2)))
    ));
    let d = ZdoBindReq::default();
    assert_eq!(d.dst_addr, BindReqAddr::Long { dst_addr: 0, dst_endp: 0 });
    assert_eq!(d.src_address, 0);
}

#[test]
fn zdo_node_descriptor() {
    let c = ZdoCommand::from_buf(&[0x34, 0x12], 0x0002).unwrap();
    assert_eq!(c, ZdoCommand::NodeDescReq(ZdoNodeDescReq { nwk_addr_of_interest: 0x1234 }));
    assert!(matches!(ZdoCommand::from_buf(&[0x34], 0x0002), Err(ZdpError::Format(FormatError::Incomplete))));
}

#[test]
fn tuya_frames() {
    let b = [0x09, 0x05, 0x02, 0x10, 0x00, 0x01, 0x04, 0x00, 0x01, 0x02];
    let f = ZclTuyaFrame::from_buf(&b).unwrap();
    assert_eq!(
        f.control,
        ZclFrameControl { disable_default_response: false, direction: 1, manufacturer_specific: 0, frame_type: 1 }
    );
    assert_eq!(f.transaction_sequence_number, 5);
    assert_eq!(
        f.command,
        TuyaCommand::TyDataReport {
            sequence_number: 0x0010,
            data: DpData { dp_id: 1, value: DpDataValue::Enum { count: 1, value: 2 } },
        }
    );
    assert_eq!(f.to_bytes().unwrap(), b.to_vec());
    assert!(matches!(ZclTuyaFrame::from_buf(&[0x09]), Err(FormatError::Incomplete)));
    let mut wide = f.clone();
    wide.control.frame_type = 4;
    assert_eq!(wide.to_bytes(), Err(FormatError::TooWide));
}

#[test]
fn data_points_as_attribute_values() {
    let e: AttributeValue = DpDataValue::Enum { count: 1, value: 3 }.into();
    assert_eq!(e, AttributeValue::Enum8 { val: 3 });
    let v: AttributeValue = DpDataValue::Value { count: 4, value: 300 }.into();
    assert_eq!(v, AttributeValue::Data32 { val: 300 });
    let s: AttributeValue = DpDataValue::String { count: 2, value: vec![b'o', b'k'] }.into();
    assert_eq!(s, AttributeValue::String16 { count: 2, val: vec![b'o', b'k'] });
    let r: AttributeValue = DpDataValue::Bitmap { count: 1, value: vec![7] }.into();
    assert_eq!(r, AttributeValue::Octstr16 { count: 1, val: vec![7] });
    let t: AttributeValue = DpDataValue::Boolean { count: 1, value: true }.into();
    assert_eq!(t, AttributeValue::Bool { val: true });
}

#[test]
fn zcl_frame_control_too_wide() {
    let mut f = ZclFrame::from_command(Command::OnOffCommand(OnOffCommand::On));
    f.control.direction = 2;
    assert!(matches!(f.to_bytes(), Err(ZclError::Format(FormatError::TooWide))));
}

#[test]
fn error_messages() {
    assert_eq!(AshFormat::FrameTooSmall.message(), "Frame too small");
    assert_eq!(Error::InitializationError.text(), "InitializationError");
    assert_eq!(BufferTooSmall::NoCommand.message(), "No command");
}
