use switcher::frames::{nonblocking_read_frame, nonblocking_write_frame, Error, FrameBuffer};
use switcher::zigbee::ezsp::{AshControl, AshData, AshFrame};

#[test]
fn frame_is_written_in_pieces() {
    let mut fb = FrameBuffer::new();
    assert!(fb.is_empty());
    let rst = AshFrame { control: AshControl::Rst, data: AshData::Empty };
    assert!(fb.push_frame(&rst, &true).is_ok());
    assert_eq!(fb.to_write(), &[0xc0, 0x38, 0xbc, 0x7e][..]);
    assert_eq!(fb.bytes_to_go(), 4);
    assert!(matches!(fb.push_frame(&rst, &true), Err(Error::BufferNotEmpty)));
    assert!(matches!(nonblocking_write_frame(Err(Error::WouldBlock), &mut fb), Ok(false)));
    assert_eq!(fb.bytes_to_go(), 4);
    assert!(matches!(nonblocking_write_frame(Ok(1), &mut fb), Ok(false)));
    assert_eq!(fb.to_write(), &[0x38, 0xbc, 0x7e][..]);
    assert!(matches!(nonblocking_write_frame(Err(Error::UnexpectedEof), &mut fb), Err(Error::UnexpectedEof)));
    assert!(matches!(nonblocking_write_frame(Ok(3), &mut fb), Ok(true)));
    assert!(fb.is_empty());
    assert!(fb.buf.is_empty());
}

#[test]
fn frame_is_read_byte_by_byte() {
    let bytes = [0xc1u8, 0x02, 0x02, 0x9b, 0x7b, 0x7e];
    let mut fb = FrameBuffer::new();
    // nothing to go: the frame type asks for one more byte
    let r = nonblocking_read_frame::<AshFrame>(None, &mut fb, &true).unwrap();
    assert!(r.is_none());
    assert_eq!(fb.bytes_to_go(), 1);
    let mut got = None;
    for (i, b) in bytes.iter().enumerate() {
        let r = nonblocking_read_frame::<AshFrame>(Some(Ok(vec![*b])), &mut fb, &true).unwrap();
        if i + 1 < bytes.len() {
            assert!(r.is_none());
            assert_eq!(fb.bytes_to_go(), 1);
        } else {
            got = r;
        }
    }
    let f = got.expect("a whole frame");
    assert!(matches!(f.control, AshControl::Rstack));
    assert!(matches!(f.data, AshData::Rstack { version: 2, code: 2 }));
    assert!(fb.buf.is_empty());
    assert!(fb.is_empty());
}

#[test]
fn blocked_read_changes_nothing() {
    let mut fb = FrameBuffer::new();
    nonblocking_read_frame::<AshFrame>(None, &mut fb, &true).unwrap();
    let r = nonblocking_read_frame::<AshFrame>(Some(Err(Error::WouldBlock)), &mut fb, &true).unwrap();
    assert!(r.is_none());
    assert_eq!(fb.bytes_to_go(), 1);
    assert!(nonblocking_read_frame::<AshFrame>(Some(Err(Error::SerialPort("gone".into()))), &mut fb, &true).is_err());
    assert!(Error::SerialPort("x".into()).need_reset());
    assert!(!Error::WouldBlock.need_reset());
}

#[test]
fn bytes_read_are_put_in_place() {
    let mut fb = FrameBuffer { buf: vec![1, 2, 0, 0, 0], bytes_to_go: 3 };
    fb.put_read(&[7, 8]);
    assert_eq!(fb.buf, vec![1, 2, 7, 8, 0]);
    assert_eq!(fb.bytes_to_go(), 1);
}

#[test]
fn rstack_frame_is_written_as_it_is_read() {
    let f = AshFrame { control: AshControl::Rstack, data: AshData::Rstack { version: 2, code: 2 } };
    let mut buf = Vec::new();
    assert!(f.as_bytes(false, &mut buf).is_ok());
    assert_eq!(buf, vec![0xc1, 0x02, 0x02, 0x9b, 0x7b, 0x7e]);
    let rst = AshFrame { control: AshControl::Rst, data: AshData::Empty };
    let mut buf = Vec::new();
    assert!(rst.as_bytes(false, &mut buf).is_ok());
    assert_eq!(buf, vec![0xc0, 0x38, 0xbc, 0x7e]);
}
