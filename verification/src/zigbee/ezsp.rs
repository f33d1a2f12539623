//! ASH (asynchronous serial host) frames and the EZSP frames they carry.

use vstd::prelude::*;
use std::collections::VecDeque;
use vstd::string::StringExecFns;
use crate::frames::{Frame, Error as FramesError};

verus! {

/// Why an ASH frame could not be read.
#[derive(Debug, Clone, Copy, PartialEq, Eq, Structural)]
pub enum AshFormat {
    BadFrameEnding,
    FrameTooSmall,
    BadCrc,
    BadControlByte,
}

/// The text of a format error.
pub open spec fn ash_format_text(f: AshFormat) -> Seq<char> {
    match f {
        AshFormat::BadFrameEnding => "Bad frame ending"@,
        AshFormat::FrameTooSmall => "Frame too small"@,
        AshFormat::BadCrc => "Bad CRC"@,
        AshFormat::BadControlByte => "Bad control byte"@,
    }
}

impl AshFormat {
    /// The text of the format error, as `ash_format_text` says.
    pub fn message(&self) -> (r: &'static str)
        ensures
            r@ == ash_format_text(*self),
    {
        match self {
            AshFormat::BadFrameEnding => "Bad frame ending",
            AshFormat::FrameTooSmall => "Frame too small",
            AshFormat::BadCrc => "Bad CRC",
            AshFormat::BadControlByte => "Bad control byte",
        }
    }
}

/// Errors of the ASH and EZSP layers.
#[derive(Debug, Clone, Copy, PartialEq, Eq, Structural)]
pub enum Error {
    BufferTooShort,
    /// An EZSP frame whose frame identifier is cut short.
    ParamsTooShort,
    AshFormatError(AshFormat),
    InitializationError,
    AshError { code: u8, version: u8 },
}

/// The text of an error: the message of a format error, else the error's
/// name.
pub open spec fn error_text(e: Error) -> Seq<char> {
    match e {
        Error::AshFormatError(f) => ash_format_text(f),
        Error::BufferTooShort => "BufferTooShort"@,
        Error::ParamsTooShort => "ParamsTooShort"@,
        Error::InitializationError => "InitializationError"@,
        Error::AshError { .. } => "Ash error, need reset"@,
    }
}

impl Error {
    /// The text of the error, as `error_text` says.
    pub fn text(&self) -> (r: String)
        ensures
            r@ == error_text(*self),
    {
        match self {
            Error::AshFormatError(f) => String::from_str(f.message()),
            Error::BufferTooShort => String::from_str("BufferTooShort"),
            Error::ParamsTooShort => String::from_str("ParamsTooShort"),
            Error::InitializationError => String::from_str("InitializationError"),
            Error::AshError { .. } => String::from_str("Ash error, need reset"),
        }
    }

    /// Whether the serial link has to be reset after this error.
    pub fn need_reset(&self) -> (r: bool)
        ensures
            r == (*self is AshError),
    {
        match self {
            Error::AshError { .. } => true,
            _ => false,
        }
    }
}

pub const CONTROL_RST: u8 = 0b11000000;
pub const CONTROL_RSTACK: u8 = 0b11000001;
pub const CONTROL_ERROR: u8 = 0b11000010;
pub const CONTROL_ACK_MASK: u8 = 0b11100000;
pub const CONTROL_ACK: u8 = 0b10000000;
pub const CONTROL_NAK: u8 = 0b10100000;
pub const CONTROL_DATA_MASK: u8 = 0b10000000;

/// The control fields of an ASH DATA frame: `0 frm_num(3) re_tx(1)
/// ack_num(3)`, most significant bit first.
#[derive(Debug, Clone, Copy, PartialEq, Eq, Structural)]
pub struct AshControlData {
    pub frm_num: u8,
    pub re_tx: u8,
    pub ack_num: u8,
}

/// The control fields of an ASH ACK or NAK frame: `xxx res(1) n_rdy(1)
/// ack_num(3)`.
#[derive(Debug, Clone, Copy, PartialEq, Eq, Structural)]
pub struct AshControlAck {
    pub res: u8,
    pub n_rdy: u8,
    pub ack_num: u8,
}

impl AshControlData {
    /// The control byte of the fields, each cut to its width.
    pub open spec fn spec_byte(self) -> u8 {
        ((self.frm_num & 7) << 4) | ((self.re_tx & 1) << 3) | (self.ack_num & 7)
    }

    /// The fields of a control byte.
    pub open spec fn spec_from_byte(b: u8) -> Self {
        AshControlData { frm_num: (b >> 4) & 7, re_tx: (b >> 3) & 1, ack_num: b & 7 }
    }

    /// Whether each field fits its width.
    pub open spec fn fits(self) -> bool {
        self.frm_num < 8 && self.re_tx < 2 && self.ack_num < 8
    }

    pub fn to_byte(&self) -> (r: u8)
        ensures
            r == self.spec_byte(),
    {
        ((self.frm_num & 7) << 4) | ((self.re_tx & 1) << 3) | (self.ack_num & 7)
    }

    pub fn from_byte(b: u8) -> (r: Self)
        ensures
            r == Self::spec_from_byte(b),
    {
        AshControlData { frm_num: (b >> 4) & 7, re_tx: (b >> 3) & 1, ack_num: b & 7 }
    }
}

impl AshControlAck {
    /// The control byte of the fields, each cut to its width.
    pub open spec fn spec_byte(self) -> u8 {
        ((self.res & 1) << 4) | ((self.n_rdy & 1) << 3) | (self.ack_num & 7)
    }

    /// The fields of a control byte.
    pub open spec fn spec_from_byte(b: u8) -> Self {
        AshControlAck { res: (b >> 4) & 1, n_rdy: (b >> 3) & 1, ack_num: b & 7 }
    }

    /// Whether each field fits its width.
    pub open spec fn fits(self) -> bool {
        self.res < 2 && self.n_rdy < 2 && self.ack_num < 8
    }

    pub fn to_byte(&self) -> (r: u8)
        ensures
            r == self.spec_byte(),
    {
        ((self.res & 1) << 4) | ((self.n_rdy & 1) << 3) | (self.ack_num & 7)
    }

    pub fn from_byte(b: u8) -> (r: Self)
        ensures
            r == Self::spec_from_byte(b),
    {
        AshControlAck { res: (b >> 4) & 1, n_rdy: (b >> 3) & 1, ack_num: b & 7 }
    }
}

/// One step of the CRC-CCITT register (polynomial `0x1021`), one bit.
pub open spec fn crc_step(c: u16) -> u16 {
    if c & 0x8000 != 0 {
        ((c << 1) ^ 0x1021) as u16
    } else {
        (c << 1) as u16
    }
}

/// `n` steps of the CRC register.
pub open spec fn crc_bits(c: u16, n: nat) -> u16
    decreases n,
{
    if n == 0 {
        c
    } else {
        crc_step(crc_bits(c, (n - 1) as nat))
    }
}

/// The CRC register after one more byte.
pub open spec fn crc_update(c: u16, b: u8) -> u16 {
    crc_bits(c ^ (((b as u16) << 8) as u16), 8)
}

/// The CRC-CCITT of a byte sequence, register preset to `0xffff`, as ASH
/// computes it.
pub open spec fn crc16_of(s: Seq<u8>) -> u16
    decreases s.len(),
{
    if s.len() == 0 {
        0xffff
    } else {
        crc_update(crc16_of(s.drop_last()), s.last())
    }
}

/// The pseudo-random sequence that ASH uses to randomise DATA fields: the
/// register after `k` draws (0 before the first, `0x42` after it, then an
/// LFSR with feedback `0xb8`).
pub open spec fn rand_state(k: nat) -> u8
    decreases k,
{
    if k == 0 {
        0
    } else {
        let v = rand_state((k - 1) as nat);
        if v == 0 {
            0x42
        } else if v & 1 == 0 {
            v >> 1
        } else {
            (v >> 1) ^ 0xb8
        }
    }
}

/// The ASH pseudo-random generator.
pub struct Random {
    val: u8,
}

impl Random {
    /// The number of draws made so far is the register's position in the
    /// sequence.
    pub closed spec fn at(&self, k: nat) -> bool {
        self.val == rand_state(k)
    }

    pub fn new() -> (r: Self)
        ensures
            r.at(0),
    {
        Random { val: 0 }
    }

    pub fn next(&mut self) -> (r: u8)
        ensures
            forall|k: nat| old(self).at(k) ==> final(self).at(k + 1) && r == rand_state(k + 1),
    {
        if self.val == 0 {
            self.val = 0x42;
        } else {
            self.val = if self.val & 1 == 0 {
                self.val >> 1
            } else {
                (self.val >> 1) ^ 0xb8
            };
        }
        self.val
    }
}

/// ASH frames and their codec.
#[derive(Debug)]
pub struct AshFrame {
    pub control: AshControl,
    pub data: AshData,
}

/// The kind of an ASH frame, with its control fields.
#[derive(Debug, Clone, Copy, PartialEq, Eq, Structural)]
pub enum AshControl {
    Data(AshControlData),
    Ack(AshControlAck),
    Nak(AshControlAck),
    Rst,
    Rstack,
    Error,
}

/// What an ASH frame carries.
#[derive(Debug)]
pub enum AshData {
    Ezsp(EzspFrame),
    Rstack { version: u8, code: u8 },
    Error { version: u8, code: u8 },
    Empty,
    ParseError(Error, Vec<u8>),
}

/// An EZSP frame: its sequence number, its frame control and its command or
/// response.
#[derive(Debug)]
pub struct EzspFrame {
    pub sequence: u8,
    pub control: FrameControl,
    pub data: FrameData,
}

#[derive(Debug, Clone, Copy, PartialEq, Eq, Structural)]
pub enum FrameControl {
    Command(CommandControl),
    Response(ResponseControl),
}

#[derive(Debug)]
pub enum FrameData {
    Command(RawCommand),
    Response(RawResponse),
}

/// An EZSP command: its frame identifier and its parameter bytes.
#[derive(Debug)]
pub struct RawCommand {
    pub frame_id: u16,
    pub params: Vec<u8>,
}

/// An EZSP response or callback: its frame identifier and its parameter
/// bytes.
#[derive(Debug)]
pub struct RawResponse {
    pub frame_id: u16,
    pub params: Vec<u8>,
}

/// The frame control of a command, two bytes:
/// `0 network_index(2) 000 sleep_mode(2)`, then
/// `security_enabled(1) padding_enabled(1) 0000 frame_format_version(2)`.
#[derive(Debug, Clone, Copy, PartialEq, Eq, Structural)]
pub struct CommandControl {
    pub network_index: u8,
    pub sleep_mode: u8,
    pub security_enabled: u8,
    pub padding_enabled: u8,
    pub frame_format_version: u8,
}

/// The frame control of a response, two bytes:
/// `0 network_index(2) callback_type(2) callback_pending(1) truncated(1)
/// overflow(1)`, then
/// `security_enabled(1) padding_enabled(1) 0000 frame_format_version(2)`.
#[derive(Debug, Clone, Copy, PartialEq, Eq, Structural)]
pub struct ResponseControl {
    pub network_index: u8,
    pub callback_type: u8,
    pub callback_pending: u8,
    pub truncated: u8,
    pub overflow: u8,
    pub security_enabled: u8,
    pub padding_enabled: u8,
    pub frame_format_version: u8,
}

/// The frame identifier of the `version` command.
pub const FRAME_ID_VERSION: u16 = 0x0000;

/// The frame identifier of the `sendUnicast` command and response.
pub const FRAME_ID_SEND_UNICAST: u16 = 0x0034;

/// The model of the command or response of an EZSP frame.
pub enum FrameDataV {
    Command(u16, Seq<u8>),
    Response(u16, Seq<u8>),
}

/// The model of an EZSP frame.
pub struct EzspFrameV {
    pub sequence: u8,
    pub control: FrameControl,
    pub data: FrameDataV,
}

impl View for RawCommand {
    type V = (u16, Seq<u8>);

    open spec fn view(&self) -> (u16, Seq<u8>) {
        (self.frame_id, self.params@)
    }
}

impl View for RawResponse {
    type V = (u16, Seq<u8>);

    open spec fn view(&self) -> (u16, Seq<u8>) {
        (self.frame_id, self.params@)
    }
}

impl View for FrameData {
    type V = FrameDataV;

    open spec fn view(&self) -> FrameDataV {
        match self {
            FrameData::Command(c) => FrameDataV::Command(c.frame_id, c.params@),
            FrameData::Response(r) => FrameDataV::Response(r.frame_id, r.params@),
        }
    }
}

impl View for EzspFrame {
    type V = EzspFrameV;

    open spec fn view(&self) -> EzspFrameV {
        EzspFrameV { sequence: self.sequence, control: self.control, data: self.data@ }
    }
}

impl CommandControl {
    pub open spec fn spec_bytes(self) -> (u8, u8) {
        (
            ((self.network_index & 3) << 5) | (self.sleep_mode & 3),
            ((self.security_enabled & 1) << 7) | ((self.padding_enabled & 1) << 6) | (
            self.frame_format_version & 3),
        )
    }

    pub open spec fn spec_from_bytes(b0: u8, b1: u8) -> Self {
        CommandControl {
            network_index: (b0 >> 5) & 3,
            sleep_mode: b0 & 3,
            security_enabled: (b1 >> 7) & 1,
            padding_enabled: (b1 >> 6) & 1,
            frame_format_version: b1 & 3,
        }
    }

    /// Whether each field fits its width.
    pub open spec fn fits(self) -> bool {
        self.network_index < 4 && self.sleep_mode < 4 && self.security_enabled < 2
            && self.padding_enabled < 2 && self.frame_format_version < 4
    }

    pub fn to_bytes(&self) -> (r: (u8, u8))
        ensures
            r == self.spec_bytes(),
    {
        (
            ((self.network_index & 3) << 5) | (self.sleep_mode & 3),
            ((self.security_enabled & 1) << 7) | ((self.padding_enabled & 1) << 6) | (
            self.frame_format_version & 3),
        )
    }

    pub fn from_bytes(b0: u8, b1: u8) -> (r: Self)
        ensures
            r == Self::spec_from_bytes(b0, b1),
    {
        CommandControl {
            network_index: (b0 >> 5) & 3,
            sleep_mode: b0 & 3,
            security_enabled: (b1 >> 7) & 1,
            padding_enabled: (b1 >> 6) & 1,
            frame_format_version: b1 & 3,
        }
    }
}

impl ResponseControl {
    pub open spec fn spec_bytes(self) -> (u8, u8) {
        (
            ((self.network_index & 3) << 5) | ((self.callback_type & 3) << 3) | ((
            self.callback_pending & 1) << 2) | ((self.truncated & 1) << 1) | (self.overflow & 1),
            ((self.security_enabled & 1) << 7) | ((self.padding_enabled & 1) << 6) | (
            self.frame_format_version & 3),
        )
    }

    pub open spec fn spec_from_bytes(b0: u8, b1: u8) -> Self {
        ResponseControl {
            network_index: (b0 >> 5) & 3,
            callback_type: (b0 >> 3) & 3,
            callback_pending: (b0 >> 2) & 1,
            truncated: (b0 >> 1) & 1,
            overflow: b0 & 1,
            security_enabled: (b1 >> 7) & 1,
            padding_enabled: (b1 >> 6) & 1,
            frame_format_version: b1 & 3,
        }
    }

    /// Whether each field fits its width.
    pub open spec fn fits(self) -> bool {
        self.network_index < 4 && self.callback_type < 4 && self.callback_pending < 2
            && self.truncated < 2 && self.overflow < 2 && self.security_enabled < 2
            && self.padding_enabled < 2 && self.frame_format_version < 4
    }

    pub fn to_bytes(&self) -> (r: (u8, u8))
        ensures
            r == self.spec_bytes(),
    {
        (
            ((self.network_index & 3) << 5) | ((self.callback_type & 3) << 3) | ((
            self.callback_pending & 1) << 2) | ((self.truncated & 1) << 1) | (self.overflow & 1),
            ((self.security_enabled & 1) << 7) | ((self.padding_enabled & 1) << 6) | (
            self.frame_format_version & 3),
        )
    }

    pub fn from_bytes(b0: u8, b1: u8) -> (r: Self)
        ensures
            r == Self::spec_from_bytes(b0, b1),
    {
        ResponseControl {
            network_index: (b0 >> 5) & 3,
            callback_type: (b0 >> 3) & 3,
            callback_pending: (b0 >> 2) & 1,
            truncated: (b0 >> 1) & 1,
            overflow: b0 & 1,
            security_enabled: (b1 >> 7) & 1,
            padding_enabled: (b1 >> 6) & 1,
            frame_format_version: b1 & 3,
        }
    }
}

/// The two frame control bytes as written: the high bit of the first one
/// clear for a command, set for a response.
pub open spec fn control_bytes(c: FrameControl) -> (u8, u8) {
    match c {
        FrameControl::Command(cc) => (cc.spec_bytes().0 & !0b10000000u8, cc.spec_bytes().1),
        FrameControl::Response(rc) => (rc.spec_bytes().0 | 0b10000000u8, rc.spec_bytes().1),
    }
}

/// The frame identifier (little-endian) and the parameters.
pub open spec fn data_bytes(d: FrameDataV) -> Seq<u8> {
    match d {
        FrameDataV::Command(id, ps) | FrameDataV::Response(id, ps) => seq![
            (id % 256) as u8,
            (id / 256) as u8,
        ] + ps,
    }
}

/// An EZSP frame as written: the sequence number, the frame control (its
/// first byte alone in the legacy format), the frame identifier (its low
/// byte alone in the legacy format) and the parameters.
pub open spec fn ezsp_bytes(f: EzspFrameV, legacy: bool) -> Seq<u8> {
    let (c0, c1) = control_bytes(f.control);
    let d = data_bytes(f.data);
    if legacy {
        seq![f.sequence, c0] + seq![d[0]] + d.subrange(2, d.len() as int)
    } else {
        seq![f.sequence, c0, c1] + d
    }
}

/// An EZSP frame read from `b` (at least three bytes): a command where the
/// high bit of the first control byte is clear, a response where it is
/// set; the frame identifier must be whole.
pub open spec fn ezsp_parse(b: Seq<u8>, legacy: bool) -> Result<EzspFrameV, Error> {
    let c0 = b[1];
    let c1: u8 = if legacy {
        0
    } else {
        b[2]
    };
    let is_command = c0 & 0b10000000 == 0;
    let d = if legacy {
        seq![b[2], 0u8] + b.subrange(3, b.len() as int)
    } else {
        b.subrange(3, b.len() as int)
    };
    if d.len() < 2 {
        Err(Error::ParamsTooShort)
    } else {
        let id = (d[0] as int + d[1] as int * 256) as u16;
        let ps = d.subrange(2, d.len() as int);
        Ok(
            EzspFrameV {
                sequence: b[0],
                control: if is_command {
                    FrameControl::Command(CommandControl::spec_from_bytes(c0, c1))
                } else {
                    FrameControl::Response(ResponseControl::spec_from_bytes(c0, c1))
                },
                data: if is_command {
                    FrameDataV::Command(id, ps)
                } else {
                    FrameDataV::Response(id, ps)
                },
            },
        )
    }
}

impl EzspFrame {
    /// Reads an EZSP frame of at least three bytes.
    pub fn from_buf(buf: &[u8], legacy: bool) -> (r: Result<Self, Error>)
        requires
            buf.len() >= 3,
        ensures
            match r {
                Ok(f) => ezsp_parse(buf@, legacy) == Ok::<EzspFrameV, Error>(f@),
                Err(e) => ezsp_parse(buf@, legacy) == Err::<EzspFrameV, Error>(e),
            },
    {
        let c0 = buf[1];
        let c1: u8 = if legacy {
            0
        } else {
            buf[2]
        };
        let is_command = c0 & 0b10000000 == 0;
        let mut data_buf: Vec<u8> = Vec::new();
        if legacy {
            data_buf.push(buf[2]);
            data_buf.push(0);
        }
        let mut i: usize = 3;
        while i < buf.len()
            invariant
                3 <= i <= buf.len(),
                data_buf@ == (if legacy {
                    seq![buf@[2], 0u8]
                } else {
                    Seq::<u8>::empty()
                }) + buf@.subrange(3, i as int),
            decreases buf.len() - i,
        {
            data_buf.push(buf[i]);
            i += 1;
            proof {
                assert(buf@.subrange(3, i as int) =~= buf@.subrange(3, i - 1) + seq![buf@[i - 1]]);
            }
        }
        proof {
            if legacy {
                assert(data_buf@ =~= seq![buf@[2], 0u8] + buf@.subrange(3, buf.len() as int));
            } else {
                assert(data_buf@ =~= buf@.subrange(3, buf.len() as int));
            }
        }
        if data_buf.len() < 2 {
            return Err(Error::ParamsTooShort);
        }
        let id: u16 = data_buf[0] as u16 + data_buf[1] as u16 * 256;
        let params = vstd::slice::slice_to_vec(&data_buf.as_slice()[2..data_buf.len()]);
        proof {
            assert(params@ =~= data_buf@.subrange(2, data_buf.len() as int));
        }
        let control = if is_command {
            FrameControl::Command(CommandControl::from_bytes(c0, c1))
        } else {
            FrameControl::Response(ResponseControl::from_bytes(c0, c1))
        };
        let data = if is_command {
            FrameData::Command(RawCommand { frame_id: id, params })
        } else {
            FrameData::Response(RawResponse { frame_id: id, params })
        };
        Ok(EzspFrame { sequence: buf[0], control, data })
    }

    /// Appends the frame to `buf`.
    pub fn as_bytes(&self, legacy: bool, buf: &mut Vec<u8>)
        ensures
            final(buf)@ == old(buf)@ + ezsp_bytes(self@, legacy),
    {
        let ghost b0 = buf@;
        buf.push(self.sequence);
        let (c0, c1) = match &self.control {
            FrameControl::Command(cc) => {
                let (x0, x1) = cc.to_bytes();
                (x0 & !0b10000000u8, x1)
            },
            FrameControl::Response(rc) => {
                let (x0, x1) = rc.to_bytes();
                (x0 | 0b10000000u8, x1)
            },
        };
        buf.push(c0);
        if !legacy {
            buf.push(c1);
        }
        let (id, params) = match &self.data {
            FrameData::Command(cd) => (cd.frame_id, &cd.params),
            FrameData::Response(rd) => (rd.frame_id, &rd.params),
        };
        buf.push((id % 256) as u8);
        if !legacy {
            buf.push((id / 256) as u8);
        }
        let ghost b1 = buf@;
        let mut i: usize = 0;
        while i < params.len()
            invariant
                i <= params.len(),
                buf@ == b1 + params@.subrange(0, i as int),
            decreases params.len() - i,
        {
            buf.push(params[i]);
            i += 1;
            proof {
                assert(params@.subrange(0, i as int) =~= params@.subrange(0, i - 1) + seq![
                    params@[i - 1],
                ]);
            }
        }
        proof {
            let d = data_bytes(self@.data);
            assert(params@.subrange(0, params.len() as int) =~= params@);
            if legacy {
                assert(d.subrange(2, d.len() as int) =~= params@);
                assert(buf@ =~= b0 + ezsp_bytes(self@, legacy));
            } else {
                assert(buf@ =~= b0 + ezsp_bytes(self@, legacy));
            }
        }
    }
}

/// The model of what an ASH frame carries.
pub enum AshDataV {
    Ezsp(EzspFrameV),
    Rstack { version: u8, code: u8 },
    Error { version: u8, code: u8 },
    Empty,
    ParseError(Error, Seq<u8>),
}

/// The model of an ASH frame.
pub struct AshFrameV {
    pub control: AshControl,
    pub data: AshDataV,
}

impl View for AshData {
    type V = AshDataV;

    open spec fn view(&self) -> AshDataV {
        match self {
            AshData::Ezsp(f) => AshDataV::Ezsp(f@),
            AshData::Rstack { version, code } => AshDataV::Rstack {
                version: *version,
                code: *code,
            },
            AshData::Error { version, code } => AshDataV::Error { version: *version, code: *code },
            AshData::Empty => AshDataV::Empty,
            AshData::ParseError(e, b) => AshDataV::ParseError(*e, b@),
        }
    }
}

impl View for AshFrame {
    type V = AshFrameV;

    open spec fn view(&self) -> AshFrameV {
        AshFrameV { control: self.control, data: self.data@ }
    }
}

/// The bytes that ASH escapes: flag, XON, XOFF, substitute, cancel, escape.
pub open spec fn is_reserved(b: u8) -> bool {
    b == 0x7e || b == 0x11 || b == 0x13 || b == 0x18 || b == 0x1a || b == 0x7d
}

/// One byte as ASH puts it on the line: a reserved byte as the escape byte
/// `0x7d` followed by the byte with bit 5 flipped.
pub open spec fn stuff_byte(b: u8) -> Seq<u8> {
    if is_reserved(b) {
        seq![0x7du8, b ^ 0x20u8]
    } else {
        seq![b]
    }
}

/// Byte stuffing of a sequence.
pub open spec fn stuff(s: Seq<u8>) -> Seq<u8>
    decreases s.len(),
{
    if s.len() == 0 {
        Seq::empty()
    } else {
        stuff(s.drop_last()) + stuff_byte(s.last())
    }
}

/// Byte de-stuffing from position `i`, `esc` telling whether the byte
/// before was an escape byte: an escape byte is dropped and the byte after
/// it has bit 5 flipped.
pub open spec fn destuff_from(s: Seq<u8>, i: int, esc: bool) -> Seq<u8>
    decreases s.len() - i,
{
    if i >= s.len() || i < 0 {
        Seq::empty()
    } else if esc {
        seq![s[i] ^ 0x20u8] + destuff_from(s, i + 1, false)
    } else if s[i] == 0x7d {
        destuff_from(s, i + 1, true)
    } else {
        seq![s[i]] + destuff_from(s, i + 1, false)
    }
}

/// Byte de-stuffing of a whole sequence.
pub open spec fn destuff(s: Seq<u8>) -> Seq<u8> {
    destuff_from(s, 0, false)
}

/// `s` with the positions from `lo` to `hi` (excluded) combined with the
/// pseudo-random sequence, the first draw at `lo`.
pub open spec fn randomized(s: Seq<u8>, lo: int, hi: int) -> Seq<u8> {
    Seq::new(
        s.len(),
        |i: int|
            if lo <= i < hi {
                s[i] ^ rand_state((i - lo + 1) as nat)
            } else {
                s[i]
            },
    )
}

/// The control byte of an ASH frame.
pub open spec fn control_byte(c: AshControl) -> u8 {
    match c {
        AshControl::Data(d) => d.spec_byte() & !CONTROL_DATA_MASK,
        AshControl::Ack(a) => (a.spec_byte() & !CONTROL_ACK_MASK) | CONTROL_ACK,
        AshControl::Nak(a) => (a.spec_byte() & !CONTROL_ACK_MASK) | CONTROL_NAK,
        AshControl::Rst => CONTROL_RST,
        AshControl::Rstack => CONTROL_RSTACK,
        AshControl::Error => CONTROL_ERROR,
    }
}

/// The bytes of a frame that the CRC covers: the control byte, then the
/// randomised EZSP frame where there is one, or the version and code of an
/// RSTACK or ERROR frame.
pub open spec fn ash_body(f: AshFrameV, legacy: bool) -> Seq<u8> {
    let cb = seq![control_byte(f.control)];
    match f.data {
        AshDataV::Ezsp(ef) => {
            let b = cb + ezsp_bytes(ef, legacy);
            randomized(b, 1, b.len() as int)
        },
        AshDataV::Rstack { version, code } | AshDataV::Error { version, code } => cb + seq![
            version,
            code,
        ],
        _ => cb,
    }
}

/// A CRC, high byte first.
pub open spec fn crc_bytes(c: u16) -> Seq<u8> {
    seq![(c >> 8) as u8, c as u8]
}

/// A frame as written: the body and its CRC, byte-stuffed, then the flag
/// byte `0x7e`.
pub open spec fn ash_bytes(f: AshFrameV, legacy: bool) -> Seq<u8> {
    let body = ash_body(f, legacy);
    stuff(body + crc_bytes(crc16_of(body))) + seq![0x7eu8]
}

/// Whether reading `buf` as a frame runs off a slice: a de-stuffed frame of
/// fewer than 3 bytes, or a DATA frame that passes the CRC check with 3, 5
/// or 6 bytes.
pub open spec fn ash_parse_panics(buf: Seq<u8>) -> bool {
    &&& buf.len() >= 4
    &&& buf.last() == 0x7e
    &&& {
        let d = destuff(buf);
        let n = d.len() as int;
        n < 3 || (crc16_of(d.subrange(0, n - 3)) == d[n - 3] as int * 256 + d[n - 2] as int
            && d[0] & CONTROL_DATA_MASK == 0 && (n == 3 || n == 5 || n == 6))
    }
}

/// A frame read from `buf`: it must end with the flag byte and hold at
/// least 4 bytes; de-stuffed, the CRC of all but its last 3 bytes must be
/// the two bytes before the flag. A DATA frame is de-randomised and its
/// EZSP frame read (a frame that does not read is kept with its error); the
/// RSTACK and ERROR frames carry a version and a code.
pub open spec fn ash_parse(buf: Seq<u8>, legacy: bool) -> Result<AshFrameV, Error> {
    if buf.len() == 0 || buf.last() != 0x7e {
        Err(Error::AshFormatError(AshFormat::BadFrameEnding))
    } else if buf.len() < 4 {
        Err(Error::AshFormatError(AshFormat::FrameTooSmall))
    } else {
        let d = destuff(buf);
        let n = d.len() as int;
        if crc16_of(d.subrange(0, n - 3)) != d[n - 3] as int * 256 + d[n - 2] as int {
            Err(Error::AshFormatError(AshFormat::BadCrc))
        } else {
            let cb = d[0];
            if cb & CONTROL_DATA_MASK == 0 {
                let e = randomized(d, 1, n - 3).subrange(1, n - 3);
                Ok(
                    AshFrameV {
                        control: AshControl::Data(AshControlData::spec_from_byte(cb)),
                        data: if e.len() == 0 {
                            AshDataV::Empty
                        } else {
                            match ezsp_parse(e, legacy) {
                                Ok(ef) => AshDataV::Ezsp(ef),
                                Err(err) => AshDataV::ParseError(err, e),
                            }
                        },
                    },
                )
            } else if cb & CONTROL_ACK_MASK == CONTROL_ACK {
                Ok(
                    AshFrameV {
                        control: AshControl::Ack(AshControlAck::spec_from_byte(cb)),
                        data: AshDataV::Empty,
                    },
                )
            } else if cb & CONTROL_ACK_MASK == CONTROL_NAK {
                Ok(
                    AshFrameV {
                        control: AshControl::Nak(AshControlAck::spec_from_byte(cb)),
                        data: AshDataV::Empty,
                    },
                )
            } else if cb == CONTROL_RST {
                Ok(AshFrameV { control: AshControl::Rst, data: AshDataV::Empty })
            } else if cb == CONTROL_RSTACK {
                Ok(
                    AshFrameV {
                        control: AshControl::Rstack,
                        data: AshDataV::Rstack { version: d[1], code: d[2] },
                    },
                )
            } else if cb == CONTROL_ERROR {
                Ok(
                    AshFrameV {
                        control: AshControl::Error,
                        data: AshDataV::Error { version: d[1], code: d[2] },
                    },
                )
            } else {
                Err(Error::AshFormatError(AshFormat::BadControlByte))
            }
        }
    }
}

/// How many more bytes a reader needs, once XON and XOFF at the end of the
/// buffer are dropped and a cancel byte has emptied it: none once the
/// buffer ends with the flag byte, else one.
pub open spec fn ash_buffer_after(buf: Seq<u8>) -> Seq<u8> {
    if buf.len() > 0 && (buf.last() == 0x11 || buf.last() == 0x13) {
        buf.drop_last()
    } else if buf.len() > 0 && buf.last() == 0x1a {
        Seq::empty()
    } else {
        buf
    }
}

impl AshFrame {
    /// Drops a flow-control byte (XON, XOFF) at the end of `buf`, empties
    /// it on a cancel byte, then tells whether the frame is whole (0) or
    /// more bytes are needed (1).
    pub fn get_buffer_len(buf: &mut Vec<u8>) -> (r: Result<usize, Error>)
        ensures
            final(buf)@ == ash_buffer_after(old(buf)@),
            r == Ok::<usize, Error>(
                if final(buf)@.len() > 0 && final(buf)@.last() == 0x7e {
                    0
                } else {
                    1
                },
            ),
    {
        let n = buf.len();
        if n > 0 {
            let l = buf[n - 1];
            if l == 0x11 || l == 0x13 {
                buf.pop();
            } else if l == 0x1a {
                buf.clear();
            }
        }
        let n2 = buf.len();
        if n2 > 0 && buf[n2 - 1] == 0x7e {
            Ok(0)
        } else {
            Ok(1)
        }
    }

    /// The CRC-CCITT of `buf` as ASH computes it.
    pub fn crc16(buf: &[u8]) -> (r: u16)
        ensures
            r == crc16_of(buf@),
    {
        let mut crc16: u16 = 0xffff;
        let mut i: usize = 0;
        while i < buf.len()
            invariant
                i <= buf.len(),
                crc16 == crc16_of(buf@.take(i as int)),
            decreases buf.len() - i,
        {
            let out_byte = buf[i] as u16;
            crc16 = crc16 ^ (out_byte << 8);
            let ghost c0 = crc16;
            let mut j: u8 = 0;
            while j < 8
                invariant
                    j <= 8,
                    crc16 == crc_bits(c0, j as nat),
                decreases 8 - j,
            {
                if (crc16 & 0x8000) != 0 {
                    crc16 = (crc16 << 1) ^ 0x1021;
                } else {
                    crc16 = crc16 << 1;
                }
                j += 1;
            }
            proof {
                assert(buf@.take(i + 1).drop_last() =~= buf@.take(i as int));
            }
            i += 1;
        }
        proof {
            assert(buf@.take(buf.len() as int) =~= buf@);
        }
        crc16
    }
}

/// Combines the positions of `b` from 1 up to `hi` (excluded) with the
/// pseudo-random sequence.
fn randomize_range(b: &mut Vec<u8>, hi: usize)
    requires
        1 <= hi <= old(b).len(),
    ensures
        final(b)@ == randomized(old(b)@, 1, hi as int),
{
    let ghost pre = b@;
    let mut r = Random::new();
    let mut i: usize = 1;
    while i < hi
        invariant
            1 <= i <= hi,
            hi <= pre.len(),
            b@.len() == pre.len(),
            r.at((i - 1) as nat),
            forall|k: int|
                0 <= k < pre.len() ==> #[trigger] b@[k] == if 1 <= k < i {
                    pre[k] ^ rand_state(k as nat)
                } else {
                    pre[k]
                },
        decreases hi - i,
    {
        let x = r.next();
        let v = b[i] ^ x;
        b.set(i, v);
        i += 1;
    }
    proof {
        assert(b@ =~= randomized(pre, 1, hi as int));
    }
}

/// Byte de-stuffing, as `destuff` says.
fn destuffed(buf: &[u8]) -> (d: Vec<u8>)
    ensures
        d@ == destuff(buf@),
{
    let n0 = buf.len();
    let mut buf_d: Vec<u8> = Vec::new();
    let mut esc = false;
    let mut i: usize = 0;
    while i < n0
        invariant
            i <= n0,
            n0 == buf@.len(),
            buf_d@ + destuff_from(buf@, i as int, esc) == destuff(buf@),
        decreases n0 - i,
    {
        let b = buf[i];
        proof {
            if esc {
                assert(buf_d@.push(b ^ 0x20u8) + destuff_from(buf@, i + 1, false) =~= buf_d@
                    + destuff_from(buf@, i as int, esc));
            } else if b != 0x7d {
                assert(buf_d@.push(b) + destuff_from(buf@, i + 1, false) =~= buf_d@
                    + destuff_from(buf@, i as int, esc));
            }
        }
        if esc {
            buf_d.push(b ^ 0b00100000);
            esc = false;
        } else {
            if b == 0x7d {
                esc = true;
            } else {
                buf_d.push(b);
            }
        }
        i += 1;
    }
    proof {
        assert(buf_d@ =~= destuff(buf@));
    }
    buf_d
}

/// Whether `AshFrame::from_buf` would run off a slice on `buf`, as
/// `ash_parse_panics` says.
pub fn ash_from_buf_panics(buf: &[u8]) -> (r: bool)
    ensures
        r == ash_parse_panics(buf@),
{
    let n0 = buf.len();
    if n0 < 4 || buf[n0 - 1] != 0x7e {
        return false;
    }
    let d = destuffed(buf);
    let n = d.len();
    if n < 3 {
        return true;
    }
    let head = &d.as_slice()[0..n - 3];
    let crc16 = AshFrame::crc16(head);
    proof {
        assert(head@ =~= d@.subrange(0, n - 3));
    }
    crc16 as u32 == (d[n - 3] as u32) * 256 + d[n - 2] as u32 && d[0] & CONTROL_DATA_MASK == 0 && (n
        == 3 || n == 5 || n == 6)
}

impl AshFrame {
    /// Appends the frame to `buf`, as `ash_bytes` says.
    pub fn as_bytes(&self, legacy: bool, buf: &mut Vec<u8>) -> (r: Result<(), Error>)
        ensures
            r is Ok,
            final(buf)@ == old(buf)@ + ash_bytes(self@, legacy),
    {
        let ghost b0 = buf@;
        let mut buf_d: Vec<u8> = Vec::new();
        let control_byte = match &self.control {
            AshControl::Data(acd) => acd.to_byte() & !CONTROL_DATA_MASK,
            AshControl::Ack(aca) => aca.to_byte() & !CONTROL_ACK_MASK | CONTROL_ACK,
            AshControl::Nak(aca) => aca.to_byte() & !CONTROL_ACK_MASK | CONTROL_NAK,
            AshControl::Rst => CONTROL_RST,
            AshControl::Rstack => CONTROL_RSTACK,
            AshControl::Error => CONTROL_ERROR,
        };
        buf_d.push(control_byte);
        match &self.data {
            AshData::Ezsp(ef) => {
                ef.as_bytes(legacy, &mut buf_d);
                let l = buf_d.len();
                randomize_range(&mut buf_d, l);
            },
            AshData::Rstack { version, code } => {
                buf_d.push(*version);
                buf_d.push(*code);
            },
            AshData::Error { version, code } => {
                buf_d.push(*version);
                buf_d.push(*code);
            },
            _ => {},
        }
        proof {
            assert(buf_d@ =~= ash_body(self@, legacy));
        }
        let crc16 = Self::crc16(buf_d.as_slice());
        buf_d.push((crc16 >> 8) as u8);
        buf_d.push(crc16 as u8);
        let ghost b1 = buf@;
        let ghost all = buf_d@;
        proof {
            assert(all =~= ash_body(self@, legacy) + crc_bytes(crc16_of(ash_body(self@, legacy))));
        }
        let mut i: usize = 0;
        while i < buf_d.len()
            invariant
                i <= buf_d.len(),
                buf_d@ == all,
                buf@ == b1 + stuff(all.take(i as int)),
            decreases buf_d.len() - i,
        {
            let b = buf_d[i];
            if b == 0x7e || b == 0x11 || b == 0x13 || b == 0x18 || b == 0x1a || b == 0x7d {
                buf.push(0x7d);
                buf.push(b ^ 0b00100000);
            } else {
                buf.push(b);
            }
            proof {
                assert(all.take(i + 1).drop_last() =~= all.take(i as int));
                assert(buf@ =~= b1 + stuff(all.take(i + 1)));
            }
            i += 1;
        }
        buf.push(0x7e);
        proof {
            assert(all.take(all.len() as int) =~= all);
            assert(buf@ =~= b0 + ash_bytes(self@, legacy));
        }
        Ok(())
    }

    /// Reads a frame, as `ash_parse` says.
    pub fn from_buf(buf: &[u8], legacy: bool) -> (r: Result<Self, Error>)
        requires
            !ash_parse_panics(buf@),
        ensures
            match r {
                Ok(f) => ash_parse(buf@, legacy) == Ok::<AshFrameV, Error>(f@),
                Err(e) => ash_parse(buf@, legacy) == Err::<AshFrameV, Error>(e),
            },
    {
        let n0 = buf.len();
        if n0 == 0 || buf[n0 - 1] != 0x7e {
            return Err(Error::AshFormatError(AshFormat::BadFrameEnding));
        }
        if n0 < 4 {
            return Err(Error::AshFormatError(AshFormat::FrameTooSmall));
        }
        let mut buf_d = destuffed(buf);
        let n = buf_d.len();
        let head = &buf_d.as_slice()[0..n - 3];
        let crc16 = Self::crc16(head);
        proof {
            assert(head@ =~= buf_d@.subrange(0, n - 3));
        }
        if crc16 as u32 != (buf_d[n - 3] as u32) * 256 + buf_d[n - 2] as u32 {
            return Err(Error::AshFormatError(AshFormat::BadCrc));
        }
        let ghost d = buf_d@;
        let control_byte = buf_d[0];
        let control;
        let mut data = AshData::Empty;
        if control_byte & CONTROL_DATA_MASK == 0 {
            randomize_range(&mut buf_d, n - 3);
            control = AshControl::Data(AshControlData::from_byte(control_byte));
            if n - 3 > 1 {
                let e_buf = &buf_d.as_slice()[1..n - 3];
                proof {
                    assert(e_buf@ =~= randomized(d, 1, n - 3).subrange(1, n - 3));
                }
                data = match EzspFrame::from_buf(e_buf, legacy) {
                    Ok(ef) => AshData::Ezsp(ef),
                    Err(e) => AshData::ParseError(e, vstd::slice::slice_to_vec(e_buf)),
                };
            } else {
                proof {
                    assert(randomized(d, 1, n - 3).subrange(1, n - 3).len() == 0);
                }
            }
        } else {
            if control_byte & CONTROL_ACK_MASK == CONTROL_ACK {
                control = AshControl::Ack(AshControlAck::from_byte(control_byte));
            } else if control_byte & CONTROL_ACK_MASK == CONTROL_NAK {
                control = AshControl::Nak(AshControlAck::from_byte(control_byte));
            } else if control_byte == CONTROL_RST {
                control = AshControl::Rst;
            } else if control_byte == CONTROL_RSTACK {
                control = AshControl::Rstack;
                data = AshData::Rstack { version: buf_d[1], code: buf_d[2] };
            } else if control_byte == CONTROL_ERROR {
                control = AshControl::Error;
                data = AshData::Error { version: buf_d[1], code: buf_d[2] };
            } else {
                return Err(Error::AshFormatError(AshFormat::BadControlByte));
            }
        }
        Ok(AshFrame { control, data })
    }
}

/// The connection states of the ASH processor: reset sent, reset
/// acknowledged, version request sent, connected.
#[derive(Debug, Clone, Copy, PartialEq, Eq, Structural)]
pub enum AshProcessorState {
    Init,
    RstSend,
    RstAck,
    VersionReqSend,
    Connected,
}

/// The host side of an ASH link: frame numbering, the commands waiting to
/// be sent, and the connection state. The serial I/O is the caller's: it
/// hands each frame read to `run` and writes the frame `run` gives back.
pub struct AshProcessor {
    pub state: AshProcessorState,
    pub legacy: bool,
    /// The number of the next DATA frame to send.
    pub snd_frm_num: u8,
    /// The last acknowledgement number received.
    pub rcv_ack_num: u8,
    /// The acknowledgement number to send.
    pub snd_ack_num: u8,
    /// The next EZSP sequence number.
    pub sequence: u8,
    pub buf_out: VecDeque<AshFrame>,
    /// The commands received before the link was connected.
    pub nc_buf: Vec<RawCommand>,
    /// Whether to hold unicasts back while one is unanswered.
    pub sequential_unicast: bool,
    /// The number of unanswered unicasts.
    pub unicast_counter: u8,
}

/// The model of the ASH processor.
pub struct AshProcessorV {
    pub state: AshProcessorState,
    pub legacy: bool,
    pub snd_frm_num: u8,
    pub rcv_ack_num: u8,
    pub snd_ack_num: u8,
    pub sequence: u8,
    pub buf_out: Seq<AshFrameV>,
    pub nc_buf: Seq<(u16, Seq<u8>)>,
    pub sequential_unicast: bool,
    pub unicast_counter: u8,
}

impl View for AshProcessor {
    type V = AshProcessorV;

    open spec fn view(&self) -> AshProcessorV {
        AshProcessorV {
            state: self.state,
            legacy: self.legacy,
            snd_frm_num: self.snd_frm_num,
            rcv_ack_num: self.rcv_ack_num,
            snd_ack_num: self.snd_ack_num,
            sequence: self.sequence,
            buf_out: self.buf_out@.map_values(|f: AshFrame| f@),
            nc_buf: self.nc_buf@.map_values(|c: RawCommand| c@),
            sequential_unicast: self.sequential_unicast,
            unicast_counter: self.unicast_counter,
        }
    }
}

/// A DATA frame carrying the command `id` with parameters `ps`, its frame
/// and sequence numbers left 0 until it is sent; the frame format version
/// is 1 once the link left the legacy format, but always 0 for the
/// `version` command.
pub open spec fn data_frame_v(legacy: bool, id: u16, ps: Seq<u8>) -> AshFrameV {
    AshFrameV {
        control: AshControl::Data(AshControlData { frm_num: 0, re_tx: 0, ack_num: 0 }),
        data: AshDataV::Ezsp(
            EzspFrameV {
                sequence: 0,
                control: FrameControl::Command(
                    CommandControl {
                        network_index: 0,
                        sleep_mode: 0,
                        security_enabled: 0,
                        padding_enabled: 0,
                        frame_format_version: if legacy || id == FRAME_ID_VERSION {
                            0
                        } else {
                            1
                        },
                    },
                ),
                data: FrameDataV::Command(id, ps),
            },
        ),
    }
}

/// Whether a frame carries a `sendUnicast` command.
pub open spec fn is_unicast_command(f: AshFrameV) -> bool {
    f.data matches AshDataV::Ezsp(ef) && ef.data matches FrameDataV::Command(id, _) && id
        == FRAME_ID_SEND_UNICAST
}

/// Whether a frame carries a `sendUnicast` response.
pub open spec fn is_unicast_response(f: AshFrameV) -> bool {
    f.data matches AshDataV::Ezsp(ef) && ef.data matches FrameDataV::Response(id, _) && id
        == FRAME_ID_SEND_UNICAST
}

/// A command handed to the processor: queued as a DATA frame once
/// connected, else kept until the link is connected.
pub open spec fn spec_accept_command(p: AshProcessorV, c: (u16, Seq<u8>)) -> AshProcessorV {
    if p.state == AshProcessorState::Connected {
        AshProcessorV { buf_out: p.buf_out.push(data_frame_v(p.legacy, c.0, c.1)), ..p }
    } else {
        AshProcessorV { nc_buf: p.nc_buf.push(c), ..p }
    }
}

/// The commands kept back, as the DATA frames they become.
pub open spec fn queued_frames(legacy: bool, cs: Seq<(u16, Seq<u8>)>) -> Seq<AshFrameV> {
    cs.map_values(|c: (u16, Seq<u8>)| data_frame_v(legacy, c.0, c.1))
}

/// The connection state after a frame is received: an RSTACK answers the
/// reset, a DATA frame answers the version request (the link leaves the
/// legacy format and the commands kept back are queued).
pub open spec fn spec_connect_step(p: AshProcessorV, f: AshFrameV) -> AshProcessorV {
    if p.state == AshProcessorState::RstSend && f.control is Rstack {
        AshProcessorV { state: AshProcessorState::RstAck, ..p }
    } else if p.state == AshProcessorState::VersionReqSend && f.control is Data {
        AshProcessorV {
            state: AshProcessorState::Connected,
            legacy: false,
            buf_out: p.buf_out + queued_frames(false, p.nc_buf),
            nc_buf: Seq::empty(),
            ..p
        }
    } else {
        p
    }
}

/// What a received frame does: after `spec_connect_step`, a DATA frame
/// records its acknowledgement number, is to be acknowledged, counts a
/// unicast answered and yields its response with its sequence number; an
/// ACK records its acknowledgement number; an ERROR frame is an error that
/// needs a reset. The result is the new state, the response and whether an
/// acknowledgement is owed.
pub open spec fn spec_handle_frame(p: AshProcessorV, f: AshFrameV) -> Result<
    (AshProcessorV, Option<((u16, Seq<u8>), u8)>, bool),
    Error,
> {
    let q = spec_connect_step(p, f);
    match f.control {
        AshControl::Data(racd) => {
            let q2 = AshProcessorV {
                rcv_ack_num: racd.ack_num,
                snd_ack_num: ((racd.frm_num + 1) % 8) as u8,
                unicast_counter: if is_unicast_response(f) {
                    q.unicast_counter.wrapping_sub(1)
                } else {
                    q.unicast_counter
                },
                ..q
            };
            let out = match f.data {
                AshDataV::Ezsp(ef) => match ef.data {
                    FrameDataV::Response(id, ps) => Some(((id, ps), ef.sequence)),
                    _ => None,
                },
                _ => None,
            };
            Ok((q2, out, true))
        },
        AshControl::Ack(aca) => Ok((AshProcessorV { rcv_ack_num: aca.ack_num, ..q }, None, false)),
        AshControl::Error => match f.data {
            AshDataV::Error { version, code } => Err(Error::AshError { code, version }),
            _ => Err(Error::AshError { code: 0, version: 0 }),
        },
        _ => Ok((q, None, false)),
    }
}

/// The frame picked while unicasts are held back: the first frame of the
/// queue from position `i` on that is not a unicast, taken out of the queue;
/// none where every such frame is a unicast.
pub open spec fn pick_skipping_unicast(q: Seq<AshFrameV>, i: int) -> (
    Seq<AshFrameV>,
    Option<AshFrameV>,
)
    decreases q.len() - i,
{
    if i < 0 || i >= q.len() {
        (q, None)
    } else if is_unicast_command(q[i]) {
        pick_skipping_unicast(q, i + 1)
    } else {
        (q.remove(i), Some(q[i]))
    }
}

/// The frame to send next, by state (the queue may only be taken from when
/// no more than three frames are unacknowledged), or else an ACK where one
/// is owed.
pub open spec fn spec_pick_frame(p: AshProcessorV, need_ack: bool) -> (AshProcessorV, Option<AshFrameV>) {
    let (q, f) = match p.state {
        AshProcessorState::Init => (
            AshProcessorV { state: AshProcessorState::RstSend, ..p },
            Some(AshFrameV { control: AshControl::Rst, data: AshDataV::Empty }),
        ),
        AshProcessorState::RstAck => (
            AshProcessorV { state: AshProcessorState::VersionReqSend, ..p },
            Some(data_frame_v(p.legacy, FRAME_ID_VERSION, seq![8u8])),
        ),
        AshProcessorState::Connected => {
            if p.snd_frm_num.wrapping_sub(p.rcv_ack_num) % 8 <= 3 {
                if p.sequential_unicast && p.unicast_counter >= 1 {
                    let (b, f) = pick_skipping_unicast(p.buf_out, 0);
                    (AshProcessorV { buf_out: b, ..p }, f)
                } else if p.buf_out.len() > 0 {
                    (AshProcessorV { buf_out: p.buf_out.drop_first(), ..p }, Some(p.buf_out[0]))
                } else {
                    (p, None)
                }
            } else {
                (p, None)
            }
        },
        _ => (p, None),
    };
    match f {
        None => if need_ack {
            (
                q,
                Some(
                    AshFrameV {
                        control: AshControl::Ack(
                            AshControlAck { ack_num: q.snd_ack_num, n_rdy: 0, res: 0 },
                        ),
                        data: AshDataV::Empty,
                    },
                ),
            )
        } else {
            (q, None)
        },
        Some(f) => (q, Some(f)),
    }
}

/// A frame about to be sent: a DATA frame gets the frame and
/// acknowledgement numbers (the frame number then moves on, modulo 8) and
/// its EZSP frame the sequence number (which then moves on, wrapping
/// around); a unicast sent is counted (wrapping around).
pub open spec fn spec_stamp(p: AshProcessorV, f: AshFrameV) -> (AshProcessorV, AshFrameV) {
    let (q, g) = match f.control {
        AshControl::Data(c) => {
            let c2 = AshControlData { ack_num: p.snd_ack_num, frm_num: p.snd_frm_num, ..c };
            match f.data {
                AshDataV::Ezsp(ef) => (
                    AshProcessorV {
                        snd_frm_num: ((p.snd_frm_num + 1) % 8) as u8,
                        sequence: p.sequence.wrapping_add(1),
                        ..p
                    },
                    AshFrameV {
                        control: AshControl::Data(c2),
                        data: AshDataV::Ezsp(EzspFrameV { sequence: p.sequence, ..ef }),
                    },
                ),
                _ => (
                    AshProcessorV { snd_frm_num: ((p.snd_frm_num + 1) % 8) as u8, ..p },
                    AshFrameV { control: AshControl::Data(c2), ..f },
                ),
            }
        },
        _ => (p, f),
    };
    if is_unicast_command(g) {
        (AshProcessorV { unicast_counter: q.unicast_counter.wrapping_add(1), ..q }, g)
    } else {
        (q, g)
    }
}

/// The frame numbers are within range.
pub open spec fn ash_wf(p: AshProcessorV) -> bool {
    p.snd_frm_num < 8 && p.snd_ack_num < 8
}

/// The model of a response handed out, with its sequence number.
pub open spec fn out_view(o: Option<(RawResponse, u8)>) -> Option<((u16, Seq<u8>), u8)> {
    match o {
        Some((r, s)) => Some((r@, s)),
        None => None,
    }
}

/// The model of an optional frame.
pub open spec fn opt_frame_view(o: Option<AshFrame>) -> Option<AshFrameV> {
    match o {
        Some(f) => Some(f@),
        None => None,
    }
}

/// Whether a frame carries a `sendUnicast` command.
fn is_unicast_cmd(f: &AshFrame) -> (r: bool)
    ensures
        r == is_unicast_command(f@),
{
    match &f.data {
        AshData::Ezsp(ef) => match &ef.data {
            FrameData::Command(cd) => cd.frame_id == FRAME_ID_SEND_UNICAST,
            _ => false,
        },
        _ => false,
    }
}

impl AshProcessor {
    pub fn new() -> (r: Self)
        ensures
            r@ == (AshProcessorV {
                state: AshProcessorState::Init,
                legacy: true,
                snd_frm_num: 0,
                rcv_ack_num: 0,
                snd_ack_num: 0,
                sequence: 0,
                buf_out: Seq::empty(),
                nc_buf: Seq::empty(),
                sequential_unicast: true,
                unicast_counter: 0,
            }),
    {
        let r = AshProcessor {
            state: AshProcessorState::Init,
            legacy: true,
            snd_frm_num: 0,
            rcv_ack_num: 0,
            snd_ack_num: 0,
            sequence: 0,
            buf_out: VecDeque::new(),
            nc_buf: Vec::new(),
            sequential_unicast: true,
            unicast_counter: 0,
        };
        proof {
            assert(r@.buf_out =~= Seq::<AshFrameV>::empty());
            assert(r@.nc_buf =~= Seq::<(u16, Seq<u8>)>::empty());
        }
        r
    }

    /// The DATA frame that carries a command.
    pub fn create_data_frame(&mut self, data: RawCommand) -> (r: Result<AshFrame, Error>)
        ensures
            final(self)@ == old(self)@,
            r matches Ok(f) && f@ == data_frame_v(old(self).legacy, data.frame_id, data.params@),
    {
        let frame_format_version: u8 = if self.legacy || data.frame_id == FRAME_ID_VERSION {
            0
        } else {
            1
        };
        let f = AshFrame {
            control: AshControl::Data(AshControlData { frm_num: 0, re_tx: 0, ack_num: 0 }),
            data: AshData::Ezsp(
                EzspFrame {
                    sequence: 0,
                    control: FrameControl::Command(
                        CommandControl {
                            network_index: 0,
                            sleep_mode: 0,
                            security_enabled: 0,
                            padding_enabled: 0,
                            frame_format_version,
                        },
                    ),
                    data: FrameData::Command(data),
                },
            ),
        };
        Ok(f)
    }

    /// Queues a command as a DATA frame.
    pub fn send_data_frame(&mut self, data: RawCommand) -> (r: Result<(), Error>)
        ensures
            r is Ok,
            final(self)@ == (AshProcessorV {
                buf_out: old(self)@.buf_out.push(
                    data_frame_v(old(self).legacy, data.frame_id, data.params@),
                ),
                ..old(self)@
            }),
    {
        let ghost p0 = self@;
        let f = self.create_data_frame(data);
        match f {
            Ok(f) => {
                self.buf_out.push_back(f);
                proof {
                    assert(self@.buf_out =~= p0.buf_out.push(
                        data_frame_v(p0.legacy, data.frame_id, data.params@),
                    ));
                }
                Ok(())
            },
            Err(e) => Err(e),
        }
    }

    /// A command from the application: queued once connected, else kept
    /// until the link is connected.
    pub fn accept_command(&mut self, command: RawCommand)
        ensures
            final(self)@ == spec_accept_command(old(self)@, command@),
    {
        if self.state == AshProcessorState::Connected {
            let _ = self.send_data_frame(command);
        } else {
            let ghost p0 = self@;
            self.nc_buf.push(command);
            proof {
                assert(self@.nc_buf =~= p0.nc_buf.push(command@));
            }
        }
    }
}

/// Whether a frame carries a `sendUnicast` response.
fn is_unicast_resp(f: &AshFrame) -> (r: bool)
    ensures
        r == is_unicast_response(f@),
{
    match &f.data {
        AshData::Ezsp(ef) => match &ef.data {
            FrameData::Response(rd) => rd.frame_id == FRAME_ID_SEND_UNICAST,
            _ => false,
        },
        _ => false,
    }
}

/// The next frame the processor writes, after a turn in which a frame
/// `f` may have been read: `None` where the caller's outgoing buffer is
/// still busy.
pub open spec fn spec_next_frame(p: AshProcessorV, need_ack: bool) -> (AshProcessorV, Option<AshFrameV>) {
    let (q, f) = spec_pick_frame(p, need_ack);
    match f {
        None => (q, None),
        Some(f) => {
            let (q2, g) = spec_stamp(q, f);
            (q2, Some(g))
        },
    }
}

/// One turn of the processor: the application's command is taken, the
/// frame read from the line is handled, and where the outgoing buffer is
/// empty the next frame to write is picked and numbered. An ERROR frame
/// ends the turn with its error (the command stays taken).
pub open spec fn spec_run(
    p: AshProcessorV,
    cmd: Option<(u16, Seq<u8>)>,
    frame_in: Option<AshFrameV>,
    frame_out_empty: bool,
) -> Result<(AshProcessorV, Option<((u16, Seq<u8>), u8)>, Option<AshFrameV>), Error> {
    let p1 = match cmd {
        Some(c) => spec_accept_command(p, c),
        None => p,
    };
    let h = match frame_in {
        Some(f) => spec_handle_frame(p1, f),
        None => Ok((p1, None, false)),
    };
    match h {
        Err(e) => Err(e),
        Ok((p2, out, need_ack)) => if frame_out_empty {
            let (p3, g) = spec_next_frame(p2, need_ack);
            Ok((p3, out, g))
        } else {
            Ok((p2, out, None))
        },
    }
}

impl AshProcessor {
    /// What a received frame does, as `spec_handle_frame` says; a DATA frame
    /// numbered `n` is always taken, and `(n + 1) mod 8` becomes the number to
    /// acknowledge.
    pub fn handle_frame(&mut self, frame: AshFrame) -> (r: Result<(Option<(RawResponse, u8)>, bool), Error>)
        requires
            frame@.control matches AshControl::Data(c) ==> c.frm_num < 255,
        ensures
            match spec_handle_frame(old(self)@, frame@) {
                Ok((q, o, n)) => r matches Ok((out, na)) && final(self)@ == q && out_view(out) == o
                    && na == n,
                Err(e) => r == Err::<(Option<(RawResponse, u8)>, bool), Error>(e) && final(self)@
                    == old(self)@,
            },
            frame@.control matches AshControl::Data(c) ==> r matches Ok((_, need_ack)) && need_ack
                && final(self)@.snd_ack_num as int == (c.frm_num as int + 1) % 8,
    {
        let ghost p0 = self@;
        let ghost fv = frame@;
        proof {
            if fv.control is Data {
                lemma_data_frame_acknowledged(p0, fv);
            }
        }
        if self.state == AshProcessorState::RstSend {
            if let AshControl::Rstack = frame.control {
                self.state = AshProcessorState::RstAck;
            }
        } else if self.state == AshProcessorState::VersionReqSend {
            if let AshControl::Data(_) = frame.control {
                self.state = AshProcessorState::Connected;
                self.legacy = false;
                let mut cmds: Vec<RawCommand> = Vec::new();
                std::mem::swap(&mut cmds, &mut self.nc_buf);
                let ghost c0 = cmds@;
                let ghost q0 = self@;
                proof {
                    assert(q0.nc_buf =~= Seq::<(u16, Seq<u8>)>::empty());
                    assert(p0.nc_buf == c0.map_values(|c: RawCommand| c@));
                }
                while cmds.len() > 0
                    invariant
                        cmds@.len() <= c0.len(),
                        cmds@ == c0.subrange(c0.len() - cmds@.len(), c0.len() as int),
                        self@ == (AshProcessorV {
                            buf_out: q0.buf_out + queued_frames(
                                false,
                                c0.subrange(0, c0.len() - cmds@.len()).map_values(
                                    |c: RawCommand| c@,
                                ),
                            ),
                            ..q0
                        }),
                        q0.legacy == false,
                    decreases cmds@.len(),
                {
                    let ghost k = c0.len() - cmds@.len();
                    let c = cmds.remove(0);
                    proof {
                        assert(c == c0[k]);
                        assert(cmds@ =~= c0.subrange(c0.len() - cmds@.len(), c0.len() as int));
                        assert(c0.subrange(0, k + 1).map_values(|c: RawCommand| c@) =~= c0.subrange(
                            0,
                            k,
                        ).map_values(|c: RawCommand| c@).push(c@));
                        assert(q0.buf_out + queued_frames(
                            false,
                            c0.subrange(0, k + 1).map_values(|c: RawCommand| c@),
                        ) =~= (q0.buf_out + queued_frames(
                            false,
                            c0.subrange(0, k).map_values(|c: RawCommand| c@),
                        )).push(data_frame_v(false, c.frame_id, c.params@)));
                    }
                    let _ = self.send_data_frame(c);
                }
                proof {
                    assert(c0.subrange(0, c0.len() as int) =~= c0);
                }
            }
        }
        proof {
            assert(self@ == spec_connect_step(p0, fv));
        }
        match frame.control {
            AshControl::Data(racd) => {
                self.rcv_ack_num = racd.ack_num;
                self.snd_ack_num = (racd.frm_num + 1) % 8;
                if is_unicast_resp(&frame) {
                    self.unicast_counter = self.unicast_counter.wrapping_sub(1);
                }
                let seq = match &frame.data {
                    AshData::Ezsp(ef) => ef.sequence,
                    _ => 0,
                };
                let out = match frame.data {
                    AshData::Ezsp(ef) => match ef.data {
                        FrameData::Response(rd) => Some((rd, seq)),
                        _ => None,
                    },
                    _ => None,
                };
                Ok((out, true))
            },
            AshControl::Ack(aca) => {
                self.rcv_ack_num = aca.ack_num;
                Ok((None, false))
            },
            AshControl::Error => {
                let (code, version) = match frame.data {
                    AshData::Error { code, version } => (code, version),
                    _ => (0, 0),
                };
                Err(Error::AshError { code, version })
            },
            _ => Ok((None, false)),
        }
    }

    /// Takes the frame to send while unicasts are held back, as
    /// `pick_skipping_unicast` says.
    fn take_skipping_unicast(&mut self) -> (r: Option<AshFrame>)
        ensures
            ({
                let (b, f) = pick_skipping_unicast(old(self)@.buf_out, 0);
                final(self)@ == (AshProcessorV { buf_out: b, ..old(self)@ }) && opt_frame_view(r)
                    == f
            }),
    {
        let ghost p0 = self@;
        let n0 = self.buf_out.len();
        let mut i: usize = 0;
        while i < n0 && is_unicast_cmd(&self.buf_out[i])
            invariant
                i <= n0,
                n0 == p0.buf_out.len(),
                self@ == p0,
                pick_skipping_unicast(p0.buf_out, 0) == pick_skipping_unicast(p0.buf_out, i as int),
            decreases n0 - i,
        {
            i += 1;
        }
        if i < n0 {
            let ghost q = self@.buf_out;
            let ghost raw = self.buf_out@;
            let f = self.buf_out.remove(i);
            proof {
                assert(raw[i as int]@ == q[i as int]);
                assert(self@.buf_out =~= q.remove(i as int));
            }
            f
        } else {
            None
        }
    }

    /// Numbers a frame about to be sent, as `spec_stamp` says.
    fn stamp(&mut self, frame: AshFrame) -> (g: AshFrame)
        requires
            ash_wf(old(self)@),
        ensures
            ash_wf(final(self)@),
            (final(self)@, g@) == spec_stamp(old(self)@, frame@),
    {
        let AshFrame { control, data } = frame;
        let (control, data) = match control {
            AshControl::Data(c) => {
                let c2 = AshControlData {
                    ack_num: self.snd_ack_num,
                    frm_num: self.snd_frm_num,
                    re_tx: c.re_tx,
                };
                self.snd_frm_num = (self.snd_frm_num + 1) % 8;
                let data = match data {
                    AshData::Ezsp(ef) => {
                        let s = self.sequence;
                        self.sequence = self.sequence.wrapping_add(1);
                        AshData::Ezsp(EzspFrame { sequence: s, control: ef.control, data: ef.data })
                    },
                    d => d,
                };
                (AshControl::Data(c2), data)
            },
            c => (c, data),
        };
        let g = AshFrame { control, data };
        if is_unicast_cmd(&g) {
            self.unicast_counter = self.unicast_counter.wrapping_add(1);
        }
        g
    }

    /// The next frame to write, as `spec_next_frame` says.
    pub fn next_frame(&mut self, need_ack: bool) -> (r: Result<Option<AshFrame>, Error>)
        requires
            ash_wf(old(self)@),
        ensures
            ash_wf(final(self)@),
            r matches Ok(g) && (final(self)@, opt_frame_view(g)) == spec_next_frame(
                old(self)@,
                need_ack,
            ),
    {
        let ghost p0 = self@;
        let frame: Option<AshFrame> = match self.state {
            AshProcessorState::Init => {
                self.state = AshProcessorState::RstSend;
                Some(AshFrame { control: AshControl::Rst, data: AshData::Empty })
            },
            AshProcessorState::RstSend => None,
            AshProcessorState::RstAck => {
                self.state = AshProcessorState::VersionReqSend;
                let mut params: Vec<u8> = Vec::new();
                params.push(8u8);
                proof {
                    assert(params@ =~= seq![8u8]);
                }
                match self.create_data_frame(RawCommand { frame_id: FRAME_ID_VERSION, params }) {
                    Ok(f) => Some(f),
                    Err(e) => {
                        return Err(e);
                    },
                }
            },
            AshProcessorState::VersionReqSend => None,
            AshProcessorState::Connected => {
                if self.snd_frm_num.wrapping_sub(self.rcv_ack_num) % 8 <= 3 {
                    if self.sequential_unicast && self.unicast_counter >= 1 {
                        self.take_skipping_unicast()
                    } else {
                        let ghost b = self@.buf_out;
                        let f = self.buf_out.pop_front();
                        proof {
                            if b.len() > 0 {
                                assert(self@.buf_out =~= b.drop_first());
                            }
                        }
                        f
                    }
                } else {
                    None
                }
            },
        };
        let frame = match frame {
            None => if need_ack {
                Some(
                    AshFrame {
                        control: AshControl::Ack(
                            AshControlAck { ack_num: self.snd_ack_num, n_rdy: 0, res: 0 },
                        ),
                        data: AshData::Empty,
                    },
                )
            } else {
                None
            },
            Some(f) => Some(f),
        };
        match frame {
            None => Ok(None),
            Some(frame) => {
                let g = self.stamp(frame);
                Ok(Some(g))
            },
        }
    }

    /// One turn of the processor, as `spec_run` says.
    pub fn run(
        &mut self,
        command_data: Option<RawCommand>,
        frame_in: Option<AshFrame>,
        frame_out_empty: bool,
    ) -> (r: Result<(Option<(RawResponse, u8)>, Option<AshFrame>), Error>)
        requires
            ash_wf(old(self)@),
            frame_in matches Some(f) ==> (f@.control matches AshControl::Data(c) ==> c.frm_num
                < 255),
        ensures
            ash_wf(final(self)@),
            match spec_run(
                old(self)@,
                match command_data {
                    Some(c) => Some(c@),
                    None => None,
                },
                opt_frame_view(frame_in),
                frame_out_empty,
            ) {
                Ok((q, o, g)) => r matches Ok((out, h)) && final(self)@ == q && out_view(out) == o
                    && opt_frame_view(h) == g,
                Err(e) => r matches Err(e2) && e2 == e,
            },
    {
        if let Some(command) = command_data {
            self.accept_command(command);
        }
        let (out, need_ack) = match frame_in {
            Some(frame) => match self.handle_frame(frame) {
                Ok(x) => x,
                Err(e) => {
                    return Err(e);
                },
            },
            None => (None, false),
        };
        if frame_out_empty {
            match self.next_frame(need_ack) {
                Ok(g) => Ok((out, g)),
                Err(e) => Err(e),
            }
        } else {
            Ok((out, None))
        }
    }
}

/// ASH frames over the frame layer; the parameter tells whether the link
/// is in the legacy format. A buffer on which reading would run off a slice
/// is refused as too small.
impl Frame for AshFrame {
    type Params = bool;

    open spec fn spec_buffer_len(buf: Seq<u8>, params: bool, after: Seq<u8>, r: Result<usize, FramesError>) -> bool {
        &&& after == ash_buffer_after(buf)
        &&& r matches Ok(n) && n == (if after.len() > 0 && after.last() == 0x7e {
            0usize
        } else {
            1usize
        })
    }

    open spec fn spec_read(buf: Seq<u8>, params: bool, r: Result<Self, FramesError>) -> bool {
        if ash_parse_panics(buf) {
            r matches Err(FramesError::Other(t)) && t@ == ash_format_text(AshFormat::FrameTooSmall)
        } else {
            match ash_parse(buf, params) {
                Ok(v) => r matches Ok(f) && f@ == v,
                Err(e) => r matches Err(FramesError::Other(t)) && t@ == error_text(e),
            }
        }
    }

    open spec fn spec_write(f: Self, params: bool, before: Seq<u8>, after: Seq<u8>, r: Result<(), FramesError>) -> bool {
        r is Ok && after == before + ash_bytes(f@, params)
    }

    fn get_buffer_len(buf: &mut Vec<u8>, _params: &bool) -> (r: Result<usize, FramesError>) {
        match AshFrame::get_buffer_len(buf) {
            Ok(n) => Ok(n),
            Err(e) => Err(FramesError::Other(e.text())),
        }
    }

    fn from_buf(buf: &[u8], params: &bool) -> (r: Result<Self, FramesError>) {
        if ash_from_buf_panics(buf) {
            return Err(FramesError::Other(String::from_str(AshFormat::FrameTooSmall.message())));
        }
        match AshFrame::from_buf(buf, *params) {
            Ok(f) => Ok(f),
            Err(e) => Err(FramesError::Other(e.text())),
        }
    }

    fn as_bytes(&self, params: &bool, buf: &mut Vec<u8>) -> (r: Result<(), FramesError>) {
        match AshFrame::as_bytes(self, *params, buf) {
            Ok(()) => Ok(()),
            Err(e) => Err(FramesError::Other(e.text())),
        }
    }
}

/// A DATA frame received is acknowledged: handling a DATA frame numbered
/// `n` never fails, asks for an acknowledgement, takes the acknowledgement
/// number it carries as the peer's, and makes `(n + 1) mod 8` (the frame
/// expected next) the number to acknowledge.
pub proof fn lemma_data_frame_acknowledged(p: AshProcessorV, f: AshFrameV)
    requires
        f.control is Data,
    ensures
        spec_handle_frame(p, f) matches Ok((q, _, need_ack)) && need_ack && q.snd_ack_num as int
            == (f.control->Data_0.frm_num as int + 1) % 8 && q.rcv_ack_num == f.control->Data_0.ack_num,
{
}

/// After a DATA frame numbered `n` is handled, with only DATA frames
/// queued, the next frame sent carries the acknowledgement number
/// `(n + 1) mod 8`, whether it is an ACK or a DATA frame.
pub proof fn lemma_next_frame_acknowledges(p: AshProcessorV, f: AshFrameV)
    requires
        f.control is Data,
        forall|i: int| 0 <= i < p.buf_out.len() ==> (#[trigger] p.buf_out[i]).control is Data,
    ensures
        spec_handle_frame(p, f) matches Ok((q, _, need_ack)) && (spec_next_frame(q, need_ack).1 matches Some(
            g,
        ) ==> match g.control {
            AshControl::Ack(a) => a.ack_num as int == (f.control->Data_0.frm_num as int + 1) % 8,
            AshControl::Data(d) => d.ack_num as int == (f.control->Data_0.frm_num as int + 1) % 8,
            _ => true,
        }),
{
    let (q2, o, na) = spec_handle_frame(p, f)->Ok_0;
    let q1 = spec_connect_step(p, f);
    assert forall|i: int| 0 <= i < q1.buf_out.len() implies (#[trigger] q1.buf_out[i]).control is Data by {
        if i >= p.buf_out.len() {
            let k = i - p.buf_out.len();
            assert(q1.buf_out[i] == queued_frames(false, p.nc_buf)[k]);
        }
    }
    assert(q2.buf_out == q1.buf_out);
    lemma_pick_data(q2.buf_out, 0);
    let (q3, g) = spec_pick_frame(q2, na);
    assert(q3.snd_ack_num == q2.snd_ack_num);
}

/// From a queue of DATA frames, the frame picked is a DATA frame.
proof fn lemma_pick_data(q: Seq<AshFrameV>, i: int)
    requires
        forall|k: int| 0 <= k < q.len() ==> (#[trigger] q[k]).control is Data,
    ensures
        pick_skipping_unicast(q, i).1 matches Some(x) ==> x.control is Data,
    decreases q.len() - i,
{
    if 0 <= i < q.len() && is_unicast_command(q[i]) {
        lemma_pick_data(q, i + 1);
    }
}

} // verus!
