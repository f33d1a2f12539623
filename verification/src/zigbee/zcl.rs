//! Zigbee Cluster Library frames: the frame header (frame control,
//! manufacturer code, transaction sequence number) around the command
//! bytes.

use vstd::prelude::*;
use crate::zigbee::zcl_command::{
    append_bytes, generic_bytes, generic_parse, level_bytes, level_parse, onoff_bytes, onoff_parse,
    tuya_bytes, tuya_parse, zone_bytes, zone_parse, FormatError, GenericCommand, GenericV, LevelCommand,
    LevelV, OnOffCommand, TuyaCommand, TuyaV, ZoneCommand,
};

verus! {

/// Why a buffer is too small for a ZCL frame.
#[derive(Debug, Clone, Copy, PartialEq, Eq, Structural)]
pub enum BufferTooSmall {
    EmptyBuffer,
    NoManufacturerCode,
    NoSeqNumber,
    NoCommand,
}

/// The text of a too small buffer error.
pub open spec fn buffer_too_small_text(b: BufferTooSmall) -> Seq<char> {
    match b {
        BufferTooSmall::EmptyBuffer => "Empty buffer"@,
        BufferTooSmall::NoManufacturerCode => "Buffer length < 3"@,
        BufferTooSmall::NoSeqNumber => "No seq number"@,
        BufferTooSmall::NoCommand => "No command"@,
    }
}

impl BufferTooSmall {
    /// The text of the error, as `buffer_too_small_text` says.
    pub fn message(&self) -> (r: &'static str)
        ensures
            r@ == buffer_too_small_text(*self),
    {
        match self {
            BufferTooSmall::EmptyBuffer => "Empty buffer",
            BufferTooSmall::NoManufacturerCode => "Buffer length < 3",
            BufferTooSmall::NoSeqNumber => "No seq number",
            BufferTooSmall::NoCommand => "No command",
        }
    }
}

/// Errors of the ZCL layer.
#[derive(Debug, Clone, Copy, PartialEq, Eq, Structural)]
pub enum Error {
    BufferTooSmall(BufferTooSmall),
    NotImplemented,
    /// The command bytes could not be read, or the command not written.
    Format(FormatError),
}

/// The frame control byte: `000 disable_default_response(1) direction(1)
/// manufacturer_specific(1) frame_type(2)`.
#[derive(Debug, Clone, Copy, PartialEq, Eq, Structural)]
pub struct ZclFrameControl {
    pub disable_default_response: bool,
    pub direction: u8,
    pub manufacturer_specific: u8,
    pub frame_type: u8,
}

impl ZclFrameControl {
    /// The byte of the fields, each cut to its width.
    pub open spec fn spec_byte(self) -> u8 {
        ((if self.disable_default_response {
            1u8
        } else {
            0u8
        }) << 4) | ((self.direction & 1) << 3) | ((self.manufacturer_specific & 1) << 2) | (
        self.frame_type & 3)
    }

    /// The fields of a byte.
    pub open spec fn spec_from_byte(b: u8) -> Self {
        ZclFrameControl {
            disable_default_response: (b >> 4) & 1 == 1,
            direction: (b >> 3) & 1,
            manufacturer_specific: (b >> 2) & 1,
            frame_type: b & 3,
        }
    }

    /// Whether each field fits its width.
    pub open spec fn fits(self) -> bool {
        self.direction < 2 && self.manufacturer_specific < 2 && self.frame_type < 4
    }

    pub fn to_byte(&self) -> (r: u8)
        ensures
            r == self.spec_byte(),
    {
        ((if self.disable_default_response {
            1u8
        } else {
            0u8
        }) << 4) | ((self.direction & 1) << 3) | ((self.manufacturer_specific & 1) << 2) | (
        self.frame_type & 3)
    }

    pub fn from_byte(b: u8) -> (r: Self)
        ensures
            r == Self::spec_from_byte(b),
    {
        ZclFrameControl {
            disable_default_response: (b >> 4) & 1 == 1,
            direction: (b >> 3) & 1,
            manufacturer_specific: (b >> 2) & 1,
            frame_type: b & 3,
        }
    }
}

/// A ZCL frame: its header and its command.
#[derive(Debug)]
pub struct ZclFrame {
    pub control: ZclFrameControl,
    pub manufacturer_code: Option<u16>,
    pub transaction_sequence_number: u8,
    pub command: Command,
}

/// The model of a ZCL frame with its command read.
pub struct ZclCommandFrameV {
    pub control: ZclFrameControl,
    pub manufacturer_code: Option<u16>,
    pub transaction_sequence_number: u8,
    pub command: CommandV,
}

/// The layout of a ZCL frame: its header and the bytes of its command.
pub struct ZclFrameV {
    pub control: ZclFrameControl,
    pub manufacturer_code: Option<u16>,
    pub transaction_sequence_number: u8,
    pub command: Seq<u8>,
}

impl View for ZclFrame {
    type V = ZclCommandFrameV;

    open spec fn view(&self) -> ZclCommandFrameV {
        ZclCommandFrameV {
            control: self.control,
            manufacturer_code: self.manufacturer_code,
            transaction_sequence_number: self.transaction_sequence_number,
            command: self.command@,
        }
    }
}

/// The manufacturer code of its two bytes, least significant first.
pub open spec fn manufacturer_code_of(lo: u8, hi: u8) -> u16 {
    (lo as int + hi as int * 256) as u16
}

/// A ZCL frame read from `b`: the frame control byte, the manufacturer code
/// where the frame is manufacturer specific, the sequence number, then at
/// least one byte of command.
pub open spec fn zcl_parse(b: Seq<u8>) -> Result<ZclFrameV, Error> {
    if b.len() < 1 {
        Err(Error::BufferTooSmall(BufferTooSmall::EmptyBuffer))
    } else {
        let control = ZclFrameControl::spec_from_byte(b[0]);
        let ms = control.manufacturer_specific == 1;
        if ms && b.len() < 3 {
            Err(Error::BufferTooSmall(BufferTooSmall::NoManufacturerCode))
        } else {
            let pos: int = if ms {
                3
            } else {
                1
            };
            if b.len() <= pos {
                Err(Error::BufferTooSmall(BufferTooSmall::NoSeqNumber))
            } else if b.len() <= pos + 1 {
                Err(Error::BufferTooSmall(BufferTooSmall::NoCommand))
            } else {
                Ok(
                    ZclFrameV {
                        control,
                        manufacturer_code: if ms {
                            Some(manufacturer_code_of(b[1], b[2]))
                        } else {
                            None
                        },
                        transaction_sequence_number: b[pos],
                        command: b.subrange(pos + 1, b.len() as int),
                    },
                )
            }
        }
    }
}

/// A ZCL frame as written: the frame control byte, the manufacturer code
/// (least significant byte first) where there is one, the sequence number,
/// the command.
pub open spec fn zcl_bytes(f: ZclFrameV) -> Seq<u8> {
    seq![f.control.spec_byte()] + match f.manufacturer_code {
        Some(c) => seq![(c % 256) as u8, (c / 256) as u8],
        None => Seq::empty(),
    } + seq![f.transaction_sequence_number] + f.command
}

/// How a cluster specific command is read: the standard commands, or the
/// Tuya ones.
#[derive(Debug, Clone, Copy, PartialEq, Eq, Structural)]
pub enum CommandExtensionType {
    Raw,
    Tuya,
}

/// A ZCL command: a general one, a Tuya one, one of the on/off, level
/// control or IAS zone clusters, or the bytes of one this library does not
/// read.
#[derive(Debug)]
pub enum Command {
    Generic(GenericCommand),
    Tuya(TuyaCommand),
    Raw(Vec<u8>),
    OnOffCommand(OnOffCommand),
    LevelCommand(LevelCommand),
    ZoneCommand(ZoneCommand),
}

/// The model of a ZCL command.
pub enum CommandV {
    Generic(GenericV),
    Tuya(TuyaV),
    Raw(Seq<u8>),
    OnOff(OnOffCommand),
    Level(LevelV),
    Zone(ZoneCommand),
}

impl View for Command {
    type V = CommandV;

    open spec fn view(&self) -> CommandV {
        match self {
            Command::Generic(g) => CommandV::Generic(g@),
            Command::Tuya(t) => CommandV::Tuya(t@),
            Command::Raw(v) => CommandV::Raw(v@),
            Command::OnOffCommand(c) => CommandV::OnOff(*c),
            Command::LevelCommand(c) => CommandV::Level(c@),
            Command::ZoneCommand(c) => CommandV::Zone(*c),
        }
    }
}

/// A result of a command reader, as a command.
pub open spec fn as_command<T>(r: Result<T, FormatError>, f: spec_fn(T) -> CommandV) -> Result<
    CommandV,
    FormatError,
> {
    match r {
        Ok(x) => Ok(f(x)),
        Err(e) => Err(e),
    }
}

/// A command read from its bytes: a cluster specific command (frame type
/// 1) of the on/off (6), level control (8) or IAS zone (0x0500) cluster,
/// or, with the Tuya extension, of the Tuya cluster (0xef00); the bytes of
/// another cluster specific one; a general command for any other frame
/// type.
pub open spec fn command_parse(b: Seq<u8>, frame_type: u8, cluster_id: u16, ext: CommandExtensionType) -> Result<
    CommandV,
    FormatError,
> {
    if frame_type == 1 {
        if ext == CommandExtensionType::Raw {
            if cluster_id == 0x0006 {
                as_command(onoff_parse(b), |c: OnOffCommand| CommandV::OnOff(c))
            } else if cluster_id == 0x0008 {
                as_command(level_parse(b), |c: LevelV| CommandV::Level(c))
            } else if cluster_id == 0x0500 {
                as_command(zone_parse(b), |c: ZoneCommand| CommandV::Zone(c))
            } else {
                Ok(CommandV::Raw(b))
            }
        } else if cluster_id == 0xef00 {
            as_command(tuya_parse(b), |c: TuyaV| CommandV::Tuya(c))
        } else {
            Ok(CommandV::Raw(b))
        }
    } else {
        as_command(generic_parse(b), |c: GenericV| CommandV::Generic(c))
    }
}

/// The bytes of a command.
pub open spec fn command_bytes(c: CommandV) -> Result<Seq<u8>, FormatError> {
    match c {
        CommandV::Generic(g) => generic_bytes(g),
        CommandV::Tuya(t) => Ok(tuya_bytes(t)),
        CommandV::Raw(s) => Ok(s),
        CommandV::OnOff(o) => Ok(onoff_bytes(o)),
        CommandV::Level(l) => Ok(level_bytes(l)),
        CommandV::Zone(z) => Ok(zone_bytes(z)),
    }
}

impl Command {
    /// Reads a command, as `command_parse` says.
    pub fn from_buf(buf: &[u8], frame_type: u8, cluster_id: u16, extension_type: CommandExtensionType) -> (r:
        Result<Self, Error>)
        ensures
            match command_parse(buf@, frame_type, cluster_id, extension_type) {
                Ok(c) => r matches Ok(x) && x@ == c,
                Err(e) => r == Err::<Self, Error>(Error::Format(e)),
            },
    {
        if frame_type == 1 {
            match extension_type {
                CommandExtensionType::Raw => {
                    if cluster_id == 0x0006 {
                        match OnOffCommand::from_buf(buf) {
                            Ok(c) => Ok(Command::OnOffCommand(c)),
                            Err(e) => Err(Error::Format(e)),
                        }
                    } else if cluster_id == 0x0008 {
                        match LevelCommand::from_buf(buf) {
                            Ok(c) => Ok(Command::LevelCommand(c)),
                            Err(e) => Err(Error::Format(e)),
                        }
                    } else if cluster_id == 0x0500 {
                        match ZoneCommand::from_buf(buf) {
                            Ok(c) => Ok(Command::ZoneCommand(c)),
                            Err(e) => Err(Error::Format(e)),
                        }
                    } else {
                        Ok(Command::Raw(vstd::slice::slice_to_vec(buf)))
                    }
                },
                CommandExtensionType::Tuya => {
                    if cluster_id == 0xef00 {
                        match TuyaCommand::from_buf(buf) {
                            Ok(c) => Ok(Command::Tuya(c)),
                            Err(e) => Err(Error::Format(e)),
                        }
                    } else {
                        Ok(Command::Raw(vstd::slice::slice_to_vec(buf)))
                    }
                },
            }
        } else {
            match GenericCommand::from_buf(buf) {
                Ok(c) => Ok(Command::Generic(c)),
                Err(e) => Err(Error::Format(e)),
            }
        }
    }

    /// The bytes of the command, as `command_bytes` says.
    pub fn to_bytes(&self) -> (r: Result<Vec<u8>, Error>)
        ensures
            match command_bytes(self@) {
                Ok(s) => r matches Ok(v) && v@ == s,
                Err(e) => r == Err::<Vec<u8>, Error>(Error::Format(e)),
            },
    {
        match self {
            Command::Generic(g) => match g.to_bytes() {
                Ok(v) => Ok(v),
                Err(e) => Err(Error::Format(e)),
            },
            Command::Tuya(t) => Ok(t.to_bytes()),
            Command::Raw(v) => {
                let mut w: Vec<u8> = Vec::new();
                append_bytes(&mut w, v.as_slice());
                proof {
                    assert(w@ =~= v@);
                }
                Ok(w)
            },
            Command::OnOffCommand(c) => Ok(c.to_bytes()),
            Command::LevelCommand(c) => Ok(c.to_bytes()),
            Command::ZoneCommand(c) => Ok(c.to_bytes()),
        }
    }
}

impl ZclFrame {
    /// The frame that carries a command: no flags, no manufacturer code,
    /// sequence number 0.
    pub fn from_command(command: Command) -> (r: Self)
        ensures
            r.control == (ZclFrameControl {
                disable_default_response: false,
                direction: 0,
                manufacturer_specific: 0,
                frame_type: 0,
            }),
            r.manufacturer_code is None,
            r.transaction_sequence_number == 0,
            r.command@ == command@,
    {
        ZclFrame {
            control: ZclFrameControl {
                disable_default_response: false,
                direction: 0,
                manufacturer_specific: 0,
                frame_type: 0,
            },
            manufacturer_code: None,
            transaction_sequence_number: 0,
            command,
        }
    }

    /// Reads a ZCL frame sent on `cluster_id`: its header, as `zcl_parse`
    /// says, then its command, as `command_parse` says for its frame type.
    pub fn from_buf(buf: &[u8], cluster_id: u16, extension_type: CommandExtensionType) -> (r: Result<
        Self,
        Error,
    >)
        ensures
            match zcl_parse(buf@) {
                Err(e) => r == Err::<Self, Error>(e),
                Ok(h) => match command_parse(h.command, h.control.frame_type, cluster_id, extension_type) {
                    Ok(c) => r matches Ok(f) && f@ == (ZclCommandFrameV {
                        control: h.control,
                        manufacturer_code: h.manufacturer_code,
                        transaction_sequence_number: h.transaction_sequence_number,
                        command: c,
                    }),
                    Err(e) => r == Err::<Self, Error>(Error::Format(e)),
                },
            },
    {
        if buf.len() < 1 {
            return Err(Error::BufferTooSmall(BufferTooSmall::EmptyBuffer));
        }
        let control = ZclFrameControl::from_byte(buf[0]);
        let mut pos: usize = 1;
        let manufacturer_code = if control.manufacturer_specific == 1 {
            if buf.len() < 3 {
                return Err(Error::BufferTooSmall(BufferTooSmall::NoManufacturerCode));
            }
            let c: u16 = buf[1] as u16 + buf[2] as u16 * 256;
            pos += 2;
            Some(c)
        } else {
            None
        };
        if buf.len() <= pos {
            return Err(Error::BufferTooSmall(BufferTooSmall::NoSeqNumber));
        }
        let transaction_sequence_number = buf[pos];
        pos += 1;
        if buf.len() <= pos {
            return Err(Error::BufferTooSmall(BufferTooSmall::NoCommand));
        }
        let rest = &buf[pos..buf.len()];
        let command = Command::from_buf(rest, control.frame_type, cluster_id, extension_type)?;
        Ok(ZclFrame { control, manufacturer_code, transaction_sequence_number, command })
    }

    /// Writes the frame: its header and its command's bytes, as `zcl_bytes`
    /// says; a control field wider than its bits, or a command that cannot
    /// be written, is refused.
    pub fn to_bytes(&self) -> (r: Result<Vec<u8>, Error>)
        ensures
            !self.control.fits() ==> r == Err::<Vec<u8>, Error>(Error::Format(FormatError::TooWide)),
            self.control.fits() ==> match command_bytes(self@.command) {
                Ok(cb) => r matches Ok(v) && v@ == zcl_bytes(
                    ZclFrameV {
                        control: self.control,
                        manufacturer_code: self.manufacturer_code,
                        transaction_sequence_number: self.transaction_sequence_number,
                        command: cb,
                    },
                ),
                Err(e) => r == Err::<Vec<u8>, Error>(Error::Format(e)),
            },
    {
        if !(self.control.direction < 2 && self.control.manufacturer_specific < 2 && self.control.frame_type < 4) {
            return Err(Error::Format(FormatError::TooWide));
        }
        let cb = self.command.to_bytes()?;
        let mut r: Vec<u8> = Vec::new();
        r.push(self.control.to_byte());
        if let Some(c) = self.manufacturer_code {
            r.push((c % 256) as u8);
            r.push((c / 256) as u8);
        }
        r.push(self.transaction_sequence_number);
        append_bytes(&mut r, cb.as_slice());
        proof {
            assert(r@ =~= zcl_bytes(
                ZclFrameV {
                    control: self.control,
                    manufacturer_code: self.manufacturer_code,
                    transaction_sequence_number: self.transaction_sequence_number,
                    command: cb@,
                },
            ));
        }
        Ok(r)
    }
}

/// The ZCL frames that read back as written: the control fields fit their
/// widths, a manufacturer code is there exactly when the frame says it is
/// manufacturer specific, and there is a command.
pub open spec fn zcl_roundtrips(f: ZclFrameV) -> bool {
    &&& f.control.fits()
    &&& (f.control.manufacturer_specific == 1) == (f.manufacturer_code is Some)
    &&& f.command.len() > 0
}

/// The frame control byte reads back.
proof fn lemma_zcl_control(d: u8, dir: u8, ms: u8, ft: u8)
    by (bit_vector)
    requires
        d < 2 && dir < 2 && ms < 2 && ft < 4,
    ensures
        ({
            let b = (d << 4) | ((dir & 1) << 3) | ((ms & 1) << 2) | (ft & 3);
            (b >> 4) & 1 == d && (b >> 3) & 1 == dir && (b >> 2) & 1 == ms && b & 3 == ft
        }),
{
}

/// The ZCL round trip: a frame that `ZclFrame::to_bytes` writes,
/// `ZclFrame::from_buf` reads back, for the frames of `zcl_roundtrips`.
pub proof fn lemma_zcl_roundtrip(f: ZclFrameV)
    requires
        zcl_roundtrips(f),
    ensures
        zcl_parse(zcl_bytes(f)) == Ok::<ZclFrameV, Error>(f),
{
    let c = f.control;
    let d: u8 = if c.disable_default_response {
        1
    } else {
        0
    };
    lemma_zcl_control(d, c.direction, c.manufacturer_specific, c.frame_type);
    let b = zcl_bytes(f);
    assert(b[0] == c.spec_byte());
    assert(ZclFrameControl::spec_from_byte(b[0]) == c);
    match f.manufacturer_code {
        Some(m) => {
            assert(b.subrange(4, b.len() as int) =~= f.command);
            assert(manufacturer_code_of(b[1], b[2]) == m);
        },
        None => {
            assert(b.subrange(2, b.len() as int) =~= f.command);
        },
    }
}

/// A frame of the Tuya cluster: a frame control byte, a transaction
/// sequence number and a Tuya command, with no manufacturer code.
#[derive(Debug, Clone)]
pub struct ZclTuyaFrame {
    pub control: ZclFrameControl,
    pub transaction_sequence_number: u8,
    pub command: TuyaCommand,
}

/// The model of a Tuya frame.
pub struct ZclTuyaFrameV {
    pub control: ZclFrameControl,
    pub transaction_sequence_number: u8,
    pub command: TuyaV,
}

impl View for ZclTuyaFrame {
    type V = ZclTuyaFrameV;

    open spec fn view(&self) -> ZclTuyaFrameV {
        ZclTuyaFrameV {
            control: self.control,
            transaction_sequence_number: self.transaction_sequence_number,
            command: self.command@,
        }
    }
}

/// A whole buffer read as a Tuya frame.
pub open spec fn tuya_frame_parse(b: Seq<u8>) -> Result<ZclTuyaFrameV, FormatError> {
    if b.len() < 2 {
        Err(FormatError::Incomplete)
    } else {
        match tuya_parse(b.skip(2)) {
            Ok(c) => Ok(
                ZclTuyaFrameV {
                    control: ZclFrameControl::spec_from_byte(b[0]),
                    transaction_sequence_number: b[1],
                    command: c,
                },
            ),
            Err(e) => Err(e),
        }
    }
}

/// The bytes of a Tuya frame; a control field wider than its bits is
/// refused.
pub open spec fn tuya_frame_bytes(f: ZclTuyaFrameV) -> Result<Seq<u8>, FormatError> {
    if !f.control.fits() {
        Err(FormatError::TooWide)
    } else {
        Ok(seq![f.control.spec_byte(), f.transaction_sequence_number] + tuya_bytes(f.command))
    }
}

impl ZclTuyaFrame {
    /// Reads a whole buffer, as `tuya_frame_parse` says.
    pub fn from_buf(b: &[u8]) -> (r: Result<Self, FormatError>)
        ensures
            match tuya_frame_parse(b@) {
                Ok(v) => r matches Ok(f) && f@ == v,
                Err(e) => r == Err::<Self, FormatError>(e),
            },
    {
        if b.len() < 2 {
            return Err(FormatError::Incomplete);
        }
        let rest = &b[2..b.len()];
        proof {
            assert(rest@ =~= b@.skip(2));
        }
        let command = TuyaCommand::from_buf(rest)?;
        Ok(ZclTuyaFrame { control: ZclFrameControl::from_byte(b[0]), transaction_sequence_number: b[1], command })
    }

    /// The bytes of the frame, as `tuya_frame_bytes` says.
    pub fn to_bytes(&self) -> (r: Result<Vec<u8>, FormatError>)
        ensures
            match tuya_frame_bytes(self@) {
                Ok(s) => r matches Ok(v) && v@ == s,
                Err(e) => r == Err::<Vec<u8>, FormatError>(e),
            },
    {
        if !(self.control.direction < 2 && self.control.manufacturer_specific < 2 && self.control.frame_type < 4) {
            return Err(FormatError::TooWide);
        }
        let mut v: Vec<u8> = Vec::new();
        v.push(self.control.to_byte());
        v.push(self.transaction_sequence_number);
        let c = self.command.to_bytes();
        append_bytes(&mut v, c.as_slice());
        proof {
            assert(v@ =~= seq![self.control.spec_byte(), self.transaction_sequence_number] + tuya_bytes(self.command@));
        }
        Ok(v)
    }
}

} // verus!
