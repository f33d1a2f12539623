//! ZCL commands: the on/off, level control and IAS zone cluster commands,
//! their byte layout (a command identifier byte, then the fields, least
//! significant byte first), and how a whole buffer is read as one.

use vstd::prelude::*;
use crate::websocket::pow256;

verus! {

/// Why bytes could not be read as a command, or a command not written.
#[derive(Debug, Clone, Copy, PartialEq, Eq, Structural)]
pub enum FormatError {
    /// The bytes end inside a field.
    Incomplete,
    /// Bytes are left after the command.
    TooMuchData,
    /// No variant has this identifier.
    UnknownVariant(u8),
    /// A boolean byte other than 0 or 1.
    BadBool(u8),
    /// A value does not fit the bytes its field has.
    TooWide,
    /// No frame has this identifier.
    UnknownFrameId(u16),
}

/// Two bytes, least significant first.
pub open spec fn le16(v: u16) -> Seq<u8> {
    seq![(v % 256) as u8, (v / 256) as u8]
}

/// The number two bytes at `i` hold, least significant first.
pub open spec fn rd16(b: Seq<u8>, i: int) -> u16 {
    (b[i] + 256 * b[i + 1]) as u16
}

/// Whether `n` bytes of fields follow the identifier, and no more.
pub open spec fn exact(b: Seq<u8>, n: int) -> Result<(), FormatError> {
    if b.len() < 1 + n {
        Err(FormatError::Incomplete)
    } else if b.len() > 1 + n {
        Err(FormatError::TooMuchData)
    } else {
        Ok(())
    }
}

pub fn exact_fields(b: &[u8], n: usize) -> (r: Result<(), FormatError>)
    requires
        n < 16,
    ensures
        r == exact(b@, n as int),
{
    if b.len() < 1 + n {
        Err(FormatError::Incomplete)
    } else if b.len() > 1 + n {
        Err(FormatError::TooMuchData)
    } else {
        Ok(())
    }
}

pub fn read16(b: &[u8], i: usize) -> (r: u16)
    requires
        i + 1 < b.len(),
    ensures
        r == rd16(b@, i as int),
        le16(r) == seq![b@[i as int], b@[i + 1]],
{
    proof {
        lemma_le16_rd16(b@, i as int);
    }
    b[i] as u16 + 256 * b[i + 1] as u16
}

pub fn push16(v: &mut Vec<u8>, x: u16)
    ensures
        final(v)@ == old(v)@ + le16(x),
{
    v.push((x % 256) as u8);
    v.push((x / 256) as u8);
    proof {
        assert(final(v)@ =~= old(v)@ + le16(x));
    }
}

pub(crate) proof fn lemma_le16_rd16(b: Seq<u8>, i: int)
    requires
        0 <= i,
        i + 1 < b.len(),
    ensures
        le16(rd16(b, i)) == seq![b[i], b[i + 1]],
{
    let x = rd16(b, i);
    assert(x == b[i] + 256 * b[i + 1]);
    assert((x % 256) as u8 == b[i]);
    assert((x / 256) as u8 == b[i + 1]);
    assert(le16(x) =~= seq![b[i], b[i + 1]]);
}

pub(crate) proof fn lemma_rd16_le16(x: u16, pre: Seq<u8>, post: Seq<u8>)
    ensures
        rd16(pre + le16(x) + post, pre.len() as int) == x,
{
    let b = pre + le16(x) + post;
    assert(b[pre.len() as int] == (x % 256) as u8);
    assert(b[pre.len() as int + 1] == (x / 256) as u8);
}

// ---------------------------------------------------------------- on/off

/// The commands of the on/off cluster.
#[derive(Debug, Clone, Copy, PartialEq, Eq, Structural)]
pub enum OnOffCommand {
    Off,
    On,
    Toggle,
    OffWithEffect { effect_identifier: u8, effect_variant: u8 },
    OnWithRecallGlobalScene,
    OnWithTimedOff { on_off_control: u8, on_time: u16, off_wait_time: u16 },
}

/// The bytes of an on/off command.
pub open spec fn onoff_bytes(c: OnOffCommand) -> Seq<u8> {
    match c {
        OnOffCommand::Off => seq![0x00u8],
        OnOffCommand::On => seq![0x01u8],
        OnOffCommand::Toggle => seq![0x02u8],
        OnOffCommand::OffWithEffect { effect_identifier, effect_variant } => seq![
            0x40u8,
            effect_identifier,
            effect_variant,
        ],
        OnOffCommand::OnWithRecallGlobalScene => seq![0x41u8],
        OnOffCommand::OnWithTimedOff { on_off_control, on_time, off_wait_time } => seq![
            0x42u8,
            on_off_control,
        ] + le16(on_time) + le16(off_wait_time),
    }
}

/// An on/off command read from a whole buffer.
pub open spec fn onoff_parse(b: Seq<u8>) -> Result<OnOffCommand, FormatError> {
    if b.len() < 1 {
        Err(FormatError::Incomplete)
    } else {
        let id = b[0];
        if id == 0x00 || id == 0x01 || id == 0x02 || id == 0x41 {
            match exact(b, 0) {
                Err(e) => Err(e),
                Ok(_) => Ok(
                    if id == 0x00 {
                        OnOffCommand::Off
                    } else if id == 0x01 {
                        OnOffCommand::On
                    } else if id == 0x02 {
                        OnOffCommand::Toggle
                    } else {
                        OnOffCommand::OnWithRecallGlobalScene
                    },
                ),
            }
        } else if id == 0x40 {
            match exact(b, 2) {
                Err(e) => Err(e),
                Ok(_) => Ok(OnOffCommand::OffWithEffect { effect_identifier: b[1], effect_variant: b[2] }),
            }
        } else if id == 0x42 {
            match exact(b, 5) {
                Err(e) => Err(e),
                Ok(_) => Ok(
                    OnOffCommand::OnWithTimedOff {
                        on_off_control: b[1],
                        on_time: rd16(b, 2),
                        off_wait_time: rd16(b, 4),
                    },
                ),
            }
        } else {
            Err(FormatError::UnknownVariant(id))
        }
    }
}

impl OnOffCommand {
    /// Reads a whole buffer as an on/off command, as `onoff_parse` says.
    pub fn from_buf(b: &[u8]) -> (r: Result<Self, FormatError>)
        ensures
            r == onoff_parse(b@),
    {
        if b.len() < 1 {
            return Err(FormatError::Incomplete);
        }
        let id = b[0];
        if id == 0x00 || id == 0x01 || id == 0x02 || id == 0x41 {
            exact_fields(b, 0)?;
            Ok(
                if id == 0x00 {
                    OnOffCommand::Off
                } else if id == 0x01 {
                    OnOffCommand::On
                } else if id == 0x02 {
                    OnOffCommand::Toggle
                } else {
                    OnOffCommand::OnWithRecallGlobalScene
                },
            )
        } else if id == 0x40 {
            exact_fields(b, 2)?;
            Ok(OnOffCommand::OffWithEffect { effect_identifier: b[1], effect_variant: b[2] })
        } else if id == 0x42 {
            exact_fields(b, 5)?;
            Ok(
                OnOffCommand::OnWithTimedOff {
                    on_off_control: b[1],
                    on_time: read16(b, 2),
                    off_wait_time: read16(b, 4),
                },
            )
        } else {
            Err(FormatError::UnknownVariant(id))
        }
    }

    /// The bytes of the command, as `onoff_bytes` says.
    pub fn to_bytes(&self) -> (r: Vec<u8>)
        ensures
            r@ == onoff_bytes(*self),
    {
        let mut v: Vec<u8> = Vec::new();
        match *self {
            OnOffCommand::Off => v.push(0x00),
            OnOffCommand::On => v.push(0x01),
            OnOffCommand::Toggle => v.push(0x02),
            OnOffCommand::OffWithEffect { effect_identifier, effect_variant } => {
                v.push(0x40);
                v.push(effect_identifier);
                v.push(effect_variant);
            },
            OnOffCommand::OnWithRecallGlobalScene => v.push(0x41),
            OnOffCommand::OnWithTimedOff { on_off_control, on_time, off_wait_time } => {
                v.push(0x42);
                v.push(on_off_control);
                push16(&mut v, on_time);
                push16(&mut v, off_wait_time);
            },
        }
        proof {
            assert(v@ =~= onoff_bytes(*self));
        }
        v
    }
}

/// Every on/off command is read back from its bytes.
pub proof fn lemma_onoff_roundtrip(c: OnOffCommand)
    ensures
        onoff_parse(onoff_bytes(c)) == Ok::<OnOffCommand, FormatError>(c),
{
    let b = onoff_bytes(c);
    if let OnOffCommand::OnWithTimedOff { on_off_control, on_time, off_wait_time } = c {
        lemma_rd16_le16(on_time, seq![0x42u8, on_off_control], le16(off_wait_time));
        lemma_rd16_le16(off_wait_time, seq![0x42u8, on_off_control] + le16(on_time), Seq::empty());
        assert(b =~= seq![0x42u8, on_off_control] + le16(on_time) + le16(off_wait_time) + Seq::<
            u8,
        >::empty());
    }
}

// ---------------------------------------------------------------- level

/// The commands of the level control cluster.
#[derive(Debug, Clone, PartialEq, Eq)]
pub enum LevelCommand {
    MoveToLevel { level: u8, transistion_time: u16, option_mask: u8, options_override: u8 },
    Move { move_mode: u8, rate: u8, option_mask: u8, options_override: u8 },
    Step { step_mode: u8, step_size: u8, transistion_time: u16, options: Vec<u8> },
    Stop { option_mask: u8, options_override: u8 },
    MoveToLevelWithOnOff { level: u8, transistion_time: u16, option_mask: u8, options_override: u8 },
    MoveWithOnOff { move_mode: u8, rate: u8, option_mask: u8, options_override: u8 },
    StepWithOnOff { step_mode: u8, step_size: u8, transistion_time: u16, options: Vec<u8> },
    StopWithOnOff { option_mask: u8, options_override: u8 },
    MoveToClosestFrequency { frequency: u16 },
}

/// The model of a level control command: its identifier, the bytes of its
/// fixed fields, and the trailing option bytes of the step commands.
pub struct LevelV {
    pub id: u8,
    pub fields: Seq<u8>,
    pub options: Seq<u8>,
}

impl View for LevelCommand {
    type V = LevelV;

    open spec fn view(&self) -> LevelV {
        match self {
            LevelCommand::MoveToLevel { level, transistion_time, option_mask, options_override } =>
                LevelV {
                id: 0x00,
                fields: seq![*level] + le16(*transistion_time) + seq![*option_mask, *options_override],
                options: Seq::empty(),
            },
            LevelCommand::Move { move_mode, rate, option_mask, options_override } => LevelV {
                id: 0x01,
                fields: seq![*move_mode, *rate, *option_mask, *options_override],
                options: Seq::empty(),
            },
            LevelCommand::Step { step_mode, step_size, transistion_time, options } => LevelV {
                id: 0x02,
                fields: seq![*step_mode, *step_size] + le16(*transistion_time),
                options: options@,
            },
            LevelCommand::Stop { option_mask, options_override } => LevelV {
                id: 0x03,
                fields: seq![*option_mask, *options_override],
                options: Seq::empty(),
            },
            LevelCommand::MoveToLevelWithOnOff {
                level,
                transistion_time,
                option_mask,
                options_override,
            } => LevelV {
                id: 0x04,
                fields: seq![*level] + le16(*transistion_time) + seq![*option_mask, *options_override],
                options: Seq::empty(),
            },
            LevelCommand::MoveWithOnOff { move_mode, rate, option_mask, options_override } => LevelV {
                id: 0x05,
                fields: seq![*move_mode, *rate, *option_mask, *options_override],
                options: Seq::empty(),
            },
            LevelCommand::StepWithOnOff { step_mode, step_size, transistion_time, options } => LevelV {
                id: 0x06,
                fields: seq![*step_mode, *step_size] + le16(*transistion_time),
                options: options@,
            },
            LevelCommand::StopWithOnOff { option_mask, options_override } => LevelV {
                id: 0x07,
                fields: seq![*option_mask, *options_override],
                options: Seq::empty(),
            },
            LevelCommand::MoveToClosestFrequency { frequency } => LevelV {
                id: 0x08,
                fields: le16(*frequency),
                options: Seq::empty(),
            },
        }
    }
}

/// The number of fixed field bytes of a level control command, for the
/// identifiers there are.
pub open spec fn level_width(id: u8) -> Option<nat> {
    if id == 0x00 || id == 0x04 {
        Some(5)
    } else if id == 0x01 || id == 0x05 || id == 0x02 || id == 0x06 {
        Some(4)
    } else if id == 0x03 || id == 0x07 || id == 0x08 {
        Some(2)
    } else {
        None
    }
}

/// Whether a level control command ends with option bytes (the step
/// commands read all that is left).
pub open spec fn level_has_options(id: u8) -> bool {
    id == 0x02 || id == 0x06
}

/// The bytes of a level control command.
pub open spec fn level_bytes(c: LevelV) -> Seq<u8> {
    seq![c.id] + c.fields + c.options
}

/// A level control command read from a whole buffer.
pub open spec fn level_parse(b: Seq<u8>) -> Result<LevelV, FormatError> {
    if b.len() < 1 {
        Err(FormatError::Incomplete)
    } else {
        match level_width(b[0]) {
            None => Err(FormatError::UnknownVariant(b[0])),
            Some(w) => if b.len() < 1 + w {
                Err(FormatError::Incomplete)
            } else if level_has_options(b[0]) {
                Ok(
                    LevelV {
                        id: b[0],
                        fields: b.subrange(1, 1 + w as int),
                        options: b.subrange(1 + w as int, b.len() as int),
                    },
                )
            } else if b.len() > 1 + w {
                Err(FormatError::TooMuchData)
            } else {
                Ok(LevelV { id: b[0], fields: b.subrange(1, 1 + w as int), options: Seq::empty() })
            },
        }
    }
}

impl LevelCommand {
    /// Reads a whole buffer as a level control command, as `level_parse`
    /// says.
    pub fn from_buf(b: &[u8]) -> (r: Result<Self, FormatError>)
        ensures
            match level_parse(b@) {
                Ok(v) => r matches Ok(c) && c@ == v,
                Err(e) => r == Err::<Self, FormatError>(e),
            },
    {
        if b.len() < 1 {
            return Err(FormatError::Incomplete);
        }
        let id = b[0];
        let w: usize = if id == 0x00 || id == 0x04 {
            5
        } else if id == 0x01 || id == 0x05 || id == 0x02 || id == 0x06 {
            4
        } else if id == 0x03 || id == 0x07 || id == 0x08 {
            2
        } else {
            return Err(FormatError::UnknownVariant(id));
        };
        if b.len() < 1 + w {
            return Err(FormatError::Incomplete);
        }
        if id == 0x02 || id == 0x06 {
            let options = vstd::slice::slice_to_vec(&b[5..b.len()]);
            let step_mode = b[1];
            let step_size = b[2];
            let transistion_time = read16(b, 3);
            proof {
                assert(seq![step_mode, step_size] + le16(transistion_time) =~= b@.subrange(1, 5));
            }
            return Ok(
                if id == 0x02 {
                    LevelCommand::Step { step_mode, step_size, transistion_time, options }
                } else {
                    LevelCommand::StepWithOnOff { step_mode, step_size, transistion_time, options }
                },
            );
        }
        if b.len() > 1 + w {
            return Err(FormatError::TooMuchData);
        }
        let c = if id == 0x00 || id == 0x04 {
            let level = b[1];
            let transistion_time = read16(b, 2);
            proof {
                assert(seq![level] + le16(transistion_time) + seq![b@[4], b@[5]] =~= b@.subrange(1, 6));
            }
            if id == 0x00 {
                LevelCommand::MoveToLevel { level, transistion_time, option_mask: b[4], options_override: b[5] }
            } else {
                LevelCommand::MoveToLevelWithOnOff {
                    level,
                    transistion_time,
                    option_mask: b[4],
                    options_override: b[5],
                }
            }
        } else if id == 0x01 {
            proof {
                assert(seq![b@[1], b@[2], b@[3], b@[4]] =~= b@.subrange(1, 5));
            }
            LevelCommand::Move { move_mode: b[1], rate: b[2], option_mask: b[3], options_override: b[4] }
        } else if id == 0x05 {
            proof {
                assert(seq![b@[1], b@[2], b@[3], b@[4]] =~= b@.subrange(1, 5));
            }
            LevelCommand::MoveWithOnOff {
                move_mode: b[1],
                rate: b[2],
                option_mask: b[3],
                options_override: b[4],
            }
        } else if id == 0x08 {
            let frequency = read16(b, 1);
            proof {
                assert(le16(frequency) =~= b@.subrange(1, 3));
            }
            LevelCommand::MoveToClosestFrequency { frequency }
        } else {
            proof {
                assert(seq![b@[1], b@[2]] =~= b@.subrange(1, 3));
            }
            if id == 0x03 {
                LevelCommand::Stop { option_mask: b[1], options_override: b[2] }
            } else {
                LevelCommand::StopWithOnOff { option_mask: b[1], options_override: b[2] }
            }
        };
        Ok(c)
    }

    /// The bytes of the command, as `level_bytes` says.
    pub fn to_bytes(&self) -> (r: Vec<u8>)
        ensures
            r@ == level_bytes(self@),
    {
        let mut v: Vec<u8> = Vec::new();
        match self {
            LevelCommand::MoveToLevel { level, transistion_time, option_mask, options_override } => {
                v.push(0x00);
                v.push(*level);
                push16(&mut v, *transistion_time);
                v.push(*option_mask);
                v.push(*options_override);
            },
            LevelCommand::Move { move_mode, rate, option_mask, options_override } => {
                v.push(0x01);
                v.push(*move_mode);
                v.push(*rate);
                v.push(*option_mask);
                v.push(*options_override);
            },
            LevelCommand::Step { step_mode, step_size, transistion_time, options } => {
                v.push(0x02);
                v.push(*step_mode);
                v.push(*step_size);
                push16(&mut v, *transistion_time);
                append_bytes(&mut v, options.as_slice());
            },
            LevelCommand::Stop { option_mask, options_override } => {
                v.push(0x03);
                v.push(*option_mask);
                v.push(*options_override);
            },
            LevelCommand::MoveToLevelWithOnOff {
                level,
                transistion_time,
                option_mask,
                options_override,
            } => {
                v.push(0x04);
                v.push(*level);
                push16(&mut v, *transistion_time);
                v.push(*option_mask);
                v.push(*options_override);
            },
            LevelCommand::MoveWithOnOff { move_mode, rate, option_mask, options_override } => {
                v.push(0x05);
                v.push(*move_mode);
                v.push(*rate);
                v.push(*option_mask);
                v.push(*options_override);
            },
            LevelCommand::StepWithOnOff { step_mode, step_size, transistion_time, options } => {
                v.push(0x06);
                v.push(*step_mode);
                v.push(*step_size);
                push16(&mut v, *transistion_time);
                append_bytes(&mut v, options.as_slice());
            },
            LevelCommand::StopWithOnOff { option_mask, options_override } => {
                v.push(0x07);
                v.push(*option_mask);
                v.push(*options_override);
            },
            LevelCommand::MoveToClosestFrequency { frequency } => {
                v.push(0x08);
                push16(&mut v, *frequency);
            },
        }
        proof {
            assert(v@ =~= level_bytes(self@));
        }
        v
    }
}

/// Appends bytes.
pub fn append_bytes(v: &mut Vec<u8>, s: &[u8])
    ensures
        final(v)@ == old(v)@ + s@,
{
    let mut i: usize = 0;
    while i < s.len()
        invariant
            i <= s@.len(),
            v@ == old(v)@ + s@.take(i as int),
        decreases s@.len() - i,
    {
        v.push(s[i]);
        i += 1;
        proof {
            assert(s@.take(i as int) =~= s@.take(i - 1).push(s@[i - 1]));
        }
    }
    proof {
        assert(s@.take(s@.len() as int) =~= s@);
    }
}

/// The model of a level control command that some command has.
pub open spec fn level_wf(c: LevelV) -> bool {
    &&& level_width(c.id) matches Some(w)
    &&& c.fields.len() == w
    &&& !level_has_options(c.id) ==> c.options.len() == 0
}

/// Every level control command is read back from its bytes.
pub proof fn lemma_level_roundtrip(c: LevelCommand)
    ensures
        level_parse(level_bytes(c@)) == Ok::<LevelV, FormatError>(c@),
{
    let v = c@;
    let b = level_bytes(v);
    assert(level_width(v.id) == Some(v.fields.len()));
    assert(b[0] == v.id);
    assert(!level_has_options(v.id) ==> v.options.len() == 0);
    assert(b.subrange(1, 1 + v.fields.len() as int) =~= v.fields);
    assert(b.subrange(1 + v.fields.len() as int, b.len() as int) =~= v.options);
}

// ---------------------------------------------------------------- zone

/// The commands of the IAS zone cluster.
#[derive(Debug, Clone, Copy, PartialEq, Eq, Structural)]
pub enum ZoneCommand {
    StatusChange { status: u16, extended_status: u8, zone_id: u8, delay: u16 },
    EnrollRequest { zone_type: u16, manufacturer_code: u16 },
}

/// The bytes of an IAS zone command.
pub open spec fn zone_bytes(c: ZoneCommand) -> Seq<u8> {
    match c {
        ZoneCommand::StatusChange { status, extended_status, zone_id, delay } => seq![0x00u8]
            + le16(status) + seq![extended_status, zone_id] + le16(delay),
        ZoneCommand::EnrollRequest { zone_type, manufacturer_code } => seq![0x01u8] + le16(
            zone_type,
        ) + le16(manufacturer_code),
    }
}

/// An IAS zone command read from a whole buffer.
pub open spec fn zone_parse(b: Seq<u8>) -> Result<ZoneCommand, FormatError> {
    if b.len() < 1 {
        Err(FormatError::Incomplete)
    } else if b[0] == 0x00 {
        match exact(b, 6) {
            Err(e) => Err(e),
            Ok(_) => Ok(
                ZoneCommand::StatusChange {
                    status: rd16(b, 1),
                    extended_status: b[3],
                    zone_id: b[4],
                    delay: rd16(b, 5),
                },
            ),
        }
    } else if b[0] == 0x01 {
        match exact(b, 4) {
            Err(e) => Err(e),
            Ok(_) => Ok(ZoneCommand::EnrollRequest { zone_type: rd16(b, 1), manufacturer_code: rd16(b, 3) }),
        }
    } else {
        Err(FormatError::UnknownVariant(b[0]))
    }
}

impl ZoneCommand {
    /// Reads a whole buffer as an IAS zone command, as `zone_parse` says.
    pub fn from_buf(b: &[u8]) -> (r: Result<Self, FormatError>)
        ensures
            r == zone_parse(b@),
    {
        if b.len() < 1 {
            Err(FormatError::Incomplete)
        } else if b[0] == 0x00 {
            exact_fields(b, 6)?;
            Ok(
                ZoneCommand::StatusChange {
                    status: read16(b, 1),
                    extended_status: b[3],
                    zone_id: b[4],
                    delay: read16(b, 5),
                },
            )
        } else if b[0] == 0x01 {
            exact_fields(b, 4)?;
            Ok(ZoneCommand::EnrollRequest { zone_type: read16(b, 1), manufacturer_code: read16(b, 3) })
        } else {
            Err(FormatError::UnknownVariant(b[0]))
        }
    }

    /// The bytes of the command, as `zone_bytes` says.
    pub fn to_bytes(&self) -> (r: Vec<u8>)
        ensures
            r@ == zone_bytes(*self),
    {
        let mut v: Vec<u8> = Vec::new();
        match *self {
            ZoneCommand::StatusChange { status, extended_status, zone_id, delay } => {
                v.push(0x00);
                push16(&mut v, status);
                v.push(extended_status);
                v.push(zone_id);
                push16(&mut v, delay);
            },
            ZoneCommand::EnrollRequest { zone_type, manufacturer_code } => {
                v.push(0x01);
                push16(&mut v, zone_type);
                push16(&mut v, manufacturer_code);
            },
        }
        proof {
            assert(v@ =~= zone_bytes(*self));
        }
        v
    }
}

/// Every IAS zone command is read back from its bytes.
pub proof fn lemma_zone_roundtrip(c: ZoneCommand)
    ensures
        zone_parse(zone_bytes(c)) == Ok::<ZoneCommand, FormatError>(c),
{
    match c {
        ZoneCommand::StatusChange { status, extended_status, zone_id, delay } => {
            let pre = seq![0x00u8];
            lemma_rd16_le16(status, pre, seq![extended_status, zone_id] + le16(delay));
            lemma_rd16_le16(delay, pre + le16(status) + seq![extended_status, zone_id], Seq::empty());
            assert(zone_bytes(c) =~= pre + le16(status) + (seq![extended_status, zone_id] + le16(delay)));
            assert(zone_bytes(c) =~= pre + le16(status) + seq![extended_status, zone_id] + le16(delay)
                + Seq::<u8>::empty());
        },
        ZoneCommand::EnrollRequest { zone_type, manufacturer_code } => {
            let pre = seq![0x01u8];
            lemma_rd16_le16(zone_type, pre, le16(manufacturer_code));
            lemma_rd16_le16(manufacturer_code, pre + le16(zone_type), Seq::empty());
            assert(zone_bytes(c) =~= pre + le16(zone_type) + le16(manufacturer_code) + Seq::<
                u8,
            >::empty());
        },
    }
}

// ---------------------------------------------------------------- numbers

/// The number some bytes hold, least significant first.
pub open spec fn le_value(s: Seq<u8>) -> nat
    decreases s.len(),
{
    if s.len() == 0 {
        0
    } else {
        s[0] as nat + 256 * le_value(s.drop_first())
    }
}

/// The lowest `w` bytes of a number, least significant first.
pub open spec fn le_bytes(v: nat, w: nat) -> Seq<u8>
    decreases w,
{
    if w == 0 {
        Seq::empty()
    } else {
        seq![(v % 256) as u8] + le_bytes(v / 256, (w - 1) as nat)
    }
}

/// A number of `w` bytes read as two's complement.
pub open spec fn sign_extend(v: nat, w: nat) -> int {
    if w > 0 && v >= pow256(w) / 2 {
        v - pow256(w)
    } else {
        v as int
    }
}

proof fn lemma_pow256_pos(w: nat)
    ensures
        pow256(w) >= 1,
        w > 0 ==> pow256(w) == 256 * pow256((w - 1) as nat),
        w > 0 ==> pow256(w) % 2 == 0,
    decreases w,
{
    if w > 0 {
        lemma_pow256_pos((w - 1) as nat);
    }
}

pub(crate) proof fn lemma_le_value_bound(s: Seq<u8>)
    ensures
        le_value(s) < pow256(s.len()),
    decreases s.len(),
{
    if s.len() > 0 {
        lemma_le_value_bound(s.drop_first());
        lemma_pow256_pos(s.len());
        let p = pow256((s.len() - 1) as nat);
        let r = le_value(s.drop_first());
        assert(s[0] as nat + 256 * r < 256 * p) by (nonlinear_arith)
            requires
                r < p,
                s[0] < 256,
        ;
    }
}

/// Writing the lowest bytes of a number and reading them back gives the
/// number modulo their range.
pub(crate) proof fn lemma_le_value_bytes(v: nat, w: nat)
    ensures
        le_bytes(v, w).len() == w,
        le_value(le_bytes(v, w)) == v % pow256(w),
    decreases w,
{
    if w > 0 {
        lemma_le_value_bytes(v / 256, (w - 1) as nat);
        lemma_pow256_pos(w);
        let b = le_bytes(v, w);
        assert(b.drop_first() =~= le_bytes(v / 256, (w - 1) as nat));
        let p = pow256((w - 1) as nat);
        vstd::arithmetic::div_mod::lemma_mod_breakdown(v as int, 256, p as int);
    }
}

/// Reading bytes as a number and writing its bytes gives them back.
pub(crate) proof fn lemma_le_bytes_value(s: Seq<u8>)
    ensures
        le_bytes(le_value(s), s.len()) == s,
    decreases s.len(),
{
    if s.len() > 0 {
        lemma_le_bytes_value(s.drop_first());
        let v = le_value(s);
        assert(v % 256 == s[0] as nat && v / 256 == le_value(s.drop_first())) by (nonlinear_arith)
            requires
                v == s[0] as nat + 256 * le_value(s.drop_first()),
                s[0] < 256,
        ;
        assert(le_bytes(v, s.len()) =~= s);
    }
}

/// One byte more of a number's bytes.
proof fn lemma_le_bytes_push(v: nat, k: nat)
    ensures
        le_bytes(v, k + 1) == le_bytes(v, k).push(((v / pow256(k)) % 256) as u8),
    decreases k,
{
    if k > 0 {
        lemma_le_bytes_push(v / 256, (k - 1) as nat);
        lemma_div_pow256(v, k);
        let a = le_bytes(v / 256, (k - 1) as nat);
        let x = ((v / pow256(k)) % 256) as u8;
        assert(le_bytes(v / 256, k) == a.push(x));
        assert(le_bytes(v, k + 1) == seq![(v % 256) as u8] + le_bytes(v / 256, k));
        assert(le_bytes(v, k) == seq![(v % 256) as u8] + a);
        assert(le_bytes(v, k + 1) =~= le_bytes(v, k).push(x));
    } else {
        assert(le_bytes(v / 256, 0) =~= Seq::<u8>::empty());
        assert(le_bytes(v, 0) =~= Seq::<u8>::empty());
        assert(pow256(0) == 1);
        assert(v / pow256(0) == v) by {
            assert(pow256(0) == 1);
            assert(v / 1 == v) by (nonlinear_arith);
        }
        assert(le_bytes(v, 1) =~= seq![(v % 256) as u8]);
        assert(le_bytes(v, 1) =~= le_bytes(v, 0).push(((v / pow256(0)) % 256) as u8));
    }
}

proof fn lemma_div_pow256(v: nat, k: nat)
    requires
        k > 0,
    ensures
        (v / 256) / pow256((k - 1) as nat) == v / pow256(k),
{
    lemma_pow256_pos(k);
    lemma_pow256_pos((k - 1) as nat);
    vstd::arithmetic::div_mod::lemma_div_denominator(v as int, 256, pow256((k - 1) as nat) as int);
}

/// 256 to the power 8 is 2 to the 64.
pub(crate) proof fn lemma_pow256_8(w: nat)
    requires
        w <= 8,
    ensures
        pow256(w) <= 0x1_0000_0000_0000_0000,
        pow256(8) == 0x1_0000_0000_0000_0000,
{
    reveal_with_fuel(pow256, 9);
    lemma_pow256_mono(w, 8);
}

/// Reads `w` bytes at `p` as a number, least significant first.
pub fn read_le(b: &[u8], p: usize, w: usize) -> (r: u64)
    requires
        p + w <= b.len(),
        w <= 8,
    ensures
        r as nat == le_value(b@.subrange(p as int, (p + w) as int)),
{
    let mut v: u64 = 0;
    let mut k: usize = w;
    proof {
        assert(b@.subrange((p + w) as int, (p + w) as int) =~= Seq::<u8>::empty());
    }
    while k > 0
        invariant
            k <= w <= 8,
            p + w <= b.len(),
            v as nat == le_value(b@.subrange((p + k) as int, (p + w) as int)),
        decreases k,
    {
        let ghost s = b@.subrange((p + k) as int, (p + w) as int);
        proof {
            lemma_le_value_bound(s);
            reveal_with_fuel(pow256, 8);
            assert(pow256(s.len()) <= pow256(7)) by {
                lemma_pow256_mono(s.len(), 7);
            }
        }
        k -= 1;
        v = b[p + k] as u64 + 256 * v;
        proof {
            assert(b@.subrange((p + k) as int, (p + w) as int).drop_first() =~= s);
        }
    }
    v
}

proof fn lemma_pow256_mono(a: nat, b: nat)
    requires
        a <= b,
    ensures
        pow256(a) <= pow256(b),
    decreases b,
{
    if a < b {
        lemma_pow256_mono(a, (b - 1) as nat);
        lemma_pow256_pos(b);
    }
}

/// Appends the lowest `w` bytes of a number, least significant first.
pub fn push_le(v: &mut Vec<u8>, x: u64, w: usize)
    ensures
        final(v)@ == old(v)@ + le_bytes(x as nat, w as nat),
{
    let mut k: usize = 0;
    let mut y: u64 = x;
    proof {
        assert(pow256(0) == 1);
        assert(le_bytes(x as nat, 0) =~= Seq::<u8>::empty());
        assert(old(v)@ + Seq::<u8>::empty() =~= old(v)@);
    }
    while k < w
        invariant
            k <= w,
            v@ == old(v)@ + le_bytes(x as nat, k as nat),
            y as nat == x as nat / pow256(k as nat),
        decreases w - k,
    {
        proof {
            lemma_le_bytes_push(x as nat, k as nat);
            lemma_pow256_pos((k + 1) as nat);
            assert(y as nat / 256 == x as nat / pow256((k + 1) as nat)) by (nonlinear_arith)
                requires
                    y as nat == x as nat / pow256(k as nat),
                    pow256((k + 1) as nat) == 256 * pow256(k as nat),
                    pow256(k as nat) >= 1,
            {
                vstd::arithmetic::div_mod::lemma_div_denominator(x as int, pow256(k as nat) as int, 256);
            }
        }
        v.push((y % 256) as u8);
        y = y / 256;
        k += 1;
    }
}

// ---------------------------------------------------------------- attribute values

/// The shapes of attribute data: an unsigned or a signed number of some
/// bytes, a boolean byte, bytes counted by a one- or two-byte count, a
/// fixed number of bytes, or nothing.
#[derive(Debug, Clone, Copy, PartialEq, Eq, Structural)]
pub enum AttrKind {
    Unsigned(u8),
    Signed(u8),
    Boolean,
    Count8,
    Count16,
    Fixed(u8),
    NoData,
}

/// The data of an attribute value: a number, a boolean, a count and the
/// bytes after it, some bytes, or nothing.
pub enum AttrData {
    Num(int),
    Flag(bool),
    Counted(nat, Seq<u8>),
    Bytes(Seq<u8>),
    Nothing,
}

/// The model of an attribute value: its data type identifier and its data.
pub struct AttrV {
    pub id: u8,
    pub data: AttrData,
}

/// The data of a shape read at position `p`, and the position after it.
pub open spec fn data_at(k: AttrKind, b: Seq<u8>, p: int) -> Result<(AttrData, int), FormatError> {
    match k {
        AttrKind::Unsigned(w) => if p + w > b.len() {
            Err(FormatError::Incomplete)
        } else {
            Ok((AttrData::Num(le_value(b.subrange(p, p + w)) as int), p + w))
        },
        AttrKind::Signed(w) => if p + w > b.len() {
            Err(FormatError::Incomplete)
        } else {
            Ok((AttrData::Num(sign_extend(le_value(b.subrange(p, p + w)), w as nat)), p + w))
        },
        AttrKind::Boolean => if p >= b.len() {
            Err(FormatError::Incomplete)
        } else if b[p] > 1 {
            Err(FormatError::BadBool(b[p]))
        } else {
            Ok((AttrData::Flag(b[p] == 1), p + 1))
        },
        AttrKind::Count8 => if p >= b.len() {
            Err(FormatError::Incomplete)
        } else if p + 1 + b[p] > b.len() {
            Err(FormatError::Incomplete)
        } else {
            Ok((AttrData::Counted(b[p] as nat, b.subrange(p + 1, p + 1 + b[p])), p + 1 + b[p]))
        },
        AttrKind::Count16 => if p + 2 > b.len() {
            Err(FormatError::Incomplete)
        } else if p + 2 + rd16(b, p) > b.len() {
            Err(FormatError::Incomplete)
        } else {
            Ok(
                (
                    AttrData::Counted(rd16(b, p) as nat, b.subrange(p + 2, p + 2 + rd16(b, p))),
                    p + 2 + rd16(b, p),
                ),
            )
        },
        AttrKind::Fixed(n) => if p + n > b.len() {
            Err(FormatError::Incomplete)
        } else {
            Ok((AttrData::Bytes(b.subrange(p, p + n)), p + n))
        },
        AttrKind::NoData => Ok((AttrData::Nothing, p)),
    }
}

/// An attribute value read at position `p` (its data type identifier,
/// then its data), and the position after it.
pub open spec fn attr_at(b: Seq<u8>, p: int) -> Result<(AttrV, int), FormatError> {
    if p < 0 || p >= b.len() {
        Err(FormatError::Incomplete)
    } else {
        match kind_of(b[p]) {
            None => Err(FormatError::UnknownVariant(b[p])),
            Some(k) => match data_at(k, b, p + 1) {
                Err(e) => Err(e),
                Ok((d, q)) => Ok((AttrV { id: b[p], data: d }, q)),
            },
        }
    }
}

/// The bytes of a number of `w` bytes held in a field of `full` bytes: a
/// value that does not fit `w` bytes (for a signed value, one that is
/// negative) is refused where `w` is less than `full`; else the lowest `w`
/// bytes of its two's complement.
pub open spec fn num_bytes(x: int, w: nat, full: nat) -> Result<Seq<u8>, FormatError> {
    if full > w && !(0 <= x < pow256(w)) {
        Err(FormatError::TooWide)
    } else {
        Ok(
            le_bytes(
                if x < 0 {
                    (x + pow256(w)) as nat
                } else {
                    x as nat
                },
                w,
            ),
        )
    }
}

/// The bytes of attribute data of a shape.
pub open spec fn data_bytes(k: AttrKind, d: AttrData, full: nat) -> Result<Seq<u8>, FormatError> {
    match d {
        AttrData::Num(x) => match k {
            AttrKind::Unsigned(w) => num_bytes(x, w as nat, full),
            AttrKind::Signed(w) => num_bytes(x, w as nat, full),
            _ => Ok(Seq::empty()),
        },
        AttrData::Flag(f) => Ok(
            seq![
                if f {
                    1u8
                } else {
                    0u8
                },
            ],
        ),
        AttrData::Counted(n, s) => if k == AttrKind::Count8 {
            Ok(seq![n as u8] + s)
        } else {
            Ok(le16(n as u16) + s)
        },
        AttrData::Bytes(s) => Ok(s),
        AttrData::Nothing => Ok(Seq::empty()),
    }
}

/// The bytes of an attribute value: its data type identifier, then its
/// data.
pub open spec fn attr_bytes(v: AttrV) -> Result<Seq<u8>, FormatError> {
    match kind_of(v.id) {
        None => Err(FormatError::UnknownVariant(v.id)),
        Some(k) => match data_bytes(k, v.data, field_width(v.id)) {
            Ok(s) => Ok(seq![v.id] + s),
            Err(e) => Err(e),
        },
    }
}

/// 256 to the power `w`.
pub fn pow256_of(w: usize) -> (r: u128)
    requires
        w <= 8,
    ensures
        r == pow256(w as nat),
{
    let mut r: u128 = 1;
    let mut i: usize = 0;
    proof {
        reveal_with_fuel(pow256, 9);
    }
    while i < w
        invariant
            i <= w <= 8,
            r == pow256(i as nat),
        decreases w - i,
    {
        proof {
            reveal_with_fuel(pow256, 9);
            lemma_pow256_mono(i as nat, 7);
        }
        r = r * 256;
        i += 1;
    }
    r
}

/// Copies bytes at `p` into an array.
pub(crate) fn copy_into<const N: usize>(a: &mut [u8; N], b: &[u8], p: usize)
    requires
        p + N <= b.len(),
    ensures
        final(a)@ == b@.subrange(p as int, p + N),
{
    let mut i: usize = 0;
    while i < N
        invariant
            i <= N,
            p + N <= b.len(),
            final(a)@.len() == N,
            a@.len() == N,
            forall|j: int| 0 <= j < i ==> a@[j] == b@[p + j],
        decreases N - i,
    {
        a[i] = b[p + i];
        i += 1;
    }
    proof {
        assert(a@ =~= b@.subrange(p as int, p + N));
    }
}

fn write_nothing(out: &mut Vec<u8>, id: u8) -> (r: Result<(), FormatError>)
    requires
        kind_of(id) == Some(AttrKind::NoData),
    ensures
        match attr_bytes(AttrV { id, data: AttrData::Nothing }) {
            Ok(s) => r is Ok && final(out)@ == old(out)@ + s,
            Err(e) => r == Err::<(), FormatError>(e) && final(out)@ == old(out)@,
        },
{
    out.push(id);
    proof {
        assert(final(out)@ =~= old(out)@ + seq![id]);
    }
    Ok(())
}

fn write_unsigned(out: &mut Vec<u8>, id: u8, x: u64, w: usize, full: usize) -> (r: Result<(), FormatError>)
    requires
        kind_of(id) == Some(AttrKind::Unsigned(w as u8)),
        field_width(id) == full,
        w <= full <= 8,
    ensures
        match attr_bytes(AttrV { id, data: AttrData::Num(x as int) }) {
            Ok(s) => r is Ok && final(out)@ == old(out)@ + s,
            Err(e) => r == Err::<(), FormatError>(e) && final(out)@ == old(out)@,
        },
{
    if full > w && x as u128 >= pow256_of(w) {
        return Err(FormatError::TooWide);
    }
    proof {
        if full == w {
            reveal_with_fuel(pow256, 9);
        }
    }
    out.push(id);
    push_le(out, x, w);
    proof {
        assert(final(out)@ =~= old(out)@ + (seq![id] + le_bytes(x as nat, w as nat)));
    }
    Ok(())
}

fn write_signed(out: &mut Vec<u8>, id: u8, x: i64, w: usize, full: usize) -> (r: Result<(), FormatError>)
    requires
        kind_of(id) == Some(AttrKind::Signed(w as u8)),
        field_width(id) == full,
        w <= full <= 8,
        1 <= w,
        -(pow256(full as nat) / 2) <= x < pow256(full as nat) / 2,
    ensures
        match attr_bytes(AttrV { id, data: AttrData::Num(x as int) }) {
            Ok(s) => r is Ok && final(out)@ == old(out)@ + s,
            Err(e) => r == Err::<(), FormatError>(e) && final(out)@ == old(out)@,
        },
{
    let p = pow256_of(w);
    proof {
        lemma_pow256_8(w as nat);
        lemma_pow256_8(full as nat);
        lemma_pow256_mono(w as nat, full as nat);
        lemma_pow256_pos(w as nat);
    }
    if full > w && (x < 0 || x as u128 >= p) {
        return Err(FormatError::TooWide);
    }
    proof {
        if x < 0 {
            assert(full == w);
        }
    }
    let u: u64 = if x < 0 {
        (x as i128 + p as i128) as u64
    } else {
        x as u64
    };
    out.push(id);
    push_le(out, u, w);
    proof {
        assert(final(out)@ =~= old(out)@ + (seq![id] + le_bytes(u as nat, w as nat)));
    }
    Ok(())
}

fn write_bool(out: &mut Vec<u8>, id: u8, f: bool) -> (r: Result<(), FormatError>)
    requires
        kind_of(id) == Some(AttrKind::Boolean),
    ensures
        match attr_bytes(AttrV { id, data: AttrData::Flag(f) }) {
            Ok(s) => r is Ok && final(out)@ == old(out)@ + s,
            Err(e) => r == Err::<(), FormatError>(e) && final(out)@ == old(out)@,
        },
{
    out.push(id);
    out.push(
        if f {
            1
        } else {
            0
        },
    );
    proof {
        assert(final(out)@ =~= old(out)@ + (seq![id] + seq![
            if f {
                1u8
            } else {
                0u8
            },
        ]));
    }
    Ok(())
}

fn write_counted(out: &mut Vec<u8>, id: u8, count: u16, val: &[u8]) -> (r: Result<(), FormatError>)
    requires
        kind_of(id) == Some(AttrKind::Count8) || kind_of(id) == Some(AttrKind::Count16),
        kind_of(id) == Some(AttrKind::Count8) ==> count < 256,
    ensures
        match attr_bytes(AttrV { id, data: AttrData::Counted(count as nat, val@) }) {
            Ok(s) => r is Ok && final(out)@ == old(out)@ + s,
            Err(e) => r == Err::<(), FormatError>(e) && final(out)@ == old(out)@,
        },
{
    out.push(id);
    let ghost mid = out@;
    if id == 0x41 || id == 0x42 {
        out.push(count as u8);
        proof {
            assert(out@ == mid + seq![count as u8]);
        }
    } else {
        push16(out, count);
    }
    let ghost mid2 = out@;
    append_bytes(out, val);
    proof {
        if id == 0x41 || id == 0x42 {
            assert(final(out)@ =~= old(out)@ + (seq![id] + (seq![(count as nat) as u8] + val@)));
        } else {
            assert(final(out)@ =~= old(out)@ + (seq![id] + (le16((count as nat) as u16) + val@)));
        }
    }
    Ok(())
}

fn write_fixed(out: &mut Vec<u8>, id: u8, val: &[u8]) -> (r: Result<(), FormatError>)
    requires
        kind_of(id) matches Some(AttrKind::Fixed(n)) && val@.len() == n,
    ensures
        match attr_bytes(AttrV { id, data: AttrData::Bytes(val@) }) {
            Ok(s) => r is Ok && final(out)@ == old(out)@ + s,
            Err(e) => r == Err::<(), FormatError>(e) && final(out)@ == old(out)@,
        },
{
    out.push(id);
    append_bytes(out, val);
    proof {
        assert(final(out)@ =~= old(out)@ + (seq![id] + val@));
    }
    Ok(())
}

impl AttributeValue {
    /// Reads an attribute value at `*pos`, as `attr_at` says, and moves
    /// past it; on an error the position stays.
    pub fn read(b: &[u8], pos: &mut usize) -> (r: Result<Self, FormatError>)
        requires
            *old(pos) <= b.len(),
        ensures
            match attr_at(b@, *old(pos) as int) {
                Ok((v, q)) => r matches Ok(x) && x@ == v && *final(pos) as int == q,
                Err(e) => r == Err::<Self, FormatError>(e) && *final(pos) == *old(pos),
            },
    {
        let p = *pos;
        if p >= b.len() {
            return Err(FormatError::Incomplete);
        }
        let id = b[p];
        *pos = p + 1;
        match Self::read_typed(b, pos, id) {
            Ok(v) => Ok(v),
            Err(e) => {
                *pos = p;
                Err(e)
            },
        }
    }

    /// Reads the data of a value of data type `id` at `*pos`, as `data_at`
    /// says, and moves past it; on an error the position stays.
    pub fn read_typed(b: &[u8], pos: &mut usize, id: u8) -> (r: Result<Self, FormatError>)
        requires
            *old(pos) <= b.len(),
        ensures
            match kind_of(id) {
                None => r == Err::<Self, FormatError>(FormatError::UnknownVariant(id)) && *final(pos)
                    == *old(pos),
                Some(k) => match data_at(k, b@, *old(pos) as int) {
                    Ok((d, q)) => r matches Ok(x) && x@ == (AttrV { id, data: d }) && *final(pos)
                        as int == q,
                    Err(e) => r == Err::<Self, FormatError>(e) && *final(pos) == *old(pos),
                },
            },
    {
        let k = match attr_kind(id) {
            None => {
                return Err(FormatError::UnknownVariant(id));
            },
            Some(k) => k,
        };
        let q = *pos;
        let n = b.len();
        match k {
            AttrKind::Unsigned(w) => {
                let w = w as usize;
                if n - q < w {
                    return Err(FormatError::Incomplete);
                }
                let x = read_le(b, q, w);
                proof {
                    lemma_le_value_bound(b@.subrange(q as int, (q + w) as int));
                }
                *pos = q + w;
                Ok(Self::unsigned(id, x))
            },
            AttrKind::Signed(w) => {
                let w = w as usize;
                if n - q < w {
                    return Err(FormatError::Incomplete);
                }
                let raw = read_le(b, q, w);
                let pw = pow256_of(w);
                proof {
                    lemma_le_value_bound(b@.subrange(q as int, (q + w) as int));
                    lemma_pow256_pos(w as nat);
                    reveal_with_fuel(pow256, 9);
                }
                let v: i128 = if raw as u128 * 2 >= pw {
                    raw as i128 - pw as i128
                } else {
                    raw as i128
                };
                *pos = q + w;
                Ok(Self::signed(id, v as i64, Ghost(w as nat)))
            },
            AttrKind::Boolean => {
                if q >= n {
                    return Err(FormatError::Incomplete);
                }
                let x = b[q];
                if x > 1 {
                    return Err(FormatError::BadBool(x));
                }
                *pos = q + 1;
                Ok(AttributeValue::Bool { val: x == 1 })
            },
            AttrKind::Count8 => {
                if q >= n {
                    return Err(FormatError::Incomplete);
                }
                let c = b[q] as usize;
                if n - (q + 1) < c {
                    return Err(FormatError::Incomplete);
                }
                let val = vstd::slice::slice_to_vec(&b[q + 1..q + 1 + c]);
                *pos = q + 1 + c;
                Ok(Self::counted(id, c as u16, val))
            },
            AttrKind::Count16 => {
                if n - q < 2 {
                    return Err(FormatError::Incomplete);
                }
                let c = read16(b, q) as usize;
                if n - (q + 2) < c {
                    return Err(FormatError::Incomplete);
                }
                let val = vstd::slice::slice_to_vec(&b[q + 2..q + 2 + c]);
                *pos = q + 2 + c;
                Ok(Self::counted(id, c as u16, val))
            },
            AttrKind::Fixed(m) => {
                let m = m as usize;
                if n - q < m {
                    return Err(FormatError::Incomplete);
                }
                *pos = q + m;
                Ok(Self::fixed(id, b, q))
            },
            AttrKind::NoData => {
                *pos = q;
                Ok(Self::no_data(id))
            },
        }
    }
}

impl AttributeValue {
    /// Reads a whole buffer as one attribute value.
    pub fn from_buf(b: &[u8]) -> (r: Result<Self, FormatError>)
        ensures
            match attr_at(b@, 0) {
                Ok((v, q)) => if q == b@.len() {
                    r matches Ok(x) && x@ == v
                } else {
                    r == Err::<Self, FormatError>(FormatError::TooMuchData)
                },
                Err(e) => r == Err::<Self, FormatError>(e),
            },
    {
        let mut pos: usize = 0;
        let v = Self::read(b, &mut pos)?;
        if pos != b.len() {
            return Err(FormatError::TooMuchData);
        }
        Ok(v)
    }

    /// The bytes of the value, as `attr_bytes` says.
    pub fn to_bytes(&self) -> (r: Result<Vec<u8>, FormatError>)
        ensures
            match attr_bytes(self@) {
                Ok(s) => r matches Ok(v) && v@ == s,
                Err(e) => r == Err::<Vec<u8>, FormatError>(e),
            },
    {
        let mut v: Vec<u8> = Vec::new();
        match self.write(&mut v) {
            Ok(()) => {
                proof {
                    assert(v@ =~= Seq::<u8>::empty() + v@);
                }
                Ok(v)
            },
            Err(e) => Err(e),
        }
    }
}

/// A ZCL attribute value: its data type (the variant) and its data. The
/// floating point types hold the bits of their value.
#[derive(Debug, Clone, PartialEq, Eq)]
pub enum AttributeValue {
    Unk,
    Nodata,
    Data8 { val: u8 },
    Data16 { val: u16 },
    Data24 { val: u32 },
    Data32 { val: u32 },
    Data40 { val: u64 },
    Data48 { val: u64 },
    Data56 { val: u64 },
    Data64 { val: u64 },
    Bool { val: bool },
    Map8 { val: u8 },
    Map16 { val: u16 },
    Map24 { val: u32 },
    Map32 { val: u32 },
    Map40 { val: u64 },
    Map48 { val: u64 },
    Map56 { val: u64 },
    Map64 { val: u64 },
    Uint8 { val: u8 },
    Uint16 { val: u16 },
    Uint24 { val: u32 },
    Uint32 { val: u32 },
    Uint40 { val: u64 },
    Uint48 { val: u64 },
    Uint56 { val: u64 },
    Uint64 { val: u64 },
    Int8 { val: i8 },
    Int16 { val: i16 },
    Int24 { val: i32 },
    Int32 { val: i32 },
    Int40 { val: i64 },
    Int48 { val: i64 },
    Int56 { val: i64 },
    Int64 { val: i64 },
    Enum8 { val: u8 },
    Enum16 { val: u16 },
    Semi { val: u16 },
    Single { val: u32 },
    Double { val: u64 },
    Octstr { count: u8, val: Vec<u8> },
    String { count: u8, val: Vec<u8> },
    Octstr16 { count: u16, val: Vec<u8> },
    String16 { count: u16, val: Vec<u8> },
    ToD { h: u8, m: u8, s: u8, cs: u8 },
    Date { y: u8, m: u8, d: u8, dow: u8 },
    UTC { val: u32 },
    ClusterId { val: u16 },
    AttribId { val: u16 },
    BacOID { val: u32 },
    Eui64 { val: [u8; 8] },
    Key128 { val: [u8; 16] },
}

/// The shape of the data of a data type, by its identifier.
pub open spec fn kind_of(id: u8) -> Option<AttrKind> {
    if id == 0xff {
        Some(AttrKind::NoData)
    } else if id == 0x00 {
        Some(AttrKind::NoData)
    } else if id == 0x08 {
        Some(AttrKind::Unsigned(1))
    } else if id == 0x09 {
        Some(AttrKind::Unsigned(2))
    } else if id == 0x0a {
        Some(AttrKind::Unsigned(3))
    } else if id == 0x0b {
        Some(AttrKind::Unsigned(4))
    } else if id == 0x0c {
        Some(AttrKind::Unsigned(5))
    } else if id == 0x0d {
        Some(AttrKind::Unsigned(6))
    } else if id == 0x0e {
        Some(AttrKind::Unsigned(7))
    } else if id == 0x0f {
        Some(AttrKind::Unsigned(8))
    } else if id == 0x10 {
        Some(AttrKind::Boolean)
    } else if id == 0x18 {
        Some(AttrKind::Unsigned(1))
    } else if id == 0x19 {
        Some(AttrKind::Unsigned(2))
    } else if id == 0x1a {
        Some(AttrKind::Unsigned(3))
    } else if id == 0x1b {
        Some(AttrKind::Unsigned(4))
    } else if id == 0x1c {
        Some(AttrKind::Unsigned(5))
    } else if id == 0x1d {
        Some(AttrKind::Unsigned(6))
    } else if id == 0x1e {
        Some(AttrKind::Unsigned(7))
    } else if id == 0x1f {
        Some(AttrKind::Unsigned(8))
    } else if id == 0x20 {
        Some(AttrKind::Unsigned(1))
    } else if id == 0x21 {
        Some(AttrKind::Unsigned(2))
    } else if id == 0x22 {
        Some(AttrKind::Unsigned(3))
    } else if id == 0x23 {
        Some(AttrKind::Unsigned(4))
    } else if id == 0x24 {
        Some(AttrKind::Unsigned(5))
    } else if id == 0x25 {
        Some(AttrKind::Unsigned(6))
    } else if id == 0x26 {
        Some(AttrKind::Unsigned(7))
    } else if id == 0x27 {
        Some(AttrKind::Unsigned(8))
    } else if id == 0x28 {
        Some(AttrKind::Signed(1))
    } else if id == 0x29 {
        Some(AttrKind::Signed(2))
    } else if id == 0x2a {
        Some(AttrKind::Signed(3))
    } else if id == 0x2b {
        Some(AttrKind::Signed(4))
    } else if id == 0x2c {
        Some(AttrKind::Signed(5))
    } else if id == 0x2d {
        Some(AttrKind::Signed(6))
    } else if id == 0x2e {
        Some(AttrKind::Signed(7))
    } else if id == 0x2f {
        Some(AttrKind::Signed(8))
    } else if id == 0x30 {
        Some(AttrKind::Unsigned(1))
    } else if id == 0x31 {
        Some(AttrKind::Unsigned(2))
    } else if id == 0x38 {
        Some(AttrKind::Unsigned(2))
    } else if id == 0x39 {
        Some(AttrKind::Unsigned(4))
    } else if id == 0x3a {
        Some(AttrKind::Unsigned(8))
    } else if id == 0x41 {
        Some(AttrKind::Count8)
    } else if id == 0x42 {
        Some(AttrKind::Count8)
    } else if id == 0x43 {
        Some(AttrKind::Count16)
    } else if id == 0x44 {
        Some(AttrKind::Count16)
    } else if id == 0xe0 {
        Some(AttrKind::Fixed(4))
    } else if id == 0xe1 {
        Some(AttrKind::Fixed(4))
    } else if id == 0xe2 {
        Some(AttrKind::Unsigned(4))
    } else if id == 0xe8 {
        Some(AttrKind::Unsigned(2))
    } else if id == 0xe9 {
        Some(AttrKind::Unsigned(2))
    } else if id == 0xea {
        Some(AttrKind::Unsigned(4))
    } else if id == 0xf0 {
        Some(AttrKind::Fixed(8))
    } else if id == 0xf1 {
        Some(AttrKind::Fixed(16))
    } else {
        None
    }
}

/// The number of bytes of the type that holds a number's value.
pub open spec fn field_width(id: u8) -> nat {
    if id == 0x08 {
        1
    } else if id == 0x09 {
        2
    } else if id == 0x0a {
        4
    } else if id == 0x0b {
        4
    } else if id == 0x0c {
        8
    } else if id == 0x0d {
        8
    } else if id == 0x0e {
        8
    } else if id == 0x0f {
        8
    } else if id == 0x18 {
        1
    } else if id == 0x19 {
        2
    } else if id == 0x1a {
        4
    } else if id == 0x1b {
        4
    } else if id == 0x1c {
        8
    } else if id == 0x1d {
        8
    } else if id == 0x1e {
        8
    } else if id == 0x1f {
        8
    } else if id == 0x20 {
        1
    } else if id == 0x21 {
        2
    } else if id == 0x22 {
        4
    } else if id == 0x23 {
        4
    } else if id == 0x24 {
        8
    } else if id == 0x25 {
        8
    } else if id == 0x26 {
        8
    } else if id == 0x27 {
        8
    } else if id == 0x28 {
        1
    } else if id == 0x29 {
        2
    } else if id == 0x2a {
        4
    } else if id == 0x2b {
        4
    } else if id == 0x2c {
        8
    } else if id == 0x2d {
        8
    } else if id == 0x2e {
        8
    } else if id == 0x2f {
        8
    } else if id == 0x30 {
        1
    } else if id == 0x31 {
        2
    } else if id == 0x38 {
        2
    } else if id == 0x39 {
        4
    } else if id == 0x3a {
        8
    } else if id == 0xe2 {
        4
    } else if id == 0xe8 {
        2
    } else if id == 0xe9 {
        2
    } else if id == 0xea {
        4
    } else {
        0
    }
}

/// The shape of a data type's data, as `kind_of` says.
pub fn attr_kind(id: u8) -> (r: Option<AttrKind>)
    ensures
        r == kind_of(id),
{
    match id {
        0xff => Some(AttrKind::NoData),
        0x00 => Some(AttrKind::NoData),
        0x08 => Some(AttrKind::Unsigned(1)),
        0x09 => Some(AttrKind::Unsigned(2)),
        0x0a => Some(AttrKind::Unsigned(3)),
        0x0b => Some(AttrKind::Unsigned(4)),
        0x0c => Some(AttrKind::Unsigned(5)),
        0x0d => Some(AttrKind::Unsigned(6)),
        0x0e => Some(AttrKind::Unsigned(7)),
        0x0f => Some(AttrKind::Unsigned(8)),
        0x10 => Some(AttrKind::Boolean),
        0x18 => Some(AttrKind::Unsigned(1)),
        0x19 => Some(AttrKind::Unsigned(2)),
        0x1a => Some(AttrKind::Unsigned(3)),
        0x1b => Some(AttrKind::Unsigned(4)),
        0x1c => Some(AttrKind::Unsigned(5)),
        0x1d => Some(AttrKind::Unsigned(6)),
        0x1e => Some(AttrKind::Unsigned(7)),
        0x1f => Some(AttrKind::Unsigned(8)),
        0x20 => Some(AttrKind::Unsigned(1)),
        0x21 => Some(AttrKind::Unsigned(2)),
        0x22 => Some(AttrKind::Unsigned(3)),
        0x23 => Some(AttrKind::Unsigned(4)),
        0x24 => Some(AttrKind::Unsigned(5)),
        0x25 => Some(AttrKind::Unsigned(6)),
        0x26 => Some(AttrKind::Unsigned(7)),
        0x27 => Some(AttrKind::Unsigned(8)),
        0x28 => Some(AttrKind::Signed(1)),
        0x29 => Some(AttrKind::Signed(2)),
        0x2a => Some(AttrKind::Signed(3)),
        0x2b => Some(AttrKind::Signed(4)),
        0x2c => Some(AttrKind::Signed(5)),
        0x2d => Some(AttrKind::Signed(6)),
        0x2e => Some(AttrKind::Signed(7)),
        0x2f => Some(AttrKind::Signed(8)),
        0x30 => Some(AttrKind::Unsigned(1)),
        0x31 => Some(AttrKind::Unsigned(2)),
        0x38 => Some(AttrKind::Unsigned(2)),
        0x39 => Some(AttrKind::Unsigned(4)),
        0x3a => Some(AttrKind::Unsigned(8)),
        0x41 => Some(AttrKind::Count8),
        0x42 => Some(AttrKind::Count8),
        0x43 => Some(AttrKind::Count16),
        0x44 => Some(AttrKind::Count16),
        0xe0 => Some(AttrKind::Fixed(4)),
        0xe1 => Some(AttrKind::Fixed(4)),
        0xe2 => Some(AttrKind::Unsigned(4)),
        0xe8 => Some(AttrKind::Unsigned(2)),
        0xe9 => Some(AttrKind::Unsigned(2)),
        0xea => Some(AttrKind::Unsigned(4)),
        0xf0 => Some(AttrKind::Fixed(8)),
        0xf1 => Some(AttrKind::Fixed(16)),
        _ => None,
    }
}

impl View for AttributeValue {
    type V = AttrV;

    open spec fn view(&self) -> AttrV {
        match self {
            AttributeValue::Unk => AttrV { id: 0xff, data: AttrData::Nothing },
            AttributeValue::Nodata => AttrV { id: 0x00, data: AttrData::Nothing },
            AttributeValue::Data8 { val } => AttrV { id: 0x08, data: AttrData::Num(*val as int) },
            AttributeValue::Data16 { val } => AttrV { id: 0x09, data: AttrData::Num(*val as int) },
            AttributeValue::Data24 { val } => AttrV { id: 0x0a, data: AttrData::Num(*val as int) },
            AttributeValue::Data32 { val } => AttrV { id: 0x0b, data: AttrData::Num(*val as int) },
            AttributeValue::Data40 { val } => AttrV { id: 0x0c, data: AttrData::Num(*val as int) },
            AttributeValue::Data48 { val } => AttrV { id: 0x0d, data: AttrData::Num(*val as int) },
            AttributeValue::Data56 { val } => AttrV { id: 0x0e, data: AttrData::Num(*val as int) },
            AttributeValue::Data64 { val } => AttrV { id: 0x0f, data: AttrData::Num(*val as int) },
            AttributeValue::Bool { val } => AttrV { id: 0x10, data: AttrData::Flag(*val) },
            AttributeValue::Map8 { val } => AttrV { id: 0x18, data: AttrData::Num(*val as int) },
            AttributeValue::Map16 { val } => AttrV { id: 0x19, data: AttrData::Num(*val as int) },
            AttributeValue::Map24 { val } => AttrV { id: 0x1a, data: AttrData::Num(*val as int) },
            AttributeValue::Map32 { val } => AttrV { id: 0x1b, data: AttrData::Num(*val as int) },
            AttributeValue::Map40 { val } => AttrV { id: 0x1c, data: AttrData::Num(*val as int) },
            AttributeValue::Map48 { val } => AttrV { id: 0x1d, data: AttrData::Num(*val as int) },
            AttributeValue::Map56 { val } => AttrV { id: 0x1e, data: AttrData::Num(*val as int) },
            AttributeValue::Map64 { val } => AttrV { id: 0x1f, data: AttrData::Num(*val as int) },
            AttributeValue::Uint8 { val } => AttrV { id: 0x20, data: AttrData::Num(*val as int) },
            AttributeValue::Uint16 { val } => AttrV { id: 0x21, data: AttrData::Num(*val as int) },
            AttributeValue::Uint24 { val } => AttrV { id: 0x22, data: AttrData::Num(*val as int) },
            AttributeValue::Uint32 { val } => AttrV { id: 0x23, data: AttrData::Num(*val as int) },
            AttributeValue::Uint40 { val } => AttrV { id: 0x24, data: AttrData::Num(*val as int) },
            AttributeValue::Uint48 { val } => AttrV { id: 0x25, data: AttrData::Num(*val as int) },
            AttributeValue::Uint56 { val } => AttrV { id: 0x26, data: AttrData::Num(*val as int) },
            AttributeValue::Uint64 { val } => AttrV { id: 0x27, data: AttrData::Num(*val as int) },
            AttributeValue::Int8 { val } => AttrV { id: 0x28, data: AttrData::Num(*val as int) },
            AttributeValue::Int16 { val } => AttrV { id: 0x29, data: AttrData::Num(*val as int) },
            AttributeValue::Int24 { val } => AttrV { id: 0x2a, data: AttrData::Num(*val as int) },
            AttributeValue::Int32 { val } => AttrV { id: 0x2b, data: AttrData::Num(*val as int) },
            AttributeValue::Int40 { val } => AttrV { id: 0x2c, data: AttrData::Num(*val as int) },
            AttributeValue::Int48 { val } => AttrV { id: 0x2d, data: AttrData::Num(*val as int) },
            AttributeValue::Int56 { val } => AttrV { id: 0x2e, data: AttrData::Num(*val as int) },
            AttributeValue::Int64 { val } => AttrV { id: 0x2f, data: AttrData::Num(*val as int) },
            AttributeValue::Enum8 { val } => AttrV { id: 0x30, data: AttrData::Num(*val as int) },
            AttributeValue::Enum16 { val } => AttrV { id: 0x31, data: AttrData::Num(*val as int) },
            AttributeValue::Semi { val } => AttrV { id: 0x38, data: AttrData::Num(*val as int) },
            AttributeValue::Single { val } => AttrV { id: 0x39, data: AttrData::Num(*val as int) },
            AttributeValue::Double { val } => AttrV { id: 0x3a, data: AttrData::Num(*val as int) },
            AttributeValue::Octstr { count, val } => AttrV { id: 0x41, data: AttrData::Counted(*count as nat, val@) },
            AttributeValue::String { count, val } => AttrV { id: 0x42, data: AttrData::Counted(*count as nat, val@) },
            AttributeValue::Octstr16 { count, val } => AttrV { id: 0x43, data: AttrData::Counted(*count as nat, val@) },
            AttributeValue::String16 { count, val } => AttrV { id: 0x44, data: AttrData::Counted(*count as nat, val@) },
            AttributeValue::ToD { h, m, s, cs } => AttrV { id: 0xe0, data: AttrData::Bytes(seq![*h, *m, *s, *cs]) },
            AttributeValue::Date { y, m, d, dow } => AttrV { id: 0xe1, data: AttrData::Bytes(seq![*y, *m, *d, *dow]) },
            AttributeValue::UTC { val } => AttrV { id: 0xe2, data: AttrData::Num(*val as int) },
            AttributeValue::ClusterId { val } => AttrV { id: 0xe8, data: AttrData::Num(*val as int) },
            AttributeValue::AttribId { val } => AttrV { id: 0xe9, data: AttrData::Num(*val as int) },
            AttributeValue::BacOID { val } => AttrV { id: 0xea, data: AttrData::Num(*val as int) },
            AttributeValue::Eui64 { val } => AttrV { id: 0xf0, data: AttrData::Bytes(val@) },
            AttributeValue::Key128 { val } => AttrV { id: 0xf1, data: AttrData::Bytes(val@) },
        }
    }
}

impl AttributeValue {
    /// The value of an unsigned type (or of a floating point type's bits).
    fn unsigned(id: u8, x: u64) -> (r: Self)
        requires
            kind_of(id) matches Some(AttrKind::Unsigned(w)) && (x as nat) < pow256(w as nat),
        ensures
            r@ == (AttrV { id, data: AttrData::Num(x as int) }),
    {
        proof {
            reveal_with_fuel(pow256, 9);
        }
        match id {
            0x08 => AttributeValue::Data8 { val: x as u8 },
            0x09 => AttributeValue::Data16 { val: x as u16 },
            0x0a => AttributeValue::Data24 { val: x as u32 },
            0x0b => AttributeValue::Data32 { val: x as u32 },
            0x0c => AttributeValue::Data40 { val: x as u64 },
            0x0d => AttributeValue::Data48 { val: x as u64 },
            0x0e => AttributeValue::Data56 { val: x as u64 },
            0x0f => AttributeValue::Data64 { val: x as u64 },
            0x18 => AttributeValue::Map8 { val: x as u8 },
            0x19 => AttributeValue::Map16 { val: x as u16 },
            0x1a => AttributeValue::Map24 { val: x as u32 },
            0x1b => AttributeValue::Map32 { val: x as u32 },
            0x1c => AttributeValue::Map40 { val: x as u64 },
            0x1d => AttributeValue::Map48 { val: x as u64 },
            0x1e => AttributeValue::Map56 { val: x as u64 },
            0x1f => AttributeValue::Map64 { val: x as u64 },
            0x20 => AttributeValue::Uint8 { val: x as u8 },
            0x21 => AttributeValue::Uint16 { val: x as u16 },
            0x22 => AttributeValue::Uint24 { val: x as u32 },
            0x23 => AttributeValue::Uint32 { val: x as u32 },
            0x24 => AttributeValue::Uint40 { val: x as u64 },
            0x25 => AttributeValue::Uint48 { val: x as u64 },
            0x26 => AttributeValue::Uint56 { val: x as u64 },
            0x27 => AttributeValue::Uint64 { val: x as u64 },
            0x30 => AttributeValue::Enum8 { val: x as u8 },
            0x31 => AttributeValue::Enum16 { val: x as u16 },
            0x38 => AttributeValue::Semi { val: x as u16 },
            0x39 => AttributeValue::Single { val: x as u32 },
            0x3a => AttributeValue::Double { val: x as u64 },
            0xe2 => AttributeValue::UTC { val: x as u32 },
            0xe8 => AttributeValue::ClusterId { val: x as u16 },
            0xe9 => AttributeValue::AttribId { val: x as u16 },
            0xea => AttributeValue::BacOID { val: x as u32 },
            _ => AttributeValue::Unk,
        }
    }

    /// The value of a signed type.
    fn signed(id: u8, x: i64, Ghost(w): Ghost<nat>) -> (r: Self)
        requires
            1 <= w <= 8,
            kind_of(id) == Some(AttrKind::Signed(w as u8)),
            -(pow256(w) / 2) <= x < pow256(w) / 2,
        ensures
            r@ == (AttrV { id, data: AttrData::Num(x as int) }),
    {
        proof {
            reveal_with_fuel(pow256, 9);
        }
        match id {
            0x28 => AttributeValue::Int8 { val: x as i8 },
            0x29 => AttributeValue::Int16 { val: x as i16 },
            0x2a => AttributeValue::Int24 { val: x as i32 },
            0x2b => AttributeValue::Int32 { val: x as i32 },
            0x2c => AttributeValue::Int40 { val: x as i64 },
            0x2d => AttributeValue::Int48 { val: x as i64 },
            0x2e => AttributeValue::Int56 { val: x as i64 },
            0x2f => AttributeValue::Int64 { val: x as i64 },
            _ => AttributeValue::Unk,
        }
    }

    /// The value of a type without data.
    fn no_data(id: u8) -> (r: Self)
        requires
            kind_of(id) == Some(AttrKind::NoData),
        ensures
            r@ == (AttrV { id, data: AttrData::Nothing }),
    {
        if id == 0xff {
            AttributeValue::Unk
        } else {
            AttributeValue::Nodata
        }
    }

    /// The value of a counted byte string type.
    fn counted(id: u8, count: u16, val: Vec<u8>) -> (r: Self)
        requires
            kind_of(id) == Some(AttrKind::Count8) ==> count < 256,
            kind_of(id) == Some(AttrKind::Count8) || kind_of(id) == Some(AttrKind::Count16),
        ensures
            r@ == (AttrV { id, data: AttrData::Counted(count as nat, val@) }),
    {
        match id {
            0x41 => AttributeValue::Octstr { count: count as u8, val },
            0x42 => AttributeValue::String { count: count as u8, val },
            0x43 => AttributeValue::Octstr16 { count, val },
            0x44 => AttributeValue::String16 { count, val },
            _ => AttributeValue::Unk,
        }
    }

    /// The value of a fixed byte type.
    fn fixed(id: u8, b: &[u8], p: usize) -> (r: Self)
        requires
            kind_of(id) matches Some(AttrKind::Fixed(n)) && p + n <= b.len(),
        ensures
            kind_of(id) matches Some(AttrKind::Fixed(n)) && r@ == (AttrV { id, data: AttrData::Bytes(b@.subrange(p as int, p + n)) }),
    {
        if id == 0xe0 || id == 0xe1 {
            let (x0, x1, x2, x3) = (b[p], b[p + 1], b[p + 2], b[p + 3]);
            proof {
                assert(seq![x0, x1, x2, x3] =~= b@.subrange(p as int, p + 4));
            }
            if id == 0xe0 {
                AttributeValue::ToD { h: x0, m: x1, s: x2, cs: x3 }
            } else {
                AttributeValue::Date { y: x0, m: x1, d: x2, dow: x3 }
            }
        } else if id == 0xf0 {
            let mut a = [0u8; 8];
            copy_into(&mut a, b, p);
            AttributeValue::Eui64 { val: a }
        } else {
            let mut a = [0u8; 16];
            copy_into(&mut a, b, p);
            AttributeValue::Key128 { val: a }
        }
    }

}

impl AttributeValue {
    /// Appends the value's bytes, as `attr_bytes` says; a value that does
    /// not fit its bytes is refused and nothing is appended.
    #[verifier::rlimit(50)]
    pub fn write(&self, out: &mut Vec<u8>) -> (r: Result<(), FormatError>)
        ensures
            match attr_bytes(self@) {
                Ok(s) => r is Ok && final(out)@ == old(out)@ + s,
                Err(e) => r == Err::<(), FormatError>(e) && final(out)@ == old(out)@,
            },
    {
        proof {
            reveal_with_fuel(pow256, 9);
        }
        match self {
            AttributeValue::Unk => write_nothing(out, 0xff),
            AttributeValue::Nodata => write_nothing(out, 0x00),
            AttributeValue::Data8 { val } => write_unsigned(out, 0x08, *val as u64, 1, 1),
            AttributeValue::Data16 { val } => write_unsigned(out, 0x09, *val as u64, 2, 2),
            AttributeValue::Data24 { val } => write_unsigned(out, 0x0a, *val as u64, 3, 4),
            AttributeValue::Data32 { val } => write_unsigned(out, 0x0b, *val as u64, 4, 4),
            AttributeValue::Data40 { val } => write_unsigned(out, 0x0c, *val as u64, 5, 8),
            AttributeValue::Data48 { val } => write_unsigned(out, 0x0d, *val as u64, 6, 8),
            AttributeValue::Data56 { val } => write_unsigned(out, 0x0e, *val as u64, 7, 8),
            AttributeValue::Data64 { val } => write_unsigned(out, 0x0f, *val as u64, 8, 8),
            AttributeValue::Bool { val } => write_bool(out, 0x10, *val),
            AttributeValue::Map8 { val } => write_unsigned(out, 0x18, *val as u64, 1, 1),
            AttributeValue::Map16 { val } => write_unsigned(out, 0x19, *val as u64, 2, 2),
            AttributeValue::Map24 { val } => write_unsigned(out, 0x1a, *val as u64, 3, 4),
            AttributeValue::Map32 { val } => write_unsigned(out, 0x1b, *val as u64, 4, 4),
            AttributeValue::Map40 { val } => write_unsigned(out, 0x1c, *val as u64, 5, 8),
            AttributeValue::Map48 { val } => write_unsigned(out, 0x1d, *val as u64, 6, 8),
            AttributeValue::Map56 { val } => write_unsigned(out, 0x1e, *val as u64, 7, 8),
            AttributeValue::Map64 { val } => write_unsigned(out, 0x1f, *val as u64, 8, 8),
            AttributeValue::Uint8 { val } => write_unsigned(out, 0x20, *val as u64, 1, 1),
            AttributeValue::Uint16 { val } => write_unsigned(out, 0x21, *val as u64, 2, 2),
            AttributeValue::Uint24 { val } => write_unsigned(out, 0x22, *val as u64, 3, 4),
            AttributeValue::Uint32 { val } => write_unsigned(out, 0x23, *val as u64, 4, 4),
            AttributeValue::Uint40 { val } => write_unsigned(out, 0x24, *val as u64, 5, 8),
            AttributeValue::Uint48 { val } => write_unsigned(out, 0x25, *val as u64, 6, 8),
            AttributeValue::Uint56 { val } => write_unsigned(out, 0x26, *val as u64, 7, 8),
            AttributeValue::Uint64 { val } => write_unsigned(out, 0x27, *val as u64, 8, 8),
            AttributeValue::Int8 { val } => write_signed(out, 0x28, *val as i64, 1, 1),
            AttributeValue::Int16 { val } => write_signed(out, 0x29, *val as i64, 2, 2),
            AttributeValue::Int24 { val } => write_signed(out, 0x2a, *val as i64, 3, 4),
            AttributeValue::Int32 { val } => write_signed(out, 0x2b, *val as i64, 4, 4),
            AttributeValue::Int40 { val } => write_signed(out, 0x2c, *val as i64, 5, 8),
            AttributeValue::Int48 { val } => write_signed(out, 0x2d, *val as i64, 6, 8),
            AttributeValue::Int56 { val } => write_signed(out, 0x2e, *val as i64, 7, 8),
            AttributeValue::Int64 { val } => write_signed(out, 0x2f, *val as i64, 8, 8),
            AttributeValue::Enum8 { val } => write_unsigned(out, 0x30, *val as u64, 1, 1),
            AttributeValue::Enum16 { val } => write_unsigned(out, 0x31, *val as u64, 2, 2),
            AttributeValue::Semi { val } => write_unsigned(out, 0x38, *val as u64, 2, 2),
            AttributeValue::Single { val } => write_unsigned(out, 0x39, *val as u64, 4, 4),
            AttributeValue::Double { val } => write_unsigned(out, 0x3a, *val as u64, 8, 8),
            AttributeValue::Octstr { count, val } => write_counted(out, 0x41, *count as u16, val.as_slice()),
            AttributeValue::String { count, val } => write_counted(out, 0x42, *count as u16, val.as_slice()),
            AttributeValue::Octstr16 { count, val } => write_counted(out, 0x43, *count, val.as_slice()),
            AttributeValue::String16 { count, val } => write_counted(out, 0x44, *count, val.as_slice()),
            AttributeValue::ToD { h, m, s, cs } => {
                let four = [*h, *m, *s, *cs];
                proof {
                    assert(four@ =~= seq![*h, *m, *s, *cs]);
                }
                write_fixed(out, 0xe0, &four)
            },
            AttributeValue::Date { y, m, d, dow } => {
                let four = [*y, *m, *d, *dow];
                proof {
                    assert(four@ =~= seq![*y, *m, *d, *dow]);
                }
                write_fixed(out, 0xe1, &four)
            },
            AttributeValue::UTC { val } => write_unsigned(out, 0xe2, *val as u64, 4, 4),
            AttributeValue::ClusterId { val } => write_unsigned(out, 0xe8, *val as u64, 2, 2),
            AttributeValue::AttribId { val } => write_unsigned(out, 0xe9, *val as u64, 2, 2),
            AttributeValue::BacOID { val } => write_unsigned(out, 0xea, *val as u64, 4, 4),
            AttributeValue::Eui64 { val } => write_fixed(out, 0xf0, val),
            AttributeValue::Key128 { val } => write_fixed(out, 0xf1, val),
        }
    }
}

/// An attribute value that its bytes give back: a number within the range
/// its bytes read back into (for a signed type, its two's complement range;
/// one held in a wider field must not be negative, which is refused), a
/// count equal to the number of bytes after it, fixed bytes of their
/// type's number.
pub open spec fn attr_roundtrips(v: AttrV) -> bool {
    match kind_of(v.id) {
        Some(AttrKind::Unsigned(w)) => v.data matches AttrData::Num(x) && 0 <= x < pow256(w as nat),
        Some(AttrKind::Signed(w)) => v.data matches AttrData::Num(x) && (if w < field_width(v.id) {
            0
        } else {
            -(pow256(w as nat) / 2)
        }) <= x < pow256(w as nat) / 2,
        Some(AttrKind::Boolean) => v.data is Flag,
        Some(AttrKind::Count8) => v.data matches AttrData::Counted(n, b) && n == b.len() && n < 256,
        Some(AttrKind::Count16) => v.data matches AttrData::Counted(n, b) && n == b.len() && n
            < 65536,
        Some(AttrKind::Fixed(n)) => v.data matches AttrData::Bytes(b) && b.len() == n,
        Some(AttrKind::NoData) => v.data is Nothing,
        None => false,
    }
}

proof fn lemma_kind_widths(id: u8)
    ensures
        kind_of(id) matches Some(AttrKind::Unsigned(w)) ==> 1 <= w <= 8 && w <= field_width(id),
        kind_of(id) matches Some(AttrKind::Signed(w)) ==> 1 <= w <= 8 && w <= field_width(id),
        kind_of(id) matches Some(AttrKind::Fixed(n)) ==> n <= 16,
{
}

/// An attribute value's bytes, followed by anything, read back as the
/// value, up to the end of its bytes.
pub proof fn lemma_attr_roundtrip(v: AttrV, rest: Seq<u8>)
    requires
        attr_roundtrips(v),
    ensures
        attr_bytes(v) matches Ok(s) && attr_at(s + rest, 0) == Ok::<(AttrV, int), FormatError>(
            (v, s.len() as int),
        ),
{
    lemma_kind_widths(v.id);
    let k = kind_of(v.id)->Some_0;
    match k {
        AttrKind::Unsigned(w) => {
            let x = v.data->Num_0;
            lemma_pow256_mono(w as nat, field_width(v.id));
            let d = le_bytes(x as nat, w as nat);
            lemma_le_value_bytes(x as nat, w as nat);
            let pw = pow256(w as nat);
            assert((x as nat) % pw == x as nat) by (nonlinear_arith)
                requires
                    0 <= x < pw,
            ;
            let b = seq![v.id] + d + rest;
            assert(b.subrange(1, 1 + w) =~= d);
        },
        AttrKind::Signed(w) => {
            let x = v.data->Num_0;
            lemma_pow256_pos(w as nat);
            lemma_pow256_mono(w as nat, field_width(v.id));
            let pw = pow256(w as nat);
            let u: nat = if x < 0 {
                (x + pw) as nat
            } else {
                x as nat
            };
            let d = le_bytes(u, w as nat);
            lemma_le_value_bytes(u, w as nat);
            assert(u % pw == u) by (nonlinear_arith)
                requires
                    u < pw,
            ;
            assert(sign_extend(u, w as nat) == x);
            let b = seq![v.id] + d + rest;
            assert(b.subrange(1, 1 + w) =~= d);
        },
        AttrKind::Boolean => {
            let b = attr_bytes(v)->Ok_0 + rest;
            assert(b[1] == 0 || b[1] == 1);
        },
        AttrKind::Count8 => {
            let (n, c) = (v.data->Counted_0, v.data->Counted_1);
            let b = seq![v.id] + (seq![n as u8] + c) + rest;
            assert(b.subrange(2, 2 + n as int) =~= c);
            assert(attr_bytes(v)->Ok_0 + rest =~= b);
        },
        AttrKind::Count16 => {
            let (n, c) = (v.data->Counted_0, v.data->Counted_1);
            let b = seq![v.id] + (le16(n as u16) + c) + rest;
            lemma_rd16_le16(n as u16, seq![v.id], c + rest);
            assert(b =~= seq![v.id] + le16(n as u16) + (c + rest));
            assert(b.subrange(3, 3 + n as int) =~= c);
            assert(attr_bytes(v)->Ok_0 + rest =~= b);
        },
        AttrKind::Fixed(n) => {
            let c = v.data->Bytes_0;
            let b = seq![v.id] + c + rest;
            assert(b.subrange(1, 1 + n) =~= c);
        },
        AttrKind::NoData => {},
    }
}

// ---------------------------------------------------------------- records

/// An attribute read back: its identifier, a status, and its value where
/// the status is success (0).
#[derive(Debug, Clone, PartialEq, Eq)]
pub struct ReadAttributeRecord {
    pub identifier: u16,
    pub status: u8,
    pub data: Option<AttributeValue>,
}

/// An attribute and its value.
#[derive(Debug, Clone, PartialEq, Eq)]
pub struct AttributeRecord {
    pub identifier: u16,
    pub data: AttributeValue,
}

/// The status of an attribute written.
#[derive(Debug, Clone, Copy, PartialEq, Eq, Structural)]
pub struct WriteAttributeStatus {
    pub status: u8,
    pub identifier: u16,
}

/// The model of a read attribute record.
pub struct ReadRecV {
    pub identifier: u16,
    pub status: u8,
    pub data: Option<AttrV>,
}

/// The model of an attribute record.
pub struct RecV {
    pub identifier: u16,
    pub data: AttrV,
}

impl View for ReadAttributeRecord {
    type V = ReadRecV;

    open spec fn view(&self) -> ReadRecV {
        ReadRecV {
            identifier: self.identifier,
            status: self.status,
            data: match self.data {
                Some(v) => Some(v@),
                None => None,
            },
        }
    }
}

impl View for AttributeRecord {
    type V = RecV;

    open spec fn view(&self) -> RecV {
        RecV { identifier: self.identifier, data: self.data@ }
    }
}

/// A read attribute record at `p`: the identifier, the status, and a value
/// where the status is 0.
pub open spec fn read_rec_at(b: Seq<u8>, p: int) -> Result<(ReadRecV, int), FormatError> {
    if p + 3 > b.len() {
        Err(FormatError::Incomplete)
    } else if b[p + 2] == 0 {
        match attr_at(b, p + 3) {
            Err(e) => Err(e),
            Ok((v, q)) => Ok((ReadRecV { identifier: rd16(b, p), status: 0, data: Some(v) }, q)),
        }
    } else {
        Ok((ReadRecV { identifier: rd16(b, p), status: b[p + 2], data: None }, p + 3))
    }
}

/// An attribute record at `p`: the identifier, then the value.
pub open spec fn rec_at(b: Seq<u8>, p: int) -> Result<(RecV, int), FormatError> {
    if p + 2 > b.len() {
        Err(FormatError::Incomplete)
    } else {
        match attr_at(b, p + 2) {
            Err(e) => Err(e),
            Ok((v, q)) => Ok((RecV { identifier: rd16(b, p), data: v }, q)),
        }
    }
}

/// The bytes of a read attribute record (a value is written where there is
/// one, whatever the status).
pub open spec fn read_rec_bytes(r: ReadRecV) -> Result<Seq<u8>, FormatError> {
    match r.data {
        None => Ok(le16(r.identifier) + seq![r.status]),
        Some(v) => match attr_bytes(v) {
            Ok(s) => Ok(le16(r.identifier) + seq![r.status] + s),
            Err(e) => Err(e),
        },
    }
}

/// The bytes of an attribute record.
pub open spec fn rec_bytes(r: RecV) -> Result<Seq<u8>, FormatError> {
    match attr_bytes(r.data) {
        Ok(s) => Ok(le16(r.identifier) + s),
        Err(e) => Err(e),
    }
}

impl ReadAttributeRecord {
    /// Reads a record at `*pos`, as `read_rec_at` says.
    pub fn read(b: &[u8], pos: &mut usize) -> (r: Result<Self, FormatError>)
        requires
            *old(pos) <= b.len(),
        ensures
            match read_rec_at(b@, *old(pos) as int) {
                Ok((v, q)) => r matches Ok(x) && x@ == v && *final(pos) as int == q,
                Err(e) => r == Err::<Self, FormatError>(e),
            },
    {
        let p = *pos;
        if b.len() - p < 3 {
            return Err(FormatError::Incomplete);
        }
        let identifier = read16(b, p);
        let status = b[p + 2];
        *pos = p + 3;
        if status == 0 {
            let v = AttributeValue::read(b, pos)?;
            Ok(ReadAttributeRecord { identifier, status, data: Some(v) })
        } else {
            Ok(ReadAttributeRecord { identifier, status, data: None })
        }
    }

    /// Appends the record's bytes, as `read_rec_bytes` says.
    pub fn write(&self, out: &mut Vec<u8>) -> (r: Result<(), FormatError>)
        ensures
            match read_rec_bytes(self@) {
                Ok(s) => r is Ok && final(out)@ == old(out)@ + s,
                Err(e) => r == Err::<(), FormatError>(e),
            },
    {
        push16(out, self.identifier);
        out.push(self.status);
        let ghost mid = out@;
        proof {
            assert(mid == old(out)@ + (le16(self.identifier) + seq![self.status]));
        }
        match &self.data {
            None => Ok(()),
            Some(v) => {
                let r = v.write(out);
                proof {
                    if r is Ok {
                        assert(final(out)@ =~= old(out)@ + (le16(self.identifier) + seq![self.status]
                            + attr_bytes(v@)->Ok_0));
                    }
                }
                r
            },
        }
    }
}

impl AttributeRecord {
    /// Reads a record at `*pos`, as `rec_at` says.
    pub fn read(b: &[u8], pos: &mut usize) -> (r: Result<Self, FormatError>)
        requires
            *old(pos) <= b.len(),
        ensures
            match rec_at(b@, *old(pos) as int) {
                Ok((v, q)) => r matches Ok(x) && x@ == v && *final(pos) as int == q,
                Err(e) => r == Err::<Self, FormatError>(e),
            },
    {
        let p = *pos;
        if b.len() - p < 2 {
            return Err(FormatError::Incomplete);
        }
        let identifier = read16(b, p);
        *pos = p + 2;
        let data = AttributeValue::read(b, pos)?;
        Ok(AttributeRecord { identifier, data })
    }

    /// Appends the record's bytes, as `rec_bytes` says.
    pub fn write(&self, out: &mut Vec<u8>) -> (r: Result<(), FormatError>)
        ensures
            match rec_bytes(self@) {
                Ok(s) => r is Ok && final(out)@ == old(out)@ + s,
                Err(e) => r == Err::<(), FormatError>(e),
            },
    {
        push16(out, self.identifier);
        let r = self.data.write(out);
        proof {
            if r is Ok {
                assert(final(out)@ =~= old(out)@ + (le16(self.identifier) + attr_bytes(self.data@)->Ok_0));
            }
        }
        r
    }
}

// ---------------------------------------------------------------- lists

/// Two-byte numbers from `p` to the end.
pub open spec fn ids_from(b: Seq<u8>, p: int) -> Result<Seq<u16>, FormatError>
    decreases b.len() - p,
{
    if p >= b.len() {
        Ok(Seq::empty())
    } else if p + 2 > b.len() {
        Err(FormatError::Incomplete)
    } else {
        match ids_from(b, p + 2) {
            Ok(r) => Ok(seq![rd16(b, p)] + r),
            Err(e) => Err(e),
        }
    }
}

/// Write statuses from `p` to the end.
pub open spec fn statuses_from(b: Seq<u8>, p: int) -> Result<Seq<WriteAttributeStatus>, FormatError>
    decreases b.len() - p,
{
    if p >= b.len() {
        Ok(Seq::empty())
    } else if p + 3 > b.len() {
        Err(FormatError::Incomplete)
    } else {
        match statuses_from(b, p + 3) {
            Ok(r) => Ok(seq![WriteAttributeStatus { status: b[p], identifier: rd16(b, p + 1) }] + r),
            Err(e) => Err(e),
        }
    }
}

/// Read attribute records from `p` to the end.
pub open spec fn read_recs_from(b: Seq<u8>, p: int) -> Result<Seq<ReadRecV>, FormatError>
    decreases b.len() - p,
{
    if p >= b.len() {
        Ok(Seq::empty())
    } else {
        match read_rec_at(b, p) {
            Err(e) => Err(e),
            Ok((v, q)) => if q <= p {
                Err(FormatError::Incomplete)
            } else {
                match read_recs_from(b, q) {
                    Ok(r) => Ok(seq![v] + r),
                    Err(e) => Err(e),
                }
            },
        }
    }
}

/// Attribute records from `p` to the end.
pub open spec fn recs_from(b: Seq<u8>, p: int) -> Result<Seq<RecV>, FormatError>
    decreases b.len() - p,
{
    if p >= b.len() {
        Ok(Seq::empty())
    } else {
        match rec_at(b, p) {
            Err(e) => Err(e),
            Ok((v, q)) => if q <= p {
                Err(FormatError::Incomplete)
            } else {
                match recs_from(b, q) {
                    Ok(r) => Ok(seq![v] + r),
                    Err(e) => Err(e),
                }
            },
        }
    }
}

/// The bytes of two-byte numbers.
pub open spec fn ids_bytes(s: Seq<u16>) -> Seq<u8>
    decreases s.len(),
{
    if s.len() == 0 {
        Seq::empty()
    } else {
        ids_bytes(s.drop_last()) + le16(s.last())
    }
}

/// The bytes of write statuses.
pub open spec fn statuses_bytes(s: Seq<WriteAttributeStatus>) -> Seq<u8>
    decreases s.len(),
{
    if s.len() == 0 {
        Seq::empty()
    } else {
        statuses_bytes(s.drop_last()) + seq![s.last().status] + le16(s.last().identifier)
    }
}

/// The bytes of read attribute records; the first record refused refuses
/// them all.
pub open spec fn read_recs_bytes(s: Seq<ReadRecV>) -> Result<Seq<u8>, FormatError>
    decreases s.len(),
{
    if s.len() == 0 {
        Ok(Seq::empty())
    } else {
        match read_recs_bytes(s.drop_last()) {
            Err(e) => Err(e),
            Ok(a) => match read_rec_bytes(s.last()) {
                Ok(c) => Ok(a + c),
                Err(e) => Err(e),
            },
        }
    }
}

/// The bytes of attribute records; the first record refused refuses them
/// all.
pub open spec fn recs_bytes(s: Seq<RecV>) -> Result<Seq<u8>, FormatError>
    decreases s.len(),
{
    if s.len() == 0 {
        Ok(Seq::empty())
    } else {
        match recs_bytes(s.drop_last()) {
            Err(e) => Err(e),
            Ok(a) => match rec_bytes(s.last()) {
                Ok(c) => Ok(a + c),
                Err(e) => Err(e),
            },
        }
    }
}

/// The models of read attribute records.
pub open spec fn read_recs_view(v: Seq<ReadAttributeRecord>) -> Seq<ReadRecV> {
    v.map_values(|r: ReadAttributeRecord| r@)
}

/// The models of attribute records.
pub open spec fn recs_view(v: Seq<AttributeRecord>) -> Seq<RecV> {
    v.map_values(|r: AttributeRecord| r@)
}

/// Reads two-byte numbers from `p` to the end.
fn read_ids(b: &[u8], p: usize) -> (r: Result<Vec<u16>, FormatError>)
    requires
        p <= b.len(),
    ensures
        match ids_from(b@, p as int) {
            Ok(s) => r matches Ok(v) && v@ == s,
            Err(e) => r == Err::<Vec<u16>, FormatError>(e),
        },
{
    let mut v: Vec<u16> = Vec::new();
    let mut q = p;
    while q < b.len()
        invariant
            p <= q <= b.len(),
            ids_from(b@, p as int) == match ids_from(b@, q as int) {
                Ok(r) => Ok(v@ + r),
                Err(e) => Err::<Seq<u16>, FormatError>(e),
            },
        decreases b.len() - q,
    {
        if b.len() - q < 2 {
            return Err(FormatError::Incomplete);
        }
        let x = read16(b, q);
        let ghost v0 = v@;
        v.push(x);
        proof {
            match ids_from(b@, q + 2) {
                Ok(r) => {
                    assert(v0 + (seq![x] + r) =~= v@ + r);
                },
                Err(_) => {},
            }
        }
        q = q + 2;
    }
    proof {
        assert(v@ + Seq::<u16>::empty() =~= v@);
    }
    Ok(v)
}

/// Reads write statuses from `p` to the end.
fn read_statuses(b: &[u8], p: usize) -> (r: Result<Vec<WriteAttributeStatus>, FormatError>)
    requires
        p <= b.len(),
    ensures
        match statuses_from(b@, p as int) {
            Ok(s) => r matches Ok(v) && v@ == s,
            Err(e) => r == Err::<Vec<WriteAttributeStatus>, FormatError>(e),
        },
{
    let mut v: Vec<WriteAttributeStatus> = Vec::new();
    let mut q = p;
    while q < b.len()
        invariant
            p <= q <= b.len(),
            statuses_from(b@, p as int) == match statuses_from(b@, q as int) {
                Ok(r) => Ok(v@ + r),
                Err(e) => Err::<Seq<WriteAttributeStatus>, FormatError>(e),
            },
        decreases b.len() - q,
    {
        if b.len() - q < 3 {
            return Err(FormatError::Incomplete);
        }
        let x = WriteAttributeStatus { status: b[q], identifier: read16(b, q + 1) };
        let ghost v0 = v@;
        v.push(x);
        proof {
            match statuses_from(b@, q + 3) {
                Ok(r) => {
                    assert(v0 + (seq![x] + r) =~= v@ + r);
                },
                Err(_) => {},
            }
        }
        q = q + 3;
    }
    proof {
        assert(v@ + Seq::<WriteAttributeStatus>::empty() =~= v@);
    }
    Ok(v)
}

/// Reads read attribute records from `p` to the end.
fn read_read_recs(b: &[u8], p: usize) -> (r: Result<Vec<ReadAttributeRecord>, FormatError>)
    requires
        p <= b.len(),
    ensures
        match read_recs_from(b@, p as int) {
            Ok(s) => r matches Ok(v) && read_recs_view(v@) == s,
            Err(e) => r == Err::<Vec<ReadAttributeRecord>, FormatError>(e),
        },
{
    let mut v: Vec<ReadAttributeRecord> = Vec::new();
    let mut q = p;
    proof {
        assert(read_recs_view(v@) =~= Seq::<ReadRecV>::empty());
    }
    while q < b.len()
        invariant
            p <= q <= b.len(),
            read_recs_from(b@, p as int) == match read_recs_from(b@, q as int) {
                Ok(r) => Ok(read_recs_view(v@) + r),
                Err(e) => Err::<Seq<ReadRecV>, FormatError>(e),
            },
        decreases b.len() - q,
    {
        let q0 = q;
        let x = ReadAttributeRecord::read(b, &mut q)?;
        if q <= q0 {
            return Err(FormatError::Incomplete);
        }
        let ghost v0 = read_recs_view(v@);
        let ghost xv = x@;
        v.push(x);
        proof {
            assert(read_recs_view(v@) =~= v0.push(xv));
            match read_recs_from(b@, q as int) {
                Ok(r) => {
                    assert(v0 + (seq![xv] + r) =~= read_recs_view(v@) + r);
                },
                Err(_) => {},
            }
        }
    }
    proof {
        assert(read_recs_view(v@) + Seq::<ReadRecV>::empty() =~= read_recs_view(v@));
    }
    Ok(v)
}

/// Reads attribute records from `p` to the end.
fn read_recs(b: &[u8], p: usize) -> (r: Result<Vec<AttributeRecord>, FormatError>)
    requires
        p <= b.len(),
    ensures
        match recs_from(b@, p as int) {
            Ok(s) => r matches Ok(v) && recs_view(v@) == s,
            Err(e) => r == Err::<Vec<AttributeRecord>, FormatError>(e),
        },
{
    let mut v: Vec<AttributeRecord> = Vec::new();
    let mut q = p;
    proof {
        assert(recs_view(v@) =~= Seq::<RecV>::empty());
    }
    while q < b.len()
        invariant
            p <= q <= b.len(),
            recs_from(b@, p as int) == match recs_from(b@, q as int) {
                Ok(r) => Ok(recs_view(v@) + r),
                Err(e) => Err::<Seq<RecV>, FormatError>(e),
            },
        decreases b.len() - q,
    {
        let q0 = q;
        let x = AttributeRecord::read(b, &mut q)?;
        if q <= q0 {
            return Err(FormatError::Incomplete);
        }
        let ghost v0 = recs_view(v@);
        let ghost xv = x@;
        v.push(x);
        proof {
            assert(recs_view(v@) =~= v0.push(xv));
            match recs_from(b@, q as int) {
                Ok(r) => {
                    assert(v0 + (seq![xv] + r) =~= recs_view(v@) + r);
                },
                Err(_) => {},
            }
        }
    }
    proof {
        assert(recs_view(v@) + Seq::<RecV>::empty() =~= recs_view(v@));
    }
    Ok(v)
}

pub(crate) fn write_ids(out: &mut Vec<u8>, s: &[u16])
    ensures
        final(out)@ == old(out)@ + ids_bytes(s@),
{
    let mut i: usize = 0;
    proof {
        assert(ids_bytes(s@.take(0)) =~= Seq::<u8>::empty());
        assert(old(out)@ + Seq::<u8>::empty() =~= old(out)@);
    }
    while i < s.len()
        invariant
            i <= s@.len(),
            out@ == old(out)@ + ids_bytes(s@.take(i as int)),
        decreases s@.len() - i,
    {
        push16(out, s[i]);
        i += 1;
        proof {
            assert(s@.take(i as int).drop_last() =~= s@.take(i - 1));
            assert(out@ =~= old(out)@ + ids_bytes(s@.take(i as int)));
        }
    }
    proof {
        assert(s@.take(s@.len() as int) =~= s@);
    }
}

fn write_statuses(out: &mut Vec<u8>, s: &[WriteAttributeStatus])
    ensures
        final(out)@ == old(out)@ + statuses_bytes(s@),
{
    let mut i: usize = 0;
    proof {
        assert(statuses_bytes(s@.take(0)) =~= Seq::<u8>::empty());
        assert(old(out)@ + Seq::<u8>::empty() =~= old(out)@);
    }
    while i < s.len()
        invariant
            i <= s@.len(),
            out@ == old(out)@ + statuses_bytes(s@.take(i as int)),
        decreases s@.len() - i,
    {
        out.push(s[i].status);
        push16(out, s[i].identifier);
        i += 1;
        proof {
            assert(s@.take(i as int).drop_last() =~= s@.take(i - 1));
            assert(out@ =~= old(out)@ + statuses_bytes(s@.take(i as int)));
        }
    }
    proof {
        assert(s@.take(s@.len() as int) =~= s@);
    }
}

fn write_read_recs(out: &mut Vec<u8>, s: &[ReadAttributeRecord]) -> (r: Result<(), FormatError>)
    ensures
        match read_recs_bytes(read_recs_view(s@)) {
            Ok(c) => r is Ok && final(out)@ == old(out)@ + c,
            Err(e) => r == Err::<(), FormatError>(e),
        },
{
    let mut i: usize = 0;
    proof {
        assert(read_recs_view(s@.take(0)) =~= Seq::<ReadRecV>::empty());
        assert(old(out)@ + Seq::<u8>::empty() =~= old(out)@);
    }
    while i < s.len()
        invariant
            i <= s@.len(),
            read_recs_bytes(read_recs_view(s@.take(i as int))) matches Ok(c) && out@ == old(out)@
                + c,
        decreases s@.len() - i,
    {
        let ghost c0 = read_recs_bytes(read_recs_view(s@.take(i as int)))->Ok_0;
        proof {
            assert(read_recs_view(s@.take(i + 1)).drop_last() =~= read_recs_view(s@.take(i as int)));
            assert(read_recs_view(s@.take(i + 1)).last() == s@[i as int]@);
        }
        match s[i].write(out) {
            Ok(()) => {},
            Err(e) => {
                proof {
                    lemma_read_recs_bytes_err(read_recs_view(s@), (i + 1) as nat);
                    assert(read_recs_view(s@).take(i + 1) =~= read_recs_view(s@.take(i + 1)));
                }
                return Err(e);
            },
        }
        i += 1;
    }
    proof {
        assert(s@.take(s@.len() as int) =~= s@);
    }
    Ok(())
}

/// A refusal in a prefix of the records refuses them all.
proof fn lemma_read_recs_bytes_err(s: Seq<ReadRecV>, k: nat)
    requires
        k <= s.len(),
        read_recs_bytes(s.take(k as int)) is Err,
    ensures
        read_recs_bytes(s) == read_recs_bytes(s.take(k as int)),
    decreases s.len() - k,
{
    if k < s.len() {
        assert(s.take(k as int + 1).drop_last() =~= s.take(k as int));
        lemma_read_recs_bytes_err(s, k + 1);
    } else {
        assert(s.take(k as int) =~= s);
    }
}

/// A refusal in a prefix of the records refuses them all.
proof fn lemma_recs_bytes_err(s: Seq<RecV>, k: nat)
    requires
        k <= s.len(),
        recs_bytes(s.take(k as int)) is Err,
    ensures
        recs_bytes(s) == recs_bytes(s.take(k as int)),
    decreases s.len() - k,
{
    if k < s.len() {
        assert(s.take(k as int + 1).drop_last() =~= s.take(k as int));
        lemma_recs_bytes_err(s, k + 1);
    } else {
        assert(s.take(k as int) =~= s);
    }
}

fn write_recs(out: &mut Vec<u8>, s: &[AttributeRecord]) -> (r: Result<(), FormatError>)
    ensures
        match recs_bytes(recs_view(s@)) {
            Ok(c) => r is Ok && final(out)@ == old(out)@ + c,
            Err(e) => r == Err::<(), FormatError>(e),
        },
{
    let mut i: usize = 0;
    proof {
        assert(recs_view(s@.take(0)) =~= Seq::<RecV>::empty());
        assert(old(out)@ + Seq::<u8>::empty() =~= old(out)@);
    }
    while i < s.len()
        invariant
            i <= s@.len(),
            recs_bytes(recs_view(s@.take(i as int))) matches Ok(c) && out@ == old(out)@ + c,
        decreases s@.len() - i,
    {
        proof {
            assert(recs_view(s@.take(i + 1)).drop_last() =~= recs_view(s@.take(i as int)));
            assert(recs_view(s@.take(i + 1)).last() == s@[i as int]@);
        }
        match s[i].write(out) {
            Ok(()) => {},
            Err(e) => {
                proof {
                    lemma_recs_bytes_err(recs_view(s@), (i + 1) as nat);
                    assert(recs_view(s@).take(i + 1) =~= recs_view(s@.take(i + 1)));
                }
                return Err(e);
            },
        }
        i += 1;
    }
    proof {
        assert(s@.take(s@.len() as int) =~= s@);
    }
    Ok(())
}

/// The reportable change of a reporting configuration: a number (or the
/// bits of a floating point number) or a time, of the attribute's data type,
/// which the configuration names (no identifier byte is read or written).
#[derive(Debug, Clone, PartialEq, Eq)]
pub enum AttributeChangeValue {
    Uint8 { val: u8 },
    Uint16 { val: u16 },
    Uint24 { val: u32 },
    Uint32 { val: u32 },
    Uint40 { val: u64 },
    Uint48 { val: u64 },
    Uint56 { val: u64 },
    Uint64 { val: u64 },
    Int8 { val: i8 },
    Int16 { val: i16 },
    Int24 { val: i32 },
    Int32 { val: i32 },
    Int40 { val: i64 },
    Int48 { val: i64 },
    Int56 { val: i64 },
    Int64 { val: i64 },
    Semi { val: u16 },
    Single { val: u32 },
    Double { val: u64 },
    ToD { h: u8, m: u8, s: u8, cs: u8 },
    Date { y: u8, m: u8, d: u8, dow: u8 },
    UTC { val: u32 },
}

/// Whether a data type can be a reportable change.
pub open spec fn change_type(id: u8) -> bool {
    (0x20 <= id <= 0x2f) || id == 0x38 || id == 0x39 || id == 0x3a || id == 0xe0 || id == 0xe1 || id == 0xe2
}

impl View for AttributeChangeValue {
    type V = AttrV;

    open spec fn view(&self) -> AttrV {
        match self {
            AttributeChangeValue::Uint8 { val } => AttrV { id: 0x20, data: AttrData::Num(*val as int) },
            AttributeChangeValue::Uint16 { val } => AttrV { id: 0x21, data: AttrData::Num(*val as int) },
            AttributeChangeValue::Uint24 { val } => AttrV { id: 0x22, data: AttrData::Num(*val as int) },
            AttributeChangeValue::Uint32 { val } => AttrV { id: 0x23, data: AttrData::Num(*val as int) },
            AttributeChangeValue::Uint40 { val } => AttrV { id: 0x24, data: AttrData::Num(*val as int) },
            AttributeChangeValue::Uint48 { val } => AttrV { id: 0x25, data: AttrData::Num(*val as int) },
            AttributeChangeValue::Uint56 { val } => AttrV { id: 0x26, data: AttrData::Num(*val as int) },
            AttributeChangeValue::Uint64 { val } => AttrV { id: 0x27, data: AttrData::Num(*val as int) },
            AttributeChangeValue::Int8 { val } => AttrV { id: 0x28, data: AttrData::Num(*val as int) },
            AttributeChangeValue::Int16 { val } => AttrV { id: 0x29, data: AttrData::Num(*val as int) },
            AttributeChangeValue::Int24 { val } => AttrV { id: 0x2a, data: AttrData::Num(*val as int) },
            AttributeChangeValue::Int32 { val } => AttrV { id: 0x2b, data: AttrData::Num(*val as int) },
            AttributeChangeValue::Int40 { val } => AttrV { id: 0x2c, data: AttrData::Num(*val as int) },
            AttributeChangeValue::Int48 { val } => AttrV { id: 0x2d, data: AttrData::Num(*val as int) },
            AttributeChangeValue::Int56 { val } => AttrV { id: 0x2e, data: AttrData::Num(*val as int) },
            AttributeChangeValue::Int64 { val } => AttrV { id: 0x2f, data: AttrData::Num(*val as int) },
            AttributeChangeValue::Semi { val } => AttrV { id: 0x38, data: AttrData::Num(*val as int) },
            AttributeChangeValue::Single { val } => AttrV { id: 0x39, data: AttrData::Num(*val as int) },
            AttributeChangeValue::Double { val } => AttrV { id: 0x3a, data: AttrData::Num(*val as int) },
            AttributeChangeValue::ToD { h, m, s, cs } => AttrV { id: 0xe0, data: AttrData::Bytes(seq![*h, *m, *s, *cs]) },
            AttributeChangeValue::Date { y, m, d, dow } => AttrV { id: 0xe1, data: AttrData::Bytes(seq![*y, *m, *d, *dow]) },
            AttributeChangeValue::UTC { val } => AttrV { id: 0xe2, data: AttrData::Num(*val as int) },
        }
    }
}

impl AttributeChangeValue {
    /// The change as an attribute value of its data type.
    pub fn to_value(&self) -> (r: AttributeValue)
        ensures
            r@ == self@,
    {
        match *self {
            AttributeChangeValue::Uint8 { val } => AttributeValue::Uint8 { val },
            AttributeChangeValue::Uint16 { val } => AttributeValue::Uint16 { val },
            AttributeChangeValue::Uint24 { val } => AttributeValue::Uint24 { val },
            AttributeChangeValue::Uint32 { val } => AttributeValue::Uint32 { val },
            AttributeChangeValue::Uint40 { val } => AttributeValue::Uint40 { val },
            AttributeChangeValue::Uint48 { val } => AttributeValue::Uint48 { val },
            AttributeChangeValue::Uint56 { val } => AttributeValue::Uint56 { val },
            AttributeChangeValue::Uint64 { val } => AttributeValue::Uint64 { val },
            AttributeChangeValue::Int8 { val } => AttributeValue::Int8 { val },
            AttributeChangeValue::Int16 { val } => AttributeValue::Int16 { val },
            AttributeChangeValue::Int24 { val } => AttributeValue::Int24 { val },
            AttributeChangeValue::Int32 { val } => AttributeValue::Int32 { val },
            AttributeChangeValue::Int40 { val } => AttributeValue::Int40 { val },
            AttributeChangeValue::Int48 { val } => AttributeValue::Int48 { val },
            AttributeChangeValue::Int56 { val } => AttributeValue::Int56 { val },
            AttributeChangeValue::Int64 { val } => AttributeValue::Int64 { val },
            AttributeChangeValue::Semi { val } => AttributeValue::Semi { val },
            AttributeChangeValue::Single { val } => AttributeValue::Single { val },
            AttributeChangeValue::Double { val } => AttributeValue::Double { val },
            AttributeChangeValue::ToD { h, m, s, cs } => AttributeValue::ToD { h, m, s, cs },
            AttributeChangeValue::Date { y, m, d, dow } => AttributeValue::Date { y, m, d, dow },
            AttributeChangeValue::UTC { val } => AttributeValue::UTC { val },
        }
    }

    /// The change an attribute value of a change type is.
    fn from_value(v: AttributeValue) -> (r: Option<Self>)
        ensures
            change_type(v@.id) ==> (r matches Some(c) && c@ == v@),
    {
        match v {
            AttributeValue::Uint8 { val } => Some(AttributeChangeValue::Uint8 { val }),
            AttributeValue::Uint16 { val } => Some(AttributeChangeValue::Uint16 { val }),
            AttributeValue::Uint24 { val } => Some(AttributeChangeValue::Uint24 { val }),
            AttributeValue::Uint32 { val } => Some(AttributeChangeValue::Uint32 { val }),
            AttributeValue::Uint40 { val } => Some(AttributeChangeValue::Uint40 { val }),
            AttributeValue::Uint48 { val } => Some(AttributeChangeValue::Uint48 { val }),
            AttributeValue::Uint56 { val } => Some(AttributeChangeValue::Uint56 { val }),
            AttributeValue::Uint64 { val } => Some(AttributeChangeValue::Uint64 { val }),
            AttributeValue::Int8 { val } => Some(AttributeChangeValue::Int8 { val }),
            AttributeValue::Int16 { val } => Some(AttributeChangeValue::Int16 { val }),
            AttributeValue::Int24 { val } => Some(AttributeChangeValue::Int24 { val }),
            AttributeValue::Int32 { val } => Some(AttributeChangeValue::Int32 { val }),
            AttributeValue::Int40 { val } => Some(AttributeChangeValue::Int40 { val }),
            AttributeValue::Int48 { val } => Some(AttributeChangeValue::Int48 { val }),
            AttributeValue::Int56 { val } => Some(AttributeChangeValue::Int56 { val }),
            AttributeValue::Int64 { val } => Some(AttributeChangeValue::Int64 { val }),
            AttributeValue::Semi { val } => Some(AttributeChangeValue::Semi { val }),
            AttributeValue::Single { val } => Some(AttributeChangeValue::Single { val }),
            AttributeValue::Double { val } => Some(AttributeChangeValue::Double { val }),
            AttributeValue::ToD { h, m, s, cs } => Some(AttributeChangeValue::ToD { h, m, s, cs }),
            AttributeValue::Date { y, m, d, dow } => Some(AttributeChangeValue::Date { y, m, d, dow }),
            AttributeValue::UTC { val } => Some(AttributeChangeValue::UTC { val }),
            _ => None,
        }
    }
}

// ---------------------------------------------------------------- reporting

/// A reportable change of data type `t` at `p`: the data of that type,
/// with no identifier byte before it.
pub open spec fn change_at(b: Seq<u8>, p: int, t: u8) -> Result<(AttrV, int), FormatError> {
    if !change_type(t) {
        Err(FormatError::UnknownVariant(t))
    } else {
        match data_at(kind_of(t)->Some_0, b, p) {
            Err(e) => Err(e),
            Ok((d, q)) => Ok((AttrV { id: t, data: d }, q)),
        }
    }
}

/// The bytes of a reportable change: its data, with no identifier byte.
pub open spec fn change_bytes(v: AttrV) -> Result<Seq<u8>, FormatError> {
    data_bytes(kind_of(v.id)->Some_0, v.data, field_width(v.id))
}

/// How attribute reports are configured: reported by the device, with the
/// attribute, its data type, the reporting intervals and the change that
/// is reported; or received, with a timeout.
#[derive(Debug, Clone, PartialEq, Eq)]
pub enum ConfigureReportingDirection {
    Report {
        identifier: u16,
        data_type: u8,
        min_interval: u16,
        max_interval: u16,
        change: AttributeChangeValue,
    },
    Receive { timeout: u16 },
}

/// The model of a reporting configuration.
pub enum DirectionV {
    Report { identifier: u16, data_type: u8, min_interval: u16, max_interval: u16, change: AttrV },
    Receive { timeout: u16 },
}

impl View for ConfigureReportingDirection {
    type V = DirectionV;

    open spec fn view(&self) -> DirectionV {
        match self {
            ConfigureReportingDirection::Report {
                identifier,
                data_type,
                min_interval,
                max_interval,
                change,
            } => DirectionV::Report {
                identifier: *identifier,
                data_type: *data_type,
                min_interval: *min_interval,
                max_interval: *max_interval,
                change: change@,
            },
            ConfigureReportingDirection::Receive { timeout } => DirectionV::Receive {
                timeout: *timeout,
            },
        }
    }
}

/// A reporting configuration at `p`: a direction byte, then its fields.
pub open spec fn direction_at(b: Seq<u8>, p: int) -> Result<(DirectionV, int), FormatError> {
    if p >= b.len() {
        Err(FormatError::Incomplete)
    } else if b[p] == 0x00 {
        if p + 8 > b.len() {
            Err(FormatError::Incomplete)
        } else {
            match change_at(b, p + 8, b[p + 3]) {
                Err(e) => Err(e),
                Ok((c, q)) => Ok(
                    (
                        DirectionV::Report {
                            identifier: rd16(b, p + 1),
                            data_type: b[p + 3],
                            min_interval: rd16(b, p + 4),
                            max_interval: rd16(b, p + 6),
                            change: c,
                        },
                        q,
                    ),
                ),
            }
        }
    } else if b[p] == 0x01 {
        if p + 3 > b.len() {
            Err(FormatError::Incomplete)
        } else {
            Ok((DirectionV::Receive { timeout: rd16(b, p + 1) }, p + 3))
        }
    } else {
        Err(FormatError::UnknownVariant(b[p]))
    }
}

/// The bytes of a reporting configuration.
pub open spec fn direction_bytes(d: DirectionV) -> Result<Seq<u8>, FormatError> {
    match d {
        DirectionV::Report { identifier, data_type, min_interval, max_interval, change } => match change_bytes(change) {
            Err(e) => Err(e),
            Ok(c) => Ok(seq![0x00u8] + le16(identifier) + seq![data_type] + le16(min_interval) + le16(max_interval) + c),
        },
        DirectionV::Receive { timeout } => Ok(seq![0x01u8] + le16(timeout)),
    }
}

impl ConfigureReportingDirection {
    /// Reads a reporting configuration at `*pos`, as `direction_at` says.
    pub fn read(b: &[u8], pos: &mut usize) -> (r: Result<Self, FormatError>)
        requires
            *old(pos) <= b.len(),
        ensures
            match direction_at(b@, *old(pos) as int) {
                Ok((v, q)) => r matches Ok(x) && x@ == v && *final(pos) as int == q,
                Err(e) => r == Err::<Self, FormatError>(e),
            },
    {
        let p = *pos;
        if p >= b.len() {
            return Err(FormatError::Incomplete);
        }
        if b[p] == 0x00 {
            if b.len() - p < 8 {
                return Err(FormatError::Incomplete);
            }
            let identifier = read16(b, p + 1);
            let data_type = b[p + 3];
            let min_interval = read16(b, p + 4);
            let max_interval = read16(b, p + 6);
            let is_change = (0x20 <= data_type && data_type <= 0x2f) || data_type == 0x38 || data_type
                == 0x39 || data_type == 0x3a || data_type == 0xe0 || data_type == 0xe1 || data_type
                == 0xe2;
            if !is_change {
                return Err(FormatError::UnknownVariant(data_type));
            }
            *pos = p + 8;
            let v = AttributeValue::read_typed(b, pos, data_type)?;
            match AttributeChangeValue::from_value(v) {
                Some(change) => Ok(
                    ConfigureReportingDirection::Report {
                        identifier,
                        data_type,
                        min_interval,
                        max_interval,
                        change,
                    },
                ),
                None => Err(FormatError::UnknownVariant(data_type)),
            }
        } else if b[p] == 0x01 {
            if b.len() - p < 3 {
                return Err(FormatError::Incomplete);
            }
            *pos = p + 3;
            Ok(ConfigureReportingDirection::Receive { timeout: read16(b, p + 1) })
        } else {
            Err(FormatError::UnknownVariant(b[p]))
        }
    }

    /// Appends the configuration's bytes, as `direction_bytes` says.
    pub fn write(&self, out: &mut Vec<u8>) -> (r: Result<(), FormatError>)
        ensures
            match direction_bytes(self@) {
                Ok(s) => r is Ok && final(out)@ == old(out)@ + s,
                Err(e) => r == Err::<(), FormatError>(e),
            },
    {
        match self {
            ConfigureReportingDirection::Report {
                identifier,
                data_type,
                min_interval,
                max_interval,
                change,
            } => {
                let mut c: Vec<u8> = Vec::new();
                let v = change.to_value();
                match v.write(&mut c) {
                    Ok(()) => {},
                    Err(e) => {
                        return Err(e);
                    },
                }
                proof {
                    assert(c@ =~= seq![v@.id] + change_bytes(change@)->Ok_0);
                }
                out.push(0x00);
                push16(out, *identifier);
                out.push(*data_type);
                push16(out, *min_interval);
                push16(out, *max_interval);
                let cs = &c.as_slice()[1..c.len()];
                proof {
                    assert(cs@ =~= change_bytes(change@)->Ok_0);
                }
                append_bytes(out, cs);
                proof {
                    assert(final(out)@ =~= old(out)@ + (seq![0x00u8] + le16(*identifier) + seq![*data_type]
                        + le16(*min_interval) + le16(*max_interval) + cs@));
                }
                Ok(())
            },
            ConfigureReportingDirection::Receive { timeout } => {
                out.push(0x01);
                push16(out, *timeout);
                proof {
                    assert(final(out)@ =~= old(out)@ + (seq![0x01u8] + le16(*timeout)));
                }
                Ok(())
            },
        }
    }
}

// ---------------------------------------------------------------- general commands

/// The commands every cluster has: reading, writing and reporting
/// attributes, configuring reports; the commands not yet read field by
/// field carry their bytes.
#[derive(Debug, Clone, PartialEq, Eq)]
pub enum GenericCommand {
    ReadAttributes { identifiers: Vec<u16> },
    ReadAttributesResponse { values: Vec<ReadAttributeRecord> },
    WriteAttributes { values: Vec<AttributeRecord> },
    WriteAttributesUndivided { values: Vec<AttributeRecord> },
    WriteAttributesResponse { values: Vec<WriteAttributeStatus> },
    WriteAttributesNoResponse { values: Vec<AttributeRecord> },
    ReportAttributes { values: Vec<AttributeRecord> },
    ConfigureReporting { direction: ConfigureReportingDirection },
    ConfigureReportingResponse { values: Vec<u8> },
    ReadReportingConfiguration { values: Vec<u8> },
    ReadReportingConfigurationResponse { values: Vec<u8> },
    DefaultResponse { values: Vec<u8> },
    DiscoverAttributes { values: Vec<u8> },
    DiscoverAttributesResponse { values: Vec<u8> },
    ReadAttributesStructured { values: Vec<u8> },
    WriteAttributesStructured { values: Vec<u8> },
    WriteAttributesStructuredresponse { values: Vec<u8> },
    DiscoverCommandsReceived { values: Vec<u8> },
    DiscoverCommandsReceivedResponse { values: Vec<u8> },
    DiscoverCommandsGenerated { values: Vec<u8> },
    DiscoverCommandsGeneratedResponse { values: Vec<u8> },
    DiscoverAttributesExtended { values: Vec<u8> },
    DiscoverAttributesExtendedResponse { values: Vec<u8> },
}

/// What a general command carries.
pub enum GenericBody {
    Ids(Seq<u16>),
    ReadRecs(Seq<ReadRecV>),
    Recs(Seq<RecV>),
    Statuses(Seq<WriteAttributeStatus>),
    Configure(DirectionV),
    Raw(Seq<u8>),
}

/// The model of a general command: its identifier and what it carries.
pub struct GenericV {
    pub id: u8,
    pub body: GenericBody,
}

/// Whether a general command identifier carries attribute records.
pub open spec fn carries_recs(id: u8) -> bool {
    id == 0x02 || id == 0x03 || id == 0x05 || id == 0x0a
}

/// Whether a general command identifier carries its bytes unread.
pub open spec fn carries_raw(id: u8) -> bool {
    (0x07 <= id <= 0x09) || (0x0b <= id <= 0x16)
}

impl View for GenericCommand {
    type V = GenericV;

    open spec fn view(&self) -> GenericV {
        match self {
            GenericCommand::ReadAttributes { identifiers } => GenericV { id: 0x00, body: GenericBody::Ids(identifiers@) },
            GenericCommand::ReadAttributesResponse { values } => GenericV { id: 0x01, body: GenericBody::ReadRecs(read_recs_view(values@)) },
            GenericCommand::WriteAttributes { values } => GenericV { id: 0x02, body: GenericBody::Recs(recs_view(values@)) },
            GenericCommand::WriteAttributesUndivided { values } => GenericV { id: 0x03, body: GenericBody::Recs(recs_view(values@)) },
            GenericCommand::WriteAttributesResponse { values } => GenericV { id: 0x04, body: GenericBody::Statuses(values@) },
            GenericCommand::WriteAttributesNoResponse { values } => GenericV { id: 0x05, body: GenericBody::Recs(recs_view(values@)) },
            GenericCommand::ReportAttributes { values } => GenericV { id: 0x0a, body: GenericBody::Recs(recs_view(values@)) },
            GenericCommand::ConfigureReporting { direction } => GenericV { id: 0x06, body: GenericBody::Configure(direction@) },
            GenericCommand::ConfigureReportingResponse { values } => GenericV { id: 0x07, body: GenericBody::Raw(values@) },
            GenericCommand::ReadReportingConfiguration { values } => GenericV { id: 0x08, body: GenericBody::Raw(values@) },
            GenericCommand::ReadReportingConfigurationResponse { values } => GenericV { id: 0x09, body: GenericBody::Raw(values@) },
            GenericCommand::DefaultResponse { values } => GenericV { id: 0x0b, body: GenericBody::Raw(values@) },
            GenericCommand::DiscoverAttributes { values } => GenericV { id: 0x0c, body: GenericBody::Raw(values@) },
            GenericCommand::DiscoverAttributesResponse { values } => GenericV { id: 0x0d, body: GenericBody::Raw(values@) },
            GenericCommand::ReadAttributesStructured { values } => GenericV { id: 0x0e, body: GenericBody::Raw(values@) },
            GenericCommand::WriteAttributesStructured { values } => GenericV { id: 0x0f, body: GenericBody::Raw(values@) },
            GenericCommand::WriteAttributesStructuredresponse { values } => GenericV { id: 0x10, body: GenericBody::Raw(values@) },
            GenericCommand::DiscoverCommandsReceived { values } => GenericV { id: 0x11, body: GenericBody::Raw(values@) },
            GenericCommand::DiscoverCommandsReceivedResponse { values } => GenericV { id: 0x12, body: GenericBody::Raw(values@) },
            GenericCommand::DiscoverCommandsGenerated { values } => GenericV { id: 0x13, body: GenericBody::Raw(values@) },
            GenericCommand::DiscoverCommandsGeneratedResponse { values } => GenericV { id: 0x14, body: GenericBody::Raw(values@) },
            GenericCommand::DiscoverAttributesExtended { values } => GenericV { id: 0x15, body: GenericBody::Raw(values@) },
            GenericCommand::DiscoverAttributesExtendedResponse { values } => GenericV { id: 0x16, body: GenericBody::Raw(values@) },
        }
    }
}

impl GenericCommand {
    fn raw(id: u8, values: Vec<u8>) -> (r: Self)
        requires
            carries_raw(id),
        ensures
            r@ == (GenericV { id, body: GenericBody::Raw(values@) }),
    {
        match id {
            0x07 => GenericCommand::ConfigureReportingResponse { values },
            0x08 => GenericCommand::ReadReportingConfiguration { values },
            0x09 => GenericCommand::ReadReportingConfigurationResponse { values },
            0x0b => GenericCommand::DefaultResponse { values },
            0x0c => GenericCommand::DiscoverAttributes { values },
            0x0d => GenericCommand::DiscoverAttributesResponse { values },
            0x0e => GenericCommand::ReadAttributesStructured { values },
            0x0f => GenericCommand::WriteAttributesStructured { values },
            0x10 => GenericCommand::WriteAttributesStructuredresponse { values },
            0x11 => GenericCommand::DiscoverCommandsReceived { values },
            0x12 => GenericCommand::DiscoverCommandsReceivedResponse { values },
            0x13 => GenericCommand::DiscoverCommandsGenerated { values },
            0x14 => GenericCommand::DiscoverCommandsGeneratedResponse { values },
            0x15 => GenericCommand::DiscoverAttributesExtended { values },
            0x16 => GenericCommand::DiscoverAttributesExtendedResponse { values },
            _ => GenericCommand::DiscoverAttributesExtendedResponse { values },
        }
    }

    fn records(id: u8, values: Vec<AttributeRecord>) -> (r: Self)
        requires
            carries_recs(id),
        ensures
            r@ == (GenericV { id, body: GenericBody::Recs(recs_view(values@)) }),
    {
        match id {
            0x02 => GenericCommand::WriteAttributes { values },
            0x03 => GenericCommand::WriteAttributesUndivided { values },
            0x05 => GenericCommand::WriteAttributesNoResponse { values },
            0x0a => GenericCommand::ReportAttributes { values },
            _ => GenericCommand::ReportAttributes { values },
        }
    }
}

/// A general command read from a whole buffer: its identifier, then what it
/// carries, to the end.
pub open spec fn generic_parse(b: Seq<u8>) -> Result<GenericV, FormatError> {
    if b.len() < 1 {
        Err(FormatError::Incomplete)
    } else {
        let id = b[0];
        if id == 0x00 {
            match ids_from(b, 1) {
                Ok(s) => Ok(GenericV { id, body: GenericBody::Ids(s) }),
                Err(e) => Err(e),
            }
        } else if id == 0x01 {
            match read_recs_from(b, 1) {
                Ok(s) => Ok(GenericV { id, body: GenericBody::ReadRecs(s) }),
                Err(e) => Err(e),
            }
        } else if carries_recs(id) {
            match recs_from(b, 1) {
                Ok(s) => Ok(GenericV { id, body: GenericBody::Recs(s) }),
                Err(e) => Err(e),
            }
        } else if id == 0x04 {
            match statuses_from(b, 1) {
                Ok(s) => Ok(GenericV { id, body: GenericBody::Statuses(s) }),
                Err(e) => Err(e),
            }
        } else if id == 0x06 {
            match direction_at(b, 1) {
                Ok((d, q)) => if q < b.len() {
                    Err(FormatError::TooMuchData)
                } else {
                    Ok(GenericV { id, body: GenericBody::Configure(d) })
                },
                Err(e) => Err(e),
            }
        } else if carries_raw(id) {
            Ok(GenericV { id, body: GenericBody::Raw(b.subrange(1, b.len() as int)) })
        } else {
            Err(FormatError::UnknownVariant(id))
        }
    }
}

/// The bytes of a general command: its identifier, then what it carries.
pub open spec fn generic_bytes(g: GenericV) -> Result<Seq<u8>, FormatError> {
    let body = match g.body {
        GenericBody::Ids(s) => Ok(ids_bytes(s)),
        GenericBody::ReadRecs(s) => read_recs_bytes(s),
        GenericBody::Recs(s) => recs_bytes(s),
        GenericBody::Statuses(s) => Ok(statuses_bytes(s)),
        GenericBody::Configure(d) => direction_bytes(d),
        GenericBody::Raw(s) => Ok(s),
    };
    match body {
        Ok(s) => Ok(seq![g.id] + s),
        Err(e) => Err(e),
    }
}

impl GenericCommand {
    /// Reads a whole buffer as a general command, as `generic_parse` says.
    pub fn from_buf(b: &[u8]) -> (r: Result<Self, FormatError>)
        ensures
            match generic_parse(b@) {
                Ok(v) => r matches Ok(c) && c@ == v,
                Err(e) => r == Err::<Self, FormatError>(e),
            },
    {
        if b.len() < 1 {
            return Err(FormatError::Incomplete);
        }
        let id = b[0];
        if id == 0x00 {
            let identifiers = read_ids(b, 1)?;
            Ok(GenericCommand::ReadAttributes { identifiers })
        } else if id == 0x01 {
            let values = read_read_recs(b, 1)?;
            Ok(GenericCommand::ReadAttributesResponse { values })
        } else if id == 0x02 || id == 0x03 || id == 0x05 || id == 0x0a {
            let values = read_recs(b, 1)?;
            Ok(Self::records(id, values))
        } else if id == 0x04 {
            let values = read_statuses(b, 1)?;
            Ok(GenericCommand::WriteAttributesResponse { values })
        } else if id == 0x06 {
            let mut pos: usize = 1;
            let direction = ConfigureReportingDirection::read(b, &mut pos)?;
            if pos < b.len() {
                return Err(FormatError::TooMuchData);
            }
            Ok(GenericCommand::ConfigureReporting { direction })
        } else if (0x07 <= id && id <= 0x09) || (0x0b <= id && id <= 0x16) {
            let values = vstd::slice::slice_to_vec(&b[1..b.len()]);
            Ok(Self::raw(id, values))
        } else {
            Err(FormatError::UnknownVariant(id))
        }
    }

    /// The bytes of the command, as `generic_bytes` says.
    pub fn to_bytes(&self) -> (r: Result<Vec<u8>, FormatError>)
        ensures
            match generic_bytes(self@) {
                Ok(s) => r matches Ok(v) && v@ == s,
                Err(e) => r == Err::<Vec<u8>, FormatError>(e),
            },
    {
        let mut v: Vec<u8> = Vec::new();
        let id = self.id();
        v.push(id);
        let r = match self {
            GenericCommand::ReadAttributes { identifiers } => {
                write_ids(&mut v, identifiers.as_slice());
                Ok(())
            },
            GenericCommand::ReadAttributesResponse { values } => write_read_recs(&mut v, values.as_slice()),
            GenericCommand::WriteAttributes { values }
            | GenericCommand::WriteAttributesUndivided { values }
            | GenericCommand::WriteAttributesNoResponse { values }
            | GenericCommand::ReportAttributes { values } => write_recs(&mut v, values.as_slice()),
            GenericCommand::WriteAttributesResponse { values } => {
                write_statuses(&mut v, values.as_slice());
                Ok(())
            },
            GenericCommand::ConfigureReporting { direction } => direction.write(&mut v),
            GenericCommand::ConfigureReportingResponse { values }
            | GenericCommand::ReadReportingConfiguration { values }
            | GenericCommand::ReadReportingConfigurationResponse { values }
            | GenericCommand::DefaultResponse { values }
            | GenericCommand::DiscoverAttributes { values }
            | GenericCommand::DiscoverAttributesResponse { values }
            | GenericCommand::ReadAttributesStructured { values }
            | GenericCommand::WriteAttributesStructured { values }
            | GenericCommand::WriteAttributesStructuredresponse { values }
            | GenericCommand::DiscoverCommandsReceived { values }
            | GenericCommand::DiscoverCommandsReceivedResponse { values }
            | GenericCommand::DiscoverCommandsGenerated { values }
            | GenericCommand::DiscoverCommandsGeneratedResponse { values }
            | GenericCommand::DiscoverAttributesExtended { values }
            | GenericCommand::DiscoverAttributesExtendedResponse { values } => {
                append_bytes(&mut v, values.as_slice());
                Ok(())
            },
        };
        match r {
            Ok(()) => Ok(v),
            Err(e) => Err(e),
        }
    }

    /// The command's identifier.
    pub fn id(&self) -> (r: u8)
        ensures
            r == self@.id,
    {
        match self {
            GenericCommand::ReadAttributes { .. } => 0x00,
            GenericCommand::ReadAttributesResponse { .. } => 0x01,
            GenericCommand::WriteAttributes { .. } => 0x02,
            GenericCommand::WriteAttributesUndivided { .. } => 0x03,
            GenericCommand::WriteAttributesResponse { .. } => 0x04,
            GenericCommand::WriteAttributesNoResponse { .. } => 0x05,
            GenericCommand::ConfigureReporting { .. } => 0x06,
            GenericCommand::ConfigureReportingResponse { .. } => 0x07,
            GenericCommand::ReadReportingConfiguration { .. } => 0x08,
            GenericCommand::ReadReportingConfigurationResponse { .. } => 0x09,
            GenericCommand::ReportAttributes { .. } => 0x0a,
            GenericCommand::DefaultResponse { .. } => 0x0b,
            GenericCommand::DiscoverAttributes { .. } => 0x0c,
            GenericCommand::DiscoverAttributesResponse { .. } => 0x0d,
            GenericCommand::ReadAttributesStructured { .. } => 0x0e,
            GenericCommand::WriteAttributesStructured { .. } => 0x0f,
            GenericCommand::WriteAttributesStructuredresponse { .. } => 0x10,
            GenericCommand::DiscoverCommandsReceived { .. } => 0x11,
            GenericCommand::DiscoverCommandsReceivedResponse { .. } => 0x12,
            GenericCommand::DiscoverCommandsGenerated { .. } => 0x13,
            GenericCommand::DiscoverCommandsGeneratedResponse { .. } => 0x14,
            GenericCommand::DiscoverAttributesExtended { .. } => 0x15,
            GenericCommand::DiscoverAttributesExtendedResponse { .. } => 0x16,
        }
    }
}


// ---------------------------------------------------------------- tuya

/// Two bytes, most significant first.
pub open spec fn be16(v: u16) -> Seq<u8> {
    seq![(v / 256) as u8, (v % 256) as u8]
}

/// Four bytes, most significant first.
pub open spec fn be32(v: u32) -> Seq<u8> {
    seq![(v / 0x100_0000) as u8, ((v / 0x1_0000) % 256) as u8, ((v / 256) % 256) as u8, (v % 256) as u8]
}

/// Four bytes, least significant first.
pub open spec fn le32(v: u32) -> Seq<u8> {
    seq![(v % 256) as u8, ((v / 256) % 256) as u8, ((v / 0x1_0000) % 256) as u8, (v / 0x100_0000) as u8]
}

/// The number two bytes at `i` hold, most significant first.
pub open spec fn rdb16(b: Seq<u8>, i: int) -> u16 {
    (256 * b[i] + b[i + 1]) as u16
}

/// The number four bytes at `i` hold, most significant first.
pub open spec fn rdb32(b: Seq<u8>, i: int) -> u32 {
    (0x100_0000 * b[i] + 0x1_0000 * b[i + 1] + 256 * b[i + 2] + b[i + 3]) as u32
}

/// The number four bytes at `i` hold, least significant first.
pub open spec fn rd32(b: Seq<u8>, i: int) -> u32 {
    (b[i] + 256 * b[i + 1] + 0x1_0000 * b[i + 2] + 0x100_0000 * b[i + 3]) as u32
}

fn read_be16(b: &[u8], i: usize) -> (r: u16)
    requires
        i + 1 < b.len(),
    ensures
        r == rdb16(b@, i as int),
{
    256 * b[i] as u16 + b[i + 1] as u16
}

fn read_be32(b: &[u8], i: usize) -> (r: u32)
    requires
        i + 3 < b.len(),
    ensures
        r == rdb32(b@, i as int),
{
    0x100_0000 * b[i] as u32 + 0x1_0000 * b[i + 1] as u32 + 256 * b[i + 2] as u32 + b[i + 3] as u32
}

pub(crate) fn read32(b: &[u8], i: usize) -> (r: u32)
    requires
        i + 3 < b.len(),
    ensures
        r == rd32(b@, i as int),
{
    b[i] as u32 + 256 * b[i + 1] as u32 + 0x1_0000 * b[i + 2] as u32 + 0x100_0000 * b[i + 3] as u32
}

fn push_be16(v: &mut Vec<u8>, x: u16)
    ensures
        final(v)@ == old(v)@ + be16(x),
{
    v.push((x / 256) as u8);
    v.push((x % 256) as u8);
    proof {
        assert(final(v)@ =~= old(v)@ + be16(x));
    }
}

fn push_be32(v: &mut Vec<u8>, x: u32)
    ensures
        final(v)@ == old(v)@ + be32(x),
{
    v.push((x / 0x100_0000) as u8);
    v.push(((x / 0x1_0000) % 256) as u8);
    v.push(((x / 256) % 256) as u8);
    v.push((x % 256) as u8);
    proof {
        assert(final(v)@ =~= old(v)@ + be32(x));
    }
}

pub(crate) fn push32(v: &mut Vec<u8>, x: u32)
    ensures
        final(v)@ == old(v)@ + le32(x),
{
    v.push((x % 256) as u8);
    v.push(((x / 256) % 256) as u8);
    v.push(((x / 0x1_0000) % 256) as u8);
    v.push((x / 0x100_0000) as u8);
    proof {
        assert(final(v)@ =~= old(v)@ + le32(x));
    }
}

/// The value of a Tuya data point: a count (most significant byte first),
/// then bytes, a boolean, a four-byte number (most significant first) or
/// an enumeration byte.
#[derive(Debug, Clone, PartialEq, Eq)]
pub enum DpDataValue {
    Raw { count: u16, value: Vec<u8> },
    Boolean { count: u16, value: bool },
    Value { count: u16, value: u32 },
    String { count: u16, value: Vec<u8> },
    Enum { count: u16, value: u8 },
    Bitmap { count: u16, value: Vec<u8> },
}

/// A Tuya data point: its identifier and its value.
#[derive(Debug, Clone, PartialEq, Eq)]
pub struct DpData {
    pub dp_id: u8,
    pub value: DpDataValue,
}

/// The model of a data point value.
pub enum DpValueV {
    Raw(u16, Seq<u8>),
    Boolean(u16, bool),
    Value(u16, u32),
    String(u16, Seq<u8>),
    Enum(u16, u8),
    Bitmap(u16, Seq<u8>),
}

/// The model of a data point.
pub struct DpV {
    pub dp_id: u8,
    pub value: DpValueV,
}

impl View for DpDataValue {
    type V = DpValueV;

    open spec fn view(&self) -> DpValueV {
        match self {
            DpDataValue::Raw { count, value } => DpValueV::Raw(*count, value@),
            DpDataValue::Boolean { count, value } => DpValueV::Boolean(*count, *value),
            DpDataValue::Value { count, value } => DpValueV::Value(*count, *value),
            DpDataValue::String { count, value } => DpValueV::String(*count, value@),
            DpDataValue::Enum { count, value } => DpValueV::Enum(*count, *value),
            DpDataValue::Bitmap { count, value } => DpValueV::Bitmap(*count, value@),
        }
    }
}

impl View for DpData {
    type V = DpV;

    open spec fn view(&self) -> DpV {
        DpV { dp_id: self.dp_id, value: self.value@ }
    }
}

/// A data point at `p`: its identifier, its type, its count, then its
/// value.
pub open spec fn dp_at(b: Seq<u8>, p: int) -> Result<(DpV, int), FormatError> {
    if p + 2 > b.len() {
        Err(FormatError::Incomplete)
    } else {
        let t = b[p + 1];
        if t > 5 {
            Err(FormatError::UnknownVariant(t))
        } else if p + 4 > b.len() {
            Err(FormatError::Incomplete)
        } else {
            let count = rdb16(b, p + 2);
            let q = p + 4;
            if t == 0 || t == 3 || t == 5 {
                if q + count > b.len() {
                    Err(FormatError::Incomplete)
                } else {
                    let s = b.subrange(q, q + count);
                    Ok(
                        (
                            DpV {
                                dp_id: b[p],
                                value: if t == 0 {
                                    DpValueV::Raw(count, s)
                                } else if t == 3 {
                                    DpValueV::String(count, s)
                                } else {
                                    DpValueV::Bitmap(count, s)
                                },
                            },
                            q + count,
                        ),
                    )
                }
            } else if t == 1 {
                if q + 1 > b.len() {
                    Err(FormatError::Incomplete)
                } else if b[q] > 1 {
                    Err(FormatError::BadBool(b[q]))
                } else {
                    Ok((DpV { dp_id: b[p], value: DpValueV::Boolean(count, b[q] == 1) }, q + 1))
                }
            } else if t == 2 {
                if q + 4 > b.len() {
                    Err(FormatError::Incomplete)
                } else {
                    Ok((DpV { dp_id: b[p], value: DpValueV::Value(count, rdb32(b, q)) }, q + 4))
                }
            } else {
                if q + 1 > b.len() {
                    Err(FormatError::Incomplete)
                } else {
                    Ok((DpV { dp_id: b[p], value: DpValueV::Enum(count, b[q]) }, q + 1))
                }
            }
        }
    }
}

/// A data point value as an attribute value: raw bytes and bitmaps as
/// long octet strings, text as a long string, a number as 32 bits of data,
/// an enum as an 8 bit enum.
pub open spec fn dp_attribute(v: DpDataValue) -> AttributeValue {
    match v {
        DpDataValue::Raw { count, value } => AttributeValue::Octstr16 { count, val: value },
        DpDataValue::Boolean { value, .. } => AttributeValue::Bool { val: value },
        DpDataValue::Value { value, .. } => AttributeValue::Data32 { val: value },
        DpDataValue::String { count, value } => AttributeValue::String16 { count, val: value },
        DpDataValue::Enum { value, .. } => AttributeValue::Enum8 { val: value },
        DpDataValue::Bitmap { count, value } => AttributeValue::Octstr16 { count, val: value },
    }
}

impl From<DpDataValue> for AttributeValue {
    fn from(v: DpDataValue) -> (r: AttributeValue) {
        match v {
            DpDataValue::Raw { count, value } => AttributeValue::Octstr16 { count, val: value },
            DpDataValue::Boolean { value, .. } => AttributeValue::Bool { val: value },
            DpDataValue::Value { value, .. } => AttributeValue::Data32 { val: value },
            DpDataValue::String { count, value } => AttributeValue::String16 { count, val: value },
            DpDataValue::Enum { value, .. } => AttributeValue::Enum8 { val: value },
            DpDataValue::Bitmap { count, value } => AttributeValue::Octstr16 { count, val: value },
        }
    }
}

impl vstd::std_specs::convert::FromSpecImpl<DpDataValue> for AttributeValue {
    open spec fn obeys_from_spec() -> bool {
        true
    }

    open spec fn from_spec(v: DpDataValue) -> AttributeValue {
        dp_attribute(v)
    }
}

/// The bytes of a data point.
pub open spec fn dp_bytes(d: DpV) -> Seq<u8> {
    seq![d.dp_id] + match d.value {
        DpValueV::Raw(c, s) => seq![0u8] + be16(c) + s,
        DpValueV::Boolean(c, f) => seq![1u8] + be16(c) + seq![
            if f {
                1u8
            } else {
                0u8
            },
        ],
        DpValueV::Value(c, x) => seq![2u8] + be16(c) + be32(x),
        DpValueV::String(c, s) => seq![3u8] + be16(c) + s,
        DpValueV::Enum(c, x) => seq![4u8] + be16(c) + seq![x],
        DpValueV::Bitmap(c, s) => seq![5u8] + be16(c) + s,
    }
}

impl DpData {
    /// Reads a data point at `*pos`, as `dp_at` says.
    pub fn read(b: &[u8], pos: &mut usize) -> (r: Result<Self, FormatError>)
        requires
            *old(pos) <= b.len(),
        ensures
            match dp_at(b@, *old(pos) as int) {
                Ok((v, q)) => r matches Ok(x) && x@ == v && *final(pos) as int == q,
                Err(e) => r == Err::<Self, FormatError>(e),
            },
    {
        let p = *pos;
        let n = b.len();
        if n - p < 2 {
            return Err(FormatError::Incomplete);
        }
        let dp_id = b[p];
        let t = b[p + 1];
        if t > 5 {
            return Err(FormatError::UnknownVariant(t));
        }
        if n - p < 4 {
            return Err(FormatError::Incomplete);
        }
        let count = read_be16(b, p + 2);
        let q = p + 4;
        let value = if t == 0 || t == 3 || t == 5 {
            if n - q < count as usize {
                return Err(FormatError::Incomplete);
            }
            let s = vstd::slice::slice_to_vec(&b[q..q + count as usize]);
            *pos = q + count as usize;
            if t == 0 {
                DpDataValue::Raw { count, value: s }
            } else if t == 3 {
                DpDataValue::String { count, value: s }
            } else {
                DpDataValue::Bitmap { count, value: s }
            }
        } else if t == 1 {
            if n - q < 1 {
                return Err(FormatError::Incomplete);
            }
            if b[q] > 1 {
                return Err(FormatError::BadBool(b[q]));
            }
            *pos = q + 1;
            DpDataValue::Boolean { count, value: b[q] == 1 }
        } else if t == 2 {
            if n - q < 4 {
                return Err(FormatError::Incomplete);
            }
            *pos = q + 4;
            DpDataValue::Value { count, value: read_be32(b, q) }
        } else {
            if n - q < 1 {
                return Err(FormatError::Incomplete);
            }
            *pos = q + 1;
            DpDataValue::Enum { count, value: b[q] }
        };
        Ok(DpData { dp_id, value })
    }

    /// Appends the data point's bytes, as `dp_bytes` says.
    pub fn write(&self, out: &mut Vec<u8>)
        ensures
            final(out)@ == old(out)@ + dp_bytes(self@),
    {
        out.push(self.dp_id);
        let ghost m = out@;
        match &self.value {
            DpDataValue::Raw { count, value } => {
                out.push(0);
                push_be16(out, *count);
                append_bytes(out, value.as_slice());
            },
            DpDataValue::Boolean { count, value } => {
                out.push(1);
                push_be16(out, *count);
                out.push(
                    if *value {
                        1
                    } else {
                        0
                    },
                );
            },
            DpDataValue::Value { count, value } => {
                out.push(2);
                push_be16(out, *count);
                push_be32(out, *value);
            },
            DpDataValue::String { count, value } => {
                out.push(3);
                push_be16(out, *count);
                append_bytes(out, value.as_slice());
            },
            DpDataValue::Enum { count, value } => {
                out.push(4);
                push_be16(out, *count);
                out.push(*value);
            },
            DpDataValue::Bitmap { count, value } => {
                out.push(5);
                push_be16(out, *count);
                append_bytes(out, value.as_slice());
            },
        }
        proof {
            assert(final(out)@ =~= old(out)@ + dp_bytes(self@));
        }
    }
}

/// The commands of the Tuya cluster.
#[derive(Debug, Clone, PartialEq, Eq)]
pub enum TuyaCommand {
    TyDataRequest { sequence_number: u16, data: DpData },
    TyDataResponse { sequence_number: u16, data: DpData },
    TyDataReport { sequence_number: u16, data: DpData },
    TyDataQuery,
    TuyaMcuVersionReq { sequence_number: u16 },
    TuyaMcuVersionRsp { sequence_number: u16, version: u8 },
    TuyaMcuOtaNotify,
    TuyaOtaBlockDataReq,
    TuyaOtaBlockDataRsp {
        sequence_number: u16,
        status: u8,
        key: [u8; 8],
        version: u8,
        offset: u32,
        image_data: Vec<u8>,
    },
    TuyaMcuOtaResult { sequence_number: u16, status: u8, key: [u8; 8], version: u8 },
    TuyaMcuSyncTime { sequence_number: u16, standard_timestamp: u32, local_timestamp: u32 },
}

/// The model of a Tuya command: its identifier, its fixed fields' bytes,
/// its data point, and its trailing image bytes.
pub struct TuyaV {
    pub id: u8,
    pub fields: Seq<u8>,
    pub data: Option<DpV>,
    pub tail: Seq<u8>,
}

impl View for TuyaCommand {
    type V = TuyaV;

    open spec fn view(&self) -> TuyaV {
        match self {
            TuyaCommand::TyDataRequest { sequence_number, data } => TuyaV {
                id: 0x00,
                fields: le16(*sequence_number),
                data: Some(data@),
                tail: Seq::empty(),
            },
            TuyaCommand::TyDataResponse { sequence_number, data } => TuyaV {
                id: 0x01,
                fields: le16(*sequence_number),
                data: Some(data@),
                tail: Seq::empty(),
            },
            TuyaCommand::TyDataReport { sequence_number, data } => TuyaV {
                id: 0x02,
                fields: le16(*sequence_number),
                data: Some(data@),
                tail: Seq::empty(),
            },
            TuyaCommand::TyDataQuery => TuyaV { id: 0x03, fields: Seq::empty(), data: None, tail: Seq::empty() },
            TuyaCommand::TuyaMcuVersionReq { sequence_number } => TuyaV {
                id: 0x10,
                fields: le16(*sequence_number),
                data: None,
                tail: Seq::empty(),
            },
            TuyaCommand::TuyaMcuVersionRsp { sequence_number, version } => TuyaV {
                id: 0x11,
                fields: le16(*sequence_number) + seq![*version],
                data: None,
                tail: Seq::empty(),
            },
            TuyaCommand::TuyaMcuOtaNotify => TuyaV { id: 0x12, fields: Seq::empty(), data: None, tail: Seq::empty() },
            TuyaCommand::TuyaOtaBlockDataReq => TuyaV { id: 0x13, fields: Seq::empty(), data: None, tail: Seq::empty() },
            TuyaCommand::TuyaOtaBlockDataRsp { sequence_number, status, key, version, offset, image_data } =>
                TuyaV {
                id: 0x14,
                fields: le16(*sequence_number) + seq![*status] + key@ + seq![*version] + le32(*offset),
                data: None,
                tail: image_data@,
            },
            TuyaCommand::TuyaMcuOtaResult { sequence_number, status, key, version } => TuyaV {
                id: 0x15,
                fields: le16(*sequence_number) + seq![*status] + key@ + seq![*version],
                data: None,
                tail: Seq::empty(),
            },
            TuyaCommand::TuyaMcuSyncTime { sequence_number, standard_timestamp, local_timestamp } => TuyaV {
                id: 0x24,
                fields: le16(*sequence_number) + le32(*standard_timestamp) + le32(*local_timestamp),
                data: None,
                tail: Seq::empty(),
            },
        }
    }
}

/// The number of fixed field bytes of a Tuya command, for the identifiers
/// there are.
pub open spec fn tuya_width(id: u8) -> Option<nat> {
    if id == 0x00 || id == 0x01 || id == 0x02 || id == 0x10 {
        Some(2)
    } else if id == 0x03 || id == 0x12 || id == 0x13 {
        Some(0)
    } else if id == 0x11 {
        Some(3)
    } else if id == 0x14 {
        Some(16)
    } else if id == 0x15 {
        Some(12)
    } else if id == 0x24 {
        Some(10)
    } else {
        None
    }
}

/// A Tuya command read from a whole buffer.
pub open spec fn tuya_parse(b: Seq<u8>) -> Result<TuyaV, FormatError> {
    if b.len() < 1 {
        Err(FormatError::Incomplete)
    } else {
        let id = b[0];
        match tuya_width(id) {
            None => Err(FormatError::UnknownVariant(id)),
            Some(w) => if b.len() < 1 + w {
                Err(FormatError::Incomplete)
            } else {
                let fields = b.subrange(1, 1 + w as int);
                if id <= 0x02 {
                    match dp_at(b, 1 + w as int) {
                        Err(e) => Err(e),
                        Ok((d, q)) => if q < b.len() {
                            Err(FormatError::TooMuchData)
                        } else {
                            Ok(TuyaV { id, fields, data: Some(d), tail: Seq::empty() })
                        },
                    }
                } else if id == 0x14 {
                    Ok(TuyaV { id, fields, data: None, tail: b.subrange(1 + w as int, b.len() as int) })
                } else if b.len() > 1 + w {
                    Err(FormatError::TooMuchData)
                } else {
                    Ok(TuyaV { id, fields, data: None, tail: Seq::empty() })
                }
            },
        }
    }
}

/// The bytes of a Tuya command.
pub open spec fn tuya_bytes(c: TuyaV) -> Seq<u8> {
    seq![c.id] + c.fields + match c.data {
        Some(d) => dp_bytes(d),
        None => Seq::empty(),
    } + c.tail
}

impl TuyaCommand {
    /// Reads a whole buffer as a Tuya command, as `tuya_parse` says.
    pub fn from_buf(b: &[u8]) -> (r: Result<Self, FormatError>)
        ensures
            match tuya_parse(b@) {
                Ok(v) => r matches Ok(c) && c@ == v,
                Err(e) => r == Err::<Self, FormatError>(e),
            },
    {
        let n = b.len();
        if n < 1 {
            return Err(FormatError::Incomplete);
        }
        let id = b[0];
        let w: usize = if id == 0x00 || id == 0x01 || id == 0x02 || id == 0x10 {
            2
        } else if id == 0x03 || id == 0x12 || id == 0x13 {
            0
        } else if id == 0x11 {
            3
        } else if id == 0x14 {
            16
        } else if id == 0x15 {
            12
        } else if id == 0x24 {
            10
        } else {
            return Err(FormatError::UnknownVariant(id));
        };
        if n < 1 + w {
            return Err(FormatError::Incomplete);
        }
        if id <= 0x02 {
            let sequence_number = read16(b, 1);
            let mut pos: usize = 3;
            let data = DpData::read(b, &mut pos)?;
            if pos < n {
                return Err(FormatError::TooMuchData);
            }
            proof {
                assert(le16(sequence_number) =~= b@.subrange(1, 3));
            }
            return Ok(
                if id == 0x00 {
                    TuyaCommand::TyDataRequest { sequence_number, data }
                } else if id == 0x01 {
                    TuyaCommand::TyDataResponse { sequence_number, data }
                } else {
                    TuyaCommand::TyDataReport { sequence_number, data }
                },
            );
        }
        if id == 0x14 {
            let sequence_number = read16(b, 1);
            let status = b[3];
            let mut key = [0u8; 8];
            copy_into(&mut key, b, 4);
            let version = b[12];
            let offset = read32(b, 13);
            let image_data = vstd::slice::slice_to_vec(&b[17..n]);
            proof {
                lemma_le32_rd32(b@, 13);
                assert(le16(sequence_number) + seq![status] + key@ + seq![version] + le32(offset) =~= b@.subrange(1, 17));
            }
            return Ok(TuyaCommand::TuyaOtaBlockDataRsp { sequence_number, status, key, version, offset, image_data });
        }
        if n > 1 + w {
            return Err(FormatError::TooMuchData);
        }
        Ok(Self::fixed_from(b))
    }

    /// A command made of its identifier and its fixed fields only, the whole
    /// of `b`.
    fn fixed_from(b: &[u8]) -> (r: Self)
        requires
            b.len() >= 1,
            b[0] != 0x00 && b[0] != 0x01 && b[0] != 0x02 && b[0] != 0x14,
            tuya_width(b[0]) matches Some(w) && b.len() == 1 + w,
        ensures
            r@ == (TuyaV { id: b@[0], fields: b@.subrange(1, b.len() as int), data: None, tail: Seq::empty() }),
    {
        let id = b[0];
        let c = if id == 0x03 {
            TuyaCommand::TyDataQuery
        } else if id == 0x12 {
            TuyaCommand::TuyaMcuOtaNotify
        } else if id == 0x13 {
            TuyaCommand::TuyaOtaBlockDataReq
        } else if id == 0x10 {
            let sequence_number = read16(b, 1);
            proof {
                assert(le16(sequence_number) =~= b@.subrange(1, 3));
            }
            TuyaCommand::TuyaMcuVersionReq { sequence_number }
        } else if id == 0x11 {
            let sequence_number = read16(b, 1);
            proof {
                assert(le16(sequence_number) + seq![b@[3]] =~= b@.subrange(1, 4));
            }
            TuyaCommand::TuyaMcuVersionRsp { sequence_number, version: b[3] }
        } else if id == 0x15 {
            let sequence_number = read16(b, 1);
            let mut key = [0u8; 8];
            copy_into(&mut key, b, 4);
            proof {
                assert(le16(sequence_number) + seq![b@[3]] + key@ + seq![b@[12]] =~= b@.subrange(1, 13));
            }
            TuyaCommand::TuyaMcuOtaResult { sequence_number, status: b[3], key, version: b[12] }
        } else {
            let sequence_number = read16(b, 1);
            let standard_timestamp = read32(b, 3);
            let local_timestamp = read32(b, 7);
            proof {
                lemma_le32_rd32(b@, 3);
                lemma_le32_rd32(b@, 7);
                assert(le16(sequence_number) + le32(standard_timestamp) + le32(local_timestamp) =~= b@.subrange(1, 11));
            }
            TuyaCommand::TuyaMcuSyncTime { sequence_number, standard_timestamp, local_timestamp }
        };
        proof {
            if id == 0x03 || id == 0x12 || id == 0x13 {
                assert(b@.subrange(1, 1) =~= Seq::<u8>::empty());
            }
        }
        c
    }

    /// The bytes of the command, as `tuya_bytes` says.
    pub fn to_bytes(&self) -> (r: Vec<u8>)
        ensures
            r@ == tuya_bytes(self@),
    {
        let mut v: Vec<u8> = Vec::new();
        match self {
            TuyaCommand::TyDataRequest { sequence_number, data } => {
                v.push(0x00);
                push16(&mut v, *sequence_number);
                data.write(&mut v);
            },
            TuyaCommand::TyDataResponse { sequence_number, data } => {
                v.push(0x01);
                push16(&mut v, *sequence_number);
                data.write(&mut v);
            },
            TuyaCommand::TyDataReport { sequence_number, data } => {
                v.push(0x02);
                push16(&mut v, *sequence_number);
                data.write(&mut v);
            },
            TuyaCommand::TyDataQuery => v.push(0x03),
            TuyaCommand::TuyaMcuVersionReq { sequence_number } => {
                v.push(0x10);
                push16(&mut v, *sequence_number);
            },
            TuyaCommand::TuyaMcuVersionRsp { sequence_number, version } => {
                v.push(0x11);
                push16(&mut v, *sequence_number);
                v.push(*version);
            },
            TuyaCommand::TuyaMcuOtaNotify => v.push(0x12),
            TuyaCommand::TuyaOtaBlockDataReq => v.push(0x13),
            TuyaCommand::TuyaOtaBlockDataRsp { sequence_number, status, key, version, offset, image_data } => {
                v.push(0x14);
                push16(&mut v, *sequence_number);
                v.push(*status);
                append_bytes(&mut v, key);
                v.push(*version);
                push32(&mut v, *offset);
                append_bytes(&mut v, image_data.as_slice());
            },
            TuyaCommand::TuyaMcuOtaResult { sequence_number, status, key, version } => {
                v.push(0x15);
                push16(&mut v, *sequence_number);
                v.push(*status);
                append_bytes(&mut v, key);
                v.push(*version);
            },
            TuyaCommand::TuyaMcuSyncTime { sequence_number, standard_timestamp, local_timestamp } => {
                v.push(0x24);
                push16(&mut v, *sequence_number);
                push32(&mut v, *standard_timestamp);
                push32(&mut v, *local_timestamp);
            },
        }
        proof {
            assert(v@ =~= tuya_bytes(self@));
        }
        v
    }
}

proof fn lemma_le32_rd32(b: Seq<u8>, i: int)
    requires
        0 <= i,
        i + 3 < b.len(),
    ensures
        le32(rd32(b, i)) == b.subrange(i, i + 4),
{
    let (a0, a1, a2, a3) = (b[i] as int, b[i + 1] as int, b[i + 2] as int, b[i + 3] as int);
    let x: int = a0 + 256 * a1 + 0x1_0000 * a2 + 0x100_0000 * a3;
    assert(rd32(b, i) == x);
    let hi: int = a1 + 256 * a2 + 0x1_0000 * a3;
    vstd::arithmetic::div_mod::lemma_fundamental_div_mod_converse(x, 256, hi, a0);
    vstd::arithmetic::div_mod::lemma_fundamental_div_mod_converse(hi, 256, a2 + 256 * a3, a1);
    vstd::arithmetic::div_mod::lemma_fundamental_div_mod_converse(x, 0x1_0000, a2 + 256 * a3, a0 + 256 * a1);
    vstd::arithmetic::div_mod::lemma_fundamental_div_mod_converse(a2 + 256 * a3, 256, a3, a2);
    vstd::arithmetic::div_mod::lemma_fundamental_div_mod_converse(x, 0x100_0000, a3, a0 + 256 * a1 + 0x1_0000 * a2);
    assert(le32(rd32(b, i)) =~= b.subrange(i, i + 4));
}

// ---------------------------------------------------------------- Tuya laws

proof fn lemma_rdb16_be16(x: u16, pre: Seq<u8>, post: Seq<u8>)
    ensures
        be16(x).len() == 2,
        rdb16(pre + be16(x) + post, pre.len() as int) == x,
{
    let b = pre + be16(x) + post;
    assert(b[pre.len() as int] == (x / 256) as u8);
    assert(b[pre.len() + 1int] == (x % 256) as u8);
}

proof fn lemma_be32_digits(x: u32)
    by (bit_vector)
    ensures
        0x100_0000 * (x / 0x100_0000) + 0x1_0000 * ((x / 0x1_0000) % 256) + 256 * ((x / 256) % 256) + x % 256
            == x,
{
}

proof fn lemma_rdb32_be32(x: u32, pre: Seq<u8>, post: Seq<u8>)
    ensures
        be32(x).len() == 4,
        rdb32(pre + be32(x) + post, pre.len() as int) == x,
{
    let b = pre + be32(x) + post;
    let i = pre.len() as int;
    lemma_be32_digits(x);
    assert(b[i] == x / 0x100_0000);
    assert(b[i + 1] == (x / 0x1_0000) % 256);
    assert(b[i + 2] == (x / 256) % 256);
    assert(b[i + 3] == x % 256);
}

/// Whether a data point's count is the length of the bytes it counts.
pub open spec fn dp_fits(d: DpV) -> bool {
    match d.value {
        DpValueV::Raw(c, s) => s.len() == c,
        DpValueV::String(c, s) => s.len() == c,
        DpValueV::Bitmap(c, s) => s.len() == c,
        _ => true,
    }
}

/// A data point whose count is the length of its bytes is read back from
/// its bytes, wherever they stand.
#[verifier::spinoff_prover]
#[verifier::rlimit(30)]
proof fn lemma_dp_roundtrip(d: DpV, pre: Seq<u8>, post: Seq<u8>)
    requires
        dp_fits(d),
    ensures
        dp_at(pre + dp_bytes(d) + post, pre.len() as int) == Ok::<(DpV, int), FormatError>(
            (d, pre.len() + dp_bytes(d).len() as int),
        ),
{
    let p = pre.len() as int;
    let b = pre + dp_bytes(d) + post;
    let head = pre + seq![d.dp_id];
    match d.value {
        DpValueV::Raw(c, v) => {
            lemma_rdb16_be16(c, head + seq![0u8], v + post);
            assert(b =~= head + seq![0u8] + be16(c) + (v + post));
            assert(b.subrange(p + 4, p + 4 + c) =~= v);
        },
        DpValueV::Boolean(c, f) => {
            let x = if f {
                1u8
            } else {
                0u8
            };
            lemma_rdb16_be16(c, head + seq![1u8], seq![x] + post);
            assert(b =~= head + seq![1u8] + be16(c) + (seq![x] + post));
        },
        DpValueV::Value(c, x) => {
            lemma_rdb16_be16(c, head + seq![2u8], be32(x) + post);
            assert(b =~= head + seq![2u8] + be16(c) + (be32(x) + post));
            lemma_rdb32_be32(x, head + seq![2u8] + be16(c), post);
            assert(b =~= head + seq![2u8] + be16(c) + be32(x) + post);
        },
        DpValueV::String(c, v) => {
            lemma_rdb16_be16(c, head + seq![3u8], v + post);
            assert(b =~= head + seq![3u8] + be16(c) + (v + post));
            assert(b.subrange(p + 4, p + 4 + c) =~= v);
        },
        DpValueV::Enum(c, x) => {
            lemma_rdb16_be16(c, head + seq![4u8], seq![x] + post);
            assert(b =~= head + seq![4u8] + be16(c) + (seq![x] + post));
        },
        DpValueV::Bitmap(c, v) => {
            lemma_rdb16_be16(c, head + seq![5u8], v + post);
            assert(b =~= head + seq![5u8] + be16(c) + (v + post));
            assert(b.subrange(p + 4, p + 4 + c) =~= v);
        },
    }
}

/// Every Tuya command whose data point, if any, counts its bytes right is
/// read back from its bytes.
pub proof fn lemma_tuya_roundtrip(c: TuyaCommand)
    requires
        c@.data matches Some(d) ==> dp_fits(d),
    ensures
        tuya_parse(tuya_bytes(c@)) == Ok::<TuyaV, FormatError>(c@),
{
    let v = c@;
    let b = tuya_bytes(v);
    let w = v.fields.len() as int;
    assert(tuya_width(v.id) == Some(w as nat));
    assert(b.subrange(1, 1 + w) =~= v.fields);
    match v.data {
        Some(d) => {
            lemma_dp_roundtrip(d, seq![v.id] + v.fields, Seq::empty());
            assert(b =~= seq![v.id] + v.fields + dp_bytes(d) + Seq::<u8>::empty());
        },
        None => {
            if v.id == 0x14 {
                assert(b.subrange(1 + w, b.len() as int) =~= v.tail);
            } else {
                assert(v.tail =~= Seq::<u8>::empty());
            }
        },
    }
}

} // verus!
