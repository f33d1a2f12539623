//! Zigbee Device Profile frames: a sequence number and a ZDO command, the
//! command numbered by the cluster it was sent on (profile 0). The node
//! descriptor, match descriptor, device announce and bind requests are read
//! and written field by field, least significant byte first; a command on
//! another cluster is kept as its bytes.

use vstd::prelude::*;
use crate::zigbee::zcl_command::{
    append_bytes, FormatError, ids_bytes, le16, le_bytes, le_value, rd16, read16, push16, read_le, push_le, write_ids,
    lemma_le_value_bytes, lemma_pow256_8, lemma_le_value_bound, lemma_rd16_le16,
};
use crate::websocket::pow256;

verus! {

/// Errors of the ZDP layer.
#[derive(Debug, Clone, Copy, PartialEq, Eq, Structural)]
pub enum Error {
    /// The bytes are no command of the cluster, or the command cannot be
    /// written.
    Format(FormatError),
    NotImplemented,
    BufferTooSmall,
}

// ---------------------------------------------------------------- numbers

/// Eight bytes, least significant first.
pub open spec fn le64(v: u64) -> Seq<u8> {
    le_bytes(v as nat, 8)
}

/// The number eight bytes at `p` hold, least significant first.
pub open spec fn rd64(b: Seq<u8>, p: int) -> u64 {
    le_value(b.subrange(p, p + 8)) as u64
}

pub(crate) fn read64(b: &[u8], p: usize) -> (r: u64)
    requires
        p + 8 <= b.len(),
    ensures
        r == rd64(b@, p as int),
{
    read_le(b, p, 8)
}

pub(crate) fn push64(v: &mut Vec<u8>, x: u64)
    ensures
        final(v)@ == old(v)@ + le64(x),
{
    push_le(v, x, 8)
}

/// Eight bytes written and read back give the number.
proof fn lemma_rd64_le64(x: u64, pre: Seq<u8>, post: Seq<u8>)
    ensures
        le64(x).len() == 8,
        rd64(pre + le64(x) + post, pre.len() as int) == x,
{
    lemma_le_value_bytes(x as nat, 8);
    lemma_pow256_8(8);
    let b = pre + le64(x) + post;
    assert(b.subrange(pre.len() as int, pre.len() + 8int) =~= le64(x));
}

/// The `n` numbers of two bytes each at `p`.
pub open spec fn u16s_at(b: Seq<u8>, p: int, n: nat) -> Seq<u16> {
    Seq::new(n, |k: int| rd16(b, p + 2 * k))
}

/// The bytes of numbers of two bytes each are read back at their places.
proof fn lemma_u16s_bytes(s: Seq<u16>, pre: Seq<u8>, post: Seq<u8>)
    ensures
        ids_bytes(s).len() == 2 * s.len(),
        u16s_at(pre + ids_bytes(s) + post, pre.len() as int, s.len()) == s,
    decreases s.len(),
{
    if s.len() > 0 {
        let init = s.drop_last();
        let tail = le16(s.last()) + post;
        lemma_u16s_bytes(init, pre, tail);
        let b = pre + ids_bytes(s) + post;
        assert(b =~= pre + ids_bytes(init) + tail);
        lemma_rd16_le16(s.last(), pre + ids_bytes(init), post);
        assert(b =~= pre + ids_bytes(init) + le16(s.last()) + post);
        let got = u16s_at(b, pre.len() as int, s.len());
        assert forall|k: int| 0 <= k < s.len() implies got[k] == s[k] by {
            if k < init.len() {
                assert(u16s_at(b, pre.len() as int, init.len())[k] == init[k]);
            }
        }
        assert(got =~= s);
    } else {
        assert(u16s_at(pre + ids_bytes(s) + post, pre.len() as int, 0) =~= s);
    }
}

/// Reads `n` numbers of two bytes each at `p`.
fn read_u16s(b: &[u8], p: usize, n: usize) -> (r: Vec<u16>)
    requires
        p + 2 * n <= b.len(),
    ensures
        r@ == u16s_at(b@, p as int, n as nat),
{
    let mut v: Vec<u16> = Vec::new();
    let mut k: usize = 0;
    while k < n
        invariant
            k <= n,
            p + 2 * n <= b.len(),
            v@ == u16s_at(b@, p as int, k as nat),
        decreases n - k,
    {
        let x = read16(b, p + 2 * k);
        v.push(x);
        k += 1;
        proof {
            assert(v@ =~= u16s_at(b@, p as int, k as nat));
        }
    }
    v
}

// ---------------------------------------------------------------- commands

/// A node descriptor request.
#[derive(Debug, Clone, Copy, PartialEq, Eq, Structural)]
pub struct ZdoNodeDescReq {
    pub nwk_addr_of_interest: u16,
}

/// A match descriptor request: the input clusters are read one byte each,
/// the output clusters two bytes each, each list as many as its count.
#[derive(Debug, Clone, PartialEq, Eq)]
pub struct ZdoMatchDescReq {
    pub nwk_addr_of_interest: u16,
    pub profile_id: u16,
    pub num_in_clusters: u8,
    pub in_cluster_list: Vec<u8>,
    pub num_out_clusters: u8,
    pub out_cluster_list: Vec<u16>,
}

/// The model of a match descriptor request.
pub struct MatchV {
    pub nwk_addr_of_interest: u16,
    pub profile_id: u16,
    pub num_in_clusters: u8,
    pub in_cluster_list: Seq<u8>,
    pub num_out_clusters: u8,
    pub out_cluster_list: Seq<u16>,
}

impl View for ZdoMatchDescReq {
    type V = MatchV;

    open spec fn view(&self) -> MatchV {
        MatchV {
            nwk_addr_of_interest: self.nwk_addr_of_interest,
            profile_id: self.profile_id,
            num_in_clusters: self.num_in_clusters,
            in_cluster_list: self.in_cluster_list@,
            num_out_clusters: self.num_out_clusters,
            out_cluster_list: self.out_cluster_list@,
        }
    }
}

/// The capability byte of a device announce, most significant bit first:
/// alternate address allocation, security, two unused bits, receiver on
/// when idle, power source, device type (one bit), alternate PAN
/// coordinator.
#[derive(Debug, Clone, Copy, PartialEq, Eq, Structural)]
pub struct ZdoCabability {
    pub allocate_address: bool,
    pub security_capability: bool,
    pub receiver_on_when_idle: bool,
    pub power_source: bool,
    pub device_type: u8,
    pub alternate_pan_coordinator: bool,
}

/// A device announce.
#[derive(Debug, Clone, Copy, PartialEq, Eq, Structural)]
pub struct ZdoDeviceAnnce {
    pub nwk_addr: u16,
    pub ieee_addr: u64,
    pub capability: ZdoCabability,
}

/// The destination of a bind request: a group (mode 1) or a device and
/// its endpoint (mode 3).
#[derive(Debug, Clone, Copy, PartialEq, Eq, Structural)]
pub enum BindReqAddr {
    Short { dst_addr: u16 },
    Long { dst_addr: u64, dst_endp: u8 },
}

/// A bind request.
#[derive(Debug, Clone, Copy, PartialEq, Eq, Structural)]
pub struct ZdoBindReq {
    pub src_address: u64,
    pub src_endp: u8,
    pub cluster_id: u16,
    pub dst_addr: BindReqAddr,
}

impl Default for ZdoBindReq {
    /// All numbers 0, the destination a device.
    fn default() -> (r: Self)
        ensures
            r == (ZdoBindReq {
                src_address: 0,
                src_endp: 0,
                cluster_id: 0,
                dst_addr: BindReqAddr::Long { dst_addr: 0, dst_endp: 0 },
            }),
    {
        ZdoBindReq { src_address: 0, src_endp: 0, cluster_id: 0, dst_addr: BindReqAddr::Long { dst_addr: 0, dst_endp: 0 } }
    }
}

/// The bytes of a command this library does not read.
#[derive(Debug, Clone, PartialEq, Eq)]
pub struct ZdoRaw {
    pub data: Vec<u8>,
}

/// A ZDO command.
#[derive(Debug, Clone, PartialEq, Eq)]
pub enum ZdoCommand {
    NodeDescReq(ZdoNodeDescReq),
    MatchDescReq(ZdoMatchDescReq),
    DeviceAnnce(ZdoDeviceAnnce),
    BindReq(ZdoBindReq),
    Raw(ZdoRaw),
}

/// The model of a ZDO command.
pub enum ZdoV {
    NodeDescReq(ZdoNodeDescReq),
    MatchDescReq(MatchV),
    DeviceAnnce(ZdoDeviceAnnce),
    BindReq(ZdoBindReq),
    Raw(Seq<u8>),
}

impl View for ZdoCommand {
    type V = ZdoV;

    open spec fn view(&self) -> ZdoV {
        match self {
            ZdoCommand::NodeDescReq(c) => ZdoV::NodeDescReq(*c),
            ZdoCommand::MatchDescReq(c) => ZdoV::MatchDescReq(c@),
            ZdoCommand::DeviceAnnce(c) => ZdoV::DeviceAnnce(*c),
            ZdoCommand::BindReq(c) => ZdoV::BindReq(*c),
            ZdoCommand::Raw(c) => ZdoV::Raw(c.data@),
        }
    }
}

// ---------------------------------------------------------------- reading

/// A whole buffer read as a node descriptor request.
pub open spec fn node_desc_parse(b: Seq<u8>) -> Result<ZdoNodeDescReq, FormatError> {
    if b.len() < 2 {
        Err(FormatError::Incomplete)
    } else if b.len() > 2 {
        Err(FormatError::TooMuchData)
    } else {
        Ok(ZdoNodeDescReq { nwk_addr_of_interest: rd16(b, 0) })
    }
}

/// A whole buffer read as a match descriptor request.
pub open spec fn match_parse(b: Seq<u8>) -> Result<MatchV, FormatError> {
    if b.len() < 5 {
        Err(FormatError::Incomplete)
    } else {
        let ni = b[4] as int;
        if b.len() < 6 + ni {
            Err(FormatError::Incomplete)
        } else {
            let no = b[5 + ni] as int;
            if b.len() < 6 + ni + 2 * no {
                Err(FormatError::Incomplete)
            } else if b.len() > 6 + ni + 2 * no {
                Err(FormatError::TooMuchData)
            } else {
                Ok(
                    MatchV {
                        nwk_addr_of_interest: rd16(b, 0),
                        profile_id: rd16(b, 2),
                        num_in_clusters: b[4],
                        in_cluster_list: b.subrange(5, 5 + ni),
                        num_out_clusters: b[5 + ni],
                        out_cluster_list: u16s_at(b, 6 + ni, no as nat),
                    },
                )
            }
        }
    }
}

/// The capability byte read bit by bit; the two unused bits are dropped.
pub open spec fn cap_of(x: u8) -> ZdoCabability {
    ZdoCabability {
        allocate_address: (x / 128) % 2 == 1,
        security_capability: (x / 64) % 2 == 1,
        receiver_on_when_idle: (x / 8) % 2 == 1,
        power_source: (x / 4) % 2 == 1,
        device_type: ((x / 2) % 2) as u8,
        alternate_pan_coordinator: x % 2 == 1,
    }
}

/// A whole buffer read as a device announce.
pub open spec fn annce_parse(b: Seq<u8>) -> Result<ZdoDeviceAnnce, FormatError> {
    if b.len() < 11 {
        Err(FormatError::Incomplete)
    } else if b.len() > 11 {
        Err(FormatError::TooMuchData)
    } else {
        Ok(ZdoDeviceAnnce { nwk_addr: rd16(b, 0), ieee_addr: rd64(b, 2), capability: cap_of(b[10]) })
    }
}

/// A whole buffer read as a bind request: the destination mode byte
/// tells which destination follows.
pub open spec fn bind_parse(b: Seq<u8>) -> Result<ZdoBindReq, FormatError> {
    if b.len() < 12 {
        Err(FormatError::Incomplete)
    } else {
        let mode = b[11];
        let end: int = if mode == 1 {
            14
        } else {
            21
        };
        if mode != 1 && mode != 3 {
            Err(FormatError::UnknownVariant(mode))
        } else if b.len() < end {
            Err(FormatError::Incomplete)
        } else if b.len() > end {
            Err(FormatError::TooMuchData)
        } else {
            Ok(
                ZdoBindReq {
                    src_address: rd64(b, 0),
                    src_endp: b[8],
                    cluster_id: rd16(b, 9),
                    dst_addr: if mode == 1 {
                        BindReqAddr::Short { dst_addr: rd16(b, 12) }
                    } else {
                        BindReqAddr::Long { dst_addr: rd64(b, 12), dst_endp: b[20] }
                    },
                },
            )
        }
    }
}

/// A result of a command reader, as a command.
pub open spec fn as_zdo<T>(r: Result<T, FormatError>, f: spec_fn(T) -> ZdoV) -> Result<ZdoV, FormatError> {
    match r {
        Ok(x) => Ok(f(x)),
        Err(e) => Err(e),
    }
}

/// A command read from the bytes sent on a cluster: the node descriptor
/// (2), match descriptor (6), device announce (0x13) and bind (0x21)
/// requests are read; the bytes of any other are kept.
pub open spec fn zdo_parse(b: Seq<u8>, cluster_id: u16) -> Result<ZdoV, FormatError> {
    if cluster_id == 0x0002 {
        as_zdo(node_desc_parse(b), |c: ZdoNodeDescReq| ZdoV::NodeDescReq(c))
    } else if cluster_id == 0x0006 {
        as_zdo(match_parse(b), |c: MatchV| ZdoV::MatchDescReq(c))
    } else if cluster_id == 0x0013 {
        as_zdo(annce_parse(b), |c: ZdoDeviceAnnce| ZdoV::DeviceAnnce(c))
    } else if cluster_id == 0x0021 {
        as_zdo(bind_parse(b), |c: ZdoBindReq| ZdoV::BindReq(c))
    } else {
        Ok(ZdoV::Raw(b))
    }
}

/// The cluster a command is sent on; 0 for a command kept as bytes.
pub open spec fn zdo_cluster(c: ZdoV) -> u16 {
    match c {
        ZdoV::NodeDescReq(_) => 0x0002,
        ZdoV::MatchDescReq(_) => 0x0006,
        ZdoV::DeviceAnnce(_) => 0x0013,
        ZdoV::BindReq(_) => 0x0021,
        ZdoV::Raw(_) => 0x0000,
    }
}

impl ZdoNodeDescReq {
    /// Reads a whole buffer, as `node_desc_parse` says.
    pub fn from_buf(b: &[u8]) -> (r: Result<Self, FormatError>)
        ensures
            r == node_desc_parse(b@),
    {
        if b.len() < 2 {
            Err(FormatError::Incomplete)
        } else if b.len() > 2 {
            Err(FormatError::TooMuchData)
        } else {
            Ok(ZdoNodeDescReq { nwk_addr_of_interest: read16(b, 0) })
        }
    }
}

impl ZdoMatchDescReq {
    /// Reads a whole buffer, as `match_parse` says.
    pub fn from_buf(b: &[u8]) -> (r: Result<Self, FormatError>)
        ensures
            match match_parse(b@) {
                Ok(v) => r matches Ok(c) && c@ == v,
                Err(e) => r == Err::<Self, FormatError>(e),
            },
    {
        let n = b.len();
        if n < 5 {
            return Err(FormatError::Incomplete);
        }
        let ni = b[4] as usize;
        if n < 6 + ni {
            return Err(FormatError::Incomplete);
        }
        let no = b[5 + ni] as usize;
        if n < 6 + ni + 2 * no {
            return Err(FormatError::Incomplete);
        }
        if n > 6 + ni + 2 * no {
            return Err(FormatError::TooMuchData);
        }
        let in_cluster_list = vstd::slice::slice_to_vec(&b[5..5 + ni]);
        let out_cluster_list = read_u16s(b, 6 + ni, no);
        proof {
            assert(in_cluster_list@ =~= b@.subrange(5, 5 + ni));
        }
        Ok(
            ZdoMatchDescReq {
                nwk_addr_of_interest: read16(b, 0),
                profile_id: read16(b, 2),
                num_in_clusters: b[4],
                in_cluster_list,
                num_out_clusters: b[5 + ni],
                out_cluster_list,
            },
        )
    }
}

impl ZdoCabability {
    /// Reads the capability byte, as `cap_of` says.
    pub fn from_byte(x: u8) -> (r: Self)
        ensures
            r == cap_of(x),
    {
        ZdoCabability {
            allocate_address: (x / 128) % 2 == 1,
            security_capability: (x / 64) % 2 == 1,
            receiver_on_when_idle: (x / 8) % 2 == 1,
            power_source: (x / 4) % 2 == 1,
            device_type: (x / 2) % 2,
            alternate_pan_coordinator: x % 2 == 1,
        }
    }
}

impl ZdoDeviceAnnce {
    /// Reads a whole buffer, as `annce_parse` says.
    pub fn from_buf(b: &[u8]) -> (r: Result<Self, FormatError>)
        ensures
            r == annce_parse(b@),
    {
        if b.len() < 11 {
            Err(FormatError::Incomplete)
        } else if b.len() > 11 {
            Err(FormatError::TooMuchData)
        } else {
            Ok(
                ZdoDeviceAnnce {
                    nwk_addr: read16(b, 0),
                    ieee_addr: read64(b, 2),
                    capability: ZdoCabability::from_byte(b[10]),
                },
            )
        }
    }
}

impl ZdoBindReq {
    /// Reads a whole buffer, as `bind_parse` says.
    pub fn from_buf(b: &[u8]) -> (r: Result<Self, FormatError>)
        ensures
            r == bind_parse(b@),
    {
        let n = b.len();
        if n < 12 {
            return Err(FormatError::Incomplete);
        }
        let mode = b[11];
        if mode != 1 && mode != 3 {
            return Err(FormatError::UnknownVariant(mode));
        }
        let end: usize = if mode == 1 {
            14
        } else {
            21
        };
        if n < end {
            return Err(FormatError::Incomplete);
        }
        if n > end {
            return Err(FormatError::TooMuchData);
        }
        let dst_addr = if mode == 1 {
            BindReqAddr::Short { dst_addr: read16(b, 12) }
        } else {
            BindReqAddr::Long { dst_addr: read64(b, 12), dst_endp: b[20] }
        };
        Ok(ZdoBindReq { src_address: read64(b, 0), src_endp: b[8], cluster_id: read16(b, 9), dst_addr })
    }
}

impl ZdoCommand {
    /// The command that keeps some bytes.
    pub fn raw(value: Vec<u8>) -> (r: Self)
        ensures
            r@ == ZdoV::Raw(value@),
    {
        ZdoCommand::Raw(ZdoRaw { data: value })
    }

    /// Reads the bytes sent on a cluster, as `zdo_parse` says.
    pub fn from_buf(buf: &[u8], cluster_id: u16) -> (r: Result<Self, Error>)
        ensures
            match zdo_parse(buf@, cluster_id) {
                Ok(v) => r matches Ok(c) && c@ == v,
                Err(e) => r == Err::<Self, Error>(Error::Format(e)),
            },
    {
        if cluster_id == 0x0002 {
            match ZdoNodeDescReq::from_buf(buf) {
                Ok(c) => Ok(ZdoCommand::NodeDescReq(c)),
                Err(e) => Err(Error::Format(e)),
            }
        } else if cluster_id == 0x0006 {
            match ZdoMatchDescReq::from_buf(buf) {
                Ok(c) => Ok(ZdoCommand::MatchDescReq(c)),
                Err(e) => Err(Error::Format(e)),
            }
        } else if cluster_id == 0x0013 {
            match ZdoDeviceAnnce::from_buf(buf) {
                Ok(c) => Ok(ZdoCommand::DeviceAnnce(c)),
                Err(e) => Err(Error::Format(e)),
            }
        } else if cluster_id == 0x0021 {
            match ZdoBindReq::from_buf(buf) {
                Ok(c) => Ok(ZdoCommand::BindReq(c)),
                Err(e) => Err(Error::Format(e)),
            }
        } else {
            Ok(ZdoCommand::Raw(ZdoRaw { data: vstd::slice::slice_to_vec(buf) }))
        }
    }

    /// The cluster the command is sent on, as `zdo_cluster` says.
    pub fn get_cluster_id(&self) -> (r: u16)
        ensures
            r == zdo_cluster(self@),
    {
        match self {
            ZdoCommand::NodeDescReq(_) => 0x0002,
            ZdoCommand::MatchDescReq(_) => 0x0006,
            ZdoCommand::DeviceAnnce(_) => 0x0013,
            ZdoCommand::BindReq(_) => 0x0021,
            ZdoCommand::Raw(_) => 0x0000,
        }
    }
}

// ---------------------------------------------------------------- writing

/// The bytes of a match descriptor request: the lists are written whole,
/// whatever their counts say.
pub open spec fn match_bytes(m: MatchV) -> Seq<u8> {
    le16(m.nwk_addr_of_interest) + le16(m.profile_id) + seq![m.num_in_clusters] + m.in_cluster_list + seq![
        m.num_out_clusters,
    ] + ids_bytes(m.out_cluster_list)
}

/// The capability byte; a device type that does not fit its one bit is
/// refused.
pub open spec fn cap_byte(c: ZdoCabability) -> Result<u8, FormatError> {
    if c.device_type > 1 {
        Err(FormatError::TooWide)
    } else {
        Ok(
            ((if c.allocate_address {
                128int
            } else {
                0
            }) + (if c.security_capability {
                64int
            } else {
                0
            }) + (if c.receiver_on_when_idle {
                8int
            } else {
                0
            }) + (if c.power_source {
                4int
            } else {
                0
            }) + 2 * c.device_type + (if c.alternate_pan_coordinator {
                1int
            } else {
                0
            })) as u8,
        )
    }
}

/// The bytes of a device announce.
pub open spec fn annce_bytes(a: ZdoDeviceAnnce) -> Result<Seq<u8>, FormatError> {
    match cap_byte(a.capability) {
        Ok(x) => Ok(le16(a.nwk_addr) + le64(a.ieee_addr) + seq![x]),
        Err(e) => Err(e),
    }
}

/// The bytes of a bind destination: its mode, then its fields.
pub open spec fn bind_addr_bytes(a: BindReqAddr) -> Seq<u8> {
    match a {
        BindReqAddr::Short { dst_addr } => seq![1u8] + le16(dst_addr),
        BindReqAddr::Long { dst_addr, dst_endp } => seq![3u8] + le64(dst_addr) + seq![dst_endp],
    }
}

/// The bytes of a bind request.
pub open spec fn bind_bytes(r: ZdoBindReq) -> Seq<u8> {
    le64(r.src_address) + seq![r.src_endp] + le16(r.cluster_id) + bind_addr_bytes(r.dst_addr)
}

/// The bytes of a command: its fields only, no identifier.
pub open spec fn zdo_bytes(c: ZdoV) -> Result<Seq<u8>, FormatError> {
    match c {
        ZdoV::NodeDescReq(n) => Ok(le16(n.nwk_addr_of_interest)),
        ZdoV::MatchDescReq(m) => Ok(match_bytes(m)),
        ZdoV::DeviceAnnce(a) => annce_bytes(a),
        ZdoV::BindReq(r) => Ok(bind_bytes(r)),
        ZdoV::Raw(s) => Ok(s),
    }
}

impl ZdoCabability {
    /// The capability byte, as `cap_byte` says.
    pub fn to_byte(&self) -> (r: Result<u8, FormatError>)
        ensures
            r == cap_byte(*self),
    {
        if self.device_type > 1 {
            return Err(FormatError::TooWide);
        }
        let mut x: u8 = 2 * self.device_type;
        if self.allocate_address {
            x = x + 128;
        }
        if self.security_capability {
            x = x + 64;
        }
        if self.receiver_on_when_idle {
            x = x + 8;
        }
        if self.power_source {
            x = x + 4;
        }
        if self.alternate_pan_coordinator {
            x = x + 1;
        }
        Ok(x)
    }
}

impl ZdoCommand {
    /// Writes the command's fields, as `zdo_bytes` says; nothing is written
    /// where it is refused.
    pub fn write(&self, out: &mut Vec<u8>) -> (r: Result<(), FormatError>)
        ensures
            match zdo_bytes(self@) {
                Ok(s) => r is Ok && final(out)@ == old(out)@ + s,
                Err(e) => r == Err::<(), FormatError>(e) && final(out)@ == old(out)@,
            },
    {
        match self {
            ZdoCommand::NodeDescReq(n) => push16(out, n.nwk_addr_of_interest),
            ZdoCommand::MatchDescReq(m) => {
                push16(out, m.nwk_addr_of_interest);
                push16(out, m.profile_id);
                out.push(m.num_in_clusters);
                append_bytes(out, m.in_cluster_list.as_slice());
                out.push(m.num_out_clusters);
                write_ids(out, m.out_cluster_list.as_slice());
            },
            ZdoCommand::DeviceAnnce(a) => {
                let x = a.capability.to_byte()?;
                push16(out, a.nwk_addr);
                push64(out, a.ieee_addr);
                out.push(x);
            },
            ZdoCommand::BindReq(b) => {
                push64(out, b.src_address);
                out.push(b.src_endp);
                push16(out, b.cluster_id);
                match b.dst_addr {
                    BindReqAddr::Short { dst_addr } => {
                        out.push(1);
                        push16(out, dst_addr);
                    },
                    BindReqAddr::Long { dst_addr, dst_endp } => {
                        out.push(3);
                        push64(out, dst_addr);
                        out.push(dst_endp);
                    },
                }
            },
            ZdoCommand::Raw(raw) => append_bytes(out, raw.data.as_slice()),
        }
        proof {
            match zdo_bytes(self@) {
                Ok(s) => assert(final(out)@ =~= old(out)@ + s),
                Err(_) => {},
            }
        }
        Ok(())
    }
}

// ---------------------------------------------------------------- frames

/// A ZDP frame: the cluster (command number) it was sent on, its sequence
/// number and its command.
#[derive(Debug, Clone)]
pub struct ZdpFrame {
    pub command_no: u16,
    pub sequence_number: u8,
    pub command: ZdoCommand,
}

impl ZdpFrame {
    /// Reads a ZDP frame sent on `cluster_id`: a sequence number, then the
    /// command, as `zdo_parse` says.
    pub fn from_buf(buf: &[u8], cluster_id: u16) -> (r: Result<Self, Error>)
        ensures
            buf@.len() == 0 ==> r == Err::<Self, Error>(Error::BufferTooSmall),
            buf@.len() > 0 ==> match zdo_parse(buf@.skip(1), cluster_id) {
                Ok(c) => r matches Ok(f) && f.command_no == cluster_id && f.sequence_number == buf@[0]
                    && f.command@ == c,
                Err(e) => r == Err::<Self, Error>(Error::Format(e)),
            },
    {
        if buf.len() == 0 {
            return Err(Error::BufferTooSmall);
        }
        let rest = &buf[1..buf.len()];
        proof {
            assert(rest@ =~= buf@.skip(1));
        }
        let command = ZdoCommand::from_buf(rest, cluster_id)?;
        Ok(ZdpFrame { command_no: cluster_id, sequence_number: buf[0], command })
    }

    /// The frame that carries a command: on its cluster, sequence number 0.
    pub fn from_command(command: ZdoCommand) -> (r: Self)
        ensures
            r.command_no == zdo_cluster(command@),
            r.sequence_number == 0,
            r.command@ == command@,
    {
        ZdpFrame { command_no: command.get_cluster_id(), sequence_number: 0, command }
    }

    /// Writes the frame: the sequence number, then the command's fields
    /// (the command number is not written).
    pub fn to_bytes(&self) -> (r: Result<Vec<u8>, Error>)
        ensures
            match zdo_bytes(self.command@) {
                Ok(s) => r matches Ok(v) && v@ == seq![self.sequence_number] + s,
                Err(e) => r == Err::<Vec<u8>, Error>(Error::Format(e)),
            },
    {
        let mut v: Vec<u8> = Vec::new();
        v.push(self.sequence_number);
        match self.command.write(&mut v) {
            Ok(()) => Ok(v),
            Err(e) => Err(Error::Format(e)),
        }
    }
}

// ---------------------------------------------------------------- laws

/// A capability byte that can be written is read back as the capability.
proof fn lemma_cap_roundtrip(c: ZdoCabability)
    requires
        c.device_type <= 1,
    ensures
        cap_byte(c) matches Ok(x) && cap_of(x) == c,
{
    let x: int = (if c.allocate_address {
        128int
    } else {
        0
    }) + (if c.security_capability {
        64int
    } else {
        0
    }) + (if c.receiver_on_when_idle {
        8int
    } else {
        0
    }) + (if c.power_source {
        4int
    } else {
        0
    }) + 2 * c.device_type + (if c.alternate_pan_coordinator {
        1int
    } else {
        0
    });
    assert(0 <= x < 256);
    let y = x as u8;
    assert(y == x);
    assert((y / 128) % 2 == 1 <==> c.allocate_address);
    assert((y / 64) % 2 == 1 <==> c.security_capability);
    assert((y / 8) % 2 == 1 <==> c.receiver_on_when_idle);
    assert((y / 4) % 2 == 1 <==> c.power_source);
    assert((y / 2) % 2 == c.device_type);
    assert(y % 2 == 1 <==> c.alternate_pan_coordinator);
}

/// A match descriptor request whose lists are as long as their counts is
/// read back from its bytes.
proof fn lemma_match_roundtrip(m: MatchV)
    requires
        m.in_cluster_list.len() == m.num_in_clusters,
        m.out_cluster_list.len() == m.num_out_clusters,
    ensures
        match_parse(match_bytes(m)) == Ok::<MatchV, FormatError>(m),
{
    let b = match_bytes(m);
    let ni = m.num_in_clusters as int;
    let pre = le16(m.nwk_addr_of_interest) + le16(m.profile_id) + seq![m.num_in_clusters] + m.in_cluster_list
        + seq![m.num_out_clusters];
    lemma_u16s_bytes(m.out_cluster_list, pre, Seq::empty());
    assert(b =~= pre + ids_bytes(m.out_cluster_list) + Seq::<u8>::empty());
    lemma_rd16_le16(m.nwk_addr_of_interest, Seq::empty(), b.skip(2));
    assert(b =~= Seq::<u8>::empty() + le16(m.nwk_addr_of_interest) + b.skip(2));
    lemma_rd16_le16(m.profile_id, le16(m.nwk_addr_of_interest), b.skip(4));
    assert(b =~= le16(m.nwk_addr_of_interest) + le16(m.profile_id) + b.skip(4));
    assert(b[4] == m.num_in_clusters);
    assert(b[5 + ni] == m.num_out_clusters);
    assert(b.subrange(5, 5 + ni) =~= m.in_cluster_list);
}

/// A bind request is read back from its bytes.
proof fn lemma_bind_roundtrip(r: ZdoBindReq)
    ensures
        bind_parse(bind_bytes(r)) == Ok::<ZdoBindReq, FormatError>(r),
{
    let b = bind_bytes(r);
    lemma_rd64_le64(r.src_address, Seq::empty(), b.skip(8));
    assert(b =~= Seq::<u8>::empty() + le64(r.src_address) + b.skip(8));
    lemma_rd16_le16(r.cluster_id, b.take(9), b.skip(11));
    assert(b =~= b.take(9) + le16(r.cluster_id) + b.skip(11));
    match r.dst_addr {
        BindReqAddr::Short { dst_addr } => {
            lemma_rd16_le16(dst_addr, b.take(12), Seq::empty());
            assert(b =~= b.take(12) + le16(dst_addr) + Seq::<u8>::empty());
        },
        BindReqAddr::Long { dst_addr, dst_endp } => {
            lemma_rd64_le64(dst_addr, b.take(12), b.skip(20));
            assert(b =~= b.take(12) + le64(dst_addr) + b.skip(20));
        },
    }
}

/// A device announce that can be written is read back from its bytes.
proof fn lemma_annce_roundtrip(a: ZdoDeviceAnnce)
    requires
        a.capability.device_type <= 1,
    ensures
        annce_bytes(a) matches Ok(b) && annce_parse(b) == Ok::<ZdoDeviceAnnce, FormatError>(a),
{
    lemma_cap_roundtrip(a.capability);
    let x = cap_byte(a.capability)->Ok_0;
    let b = le16(a.nwk_addr) + le64(a.ieee_addr) + seq![x];
    lemma_rd64_le64(a.ieee_addr, le16(a.nwk_addr), seq![x]);
    lemma_rd16_le16(a.nwk_addr, Seq::empty(), le64(a.ieee_addr) + seq![x]);
    assert(b =~= Seq::<u8>::empty() + le16(a.nwk_addr) + (le64(a.ieee_addr) + seq![x]));
}

/// Every ZDO command that can be written, with a match descriptor
/// request's lists as long as their counts, is read back from its bytes
/// on its own cluster; and so is a whole frame, after its sequence number.
pub proof fn lemma_zdo_roundtrip(c: ZdoV, sequence_number: u8)
    requires
        c matches ZdoV::MatchDescReq(m) ==> m.in_cluster_list.len() == m.num_in_clusters
            && m.out_cluster_list.len() == m.num_out_clusters,
        c matches ZdoV::DeviceAnnce(a) ==> a.capability.device_type <= 1,
    ensures
        zdo_bytes(c) matches Ok(s) && zdo_parse(s, zdo_cluster(c)) == Ok::<ZdoV, FormatError>(c)
            && zdo_parse((seq![sequence_number] + s).skip(1), zdo_cluster(c)) == Ok::<ZdoV, FormatError>(c),
{
    match c {
        ZdoV::NodeDescReq(n) => {
            lemma_rd16_le16(n.nwk_addr_of_interest, Seq::empty(), Seq::empty());
            assert(le16(n.nwk_addr_of_interest) =~= Seq::<u8>::empty() + le16(n.nwk_addr_of_interest) + Seq::<
                u8,
            >::empty());
        },
        ZdoV::MatchDescReq(m) => lemma_match_roundtrip(m),
        ZdoV::DeviceAnnce(a) => lemma_annce_roundtrip(a),
        ZdoV::BindReq(r) => lemma_bind_roundtrip(r),
        ZdoV::Raw(_) => {},
    }
    let s = zdo_bytes(c)->Ok_0;
    assert((seq![sequence_number] + s).skip(1) =~= s);
}

} // verus!
