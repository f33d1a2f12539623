use vstd::prelude::*;
use vstd::string::{StringExecFns, StringSliceAdditionalSpecFns};
use vstd::utf8::encode_utf8;
use base64::Engine;
use crate::http::{HttpConnection, HeaderEntries, add_header, first_header, content_length_after, lower};

verus! {

/// Websocket frame opcode (RFC 6455, section 5.2).
#[derive(Debug, Clone, Copy, PartialEq, Eq, Structural)]
pub enum Opcode {
    Continuation,
    Text,
    Binary,
    ConnectionClose,
    Ping,
    Pong,
    Other(u8),
}

impl Opcode {
    /// The opcode that a 4-bit opcode field (or any byte) denotes.
    pub open spec fn spec_from_u8(b: u8) -> Opcode {
        match b {
            0 => Opcode::Continuation,
            1 => Opcode::Text,
            2 => Opcode::Binary,
            8 => Opcode::ConnectionClose,
            9 => Opcode::Ping,
            10 => Opcode::Pong,
            o => Opcode::Other(o),
        }
    }

    /// The byte value of an opcode.
    pub open spec fn spec_to_u8(self) -> u8 {
        match self {
            Opcode::Continuation => 0,
            Opcode::Text => 1,
            Opcode::Binary => 2,
            Opcode::ConnectionClose => 8,
            Opcode::Ping => 9,
            Opcode::Pong => 10,
            Opcode::Other(o) => o,
        }
    }

    pub fn from_u8(b: u8) -> (r: Self)
        ensures
            r == Self::spec_from_u8(b),
    {
        match b {
            0 => Self::Continuation,
            1 => Self::Text,
            2 => Self::Binary,
            8 => Self::ConnectionClose,
            9 => Self::Ping,
            10 => Self::Pong,
            o => Self::Other(o),
        }
    }

    pub fn to_u8(&self) -> (r: u8)
        ensures
            r == self.spec_to_u8(),
    {
        match self {
            Self::Continuation => 0,
            Self::Text => 1,
            Self::Binary => 2,
            Self::ConnectionClose => 8,
            Self::Ping => 9,
            Self::Pong => 10,
            Self::Other(o) => *o,
        }
    }
}

/// Reading a byte back as an opcode gives the same byte: `to_u8(from_u8(b)) == b`.
pub proof fn lemma_opcode_byte_roundtrip(b: u8)
    ensures
        Opcode::spec_from_u8(b).spec_to_u8() == b,
{
}

/// The byte after the opcode byte: the payload length itself up to 125,
/// else 126 (two more length bytes) or, past `0xffff`, 127.
pub open spec fn len_byte(n: nat) -> u8 {
    if n > 125 {
        if n > 0xffff {
            127
        } else {
            126
        }
    } else {
        n as u8
    }
}

/// The extended payload length, most significant byte first: past 125 and
/// up to `0xffff`, two bytes; past `0xffff`, six bytes.
pub open spec fn ext_len_bytes(n: nat) -> Seq<u8> {
    if n > 0xffff {
        seq![
            ((n / 72057594037927936) % 256) as u8,
            ((n / 281474976710656) % 256) as u8,
            ((n / 1099511627776) % 256) as u8,
            ((n / 4294967296) % 256) as u8,
            ((n / 16777216) % 256) as u8,
            ((n / 65536) % 256) as u8,
            ((n / 256) % 256) as u8,
            (n % 256) as u8,
        ]
    } else if n > 125 {
        seq![((n / 256) % 256) as u8, (n % 256) as u8]
    } else {
        Seq::empty()
    }
}

/// The bytes that go before the payload of an unmasked, unfragmented
/// frame.
pub open spec fn frame_head_bytes(op: Opcode, n: nat) -> Seq<u8> {
    seq![(0x80 + op.spec_to_u8()) as u8, len_byte(n)] + ext_len_bytes(n)
}

/// The bytes that go before the payload of a frame the server sends:
/// FIN set, the opcode, the payload length (not masked).
pub fn frame_head(opcode: Opcode, payload_len: usize) -> (r: Vec<u8>)
    requires
        opcode.spec_to_u8() < 128,
    ensures
        r@ == frame_head_bytes(opcode, payload_len as nat),
{
    let mut r: Vec<u8> = Vec::new();
    let fin: u8 = 0b10000000;
    r.push(fin + opcode.to_u8());
    r.push(
        if payload_len > 125 {
            if payload_len > 0xffff {
                127
            } else {
                126
            }
        } else {
            payload_len as u8
        },
    );
    let n: u64 = payload_len as u64;
    if n > 0xffff {
        r.push(((n / 72057594037927936) % 256) as u8);
        r.push(((n / 281474976710656) % 256) as u8);
        r.push(((n / 1099511627776) % 256) as u8);
        r.push(((n / 4294967296) % 256) as u8);
        r.push(((n / 16777216) % 256) as u8);
        r.push(((n / 65536) % 256) as u8);
        r.push(((n / 256) % 256) as u8);
        r.push((n % 256) as u8);
    } else if n > 125 {
        r.push(((n / 256) % 256) as u8);
        r.push((n % 256) as u8);
    }
    proof {
        assert(r@ =~= frame_head_bytes(opcode, payload_len as nat));
    }
    r
}

/// The fields of the first two bytes of a frame: FIN, the opcode, and
/// whether the payload is masked.
pub fn frame_head_fields(b0: u8, b1: u8) -> (r: (bool, Opcode, bool))
    ensures
        r.0 == (b0 & 0b10000000 == 0b10000000),
        r.1 == Opcode::spec_from_u8(b0 & 0b00001111),
        r.2 == (b1 & 0b10000000 == 0b10000000),
{
    (b0 & 0b10000000 == 0b10000000, Opcode::from_u8(b0 & 0b00001111), b1 & 0b10000000 == 0b10000000)
}

/// The number of extended payload length bytes that follow the second
/// byte of a frame: none up to 125, else 2 (for 126) or 8 (for 127).
pub open spec fn spec_ext_len_count(b1: u8) -> nat {
    if b1 & 0b01111111 > 125 {
        if b1 & 0b01111111 == 126 {
            2
        } else {
            8
        }
    } else {
        0
    }
}

pub fn ext_len_count(b1: u8) -> (r: usize)
    ensures
        r == spec_ext_len_count(b1),
{
    let l = b1 & 0b01111111;
    if l > 125 {
        if l == 126 {
            2
        } else {
            8
        }
    } else {
        0
    }
}

/// The value of some bytes, most significant first.
pub open spec fn be_value(s: Seq<u8>) -> nat
    decreases s.len(),
{
    if s.len() == 0 {
        0
    } else {
        be_value(s.drop_last()) * 256 + s.last() as nat
    }
}

/// 256 to the power `k`.
pub open spec fn pow256(k: nat) -> nat
    decreases k,
{
    if k == 0 {
        1
    } else {
        256 * pow256((k - 1) as nat)
    }
}

proof fn lemma_be_value_bound(s: Seq<u8>)
    ensures
        be_value(s) < pow256(s.len()),
    decreases s.len(),
{
    if s.len() > 0 {
        lemma_be_value_bound(s.drop_last());
        let p = pow256((s.len() - 1) as nat);
        assert(be_value(s.drop_last()) * 256 + s.last() < p * 256) by (nonlinear_arith)
            requires
                be_value(s.drop_last()) < p,
                s.last() < 256,
        ;
    }
}

/// The payload length a frame announces: the second byte's low seven bits
/// up to 125, else the extended length bytes, most significant first.
pub open spec fn spec_payload_len(b1: u8, ext: Seq<u8>) -> nat {
    if b1 & 0b01111111 > 125 {
        be_value(ext)
    } else {
        (b1 & 0b01111111) as nat
    }
}

/// The payload length a frame announces, from its second byte and the
/// extended length bytes that follow it.
pub fn payload_len(b1: u8, ext: &[u8]) -> (r: u64)
    requires
        ext@.len() == spec_ext_len_count(b1),
    ensures
        r == spec_payload_len(b1, ext@),
{
    let mut payload_len: u64 = (b1 & 0b01111111) as u64;
    if payload_len > 125 {
        payload_len = 0;
        let mut i: usize = 0;
        while i < ext.len()
            invariant
                i <= ext@.len(),
                ext@.len() <= 8,
                payload_len == be_value(ext@.take(i as int)),
            decreases ext@.len() - i,
        {
            proof {
                lemma_be_value_bound(ext@.take(i as int));
                reveal_with_fuel(pow256, 8);
                assert(pow256(i as nat) <= 72057594037927936) by {
                    if i < 7 {
                        assert(pow256(i as nat) <= pow256(6));
                    }
                }
                assert(ext@.take(i + 1).drop_last() =~= ext@.take(i as int));
            }
            payload_len = payload_len * 256 + ext[i] as u64;
            i += 1;
        }
        proof {
            assert(ext@.take(ext@.len() as int) =~= ext@);
        }
    }
    payload_len
}

/// The payload with each byte combined with the masking key byte of its
/// position modulo 4.
pub open spec fn unmasked(p: Seq<u8>, key: Seq<u8>) -> Seq<u8> {
    Seq::new(p.len(), |i: int| p[i] ^ key[i % 4])
}

/// A websocket frame as read: FIN, the opcode, the masking key and the
/// (unmasked) payload.
#[derive(Debug)]
pub struct WebsocketFrame {
    pub fin: bool,
    pub opcode: Opcode,
    pub masking_key: [u8; 4],
    pub payload: Vec<u8>,
}

impl WebsocketFrame {
    /// A frame from its first two bytes, the four bytes read as its masking
    /// key (zeros where it is not masked) and its payload as read, which is
    /// unmasked where the frame is masked.
    pub fn from_parts(b0: u8, b1: u8, masking_key: [u8; 4], payload: Vec<u8>) -> (r: Self)
        ensures
            r.fin == (b0 & 0b10000000 == 0b10000000),
            r.opcode == Opcode::spec_from_u8(b0 & 0b00001111),
            r.masking_key@ == masking_key@,
            r.payload@ == if b1 & 0b10000000 == 0b10000000 {
                unmasked(payload@, masking_key@)
            } else {
                payload@
            },
    {
        let (fin, opcode, is_mask) = frame_head_fields(b0, b1);
        let mut f = WebsocketFrame { fin, opcode, masking_key, payload };
        if is_mask {
            let ghost p0 = f.payload@;
            let mut i: usize = 0;
            while i < f.payload.len()
                invariant
                    f.fin == fin,
                    f.opcode == opcode,
                    i <= f.payload@.len(),
                    f.payload@.len() == p0.len(),
                    f.masking_key@ == masking_key@,
                    masking_key@.len() == 4,
                    forall|k: int|
                        0 <= k < p0.len() ==> #[trigger] f.payload@[k] == if k < i {
                            p0[k] ^ masking_key@[k % 4]
                        } else {
                            p0[k]
                        },
                decreases f.payload@.len() - i,
            {
                let v = f.payload[i] ^ f.masking_key[i % 4];
                f.payload.set(i, v);
                i += 1;
            }
            proof {
                assert(f.payload@ =~= unmasked(p0, masking_key@));
            }
        }
        f
    }
}

/// The key that the server combines with the client's `Sec-WebSocket-Key`.
pub const WS_GUID: &'static str = "258EAFA5-E914-47DA-95CA-C5AB0DC85B11";

/// The SHA-1 digest of some bytes.
pub uninterp spec fn sha1_digest(data: Seq<u8>) -> Seq<u8>;

/// The character of a six-bit value in the standard base64 alphabet:
/// `A`-`Z`, `a`-`z`, `0`-`9`, `+`, `/`.
pub open spec fn base64_char(v: nat) -> char {
    if v < 26 {
        (65 + v) as char
    } else if v < 52 {
        (71 + v) as char
    } else if v < 62 {
        (v - 4) as char
    } else if v == 62 {
        '+'
    } else {
        '/'
    }
}

/// The standard base64 encoding of some bytes: each group of three bytes,
/// read as a 24-bit number, gives four characters of six bits each, most
/// significant first; a last group of one or two bytes is filled with zero
/// bits and the missing characters are written as `=`.
pub open spec fn base64_standard(d: Seq<u8>) -> Seq<char>
    decreases d.len(),
{
    if d.len() == 0 {
        Seq::empty()
    } else if d.len() == 1 {
        let n = d[0] as nat * 65536;
        seq![base64_char(n / 262144), base64_char((n / 4096) % 64), '=', '=']
    } else if d.len() == 2 {
        let n = d[0] as nat * 65536 + d[1] as nat * 256;
        seq![base64_char(n / 262144), base64_char((n / 4096) % 64), base64_char((n / 64) % 64), '=']
    } else {
        let n = d[0] as nat * 65536 + d[1] as nat * 256 + d[2] as nat;
        seq![
            base64_char(n / 262144),
            base64_char((n / 4096) % 64),
            base64_char((n / 64) % 64),
            base64_char(n % 64),
        ] + base64_standard(d.skip(3))
    }
}

/// `sha1_smol::Sha1::from`: the hasher fed with `data`; its digest's
/// bytes are the SHA-1 digest of `data`, a function of `data` alone (the
/// contract names it).
#[verifier::external_body]
fn sha1(data: &[u8]) -> (r: [u8; 20])
    ensures
        r@ == sha1_digest(data@),
{
    sha1_smol::Sha1::from(data).digest().bytes()
}

/// `base64::Engine::encode` with the `STANDARD` engine: the standard
/// base64 encoding of `data`, with padding, as `base64_standard` states
/// it.
#[verifier::external_body]
fn base64_encode(data: &[u8; 20]) -> (r: String)
    ensures
        r@ == base64_standard(data@),
{
    base64::engine::general_purpose::STANDARD.encode(data)
}

/// `base64::Engine::encode` with the `STANDARD_NO_PAD` engine: the
/// standard base64 encoding of `data` without padding, as
/// `base64_unpadded` states it.
#[verifier::external_body]
pub(crate) fn base64_no_pad(data: &[u8]) -> (r: String)
    ensures
        r@ == crate::switcher::eval::base64_unpadded(data@),
{
    base64::engine::general_purpose::STANDARD_NO_PAD.encode(data)
}

/// The `Sec-WebSocket-Accept` value for a `Sec-WebSocket-Key`: the base64
/// encoding of the SHA-1 digest of the key followed by the GUID.
pub open spec fn spec_accept_key(key: Seq<char>) -> Seq<char> {
    base64_standard(sha1_digest(encode_utf8(key + WS_GUID@)))
}

/// The `Sec-WebSocket-Accept` value for a `Sec-WebSocket-Key`.
pub fn accept_key(key: &str) -> (r: String)
    ensures
        r@ == spec_accept_key(key@),
{
    let s = String::from_str(key).concat(WS_GUID);
    let d = sha1(s.as_str().as_bytes());
    base64_encode(&d)
}

/// The response headers of the websocket upgrade: `Connection: Upgrade`
/// and `Upgrade: websocket`, then the accept value and the protocol where
/// there are some.
pub open spec fn upgrade_entries(
    es: HeaderEntries,
    accept: Option<Seq<char>>,
    protocol: Option<Seq<char>>,
) -> HeaderEntries {
    let e1 = add_header(add_header(es, "Connection"@, "Upgrade"@), "Upgrade"@, "websocket"@);
    let e2 = match accept {
        Some(a) => add_header(e1, "Sec-WebSocket-Accept"@, a),
        None => e1,
    };
    match protocol {
        Some(p) => add_header(e2, "Sec-WebSocket-Protocol"@, p),
        None => e2,
    }
}

/// None of the upgrade headers is a content length.
proof fn lemma_upgrade_names()
    ensures
        lower("Connection"@) != "content-length"@,
        lower("Upgrade"@) != "content-length"@,
        lower("Sec-WebSocket-Accept"@) != "content-length"@,
        lower("Sec-WebSocket-Protocol"@) != "content-length"@,
{
    reveal_strlit("Connection");
    reveal_strlit("Upgrade");
    reveal_strlit("Sec-WebSocket-Accept");
    reveal_strlit("Sec-WebSocket-Protocol");
    reveal_strlit("content-length");
    assert(lower("Connection"@).len() != "content-length"@.len());
    assert(lower("Upgrade"@).len() != "content-length"@.len());
    assert(lower("Sec-WebSocket-Accept"@).len() != "content-length"@.len());
    assert(lower("Sec-WebSocket-Protocol"@).len() != "content-length"@.len());
}

/// Adds the upgrade headers to the response, with the accept value and
/// the protocol given.
pub fn upgrade_headers(c: &mut HttpConnection, accept: Option<&str>, protocol: Option<&str>)
    ensures
        final(c).resp@.0 == upgrade_entries(
            old(c).resp@.0,
            match accept {
                Some(a) => Some(a@),
                None => None,
            },
            match protocol {
                Some(p) => Some(p@),
                None => None,
            },
        ),
        final(c).resp@.1 == old(c).resp@.1,
        final(c).req@ == old(c).req@,
{
    proof {
        lemma_upgrade_names();
    }
    c.resp.header("Connection", "Upgrade");
    c.resp.header("Upgrade", "websocket");
    if let Some(a) = accept {
        c.resp.header("Sec-WebSocket-Accept", a);
    }
    if let Some(p) = protocol {
        c.resp.header("Sec-WebSocket-Protocol", p);
    }
}

/// The headers of the websocket handshake response: the upgrade headers,
/// the accept value for the request's `Sec-WebSocket-Key` (if any) and the
/// request's `Sec-WebSocket-Protocol` (if any).
pub fn handshake_headers(c: &mut HttpConnection)
    ensures
        final(c).resp@.0 == upgrade_entries(
            old(c).resp@.0,
            match first_header(old(c).req@.0, "sec-websocket-key"@) {
                Some(k) => Some(spec_accept_key(k)),
                None => None,
            },
            first_header(old(c).req@.0, "sec-websocket-protocol"@),
        ),
        final(c).resp@.1 == old(c).resp@.1,
        final(c).req@ == old(c).req@,
{
    let accept = match c.req.get_header("sec-websocket-key") {
        Some(k) => Some(accept_key(k)),
        None => None,
    };
    let protocol = match c.req.get_header("sec-websocket-protocol") {
        Some(p) => Some(String::from_str(p)),
        None => None,
    };
    let a = match &accept {
        Some(s) => Some(s.as_str()),
        None => None,
    };
    let p = match &protocol {
        Some(s) => Some(s.as_str()),
        None => None,
    };
    upgrade_headers(c, a, p);
}

/// The head of a frame the server writes reads back with FIN set, its
/// opcode, no mask, as many extended length bytes as it wrote, and its
/// payload length, for every length below 2^64.
pub proof fn lemma_frame_head_reads_back(op: Opcode, n: nat)
    requires
        op.spec_to_u8() < 16,
        Opcode::spec_from_u8(op.spec_to_u8()) == op,
        n < 0x1_0000_0000_0000_0000,
    ensures
        ({
            let h = frame_head_bytes(op, n);
            &&& h.len() == 2 + spec_ext_len_count(h[1])
            &&& h[0] & 0b10000000 == 0b10000000
            &&& Opcode::spec_from_u8(h[0] & 0b00001111) == op
            &&& h[1] & 0b10000000 == 0
            &&& spec_payload_len(h[1], h.subrange(2, h.len() as int)) == n
        }),
{
    let o = op.spec_to_u8();
    let b0 = (0x80 + o) as u8;
    let b1 = len_byte(n);
    let h = frame_head_bytes(op, n);
    let e = ext_len_bytes(n);
    assert(b0 & 0b10000000 == 0b10000000 && b0 & 0b00001111 == o) by (bit_vector)
        requires
            o < 16,
            b0 == (0x80 + o) as u8,
    ;
    assert(b1 & 0b10000000 == 0 && b1 & 0b01111111 == b1) by (bit_vector)
        requires
            b1 <= 127,
    ;
    assert(h.subrange(2, h.len() as int) =~= e);
    if n > 0xffff {
        let m = n as u64;
        reveal_with_fuel(be_value, 9);
        assert(e.drop_last().drop_last().drop_last().drop_last().drop_last().drop_last().drop_last().drop_last()
            =~= Seq::<u8>::empty());
        assert(((((((((m / 72057594037927936) % 256) * 256 + (m / 281474976710656) % 256) * 256 + (m
            / 1099511627776) % 256) * 256 + (m / 4294967296) % 256) * 256 + (m / 16777216) % 256) * 256
            + (m / 65536) % 256) * 256 + (m / 256) % 256) * 256 + m % 256 == m) by (bit_vector);
    } else if n > 125 {
        reveal_with_fuel(be_value, 3);
        assert(e.drop_last().drop_last() =~= Seq::<u8>::empty());
        assert(((n / 256) % 256) * 256 + n % 256 == n) by (nonlinear_arith)
            requires
                0 <= n <= 0xffff,
        ;
    }
}

/// Unmasking twice with the same key gives the payload back: masking and
/// unmasking are the same operation.
pub proof fn lemma_unmask_twice(p: Seq<u8>, key: Seq<u8>)
    ensures
        unmasked(unmasked(p, key), key) == p,
{
    assert forall|i: int| 0 <= i < p.len() implies unmasked(unmasked(p, key), key)[i] == p[i] by {
        let a = p[i];
        let k = key[i % 4];
        assert((a ^ k) ^ k == a) by (bit_vector);
    }
    assert(unmasked(unmasked(p, key), key) =~= p);
}

} // verus!
