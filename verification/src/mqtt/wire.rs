//! The mathematical model of the MQTT wire format as this codec reads and
//! writes it: cursor-based readers over a byte sequence, and the byte
//! sequences that the writers append.

use vstd::prelude::*;
use vstd::utf8::*;
use crate::mqtt::mqtt_packet::{ConnackReturnCode, SubackRet};

verus! {

/// The kind of an MQTT codec error, without its payload.
pub enum ErrorKind {
    BadMqttHeader,
    MalformedRemainingLength,
    PacketTooShort,
    NotImplemented,
    PacketTooLong,
    BuffTooShort,
    BuffTooLong,
    Utf8Error,
    BadPropertyNum(u8),
}

/// The outcome of reading a value at a cursor position: the value and the
/// position after it, an error, or `Abort` where the reader indexes out of
/// bounds (the codec leaves those inputs out of its contracts).
pub enum Rd<T> {
    Got(T, int),
    Bad(ErrorKind),
    Abort,
}

impl<T> Rd<T> {
    pub open spec fn is_got(self) -> bool {
        self is Got
    }

    pub open spec fn value(self) -> T
        recommends
            self is Got,
    {
        self->Got_0
    }

    pub open spec fn next_pos(self) -> int
        recommends
            self is Got,
    {
        self->Got_1
    }
}

/// Big-endian value of two bytes.
pub open spec fn be16(hi: u8, lo: u8) -> u16 {
    (hi as int * 256 + lo as int) as u16
}

/// Big-endian value of four bytes.
pub open spec fn be32(b0: u8, b1: u8, b2: u8, b3: u8) -> u32 {
    (b0 as int * 16777216 + b1 as int * 65536 + b2 as int * 256 + b3 as int) as u32
}

pub open spec fn spec_read_u8(b: Seq<u8>, p: int) -> Rd<u8> {
    if p < b.len() {
        Rd::Got(b[p], p + 1)
    } else {
        Rd::Bad(ErrorKind::BuffTooShort)
    }
}

pub open spec fn spec_read_u16(b: Seq<u8>, p: int) -> Rd<u16> {
    if p + 1 < b.len() {
        Rd::Got(be16(b[p], b[p + 1]), p + 2)
    } else {
        Rd::Bad(ErrorKind::BuffTooShort)
    }
}

pub open spec fn spec_read_u32(b: Seq<u8>, p: int) -> Rd<u32> {
    if p + 3 < b.len() {
        Rd::Got(be32(b[p], b[p + 1], b[p + 2], b[p + 3]), p + 4)
    } else {
        Rd::Bad(ErrorKind::BuffTooShort)
    }
}

/// A length-prefixed UTF-8 string: two length bytes, then that many bytes,
/// which must be valid UTF-8.
pub open spec fn spec_read_str(b: Seq<u8>, p: int) -> Rd<Seq<char>> {
    if b.len() < p + 2 {
        Rd::Bad(ErrorKind::PacketTooShort)
    } else {
        let l = be16(b[p], b[p + 1]) as int;
        if b.len() < p + 2 + l {
            Rd::Bad(ErrorKind::PacketTooShort)
        } else {
            let bytes = b.subrange(p + 2, p + 2 + l);
            if valid_utf8(bytes) {
                Rd::Got(decode_utf8(bytes), p + 2 + l)
            } else {
                Rd::Bad(ErrorKind::Utf8Error)
            }
        }
    }
}

/// Binary data: a two-byte big-endian length, then that many bytes.
pub open spec fn spec_read_binary_data(b: Seq<u8>, p: int) -> Rd<Seq<u8>> {
    if b.len() < p + 2 {
        Rd::Bad(ErrorKind::PacketTooShort)
    } else {
        let l = be16(b[p], b[p + 1]) as int;
        if b.len() < p + 2 + l {
            Rd::Bad(ErrorKind::PacketTooShort)
        } else {
            Rd::Got(b.subrange(p + 2, p + 2 + l), p + 2 + l)
        }
    }
}

/// 128 to the power `k`, for the digit positions of a variable byte integer.
pub open spec fn pow128(k: nat) -> nat
    decreases k,
{
    if k == 0 {
        1
    } else {
        128 * pow128((k - 1) as nat)
    }
}

/// Scan of a variable byte integer from position `p`, digit `k` on, with
/// `acc` the value of the digits before: the result and the position where
/// the scan stopped. At most four digits: a fourth that does not end the
/// integer is refused.
pub open spec fn vbi_scan(b: Seq<u8>, p: int, k: nat, acc: nat) -> (Result<u32, ErrorKind>, int)
    decreases 4 - k,
{
    if k >= 4 {
        (Err(ErrorKind::MalformedRemainingLength), p)
    } else if b.len() <= p || p < 0 {
        (Err(ErrorKind::PacketTooShort), p)
    } else {
        let x = b[p];
        let acc2 = acc + (x % 128) as nat * pow128(k);
        if k == 3 && x >= 128 {
            (Err(ErrorKind::MalformedRemainingLength), p + 1)
        } else if x < 128 {
            (Ok(acc2 as u32), p + 1)
        } else {
            vbi_scan(b, p + 1, k + 1, acc2)
        }
    }
}

/// Reading a variable byte integer at `p`.
pub open spec fn spec_read_vbi(b: Seq<u8>, p: int) -> Rd<u32> {
    let (r, q) = vbi_scan(b, p, 0, 0);
    match r {
        Ok(v) => Rd::Got(v, q),
        Err(e) => Rd::Bad(e),
    }
}

/// The position where reading a variable byte integer at `p` stops, whether
/// or not it succeeds.
pub open spec fn vbi_end(b: Seq<u8>, p: int) -> int {
    vbi_scan(b, p, 0, 0).1
}

/// The bytes of `v` as a variable byte integer: seven bits per byte, least
/// significant first, the high bit set on every byte but the last.
pub open spec fn vbi_bytes(v: nat) -> Seq<u8>
    decreases v,
{
    if v < 128 {
        seq![v as u8]
    } else {
        seq![(v % 128 + 128) as u8] + vbi_bytes(v / 128)
    }
}

/// Two bytes, big-endian.
pub open spec fn u16_bytes(v: u16) -> Seq<u8> {
    seq![(v / 256) as u8, (v % 256) as u8]
}

/// Four bytes, big-endian.
pub open spec fn u32_bytes(v: u32) -> Seq<u8> {
    seq![(v / 16777216) as u8, ((v / 65536) % 256) as u8, ((v / 256) % 256) as u8, (v % 256) as u8]
}

/// A string as the writer puts it: its UTF-8 length, truncated to 16 bits,
/// then its UTF-8 bytes.
pub open spec fn str_bytes(s: Seq<char>) -> Seq<u8> {
    u16_bytes(encode_utf8(s).len() as u16) + encode_utf8(s)
}

/// The model of an MQTT 5.0 property.
pub enum PropV {
    PayloadFormatIndicator(u8),
    MessageExpiryInterval(u32),
    ContentType(Seq<char>),
    ResponseTopic(Seq<char>),
    CorrelationData(Seq<u8>),
    SubscriptionIdentifier(u32),
    SessionExpiryInterval(u32),
    AssignedClientIdentifier(Seq<char>),
    ServerKeepAlive(u16),
    AuthenticationMethod(Seq<char>),
    AuthenticationData(Seq<u8>),
    RequestProblemInformation(u8),
    WillDelayInterval(u16),
    RequestResponseInformation(u8),
    ResponseInformation(Seq<char>),
    ServerReference(Seq<char>),
    ReasonString(Seq<char>),
    ReceiveMaximum(u16),
    TopicAliasMaximum(u16),
    TopicAlias(u16),
    MaximumQoS(u8),
    RetainAvailable(u8),
    UserProperty(Seq<char>, Seq<char>),
    MaximumPacketSize(u32),
    WildcardSubscriptionAvailable(u8),
    SubscriptionIdentifierAvailable(u8),
    SharedSubscriptionAvailable(u8),
}

/// The property identifier of each property.
pub open spec fn prop_type(p: PropV) -> u8 {
    match p {
        PropV::PayloadFormatIndicator(_) => 1,
        PropV::MessageExpiryInterval(_) => 2,
        PropV::ContentType(_) => 3,
        PropV::ResponseTopic(_) => 8,
        PropV::CorrelationData(_) => 9,
        PropV::SubscriptionIdentifier(_) => 11,
        PropV::SessionExpiryInterval(_) => 17,
        PropV::AssignedClientIdentifier(_) => 18,
        PropV::ServerKeepAlive(_) => 19,
        PropV::AuthenticationMethod(_) => 21,
        PropV::AuthenticationData(_) => 22,
        PropV::RequestProblemInformation(_) => 23,
        PropV::WillDelayInterval(_) => 24,
        PropV::RequestResponseInformation(_) => 25,
        PropV::ResponseInformation(_) => 26,
        PropV::ServerReference(_) => 28,
        PropV::ReasonString(_) => 31,
        PropV::ReceiveMaximum(_) => 33,
        PropV::TopicAliasMaximum(_) => 34,
        PropV::TopicAlias(_) => 35,
        PropV::MaximumQoS(_) => 36,
        PropV::RetainAvailable(_) => 37,
        PropV::UserProperty(_, _) => 38,
        PropV::MaximumPacketSize(_) => 39,
        PropV::WildcardSubscriptionAvailable(_) => 40,
        PropV::SubscriptionIdentifierAvailable(_) => 41,
        PropV::SharedSubscriptionAvailable(_) => 42,
    }
}

/// Sequencing of two reads: `f` reads on from where the first read stopped.
pub open spec fn rd_then<A, B>(r: Rd<A>, f: spec_fn(A, int) -> Rd<B>) -> Rd<B> {
    match r {
        Rd::Got(a, q) => f(a, q),
        Rd::Bad(e) => Rd::Bad(e),
        Rd::Abort => Rd::Abort,
    }
}

/// A read whose value is wrapped by `f`.
pub open spec fn rd_map<A, B>(r: Rd<A>, f: spec_fn(A) -> B) -> Rd<B> {
    match r {
        Rd::Got(a, q) => Rd::Got(f(a), q),
        Rd::Bad(e) => Rd::Bad(e),
        Rd::Abort => Rd::Abort,
    }
}

/// One property, its identifier byte first, as the reader takes it from a
/// property block.
pub open spec fn spec_read_prop(b: Seq<u8>, p: int) -> Rd<PropV> {
    match spec_read_u8(b, p) {
        Rd::Got(t, q) => spec_read_prop_value(b, q, t),
        Rd::Bad(e) => Rd::Bad(e),
        Rd::Abort => Rd::Abort,
    }
}

/// The value of a property of identifier `t` at position `q`.
pub open spec fn spec_read_prop_value(b: Seq<u8>, q: int, t: u8) -> Rd<PropV> {
    if t == 1 {
        rd_map(spec_read_u8(b, q), |v: u8| PropV::PayloadFormatIndicator(v))
    } else if t == 2 {
        rd_map(spec_read_u32(b, q), |v: u32| PropV::MessageExpiryInterval(v))
    } else if t == 3 {
        rd_map(spec_read_str(b, q), |v: Seq<char>| PropV::ContentType(v))
    } else if t == 8 {
        rd_map(spec_read_str(b, q), |v: Seq<char>| PropV::ResponseTopic(v))
    } else if t == 9 {
        rd_map(spec_read_binary_data(b, q), |v: Seq<u8>| PropV::CorrelationData(v))
    } else if t == 11 {
        rd_map(spec_read_vbi(b, q), |v: u32| PropV::SubscriptionIdentifier(v))
    } else if t == 17 {
        rd_map(spec_read_u32(b, q), |v: u32| PropV::SessionExpiryInterval(v))
    } else if t == 18 {
        rd_map(spec_read_str(b, q), |v: Seq<char>| PropV::AssignedClientIdentifier(v))
    } else if t == 19 {
        rd_map(spec_read_u16(b, q), |v: u16| PropV::ServerKeepAlive(v))
    } else if t == 21 {
        rd_map(spec_read_str(b, q), |v: Seq<char>| PropV::AuthenticationMethod(v))
    } else if t == 22 {
        rd_map(spec_read_binary_data(b, q), |v: Seq<u8>| PropV::AuthenticationData(v))
    } else if t == 23 {
        rd_map(spec_read_u8(b, q), |v: u8| PropV::RequestProblemInformation(v))
    } else if t == 24 {
        rd_map(spec_read_u16(b, q), |v: u16| PropV::WillDelayInterval(v))
    } else if t == 25 {
        rd_map(spec_read_u8(b, q), |v: u8| PropV::RequestResponseInformation(v))
    } else if t == 26 {
        rd_map(spec_read_str(b, q), |v: Seq<char>| PropV::ResponseInformation(v))
    } else if t == 28 {
        rd_map(spec_read_str(b, q), |v: Seq<char>| PropV::ServerReference(v))
    } else if t == 31 {
        rd_map(spec_read_str(b, q), |v: Seq<char>| PropV::ReasonString(v))
    } else if t == 33 {
        rd_map(spec_read_u16(b, q), |v: u16| PropV::ReceiveMaximum(v))
    } else if t == 34 {
        rd_map(spec_read_u16(b, q), |v: u16| PropV::TopicAliasMaximum(v))
    } else if t == 35 {
        rd_map(spec_read_u16(b, q), |v: u16| PropV::TopicAlias(v))
    } else if t == 36 {
        rd_map(spec_read_u8(b, q), |v: u8| PropV::MaximumQoS(v))
    } else if t == 37 {
        rd_map(spec_read_u8(b, q), |v: u8| PropV::RetainAvailable(v))
    } else if t == 38 {
        rd_then(
            spec_read_str(b, q),
            |k: Seq<char>, q2: int|
                rd_map(spec_read_str(b, q2), |v: Seq<char>| PropV::UserProperty(k, v)),
        )
    } else if t == 39 {
        rd_map(spec_read_u32(b, q), |v: u32| PropV::MaximumPacketSize(v))
    } else if t == 40 {
        rd_map(spec_read_u8(b, q), |v: u8| PropV::WildcardSubscriptionAvailable(v))
    } else if t == 41 {
        rd_map(spec_read_u8(b, q), |v: u8| PropV::SubscriptionIdentifierAvailable(v))
    } else if t == 42 {
        rd_map(spec_read_u8(b, q), |v: u8| PropV::SharedSubscriptionAvailable(v))
    } else {
        Rd::Bad(ErrorKind::BadPropertyNum(t))
    }
}

/// The properties of a property block from position `p` to its end.
pub open spec fn spec_read_props_from(b: Seq<u8>, p: int) -> Rd<Seq<PropV>>
    decreases b.len() - p,
{
    if p >= b.len() || p < 0 {
        Rd::Got(Seq::empty(), p)
    } else {
        match spec_read_prop(b, p) {
            Rd::Got(pr, q) => {
                if q <= p || q > b.len() {
                    Rd::Abort
                } else {
                    match spec_read_props_from(b, q) {
                        Rd::Got(rest, q2) => Rd::Got(seq![pr] + rest, q2),
                        Rd::Bad(e) => Rd::Bad(e),
                        Rd::Abort => Rd::Abort,
                    }
                }
            },
            Rd::Bad(e) => Rd::Bad(e),
            Rd::Abort => Rd::Abort,
        }
    }
}

/// A property list: its length as a variable byte integer, then the
/// properties; an empty block reads as `None`.
pub open spec fn spec_read_properties(b: Seq<u8>, p: int) -> Rd<Option<Seq<PropV>>> {
    match spec_read_vbi(b, p) {
        Rd::Got(l, q) => {
            if l == 0 {
                Rd::Got(None, q)
            } else if b.len() - q < l {
                Rd::Abort
            } else {
                match spec_read_props_from(b.subrange(q, q + l), 0) {
                    Rd::Got(ps, _) => Rd::Got(Some(ps), q + l),
                    Rd::Bad(e) => Rd::Bad(e),
                    Rd::Abort => Rd::Abort,
                }
            }
        },
        Rd::Bad(e) => Rd::Bad(e),
        Rd::Abort => Rd::Abort,
    }
}

/// The length that the writer counts for one property (identifier byte
/// included). Binary data counts its bytes alone, as it is written without
/// a length prefix.
pub open spec fn prop_len(p: PropV) -> nat {
    1 + match p {
        PropV::PayloadFormatIndicator(_)
        | PropV::RequestResponseInformation(_)
        | PropV::SubscriptionIdentifierAvailable(_)
        | PropV::RequestProblemInformation(_)
        | PropV::MaximumQoS(_)
        | PropV::RetainAvailable(_)
        | PropV::WildcardSubscriptionAvailable(_)
        | PropV::SharedSubscriptionAvailable(_) => 1nat,
        PropV::ServerKeepAlive(_)
        | PropV::WillDelayInterval(_)
        | PropV::ReceiveMaximum(_)
        | PropV::TopicAliasMaximum(_)
        | PropV::TopicAlias(_) => 2nat,
        PropV::MessageExpiryInterval(_)
        | PropV::SessionExpiryInterval(_)
        | PropV::MaximumPacketSize(_) => 4nat,
        PropV::ContentType(s)
        | PropV::ResponseTopic(s)
        | PropV::AssignedClientIdentifier(s)
        | PropV::AuthenticationMethod(s)
        | PropV::ResponseInformation(s)
        | PropV::ServerReference(s)
        | PropV::ReasonString(s) => 2 + encode_utf8(s).len(),
        PropV::UserProperty(k, v) => 4 + encode_utf8(k).len() + encode_utf8(v).len(),
        PropV::CorrelationData(v) | PropV::AuthenticationData(v) => 2 + v.len(),
        PropV::SubscriptionIdentifier(v) => vbi_bytes(v as nat).len(),
    }
}

/// The sum of the property lengths of `ps`.
pub open spec fn props_seq_len(ps: Seq<PropV>) -> nat
    decreases ps.len(),
{
    if ps.len() == 0 {
        0
    } else {
        props_seq_len(ps.drop_last()) + prop_len(ps.last())
    }
}

/// The length of a property list (`None` is an empty one).
pub open spec fn props_len(o: Option<Seq<PropV>>) -> nat {
    match o {
        None => 0,
        Some(ps) => props_seq_len(ps),
    }
}

/// The bytes of one property: its identifier, then its value.
pub open spec fn prop_bytes(p: PropV) -> Seq<u8> {
    seq![prop_type(p)] + match p {
        PropV::PayloadFormatIndicator(v)
        | PropV::RequestResponseInformation(v)
        | PropV::SubscriptionIdentifierAvailable(v)
        | PropV::RequestProblemInformation(v)
        | PropV::MaximumQoS(v)
        | PropV::RetainAvailable(v)
        | PropV::WildcardSubscriptionAvailable(v)
        | PropV::SharedSubscriptionAvailable(v) => seq![v],
        PropV::ServerKeepAlive(v)
        | PropV::WillDelayInterval(v)
        | PropV::ReceiveMaximum(v)
        | PropV::TopicAliasMaximum(v)
        | PropV::TopicAlias(v) => u16_bytes(v),
        PropV::MessageExpiryInterval(v)
        | PropV::SessionExpiryInterval(v)
        | PropV::MaximumPacketSize(v) => u32_bytes(v),
        PropV::ContentType(s)
        | PropV::ResponseTopic(s)
        | PropV::AssignedClientIdentifier(s)
        | PropV::AuthenticationMethod(s)
        | PropV::ResponseInformation(s)
        | PropV::ServerReference(s)
        | PropV::ReasonString(s) => str_bytes(s),
        PropV::UserProperty(k, v) => str_bytes(k) + str_bytes(v),
        PropV::CorrelationData(v) | PropV::AuthenticationData(v) => u16_bytes(v.len() as u16) + v,
        PropV::SubscriptionIdentifier(v) => vbi_bytes(v as nat),
    }
}

/// The bytes of the properties of `ps`, one after the other.
pub open spec fn props_seq_bytes(ps: Seq<PropV>) -> Seq<u8>
    decreases ps.len(),
{
    if ps.len() == 0 {
        Seq::empty()
    } else {
        props_seq_bytes(ps.drop_last()) + prop_bytes(ps.last())
    }
}

/// A property list as the writer puts it: its counted length (truncated to
/// 32 bits) as a variable byte integer, then the properties.
pub open spec fn props_bytes(o: Option<Seq<PropV>>) -> Seq<u8> {
    vbi_bytes(props_len(o) as u32 as nat) + match o {
        None => Seq::empty(),
        Some(ps) => props_seq_bytes(ps),
    }
}

} // verus!

verus! {

/// A variable byte integer has at least one byte, and at most `k` bytes
/// when the value is below `128^k`.
pub proof fn lemma_vbi_bytes_len(v: nat, k: nat)
    ensures
        vbi_bytes(v).len() >= 1,
        k >= 1 && v < pow128(k) ==> vbi_bytes(v).len() <= k,
        v < 128 ==> vbi_bytes(v).len() == 1,
        v >= 128 ==> vbi_bytes(v).len() == 1 + vbi_bytes(v / 128).len(),
        k == 5 ==> pow128(k) == 34359738368,
    decreases v,
{
    reveal_with_fuel(pow128, 6);
    if v >= 128 {
        if k > 0 {
            lemma_vbi_bytes_len(v / 128, (k - 1) as nat);
            let pk = pow128((k - 1) as nat);
            assert(v < 128 * pk ==> v / 128 < pk) by (nonlinear_arith);
        } else {
            lemma_vbi_bytes_len(v / 128, 0);
        }
    }
}

} // verus!

verus! {

/// `acc` followed by what the read `r` gave.
pub open spec fn rd_prepend<T>(acc: Seq<T>, r: Rd<Seq<T>>) -> Rd<Seq<T>> {
    match r {
        Rd::Got(rest, q) => Rd::Got(acc + rest, q),
        Rd::Bad(e) => Rd::Bad(e),
        Rd::Abort => Rd::Abort,
    }
}

/// The length counted for a prefix grows by one property at a time.
pub proof fn lemma_props_seq_len_take(ps: Seq<PropV>, i: int)
    requires
        0 <= i < ps.len(),
    ensures
        props_seq_len(ps.take(i + 1)) == props_seq_len(ps.take(i)) + prop_len(ps[i]),
        props_seq_bytes(ps.take(i + 1)) == props_seq_bytes(ps.take(i)) + prop_bytes(ps[i]),
{
    assert(ps.take(i + 1).drop_last() == ps.take(i));
}

/// The length counted for a prefix is at most the length of the whole.
pub proof fn lemma_props_seq_len_prefix(ps: Seq<PropV>, i: int)
    requires
        0 <= i <= ps.len(),
    ensures
        props_seq_len(ps.take(i)) <= props_seq_len(ps),
    decreases ps.len() - i,
{
    if i < ps.len() {
        lemma_props_seq_len_take(ps, i);
        lemma_props_seq_len_prefix(ps, i + 1);
    } else {
        assert(ps.take(i) == ps);
    }
}

} // verus!

verus! {

/// The model of a CONNECT packet.
pub struct ConnectV {
    pub protocol_name: Seq<char>,
    pub protocol_level: u8,
    pub keep_alive: u16,
    pub will_retain: bool,
    pub will_qos: u8,
    pub clean_session: bool,
    pub client_identifier: Seq<char>,
    pub will_topic: Option<Seq<char>>,
    pub will_message: Option<Seq<char>>,
    pub user_name: Option<Seq<char>>,
    pub password: Option<Seq<char>>,
    pub properties: Option<Seq<PropV>>,
    pub will_properties: Option<Seq<PropV>>,
}

/// The model of a PUBLISH packet.
pub struct PublishV {
    pub dup: bool,
    pub qos: u8,
    pub retain: bool,
    pub topic_name: Seq<char>,
    pub packet_identifier: u16,
    pub payload: Seq<u8>,
    pub properties: Option<Seq<PropV>>,
}

/// The model of a CONNACK packet.
pub struct ConnackV {
    pub session_present: bool,
    pub return_code: ConnackReturnCode,
    pub properties: Option<Seq<PropV>>,
}

/// The model of one topic filter of a SUBSCRIBE packet.
pub struct SubscribeTopicV {
    pub topic_name: Seq<char>,
    pub req_qos: u8,
    pub retain_handling: u8,
    pub rap: bool,
    pub nl: bool,
}

/// The model of a SUBSCRIBE packet.
pub struct SubscribeV {
    pub packet_identifier: u16,
    pub topics: Seq<SubscribeTopicV>,
    pub properties: Option<Seq<PropV>>,
}

/// The model of an UNSUBSCRIBE packet.
pub struct UnsubscribeV {
    pub packet_identifier: u16,
    pub topics: Seq<Seq<char>>,
    pub properties: Option<Seq<PropV>>,
}

/// The model of a SUBACK packet.
pub struct SubackV {
    pub packet_identifier: u16,
    pub topics: Seq<SubackRet>,
    pub properties: Option<Seq<PropV>>,
}

/// The model of the acknowledgement packets (PUBACK, PUBREC, PUBREL,
/// PUBCOMP, UNSUBACK), which share one shape.
pub struct AckV {
    pub packet_identifier: u16,
    pub reason_code: u8,
    pub properties: Option<Seq<PropV>>,
}

/// The model of a DISCONNECT packet.
pub struct DisconnectV {
    pub reason_code: u8,
    pub properties: Option<Seq<PropV>>,
}

/// The model of an MQTT control packet.
pub enum PacketV {
    Connect(ConnectV),
    Connack(ConnackV),
    Publish(PublishV),
    Puback(AckV),
    Pubrec(AckV),
    Pubrel(AckV),
    Pubcomp(AckV),
    Subscribe(SubscribeV),
    Suback(SubackV),
    Unsubscribe(UnsubscribeV),
    Unsuback(AckV),
    Pingreq,
    Pingresp,
    Disconnect(DisconnectV),
    Reserved,
}

pub open spec fn empty_ack() -> AckV {
    AckV { packet_identifier: 0, reason_code: 0, properties: None }
}

/// The packet that a fixed header announces before its body is read: the
/// packet type `pt` selects the variant, the flags `f` set the PUBLISH
/// flags (its QoS is taken as `(f >> 1) & 4`).
pub open spec fn initial_packet(pt: u8, f: u8) -> PacketV {
    if pt == 1 {
        PacketV::Connect(
            ConnectV {
                protocol_name: Seq::empty(),
                protocol_level: 0,
                keep_alive: 0,
                will_retain: false,
                will_qos: 0,
                clean_session: false,
                client_identifier: Seq::empty(),
                will_topic: None,
                will_message: None,
                user_name: None,
                password: None,
                properties: None,
                will_properties: None,
            },
        )
    } else if pt == 2 {
        PacketV::Connack(
            ConnackV {
                session_present: false,
                return_code: ConnackReturnCode::Accepted,
                properties: None,
            },
        )
    } else if pt == 3 {
        PacketV::Publish(
            PublishV {
                dup: (f & 8) == 8,
                qos: (f >> 1) & 3,
                retain: (f & 1) == 1,
                topic_name: Seq::empty(),
                packet_identifier: 0,
                payload: Seq::empty(),
                properties: None,
            },
        )
    } else if pt == 4 {
        PacketV::Puback(empty_ack())
    } else if pt == 5 {
        PacketV::Pubrec(empty_ack())
    } else if pt == 6 {
        PacketV::Pubrel(empty_ack())
    } else if pt == 7 {
        PacketV::Pubcomp(empty_ack())
    } else if pt == 8 {
        PacketV::Subscribe(
            SubscribeV { packet_identifier: 0, topics: Seq::empty(), properties: None },
        )
    } else if pt == 9 {
        PacketV::Suback(SubackV { packet_identifier: 0, topics: Seq::empty(), properties: None })
    } else if pt == 10 {
        PacketV::Unsubscribe(
            UnsubscribeV { packet_identifier: 0, topics: Seq::empty(), properties: None },
        )
    } else if pt == 11 {
        PacketV::Unsuback(empty_ack())
    } else if pt == 12 {
        PacketV::Pingreq
    } else if pt == 13 {
        PacketV::Pingresp
    } else if pt == 14 {
        PacketV::Disconnect(DisconnectV { reason_code: 0, properties: None })
    } else {
        PacketV::Reserved
    }
}

/// The position of the first byte from `p` on whose high bit is clear.
pub open spec fn first_last_byte(b: Seq<u8>, p: int) -> Option<int>
    decreases b.len() - p,
{
    if p >= b.len() || p < 0 {
        None
    } else if b[p] < 128 {
        Some(p)
    } else {
        first_last_byte(b, p + 1)
    }
}

/// How many more bytes a reader needs before `b` holds a whole packet:
/// one while the fixed header is incomplete, then what is left of the
/// announced length; `BuffTooLong` where `b` holds more than the packet.
pub open spec fn spec_get_buffer_len(b: Seq<u8>) -> Result<nat, ErrorKind> {
    if b.len() == 0 {
        Ok(1)
    } else {
        match first_last_byte(b, 1) {
            None => Ok(1),
            Some(q) => match spec_read_vbi(b, 1) {
                Rd::Got(v, _) => {
                    if q + 1 + v >= b.len() {
                        Ok((q + 1 + v - b.len()) as nat)
                    } else {
                        Err(ErrorKind::BuffTooLong)
                    }
                },
                Rd::Bad(e) => Err(e),
                Rd::Abort => Err(ErrorKind::PacketTooShort),
            },
        }
    }
}

} // verus!

verus! {

/// A successful variable byte integer read gives a value below `2^21`.
pub proof fn lemma_vbi_scan_bound(b: Seq<u8>, p: int, k: nat, acc: nat)
    requires
        k <= 3,
        acc < pow128(k),
    ensures
        vbi_scan(b, p, k, acc).0 matches Ok(v) ==> v < 268435456,
    decreases 4 - k,
{
    reveal_with_fuel(pow128, 5);
    if k <= 3 && b.len() > p && p >= 0 {
        let x = b[p];
        let acc2 = acc + (x % 128) as nat * pow128(k);
        assert(acc2 < pow128(k + 1)) by (nonlinear_arith)
            requires
                acc < pow128(k),
                x % 128 < 128,
                acc2 == acc + (x % 128) as nat * pow128(k),
                pow128(k + 1) == 128 * pow128(k),
        ;
        if x >= 128 && k < 3 {
            lemma_vbi_scan_bound(b, p + 1, k + 1, acc2);
        }
    }
}

} // verus!

verus! {

/// The failure of a read, carried over to a read of another type.
pub open spec fn rd_err<A, B>(r: Rd<A>) -> Rd<B> {
    match r {
        Rd::Bad(e) => Rd::Bad(e),
        _ => Rd::Abort,
    }
}

/// A property list read where `cond` holds; else `dflt`, with the cursor
/// left where it is.
pub open spec fn opt_read_props(cond: bool, b: Seq<u8>, p: int, dflt: Option<Seq<PropV>>) -> Rd<
    Option<Seq<PropV>>,
> {
    if cond {
        spec_read_properties(b, p)
    } else {
        Rd::Got(dflt, p)
    }
}

/// A string read where `cond` holds; else `dflt`.
pub open spec fn opt_read_str(cond: bool, b: Seq<u8>, p: int, dflt: Option<Seq<char>>) -> Rd<
    Option<Seq<char>>,
> {
    if cond {
        match spec_read_str(b, p) {
            Rd::Got(s, q) => Rd::Got(Some(s), q),
            Rd::Bad(e) => Rd::Bad(e),
            Rd::Abort => Rd::Abort,
        }
    } else {
        Rd::Got(dflt, p)
    }
}

/// The body of a CONNECT packet.
pub open spec fn parse_connect(b: Seq<u8>, cp: ConnectV) -> Rd<ConnectV> {
    let r1 = spec_read_str(b, 0);
    match r1 {
        Rd::Got(name, p1) => {
            let r2 = spec_read_u8(b, p1);
            match r2 {
                Rd::Got(level, p2) => {
                    let r3 = spec_read_u8(b, p2);
                    match r3 {
                        Rd::Got(flags, p3) => {
                            let r4 = spec_read_u16(b, p3);
                            match r4 {
                                Rd::Got(ka, p4) => {
                                    let r5 = opt_read_props(level == 5, b, p4, cp.properties);
                                    match r5 {
                                        Rd::Got(props, p5) => {
                                            let r6 = spec_read_str(b, p5);
                                            match r6 {
                                                Rd::Got(cid, p6) => {
                                                    let cp2 = ConnectV {
                                                        protocol_name: cp.protocol_name + name,
                                                        protocol_level: level,
                                                        keep_alive: ka,
                                                        will_retain: flags & 0b00100000 != 0,
                                                        will_qos: (flags >> 3) & 0b11,
                                                        clean_session: flags & 0b00000010 != 0,
                                                        client_identifier: cp.client_identifier + cid,
                                                        properties: props,
                                                        ..cp
                                                    };
                                                    parse_connect_tail(b, p6, flags, cp2)
                                                },
                                                _ => rd_err(r6),
                                            }
                                        },
                                        _ => rd_err(r5),
                                    }
                                },
                                _ => rd_err(r4),
                            }
                        },
                        _ => rd_err(r3),
                    }
                },
                _ => rd_err(r2),
            }
        },
        _ => rd_err(r1),
    }
}

/// The will, user name and password of a CONNECT body from `p` on.
pub open spec fn parse_connect_tail(b: Seq<u8>, p: int, flags: u8, cp: ConnectV) -> Rd<ConnectV> {
    let will = flags & 0b00000100 != 0;
    let r7 = opt_read_props(will && cp.protocol_level == 5, b, p, cp.will_properties);
    match r7 {
        Rd::Got(wprops, p7) => {
            let r8 = opt_read_str(will, b, p7, cp.will_topic);
            match r8 {
                Rd::Got(wt, p8) => {
                    let r9 = opt_read_str(will, b, p8, cp.will_message);
                    match r9 {
                        Rd::Got(wm, p9) => {
                            let r10 = opt_read_str(flags & 0b10000000 != 0, b, p9, cp.user_name);
                            match r10 {
                                Rd::Got(un, p10) => {
                                    let r11 = opt_read_str(flags & 0b01000000 != 0, b, p10, cp.password);
                                    match r11 {
                                        Rd::Got(pw, p11) => Rd::Got(
                                            ConnectV {
                                                will_properties: wprops,
                                                will_topic: wt,
                                                will_message: wm,
                                                user_name: un,
                                                password: pw,
                                                ..cp
                                            },
                                            p11,
                                        ),
                                        _ => rd_err(r11),
                                    }
                                },
                                _ => rd_err(r10),
                            }
                        },
                        _ => rd_err(r9),
                    }
                },
                _ => rd_err(r8),
            }
        },
        _ => rd_err(r7),
    }
}

/// The CONNACK return code that a byte denotes.
pub open spec fn connack_code(n: u8) -> ConnackReturnCode {
    if n == 0 {
        ConnackReturnCode::Accepted
    } else if n == 1 {
        ConnackReturnCode::UnacceptableProtocolVersion
    } else if n == 2 {
        ConnackReturnCode::IdentifierRejected
    } else if n == 3 {
        ConnackReturnCode::ServerUnavailable
    } else if n == 4 {
        ConnackReturnCode::BadUsernameOrPassword
    } else if n == 5 {
        ConnackReturnCode::NotAuthorized
    } else {
        ConnackReturnCode::Error(n)
    }
}

/// The body of a CONNACK packet.
pub open spec fn parse_connack(b: Seq<u8>, cp: ConnackV, lvl: u8) -> Rd<ConnackV> {
    let r1 = spec_read_u8(b, 0);
    match r1 {
        Rd::Got(x, p1) => {
            let r2 = spec_read_u8(b, p1);
            match r2 {
                Rd::Got(code, p2) => {
                    let r3 = opt_read_props(lvl == 5, b, p2, cp.properties);
                    match r3 {
                        Rd::Got(props, p3) => Rd::Got(
                            ConnackV {
                                session_present: x & 1 == 1,
                                return_code: connack_code(code),
                                properties: props,
                            },
                            p3,
                        ),
                        _ => rd_err(r3),
                    }
                },
                _ => rd_err(r2),
            }
        },
        _ => rd_err(r1),
    }
}

/// One topic filter with its options byte.
pub open spec fn sub_topic(name: Seq<char>, so: u8) -> SubscribeTopicV {
    SubscribeTopicV {
        topic_name: name,
        req_qos: so & 0b11,
        retain_handling: (so & 0b110000) >> 4,
        rap: so & 0b1000 == 0b1000,
        nl: so & 0b100 == 0b100,
    }
}

/// The topic filters of a SUBSCRIBE body from `p` to the end.
pub open spec fn parse_sub_topics(b: Seq<u8>, p: int) -> Rd<Seq<SubscribeTopicV>>
    decreases b.len() - p,
{
    if p >= b.len() || p < 0 {
        Rd::Got(Seq::empty(), p)
    } else {
        let r1 = spec_read_str(b, p);
        match r1 {
            Rd::Got(name, q) => {
                let r2 = spec_read_u8(b, q);
                match r2 {
                    Rd::Got(so, q2) => {
                        if q2 <= p || q2 > b.len() {
                            Rd::Abort
                        } else {
                            rd_prepend(seq![sub_topic(name, so)], parse_sub_topics(b, q2))
                        }
                    },
                    _ => rd_err(r2),
                }
            },
            _ => rd_err(r1),
        }
    }
}

/// The body of a SUBSCRIBE packet.
pub open spec fn parse_subscribe(b: Seq<u8>, sp: SubscribeV, lvl: u8) -> Rd<SubscribeV> {
    let r1 = spec_read_u16(b, 0);
    match r1 {
        Rd::Got(id, p1) => {
            let r2 = opt_read_props(lvl == 5, b, p1, sp.properties);
            match r2 {
                Rd::Got(props, p2) => {
                    let r3 = parse_sub_topics(b, p2);
                    match r3 {
                        Rd::Got(ts, p3) => Rd::Got(
                            SubscribeV {
                                packet_identifier: id,
                                topics: sp.topics + ts,
                                properties: props,
                            },
                            p3,
                        ),
                        _ => rd_err(r3),
                    }
                },
                _ => rd_err(r2),
            }
        },
        _ => rd_err(r1),
    }
}

/// The topic filters of an UNSUBSCRIBE body from `p` to the end.
pub open spec fn parse_unsub_topics(b: Seq<u8>, p: int) -> Rd<Seq<Seq<char>>>
    decreases b.len() - p,
{
    if p >= b.len() || p < 0 {
        Rd::Got(Seq::empty(), p)
    } else {
        let r1 = spec_read_str(b, p);
        match r1 {
            Rd::Got(name, q) => {
                if q <= p || q > b.len() {
                    Rd::Abort
                } else {
                    rd_prepend(seq![name], parse_unsub_topics(b, q))
                }
            },
            _ => rd_err(r1),
        }
    }
}

/// The body of an UNSUBSCRIBE packet: before MQTT 5.0 the packet
/// identifier, from 5.0 on the properties (the identifier is not read).
pub open spec fn parse_unsubscribe(b: Seq<u8>, up: UnsubscribeV, lvl: u8) -> Rd<UnsubscribeV> {
    let r1 = opt_read_props(lvl == 5, b, 0, up.properties);
    match r1 {
        Rd::Got(props, p1) => {
            let r2 = if lvl < 5 {
                spec_read_u16(b, p1)
            } else {
                Rd::Got(up.packet_identifier, p1)
            };
            match r2 {
                Rd::Got(id, p2) => {
                    let r3 = parse_unsub_topics(b, p2);
                    match r3 {
                        Rd::Got(ts, p3) => Rd::Got(
                            UnsubscribeV {
                                packet_identifier: id,
                                topics: up.topics + ts,
                                properties: props,
                            },
                            p3,
                        ),
                        _ => rd_err(r3),
                    }
                },
                _ => rd_err(r2),
            }
        },
        _ => rd_err(r1),
    }
}

/// A SUBACK return code: below 0x80 a granted QoS, else a failure.
pub open spec fn suback_ret(x: u8) -> SubackRet {
    if x < 0x80 {
        SubackRet::Success(x)
    } else {
        SubackRet::Failure(x)
    }
}

/// The return codes of a SUBACK body from `p` to the end.
pub open spec fn parse_suback_codes(b: Seq<u8>, p: int) -> Seq<SubackRet>
    decreases b.len() - p,
{
    if p >= b.len() || p < 0 {
        Seq::empty()
    } else {
        seq![suback_ret(b[p])] + parse_suback_codes(b, p + 1)
    }
}

/// The body of a SUBACK packet (properties first at MQTT 5.0, then the
/// packet identifier).
pub open spec fn parse_suback(b: Seq<u8>, sp: SubackV, lvl: u8) -> Rd<SubackV> {
    let r1 = opt_read_props(lvl == 5, b, 0, sp.properties);
    match r1 {
        Rd::Got(props, p1) => {
            let r2 = spec_read_u16(b, p1);
            match r2 {
                Rd::Got(id, p2) => Rd::Got(
                    SubackV {
                        packet_identifier: id,
                        topics: sp.topics + parse_suback_codes(b, p2),
                        properties: props,
                    },
                    b.len() as int,
                ),
                _ => rd_err(r2),
            }
        },
        _ => rd_err(r1),
    }
}

/// The body of an UNSUBACK packet (at MQTT 5.0 the properties, then the
/// reason code).
pub open spec fn parse_unsuback(b: Seq<u8>, ap: AckV, lvl: u8) -> Rd<AckV> {
    let r1 = spec_read_u16(b, 0);
    match r1 {
        Rd::Got(id, p1) => {
            if lvl == 5 {
                let r2 = spec_read_properties(b, p1);
                match r2 {
                    Rd::Got(props, p2) => {
                        let r3 = spec_read_u8(b, p2);
                        match r3 {
                            Rd::Got(rc, p3) => Rd::Got(
                                AckV { packet_identifier: id, reason_code: rc, properties: props },
                                p3,
                            ),
                            _ => rd_err(r3),
                        }
                    },
                    _ => rd_err(r2),
                }
            } else {
                Rd::Got(AckV { packet_identifier: id, ..ap }, p1)
            }
        },
        _ => rd_err(r1),
    }
}

/// The body of a PUBACK, PUBREC, PUBREL or PUBCOMP packet (at MQTT 5.0 the
/// reason code, then the properties).
pub open spec fn parse_ack(b: Seq<u8>, ap: AckV, lvl: u8) -> Rd<AckV> {
    let r1 = spec_read_u16(b, 0);
    match r1 {
        Rd::Got(id, p1) => {
            if lvl == 5 {
                let r2 = spec_read_u8(b, p1);
                match r2 {
                    Rd::Got(rc, p2) => {
                        let r3 = spec_read_properties(b, p2);
                        match r3 {
                            Rd::Got(props, p3) => Rd::Got(
                                AckV { packet_identifier: id, reason_code: rc, properties: props },
                                p3,
                            ),
                            _ => rd_err(r3),
                        }
                    },
                    _ => rd_err(r2),
                }
            } else {
                Rd::Got(AckV { packet_identifier: id, ..ap }, p1)
            }
        },
        _ => rd_err(r1),
    }
}

/// The body of a PUBLISH packet: the topic, the packet identifier where the
/// QoS is 1 or 2, the properties at MQTT 5.0, then the payload (the rest).
pub open spec fn parse_publish(b: Seq<u8>, pp: PublishV, lvl: u8) -> Rd<PublishV> {
    let r1 = spec_read_str(b, 0);
    match r1 {
        Rd::Got(topic, p1) => {
            let r2 = if pp.qos == 1 || pp.qos == 2 {
                spec_read_u16(b, p1)
            } else {
                Rd::Got(pp.packet_identifier, p1)
            };
            match r2 {
                Rd::Got(id, p2) => {
                    let r3 = opt_read_props(lvl == 5, b, p2, pp.properties);
                    match r3 {
                        Rd::Got(props, p3) => Rd::Got(
                            PublishV {
                                topic_name: topic,
                                packet_identifier: id,
                                properties: props,
                                payload: pp.payload + b.subrange(p3, b.len() as int),
                                ..pp
                            },
                            b.len() as int,
                        ),
                        _ => rd_err(r3),
                    }
                },
                _ => rd_err(r2),
            }
        },
        _ => rd_err(r1),
    }
}

/// The body of a DISCONNECT packet (at MQTT 5.0 the reason code, then the
/// properties).
pub open spec fn parse_disconnect(b: Seq<u8>, dp: DisconnectV, lvl: u8) -> Rd<DisconnectV> {
    if lvl == 5 {
        let r1 = spec_read_u8(b, 0);
        match r1 {
            Rd::Got(rc, p1) => {
                let r2 = spec_read_properties(b, p1);
                match r2 {
                    Rd::Got(props, p2) => Rd::Got(
                        DisconnectV { reason_code: rc, properties: props },
                        p2,
                    ),
                    _ => rd_err(r2),
                }
            },
            _ => rd_err(r1),
        }
    } else {
        Rd::Got(dp, 0)
    }
}

/// The body of a packet whose fixed header gave `pk`.
pub open spec fn parse_body(pk: PacketV, b: Seq<u8>, lvl: u8) -> Rd<PacketV> {
    match pk {
        PacketV::Connect(cp) => rd_map(parse_connect(b, cp), |v: ConnectV| PacketV::Connect(v)),
        PacketV::Connack(cp) => rd_map(parse_connack(b, cp, lvl), |v: ConnackV| PacketV::Connack(v)),
        PacketV::Subscribe(sp) => rd_map(
            parse_subscribe(b, sp, lvl),
            |v: SubscribeV| PacketV::Subscribe(v),
        ),
        PacketV::Unsubscribe(up) => rd_map(
            parse_unsubscribe(b, up, lvl),
            |v: UnsubscribeV| PacketV::Unsubscribe(v),
        ),
        PacketV::Suback(sp) => rd_map(parse_suback(b, sp, lvl), |v: SubackV| PacketV::Suback(v)),
        PacketV::Unsuback(ap) => rd_map(parse_unsuback(b, ap, lvl), |v: AckV| PacketV::Unsuback(v)),
        PacketV::Publish(pp) => rd_map(parse_publish(b, pp, lvl), |v: PublishV| PacketV::Publish(v)),
        PacketV::Puback(ap) => rd_map(parse_ack(b, ap, lvl), |v: AckV| PacketV::Puback(v)),
        PacketV::Pubrec(ap) => rd_map(parse_ack(b, ap, lvl), |v: AckV| PacketV::Pubrec(v)),
        PacketV::Pubrel(ap) => rd_map(parse_ack(b, ap, lvl), |v: AckV| PacketV::Pubrel(v)),
        PacketV::Pubcomp(ap) => rd_map(parse_ack(b, ap, lvl), |v: AckV| PacketV::Pubcomp(v)),
        PacketV::Disconnect(dp) => rd_map(
            parse_disconnect(b, dp, lvl),
            |v: DisconnectV| PacketV::Disconnect(v),
        ),
        _ => Rd::Got(pk, 0),
    }
}

/// Whether the flags `f` of the fixed header suit packet type `pt`: PUBREL,
/// SUBSCRIBE and UNSUBSCRIBE take `0b0010`, PUBLISH any, the others 0.
pub open spec fn header_flags_ok(pt: u8, f: u8) -> bool {
    if pt == 6 || pt == 8 || pt == 10 {
        f == 0b0010
    } else if pt == 3 {
        true
    } else {
        f == 0
    }
}

/// A whole packet read from `b` at protocol level `lvl` (the level the
/// connection agreed on; a CONNECT packet carries its own). The fixed header
/// comes first, its remaining length is skipped over (and not checked), and
/// the body is the rest of `b`.
pub open spec fn spec_from_buf(b: Seq<u8>, lvl: u8) -> Rd<PacketV> {
    if b.len() == 0 {
        Rd::Abort
    } else {
        let h = b[0];
        let pos = vbi_end(b, 1);
        let pt = h / 16;
        let f = h & 0x0f;
        if pt == 0 || pt == 15 || !header_flags_ok(pt, f) {
            Rd::Bad(ErrorKind::BadMqttHeader)
        } else {
            let pk = initial_packet(pt, f);
            let body = b.subrange(pos, b.len() as int);
            if body.len() > 0 {
                parse_body(pk, body, lvl)
            } else {
                Rd::Got(pk, 0)
            }
        }
    }
}

} // verus!

verus! {

/// The number of UTF-8 bytes of a string.
pub open spec fn utf8_len(s: Seq<char>) -> nat {
    encode_utf8(s).len()
}

/// What a property list adds to the remaining length: its length prefix and
/// its counted length (as truncated to 32 bits).
pub open spec fn props_part(o: Option<Seq<PropV>>) -> nat {
    let pl = props_len(o) as u32;
    vbi_bytes(pl as nat).len() + pl as nat
}

/// Whether a CONNECT packet carries a will.
pub open spec fn has_will(cp: ConnectV) -> bool {
    cp.will_topic is Some || cp.will_message is Some
}

/// The UTF-8 length of an optional string (0 for none).
pub open spec fn opt_utf8_len(o: Option<Seq<char>>) -> nat {
    match o {
        Some(s) => utf8_len(s),
        None => 0,
    }
}

/// The string of an optional string (empty for none).
pub open spec fn opt_or_empty(o: Option<Seq<char>>) -> Seq<char> {
    match o {
        Some(s) => s,
        None => Seq::empty(),
    }
}

/// What the topic filters of a SUBSCRIBE add to the remaining length.
pub open spec fn sub_topics_len(ts: Seq<SubscribeTopicV>) -> nat
    decreases ts.len(),
{
    if ts.len() == 0 {
        0
    } else {
        sub_topics_len(ts.drop_last()) + 3 + utf8_len(ts.last().topic_name)
    }
}

/// What the topic filters of an UNSUBSCRIBE add to the remaining length.
pub open spec fn unsub_topics_len(ts: Seq<Seq<char>>) -> nat
    decreases ts.len(),
{
    if ts.len() == 0 {
        0
    } else {
        unsub_topics_len(ts.drop_last()) + 2 + utf8_len(ts.last())
    }
}

/// The remaining length that the writer computes for a packet (before it
/// is truncated to 32 bits). A CONNECT counts its properties where its own
/// protocol level is 5; the other packets where the connection's is.
pub open spec fn rem_len(p: PacketV, lvl: u8) -> nat {
    match p {
        PacketV::Connect(cp) => {
            let will = has_will(cp);
            2 + utf8_len(cp.protocol_name) + 4 + 2 + utf8_len(cp.client_identifier) + (if will {
                2 + opt_utf8_len(cp.will_topic) + 2 + opt_utf8_len(cp.will_message)
            } else {
                0
            }) + (match cp.user_name {
                Some(u) => 2 + utf8_len(u),
                None => 0,
            }) + (match cp.password {
                Some(u) => 2 + utf8_len(u),
                None => 0,
            }) + (if cp.protocol_level == 5 {
                props_part(cp.properties) + if will {
                    props_part(cp.will_properties)
                } else {
                    0
                }
            } else {
                0
            })
        },
        PacketV::Connack(cp) => 2 + if lvl == 5 {
            props_part(cp.properties)
        } else {
            0
        },
        PacketV::Publish(pp) => 2 + utf8_len(pp.topic_name) + (if pp.qos > 0 {
            2nat
        } else {
            0
        }) + pp.payload.len() + if lvl == 5 {
            props_part(pp.properties)
        } else {
            0
        },
        PacketV::Puback(ap)
        | PacketV::Pubrec(ap)
        | PacketV::Pubrel(ap)
        | PacketV::Pubcomp(ap)
        | PacketV::Unsuback(ap) => 2 + if lvl == 5 {
            1 + props_part(ap.properties)
        } else {
            0
        },
        PacketV::Subscribe(sp) => 2 + sub_topics_len(sp.topics) + if lvl == 5 {
            props_part(sp.properties)
        } else {
            0
        },
        PacketV::Suback(sp) => 2 + sp.topics.len() + if lvl == 5 {
            props_part(sp.properties)
        } else {
            0
        },
        PacketV::Unsubscribe(up) => 2 + unsub_topics_len(up.topics) + if lvl == 5 {
            props_part(up.properties)
        } else {
            0
        },
        PacketV::Disconnect(dp) => if lvl == 5 {
            1 + props_part(dp.properties)
        } else {
            0
        },
        PacketV::Pingreq | PacketV::Pingresp | PacketV::Reserved => 0,
    }
}

/// The packet type number of a packet (0 for `Reserved`).
pub open spec fn packet_type(p: PacketV) -> u8 {
    match p {
        PacketV::Connect(_) => 1,
        PacketV::Connack(_) => 2,
        PacketV::Publish(_) => 3,
        PacketV::Puback(_) => 4,
        PacketV::Pubrec(_) => 5,
        PacketV::Pubrel(_) => 6,
        PacketV::Pubcomp(_) => 7,
        PacketV::Subscribe(_) => 8,
        PacketV::Suback(_) => 9,
        PacketV::Unsubscribe(_) => 10,
        PacketV::Unsuback(_) => 11,
        PacketV::Pingreq => 12,
        PacketV::Pingresp => 13,
        PacketV::Disconnect(_) => 14,
        PacketV::Reserved => 0,
    }
}

/// The PUBLISH flags as the writer sums them: DUP (8), the QoS shifted left
/// by one within a byte, RETAIN (1).
pub open spec fn publish_flags(pp: PublishV) -> int {
    (if pp.dup {
        8int
    } else {
        0
    }) + ((pp.qos as int * 2) % 256) + (if pp.retain {
        1int
    } else {
        0
    })
}

/// The flags of the fixed header.
pub open spec fn header_flags(p: PacketV) -> int {
    match p {
        PacketV::Publish(pp) => publish_flags(pp),
        PacketV::Pubrel(_) | PacketV::Subscribe(_) | PacketV::Unsubscribe(_) => 2,
        _ => 0,
    }
}

/// The CONNECT flags byte: user name (128), password (64), will retain
/// (32), will QoS (bits 3 and 4), will (4), clean session (2).
pub open spec fn connect_flags(cp: ConnectV) -> u8 {
    ((if cp.user_name is Some {
        128int
    } else {
        0
    }) + (if cp.password is Some {
        64int
    } else {
        0
    }) + (if cp.will_retain {
        32int
    } else {
        0
    }) + (cp.will_qos % 4) as int * 8 + (if has_will(cp) {
        4int
    } else {
        0
    }) + (if cp.clean_session {
        2int
    } else {
        0
    })) as u8
}

/// Whether writing the packet would overflow: a PUBLISH whose flags push
/// the header byte past 255.
pub open spec fn as_bytes_overflows(p: PacketV) -> bool {
    match p {
        PacketV::Publish(pp) => 48 + publish_flags(pp) > 255,
        _ => false,
    }
}

/// The property lists of a packet.
pub open spec fn packet_props_fit(p: PacketV) -> bool {
    match p {
        PacketV::Connect(cp) => props_len(cp.properties) <= usize::MAX && props_len(
            cp.will_properties,
        ) <= usize::MAX,
        PacketV::Connack(cp) => props_len(cp.properties) <= usize::MAX,
        PacketV::Publish(pp) => props_len(pp.properties) <= usize::MAX,
        PacketV::Puback(ap)
        | PacketV::Pubrec(ap)
        | PacketV::Pubrel(ap)
        | PacketV::Pubcomp(ap)
        | PacketV::Unsuback(ap) => props_len(ap.properties) <= usize::MAX,
        PacketV::Subscribe(sp) => props_len(sp.properties) <= usize::MAX,
        PacketV::Suback(sp) => props_len(sp.properties) <= usize::MAX,
        PacketV::Unsubscribe(up) => props_len(up.properties) <= usize::MAX,
        PacketV::Disconnect(dp) => props_len(dp.properties) <= usize::MAX,
        _ => true,
    }
}

/// The lengths that the writer counts fit in a `usize`.
pub open spec fn as_bytes_fits(p: PacketV, lvl: u8) -> bool {
    rem_len(p, lvl) <= usize::MAX && packet_props_fit(p)
}

/// Whether the writer can write this kind of packet (PUBREC, PUBREL,
/// PUBCOMP, UNSUBSCRIBE and the reserved type it cannot).
pub open spec fn as_bytes_supported(p: PacketV) -> bool {
    !(p is Pubrec || p is Pubrel || p is Pubcomp || p is Unsubscribe || p is Reserved)
}

/// The fixed header: type and flags, then the remaining length.
pub open spec fn header_bytes(p: PacketV, lvl: u8) -> Seq<u8> {
    seq![(packet_type(p) as int * 16 + header_flags(p)) as u8] + vbi_bytes(
        rem_len(p, lvl) as u32 as nat,
    )
}

/// Where `c` holds, `s`; else nothing.
pub open spec fn present_if(c: bool, s: Seq<u8>) -> Seq<u8> {
    if c {
        s
    } else {
        Seq::empty()
    }
}

/// The byte of a CONNACK return code.
pub open spec fn connack_byte(c: ConnackReturnCode) -> u8 {
    match c {
        ConnackReturnCode::Accepted => 0,
        ConnackReturnCode::UnacceptableProtocolVersion => 1,
        ConnackReturnCode::IdentifierRejected => 2,
        ConnackReturnCode::ServerUnavailable => 3,
        ConnackReturnCode::BadUsernameOrPassword => 4,
        ConnackReturnCode::NotAuthorized => 5,
        ConnackReturnCode::Error(n) => n,
    }
}

/// The byte of a SUBACK return code.
pub open spec fn suback_byte(r: SubackRet) -> u8 {
    match r {
        SubackRet::Success(q) => q,
        SubackRet::Failure(e) => e,
    }
}

/// The topic filters of a SUBSCRIBE as written: each name, then its
/// requested QoS byte.
pub open spec fn sub_topics_bytes(ts: Seq<SubscribeTopicV>) -> Seq<u8>
    decreases ts.len(),
{
    if ts.len() == 0 {
        Seq::empty()
    } else {
        sub_topics_bytes(ts.drop_last()) + str_bytes(ts.last().topic_name) + seq![ts.last().req_qos]
    }
}

/// The return codes of a SUBACK as written.
pub open spec fn suback_codes_bytes(cs: Seq<SubackRet>) -> Seq<u8> {
    cs.map_values(|c: SubackRet| suback_byte(c))
}

/// The body that the writer puts after the fixed header.
pub open spec fn body_bytes(p: PacketV, lvl: u8) -> Seq<u8> {
    match p {
        PacketV::Connect(cp) => {
            let will = has_will(cp);
            let l5 = cp.protocol_level == 5;
            str_bytes(cp.protocol_name) + seq![cp.protocol_level, connect_flags(cp)] + u16_bytes(
                cp.keep_alive,
            ) + present_if(l5, props_bytes(cp.properties)) + str_bytes(cp.client_identifier) + present_if(
                will,
                present_if(l5, props_bytes(cp.will_properties)) + str_bytes(opt_or_empty(cp.will_topic))
                    + str_bytes(opt_or_empty(cp.will_message)),
            ) + present_if(cp.user_name is Some, str_bytes(opt_or_empty(cp.user_name))) + present_if(
                cp.password is Some,
                str_bytes(opt_or_empty(cp.password)),
            )
        },
        PacketV::Connack(cp) => seq![
            if cp.session_present {
                1u8
            } else {
                0u8
            },
            connack_byte(cp.return_code),
        ] + present_if(lvl == 5, props_bytes(cp.properties)),
        PacketV::Subscribe(sp) => u16_bytes(sp.packet_identifier) + present_if(
            lvl == 5,
            props_bytes(sp.properties),
        ) + sub_topics_bytes(sp.topics),
        PacketV::Suback(sp) => present_if(lvl == 5, props_bytes(sp.properties)) + u16_bytes(
            sp.packet_identifier,
        ) + suback_codes_bytes(sp.topics),
        PacketV::Publish(pp) => str_bytes(pp.topic_name) + present_if(
            pp.qos == 1 || pp.qos == 2,
            u16_bytes(pp.packet_identifier),
        ) + present_if(lvl == 5, props_bytes(pp.properties)) + pp.payload,
        PacketV::Puback(ap) => u16_bytes(ap.packet_identifier) + present_if(
            lvl == 5,
            seq![ap.reason_code] + props_bytes(ap.properties),
        ),
        PacketV::Unsuback(ap) => u16_bytes(ap.packet_identifier) + present_if(
            lvl == 5,
            props_bytes(ap.properties) + seq![ap.reason_code],
        ),
        PacketV::Disconnect(dp) => present_if(
            lvl == 5,
            seq![dp.reason_code] + props_bytes(dp.properties),
        ),
        _ => Seq::empty(),
    }
}

/// A whole packet as the writer puts it.
pub open spec fn packet_bytes(p: PacketV, lvl: u8) -> Seq<u8> {
    header_bytes(p, lvl) + body_bytes(p, lvl)
}

/// The remaining length counted for a prefix of the SUBSCRIBE topics.
pub proof fn lemma_sub_topics_prefix(ts: Seq<SubscribeTopicV>, i: int)
    requires
        0 <= i <= ts.len(),
    ensures
        sub_topics_len(ts.take(i)) <= sub_topics_len(ts),
        i < ts.len() ==> sub_topics_len(ts.take(i + 1)) == sub_topics_len(ts.take(i)) + 3
            + utf8_len(ts[i].topic_name),
        i < ts.len() ==> sub_topics_bytes(ts.take(i + 1)) == sub_topics_bytes(ts.take(i))
            + str_bytes(ts[i].topic_name) + seq![ts[i].req_qos],
    decreases ts.len() - i,
{
    if i < ts.len() {
        assert(ts.take(i + 1).drop_last() == ts.take(i));
        lemma_sub_topics_prefix(ts, i + 1);
    } else {
        assert(ts.take(i) == ts);
    }
}

/// The remaining length counted for a prefix of the UNSUBSCRIBE topics.
pub proof fn lemma_unsub_topics_prefix(ts: Seq<Seq<char>>, i: int)
    requires
        0 <= i <= ts.len(),
    ensures
        unsub_topics_len(ts.take(i)) <= unsub_topics_len(ts),
        i < ts.len() ==> unsub_topics_len(ts.take(i + 1)) == unsub_topics_len(ts.take(i)) + 2
            + utf8_len(ts[i]),
    decreases ts.len() - i,
{
    if i < ts.len() {
        assert(ts.take(i + 1).drop_last() == ts.take(i));
        lemma_unsub_topics_prefix(ts, i + 1);
    } else {
        assert(ts.take(i) == ts);
    }
}

} // verus!
