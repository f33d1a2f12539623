//! MQTT control packets: reading one from its bytes and writing it out.

use vstd::prelude::*;
use vstd::utf8::*;
use vstd::string::{StringSliceAdditionalSpecFns, StringExecFns};
use crate::mqtt::wire::{
    ErrorKind, Rd, PropV, prop_type, be16, be32, spec_read_u8, spec_read_u16, spec_read_u32,
    spec_read_str, spec_read_binary_data, vbi_bytes, u16_bytes, u32_bytes, str_bytes,
    lemma_vbi_bytes_len, pow128, vbi_scan, spec_read_vbi, vbi_end, spec_read_prop,
    spec_read_props_from, spec_read_properties, rd_map, rd_then, rd_prepend, prop_len,
    props_seq_len, props_len, prop_bytes, props_seq_bytes, props_bytes, lemma_props_seq_len_take,
    lemma_props_seq_len_prefix, ConnectV, PublishV, ConnackV, SubscribeTopicV, SubscribeV,
    UnsubscribeV, SubackV, AckV, DisconnectV, PacketV, initial_packet, empty_ack, first_last_byte,
    spec_get_buffer_len, lemma_vbi_scan_bound, spec_read_prop_value, rd_err, opt_read_props,
    opt_read_str, parse_connect, parse_connect_tail, connack_code, parse_connack, sub_topic,
    parse_sub_topics, parse_subscribe, parse_unsub_topics, parse_unsubscribe, suback_ret,
    parse_suback_codes, parse_suback, parse_unsuback, parse_ack, parse_publish, parse_disconnect,
    parse_body, header_flags_ok, spec_from_buf, utf8_len, props_part, has_will, opt_utf8_len,
    opt_or_empty, sub_topics_len, unsub_topics_len, rem_len, packet_type, publish_flags,
    header_flags, connect_flags, as_bytes_overflows, packet_props_fit,
    as_bytes_fits, as_bytes_supported, header_bytes, present_if, connack_byte, suback_byte,
    sub_topics_bytes, suback_codes_bytes, body_bytes, packet_bytes, lemma_sub_topics_prefix,
    lemma_unsub_topics_prefix,
};

verus! {

broadcast use {encode_utf8_valid_utf8, encode_utf8_decode_utf8, decode_utf8_encode_utf8};

#[verifier::external_type_specification]
#[verifier::external_body]
pub struct ExUtf8Error(core::str::Utf8Error);

/// Errors of the MQTT codec.
#[derive(Debug)]
pub enum Error {
    BadMqttHeader,
    MalformedRemainingLength,
    PacketTooShort,
    NotImplemented(String),
    PacketTooLong,
    BuffTooShort,
    BuffTooLong,
    Utf8Error(core::str::Utf8Error),
    BadPropertyNum(u8),
}

impl Error {
    /// The kind of the error.
    pub open spec fn kind(self) -> ErrorKind {
        match self {
            Error::BadMqttHeader => ErrorKind::BadMqttHeader,
            Error::MalformedRemainingLength => ErrorKind::MalformedRemainingLength,
            Error::PacketTooShort => ErrorKind::PacketTooShort,
            Error::NotImplemented(_) => ErrorKind::NotImplemented,
            Error::PacketTooLong => ErrorKind::PacketTooLong,
            Error::BuffTooShort => ErrorKind::BuffTooShort,
            Error::BuffTooLong => ErrorKind::BuffTooLong,
            Error::Utf8Error(_) => ErrorKind::Utf8Error,
            Error::BadPropertyNum(n) => ErrorKind::BadPropertyNum(n),
        }
    }
}

/// `core::str::from_utf8`: `Ok` exactly when the bytes are valid UTF-8, and
/// then a string whose UTF-8 bytes are the given ones.
#[verifier::external_body]
fn str_from_utf8(v: &[u8]) -> (r: Result<&str, core::str::Utf8Error>)
    ensures
        r is Ok <==> valid_utf8(v@),
        r matches Ok(s) ==> s.spec_bytes() == v@,
{
    core::str::from_utf8(v)
}

/// A property of an MQTT 5.0 packet.
#[derive(Debug)]
pub enum MqttProperty {
    PayloadFormatIndicator(u8),
    MessageExpiryInterval(u32),
    ContentType(String),
    ResponseTopic(String),
    CorrelationData(Vec<u8>),
    SubscriptionIdentifier(u32),
    SessionExpiryInterval(u32),
    AssignedClientIdentifier(String),
    ServerKeepAlive(u16),
    AuthenticationMethod(String),
    AuthenticationData(Vec<u8>),
    RequestProblemInformation(u8),
    WillDelayInterval(u16),
    RequestResponseInformation(u8),
    ResponseInformation(String),
    ServerReference(String),
    ReasonString(String),
    ReceiveMaximum(u16),
    TopicAliasMaximum(u16),
    TopicAlias(u16),
    MaximumQoS(u8),
    RetainAvailable(u8),
    UserProperty(String, String),
    MaximumPacketSize(u32),
    WildcardSubscriptionAvailable(u8),
    SubscriptionIdentifierAvailable(u8),
    SharedSubscriptionAvailable(u8),
}

impl View for MqttProperty {
    type V = PropV;

    open spec fn view(&self) -> PropV {
        match self {
            MqttProperty::PayloadFormatIndicator(v) => PropV::PayloadFormatIndicator(*v),
            MqttProperty::MessageExpiryInterval(v) => PropV::MessageExpiryInterval(*v),
            MqttProperty::ContentType(s) => PropV::ContentType(s@),
            MqttProperty::ResponseTopic(s) => PropV::ResponseTopic(s@),
            MqttProperty::CorrelationData(v) => PropV::CorrelationData(v@),
            MqttProperty::SubscriptionIdentifier(v) => PropV::SubscriptionIdentifier(*v),
            MqttProperty::SessionExpiryInterval(v) => PropV::SessionExpiryInterval(*v),
            MqttProperty::AssignedClientIdentifier(s) => PropV::AssignedClientIdentifier(s@),
            MqttProperty::ServerKeepAlive(v) => PropV::ServerKeepAlive(*v),
            MqttProperty::AuthenticationMethod(s) => PropV::AuthenticationMethod(s@),
            MqttProperty::AuthenticationData(v) => PropV::AuthenticationData(v@),
            MqttProperty::RequestProblemInformation(v) => PropV::RequestProblemInformation(*v),
            MqttProperty::WillDelayInterval(v) => PropV::WillDelayInterval(*v),
            MqttProperty::RequestResponseInformation(v) => PropV::RequestResponseInformation(*v),
            MqttProperty::ResponseInformation(s) => PropV::ResponseInformation(s@),
            MqttProperty::ServerReference(s) => PropV::ServerReference(s@),
            MqttProperty::ReasonString(s) => PropV::ReasonString(s@),
            MqttProperty::ReceiveMaximum(v) => PropV::ReceiveMaximum(*v),
            MqttProperty::TopicAliasMaximum(v) => PropV::TopicAliasMaximum(*v),
            MqttProperty::TopicAlias(v) => PropV::TopicAlias(*v),
            MqttProperty::MaximumQoS(v) => PropV::MaximumQoS(*v),
            MqttProperty::RetainAvailable(v) => PropV::RetainAvailable(*v),
            MqttProperty::UserProperty(k, v) => PropV::UserProperty(k@, v@),
            MqttProperty::MaximumPacketSize(v) => PropV::MaximumPacketSize(*v),
            MqttProperty::WildcardSubscriptionAvailable(v) => PropV::WildcardSubscriptionAvailable(
                *v,
            ),
            MqttProperty::SubscriptionIdentifierAvailable(v) => PropV::SubscriptionIdentifierAvailable(
                *v,
            ),
            MqttProperty::SharedSubscriptionAvailable(v) => PropV::SharedSubscriptionAvailable(*v),
        }
    }
}

impl MqttProperty {
    /// The property identifier.
    pub fn get_prop_type(&self) -> (r: u8)
        ensures
            r == prop_type(self@),
    {
        match self {
            MqttProperty::PayloadFormatIndicator(_) => 1,
            MqttProperty::MessageExpiryInterval(_) => 2,
            MqttProperty::ContentType(_) => 3,
            MqttProperty::ResponseTopic(_) => 8,
            MqttProperty::CorrelationData(_) => 9,
            MqttProperty::SubscriptionIdentifier(_) => 11,
            MqttProperty::SessionExpiryInterval(_) => 17,
            MqttProperty::AssignedClientIdentifier(_) => 18,
            MqttProperty::ServerKeepAlive(_) => 19,
            MqttProperty::AuthenticationMethod(_) => 21,
            MqttProperty::AuthenticationData(_) => 22,
            MqttProperty::RequestProblemInformation(_) => 23,
            MqttProperty::WillDelayInterval(_) => 24,
            MqttProperty::RequestResponseInformation(_) => 25,
            MqttProperty::ResponseInformation(_) => 26,
            MqttProperty::ServerReference(_) => 28,
            MqttProperty::ReasonString(_) => 31,
            MqttProperty::ReceiveMaximum(_) => 33,
            MqttProperty::TopicAliasMaximum(_) => 34,
            MqttProperty::TopicAlias(_) => 35,
            MqttProperty::MaximumQoS(_) => 36,
            MqttProperty::RetainAvailable(_) => 37,
            MqttProperty::UserProperty(_, _) => 38,
            MqttProperty::MaximumPacketSize(_) => 39,
            MqttProperty::WildcardSubscriptionAvailable(_) => 40,
            MqttProperty::SubscriptionIdentifierAvailable(_) => 41,
            MqttProperty::SharedSubscriptionAvailable(_) => 42,
        }
    }
}

/// The model of an optional property list.
pub open spec fn props_view(o: Option<Vec<MqttProperty>>) -> Option<Seq<PropV>> {
    match o {
        None => None,
        Some(v) => Some(v@.map_values(|p: MqttProperty| p@)),
    }
}

/// What a reader with a `Result` and a cursor did, against the model `s`
/// of the read at the cursor's old position `p0`.
pub open spec fn read_matches<T, V>(
    r: Result<T, Error>,
    view: spec_fn(T) -> V,
    s: Rd<V>,
    p0: usize,
    p1: usize,
) -> bool {
    match s {
        Rd::Got(v, q) => r matches Ok(x) && view(x) == v && p1 == q,
        Rd::Bad(k) => r matches Err(e) && e.kind() == k,
        Rd::Abort => false,
    }
}

pub fn read_u8(buf: &[u8], pos: &mut usize) -> (r: Result<u8, Error>)
    requires
        *old(pos) <= buf.len(),
    ensures
        *old(pos) <= *final(pos),
        read_matches(r, |x: u8| x, spec_read_u8(buf@, *old(pos) as int), *old(pos), *final(pos)),
        *final(pos) <= buf.len(),
        r is Err ==> *final(pos) == *old(pos),
{
    if buf.len() > *pos {
        let ret = buf[*pos];
        *pos += 1;
        Ok(ret)
    } else {
        Err(Error::BuffTooShort)
    }
}

pub fn read_u16(buf: &[u8], pos: &mut usize) -> (r: Result<u16, Error>)
    requires
        *old(pos) <= buf.len(),
    ensures
        *old(pos) <= *final(pos),
        read_matches(r, |x: u16| x, spec_read_u16(buf@, *old(pos) as int), *old(pos), *final(pos)),
        *final(pos) <= buf.len(),
        r is Err ==> *final(pos) == *old(pos),
{
    if buf.len() - *pos > 1 {
        let hi = buf[*pos];
        let lo = buf[*pos + 1];
        proof {
            assert(((hi as u16) << 8u16) == hi as u16 * 256) by (bit_vector);
        }
        let ret = ((hi as u16) << 8) + lo as u16;
        *pos += 2;
        Ok(ret)
    } else {
        Err(Error::BuffTooShort)
    }
}

pub fn read_u32(buf: &[u8], pos: &mut usize) -> (r: Result<u32, Error>)
    requires
        *old(pos) <= buf.len(),
    ensures
        *old(pos) <= *final(pos),
        read_matches(r, |x: u32| x, spec_read_u32(buf@, *old(pos) as int), *old(pos), *final(pos)),
        *final(pos) <= buf.len(),
        r is Err ==> *final(pos) == *old(pos),
{
    if buf.len() - *pos > 3 {
        let b0 = buf[*pos];
        let b1 = buf[*pos + 1];
        let b2 = buf[*pos + 2];
        let b3 = buf[*pos + 3];
        proof {
            assert(((b0 as u32) << 24u32) == b0 as u32 * 16777216) by (bit_vector);
            assert(((b1 as u32) << 16u32) == b1 as u32 * 65536) by (bit_vector);
            assert(((b2 as u32) << 8u32) == b2 as u32 * 256) by (bit_vector);
        }
        let ret = ((b0 as u32) << 24) + ((b1 as u32) << 16) + ((b2 as u32) << 8) + b3 as u32;
        *pos += 4;
        Ok(ret)
    } else {
        Err(Error::BuffTooShort)
    }
}

/// Reads a length-prefixed UTF-8 string and appends it to `s`.
pub fn read_str(buf: &[u8], pos: &mut usize, s: &mut String) -> (r: Result<(), Error>)
    requires
        *old(pos) <= buf.len(),
    ensures
        *old(pos) <= *final(pos),
        *final(pos) <= buf.len(),
        match spec_read_str(buf@, *old(pos) as int) {
            Rd::Got(v, q) => r is Ok && final(s)@ == old(s)@ + v && *final(pos) == q,
            Rd::Bad(k) => r matches Err(e) && e.kind() == k,
            Rd::Abort => false,
        },
{
    if buf.len() - *pos < 2 {
        return Err(Error::PacketTooShort);
    }
    let s_len = read_u16(buf, pos)? as usize;

    if buf.len() - *pos < s_len {
        return Err(Error::PacketTooShort);
    }
    let bytes = &buf[*pos..*pos + s_len];
    match str_from_utf8(bytes) {
        Ok(st) => {
            s.append(st);
        },
        Err(e) => {
            return Err(Error::Utf8Error(e));
        },
    }
    *pos += s_len;

    Ok(())
}

pub fn read_binary_data(buf: &[u8], pos: &mut usize) -> (r: Result<Vec<u8>, Error>)
    requires
        *old(pos) <= buf.len(),
    ensures
        *old(pos) <= *final(pos),
        *final(pos) <= buf.len(),
        read_matches(
            r,
            |x: Vec<u8>| x@,
            spec_read_binary_data(buf@, *old(pos) as int),
            *old(pos),
            *final(pos),
        ),
{
    if buf.len() - *pos < 2 {
        return Err(Error::PacketTooShort);
    }
    let len = read_u16(buf, pos)? as usize;

    if buf.len() - *pos < len {
        return Err(Error::PacketTooShort);
    }
    let v = vstd::slice::slice_to_vec(&buf[*pos..*pos + len]);
    *pos += len;

    Ok(v)
}

pub fn read_str_r(buf: &[u8], pos: &mut usize) -> (r: Result<String, Error>)
    requires
        *old(pos) <= buf.len(),
    ensures
        *old(pos) <= *final(pos),
        *final(pos) <= buf.len(),
        read_matches(
            r,
            |x: String| x@,
            spec_read_str(buf@, *old(pos) as int),
            *old(pos),
            *final(pos),
        ),
{
    let mut s = String::new();
    read_str(buf, pos, &mut s)?;

    Ok(s)
}

pub fn push_str(buf: &mut Vec<u8>, s: &str)
    ensures
        final(buf)@ == old(buf)@ + str_bytes(s@),
{
    let str_bytes = s.as_bytes();
    let str_bytes_len = str_bytes.len() as u16;

    buf.push((str_bytes_len / 256) as u8);
    buf.push((str_bytes_len % 256) as u8);

    let ghost b0 = buf@;
    let mut i: usize = 0;
    while i < str_bytes.len()
        invariant
            i <= str_bytes@.len(),
            buf@ == b0 + str_bytes@.subrange(0, i as int),
        decreases str_bytes@.len() - i,
    {
        buf.push(str_bytes[i]);
        i += 1;
        assert(str_bytes@.subrange(0, i as int) == str_bytes@.subrange(0, i - 1) + seq![
            str_bytes@[i - 1],
        ]);
    }
    assert(str_bytes@.subrange(0, i as int) == str_bytes@);
}

pub fn push_binary_data(buf: &mut Vec<u8>, v: &Vec<u8>)
    ensures
        final(buf)@ == old(buf)@ + v@,
{
    let ghost b0 = buf@;
    let mut i: usize = 0;
    while i < v.len()
        invariant
            i <= v@.len(),
            buf@ == b0 + v@.subrange(0, i as int),
        decreases v@.len() - i,
    {
        buf.push(v[i]);
        i += 1;
        assert(v@.subrange(0, i as int) == v@.subrange(0, i - 1) + seq![v@[i - 1]]);
    }
    assert(v@.subrange(0, i as int) == v@);
}

pub fn push_u8(buf: &mut Vec<u8>, v: u8)
    ensures
        final(buf)@ == old(buf)@.push(v),
{
    buf.push(v);
}

pub fn push_u16(buf: &mut Vec<u8>, v: u16)
    ensures
        final(buf)@ == old(buf)@ + u16_bytes(v),
{
    buf.push((v / 256) as u8);
    buf.push((v % 256) as u8);
}

pub fn push_u32(buf: &mut Vec<u8>, v: u32)
    ensures
        final(buf)@ == old(buf)@ + u32_bytes(v),
{
    buf.push((v / 16777216) as u8);
    buf.push(((v / 65536) % 256) as u8);
    buf.push(((v / 256) % 256) as u8);
    buf.push((v % 256) as u8);
}

pub fn push_vbi(buf: &mut Vec<u8>, v: u32)
    ensures
        final(buf)@ == old(buf)@ + vbi_bytes(v as nat),
{
    let mut v = v;
    let ghost b0 = buf@;
    let ghost v0 = v as nat;
    loop
        invariant_except_break
            b0 + vbi_bytes(v0) == buf@ + vbi_bytes(v as nat),
        ensures
            buf@ == b0 + vbi_bytes(v0),
        decreases v,
    {
        let mut eb: u8 = (v % 128) as u8;
        let ghost vv = v;
        v = v / 128;

        if v > 0 {
            eb = eb + 128;
        }
        buf.push(eb);
        proof {
            if vv < 128 {
                assert(vbi_bytes(vv as nat) == seq![vv as u8]);
                assert(buf@ == b0 + vbi_bytes(v0));
            } else {
                assert(vbi_bytes(vv as nat) == seq![(vv % 128 + 128) as u8] + vbi_bytes(v as nat));
            }
        }
        if v == 0 {
            break;
        }
    }
}

/// The number of bytes of `v` as a variable byte integer.
pub fn vbi_len(v: u32) -> (r: u8)
    ensures
        r as nat == vbi_bytes(v as nat).len(),
{
    let mut v = v;
    let mut l: u8 = 0;
    let ghost v0 = v as nat;
    proof {
        lemma_vbi_bytes_len(v0, 5);
    }
    loop
        invariant_except_break
            l as nat + vbi_bytes(v as nat).len() == vbi_bytes(v0).len(),
            vbi_bytes(v0).len() <= 5,
        ensures
            l as nat == vbi_bytes(v0).len(),
        decreases v,
    {
        proof {
            lemma_vbi_bytes_len(v as nat, 5);
        }
        let ghost vv = v as nat;
        v = v / 128;
        l += 1;
        if v == 0 {
            break;
        }
    }
    l
}

pub fn read_vbi(buf: &[u8], pos: &mut usize) -> (r: Result<u32, Error>)
    requires
        *old(pos) <= buf.len(),
    ensures
        *old(pos) <= *final(pos),
        *final(pos) <= buf.len(),
        *final(pos) == vbi_end(buf@, *old(pos) as int),
        read_matches(r, |x: u32| x, spec_read_vbi(buf@, *old(pos) as int), *old(pos), *final(pos)),
{
    let mut vbi: u32 = 0;
    let mut multiplier: u8 = 0;
    let ghost mut k: nat = 0;
    let ghost p0 = *pos as int;

    loop
        invariant_except_break
            p0 == *old(pos) as int,
            p0 <= *pos,
            *pos <= buf.len(),
            k <= 3,
            multiplier == 7 * k,
            vbi as nat <= pow128(k) - 1,
            vbi_scan(buf@, p0, 0, 0) == vbi_scan(buf@, *pos as int, k, vbi as nat),
        ensures
            p0 <= *pos,
            *pos <= buf.len(),
            vbi_scan(buf@, p0, 0, 0) == (Ok::<u32, ErrorKind>(vbi), *pos as int),
        decreases buf.len() - *pos,
    {
        reveal_with_fuel(pow128, 4);
        let ghost p_before = *pos as int;
        let ghost acc = vbi as nat;
        if buf.len() <= *pos {
            assert(vbi_scan(buf@, p_before, k, acc) == (
            Err::<u32, ErrorKind>(ErrorKind::PacketTooShort),
            p_before,
            ));
            return Err(Error::PacketTooShort);
        }

        let b = buf[*pos];

        *pos += 1;

        let encoded_byte = (b & 0x7f) as u32;
        proof {
            assert(b & 0x7f == b % 128) by (bit_vector);
            assert(encoded_byte < 128);
            let e = encoded_byte;
            assert(e < 128 ==> (e << 0u8) == e) by (bit_vector);
            assert(e < 128 ==> (e << 7u8) == e * 128) by (bit_vector);
            assert(e < 128 ==> (e << 14u8) == e * 16384) by (bit_vector);
            assert(e < 128 ==> (e << 21u8) == e * 2097152) by (bit_vector);
            assert(b & 0x80 == 0 <==> b < 128) by (bit_vector);
            assert(encoded_byte as nat * pow128(k) <= 127 * pow128(k));
        }
        vbi += encoded_byte << multiplier;
        multiplier += 7;
        let ghost acc2 = acc + (b % 128) as nat * pow128(k);
        assert(vbi as nat == acc2);

        if b & 0x80 == 0 {
            assert(vbi_scan(buf@, p_before, k, acc) == (Ok::<u32, ErrorKind>(acc2 as u32), p_before + 1));
            break;
        }

        if multiplier > 21 {
            assert(vbi_scan(buf@, p_before, k, acc) == (
            Err::<u32, ErrorKind>(ErrorKind::MalformedRemainingLength),
            p_before + 1,
            ));
            return Err(Error::MalformedRemainingLength);
        }
        proof {
            assert(vbi_scan(buf@, p_before, k, acc) == vbi_scan(buf@, p_before + 1, k + 1, acc2));
            k = k + 1;
        }
    }

    Ok(vbi)
}

/// What a reader that may meet an out-of-bounds input did, against the
/// model `s` of the read: `None` exactly where the model aborts.
pub open spec fn opt_matches<T, V>(
    r: Option<Result<T, Error>>,
    view: spec_fn(T) -> V,
    s: Rd<V>,
    p1: usize,
) -> bool {
    match s {
        Rd::Got(v, q) => r matches Some(Ok(x)) && view(x) == v && p1 == q,
        Rd::Bad(k) => r matches Some(Err(e)) && e.kind() == k,
        Rd::Abort => r is None,
    }
}

/// Reads the value of a property with identifier `t`.
fn read_prop_value(b: &[u8], pos: &mut usize, t: u8) -> (r: Result<MqttProperty, Error>)
    requires
        *old(pos) <= b.len(),
        !(spec_read_prop_value(b@, *old(pos) as int, t) is Abort),
    ensures
        *old(pos) <= *final(pos),
        *final(pos) <= b.len(),
        read_matches(
            r,
            |x: MqttProperty| x@,
            spec_read_prop_value(b@, *old(pos) as int, t),
            *old(pos),
            *final(pos),
        ),
{
    let prop = match t {
        1 => MqttProperty::PayloadFormatIndicator(read_u8(b, pos)?),
        2 => MqttProperty::MessageExpiryInterval(read_u32(b, pos)?),
        3 => MqttProperty::ContentType(read_str_r(b, pos)?),
        8 => MqttProperty::ResponseTopic(read_str_r(b, pos)?),
        9 => MqttProperty::CorrelationData(read_binary_data(b, pos)?),
        11 => MqttProperty::SubscriptionIdentifier(read_vbi(b, pos)?),
        17 => MqttProperty::SessionExpiryInterval(read_u32(b, pos)?),
        18 => MqttProperty::AssignedClientIdentifier(read_str_r(b, pos)?),
        19 => MqttProperty::ServerKeepAlive(read_u16(b, pos)?),
        21 => MqttProperty::AuthenticationMethod(read_str_r(b, pos)?),
        22 => MqttProperty::AuthenticationData(read_binary_data(b, pos)?),
        23 => MqttProperty::RequestProblemInformation(read_u8(b, pos)?),
        24 => MqttProperty::WillDelayInterval(read_u16(b, pos)?),
        25 => MqttProperty::RequestResponseInformation(read_u8(b, pos)?),
        26 => MqttProperty::ResponseInformation(read_str_r(b, pos)?),
        28 => MqttProperty::ServerReference(read_str_r(b, pos)?),
        31 => MqttProperty::ReasonString(read_str_r(b, pos)?),
        33 => MqttProperty::ReceiveMaximum(read_u16(b, pos)?),
        34 => MqttProperty::TopicAliasMaximum(read_u16(b, pos)?),
        35 => MqttProperty::TopicAlias(read_u16(b, pos)?),
        36 => MqttProperty::MaximumQoS(read_u8(b, pos)?),
        37 => MqttProperty::RetainAvailable(read_u8(b, pos)?),
        38 => {
            let k = read_str_r(b, pos)?;
            let v = read_str_r(b, pos)?;
            MqttProperty::UserProperty(k, v)
        },
        39 => MqttProperty::MaximumPacketSize(read_u32(b, pos)?),
        40 => MqttProperty::WildcardSubscriptionAvailable(read_u8(b, pos)?),
        41 => MqttProperty::SubscriptionIdentifierAvailable(read_u8(b, pos)?),
        42 => MqttProperty::SharedSubscriptionAvailable(read_u8(b, pos)?),
        x => {
            return Err(Error::BadPropertyNum(x));
        },
    };

    Ok(prop)
}

/// Reads one property (identifier byte, then value); `None` where the
/// reader would index out of bounds.
fn read_prop(b: &[u8], pos: &mut usize) -> (r: Option<Result<MqttProperty, Error>>)
    requires
        *old(pos) <= b.len(),
    ensures
        *old(pos) <= *final(pos),
        r matches Some(Ok(_)) ==> *old(pos) < *final(pos),
        *final(pos) <= b.len(),
        opt_matches(r, |x: MqttProperty| x@, spec_read_prop(b@, *old(pos) as int), *final(pos)),
{
    let prop_type = match read_u8(b, pos) {
        Ok(t) => t,
        Err(e) => {
            return Some(Err(e));
        },
    };
    Some(read_prop_value(b, pos, prop_type))
}

/// Reads a property list: its length, then the properties in a block of
/// that length; `None` where the length is 0.
fn read_properties_opt(buf: &[u8], pos: &mut usize) -> (r: Option<
    Result<Option<Vec<MqttProperty>>, Error>,
>)
    requires
        *old(pos) <= buf.len(),
    ensures
        *final(pos) <= buf.len(),
        opt_matches(
            r,
            |x: Option<Vec<MqttProperty>>| props_view(x),
            spec_read_properties(buf@, *old(pos) as int),
            *final(pos),
        ),
{
    let props_len = match read_vbi(buf, pos) {
        Ok(l) => l as usize,
        Err(e) => {
            return Some(Err(e));
        },
    };
    let mut ret = None;

    if props_len > 0 {
        if props_len > buf.len() - *pos {
            return None;
        }
        //props subbuffer
        let pbuf = &buf[*pos..*pos + props_len];
        let mut ppos: usize = 0;
        let mut props: Vec<MqttProperty> = Vec::new();

        let ghost p1 = *pos as int;
        let ghost p0 = *old(pos) as int;
        assert(pbuf@ == buf@.subrange(p1, p1 + props_len));
        while ppos < pbuf.len()
            invariant
                p0 == *old(pos) as int,
                *pos as int == p1,
                p1 + props_len <= buf@.len(),
                pbuf@ == buf@.subrange(p1, p1 + props_len),
                spec_read_properties(buf@, p0) == match spec_read_props_from(pbuf@, 0) {
                    Rd::Got(ps, _) => Rd::Got(Some(ps), p1 + props_len),
                    Rd::Bad(e) => Rd::Bad(e),
                    Rd::Abort => Rd::<Option<Seq<PropV>>>::Abort,
                },
                ppos <= pbuf@.len(),
                spec_read_props_from(pbuf@, 0) == rd_prepend(
                    props@.map_values(|p: MqttProperty| p@),
                    spec_read_props_from(pbuf@, ppos as int),
                ),
            decreases pbuf@.len() - ppos,
        {
            let ghost p_before = ppos as int;
            let ghost acc = props@.map_values(|p: MqttProperty| p@);
            let prop = match read_prop(pbuf, &mut ppos) {
                Some(Ok(p)) => p,
                Some(Err(e)) => {
                    return Some(Err(e));
                },
                None => {
                    return None;
                },
            };
            props.push(prop);
            proof {
                let tail = spec_read_props_from(pbuf@, ppos as int);
                assert(props@.map_values(|p: MqttProperty| p@) == acc.push(prop@));
                match tail {
                    Rd::Got(rest, q) => {
                        assert(acc + (seq![prop@] + rest) == acc.push(prop@) + rest);
                    },
                    _ => {},
                }
            }
        }
        proof {
            assert(props@.map_values(|p: MqttProperty| p@) + Seq::<PropV>::empty()
                == props@.map_values(|p: MqttProperty| p@));
        }

        *pos += props_len;

        ret = Some(props);
    }

    Some(Ok(ret))
}

/// Reads a property list: its length, then the properties in a block of
/// that length; `None` where the length is 0.
pub fn read_properties(buf: &[u8], pos: &mut usize) -> (r: Result<Option<Vec<MqttProperty>>, Error>)
    requires
        *old(pos) <= buf.len(),
        !(spec_read_properties(buf@, *old(pos) as int) is Abort),
    ensures
        *final(pos) <= buf.len(),
        read_matches(
            r,
            |x: Option<Vec<MqttProperty>>| props_view(x),
            spec_read_properties(buf@, *old(pos) as int),
            *old(pos),
            *final(pos),
        ),
{
    match read_properties_opt(buf, pos) {
        Some(r) => r,
        None => Err(Error::PacketTooShort),
    }
}

/// The length of a property list as the writer counts it, truncated to 32
/// bits.
pub fn get_properties_len(props: &Option<Vec<MqttProperty>>) -> (r: u32)
    requires
        props_len(props_view(*props)) <= usize::MAX,
    ensures
        r == props_len(props_view(*props)) as u32,
{
    match props {
        None => 0,
        Some(v) => {
            let ghost ps = v@.map_values(|p: MqttProperty| p@);
            let mut len: usize = 0;
            let mut i: usize = 0;

            while i < v.len()
                invariant
                    i <= v@.len(),
                    ps == v@.map_values(|p: MqttProperty| p@),
                    len == props_seq_len(ps.take(i as int)),
                    props_seq_len(ps) <= usize::MAX,
                decreases v@.len() - i,
            {
                proof {
                    lemma_props_seq_len_take(ps, i as int);
                    lemma_props_seq_len_prefix(ps, i + 1);
                }
                let p = &v[i];
                len += 1;

                len += match p {
                    MqttProperty::PayloadFormatIndicator(_)
                    | MqttProperty::RequestResponseInformation(_)
                    | MqttProperty::SubscriptionIdentifierAvailable(_)
                    | MqttProperty::RequestProblemInformation(_)
                    | MqttProperty::MaximumQoS(_)
                    | MqttProperty::RetainAvailable(_)
                    | MqttProperty::WildcardSubscriptionAvailable(_)
                    | MqttProperty::SharedSubscriptionAvailable(_) => 1,
                    MqttProperty::ServerKeepAlive(_)
                    | MqttProperty::WillDelayInterval(_)
                    | MqttProperty::ReceiveMaximum(_)
                    | MqttProperty::TopicAliasMaximum(_)
                    | MqttProperty::TopicAlias(_) => 2,
                    MqttProperty::MessageExpiryInterval(_)
                    | MqttProperty::SessionExpiryInterval(_)
                    | MqttProperty::MaximumPacketSize(_) => 4,
                    MqttProperty::ContentType(s)
                    | MqttProperty::ResponseTopic(s)
                    | MqttProperty::AssignedClientIdentifier(s)
                    | MqttProperty::AuthenticationMethod(s)
                    | MqttProperty::ResponseInformation(s)
                    | MqttProperty::ServerReference(s)
                    | MqttProperty::ReasonString(s) => 2 + s.as_str().len(),
                    MqttProperty::UserProperty(k, v) => 4 + k.as_str().len() + v.as_str().len(),
                    MqttProperty::CorrelationData(v) | MqttProperty::AuthenticationData(v) => 2 + v.len(),
                    MqttProperty::SubscriptionIdentifier(v) => vbi_len(*v) as usize,
                };
                i += 1;
            }
            proof {
                assert(ps.take(i as int) == ps);
            }

            len as u32
        },
    }
}

/// Writes one property: its identifier, then its value.
fn push_prop(buf: &mut Vec<u8>, p: &MqttProperty)
    ensures
        final(buf)@ == old(buf)@ + prop_bytes(p@),
{
    push_u8(buf, p.get_prop_type());

    match p {
        MqttProperty::PayloadFormatIndicator(v)
        | MqttProperty::RequestResponseInformation(v)
        | MqttProperty::SubscriptionIdentifierAvailable(v)
        | MqttProperty::RequestProblemInformation(v)
        | MqttProperty::MaximumQoS(v)
        | MqttProperty::RetainAvailable(v)
        | MqttProperty::WildcardSubscriptionAvailable(v)
        | MqttProperty::SharedSubscriptionAvailable(v) => push_u8(buf, *v),
        MqttProperty::ServerKeepAlive(v)
        | MqttProperty::WillDelayInterval(v)
        | MqttProperty::ReceiveMaximum(v)
        | MqttProperty::TopicAliasMaximum(v)
        | MqttProperty::TopicAlias(v) => push_u16(buf, *v),
        MqttProperty::MessageExpiryInterval(v)
        | MqttProperty::SessionExpiryInterval(v)
        | MqttProperty::MaximumPacketSize(v) => push_u32(buf, *v),
        MqttProperty::ContentType(s)
        | MqttProperty::ResponseTopic(s)
        | MqttProperty::AssignedClientIdentifier(s)
        | MqttProperty::AuthenticationMethod(s)
        | MqttProperty::ResponseInformation(s)
        | MqttProperty::ServerReference(s)
        | MqttProperty::ReasonString(s) => {
            push_str(buf, s);
        },
        MqttProperty::UserProperty(k, v) => {
            push_str(buf, k);
            push_str(buf, v);
        },
        MqttProperty::CorrelationData(v) | MqttProperty::AuthenticationData(v) => {
            push_u16(buf, v.len() as u16);
            push_binary_data(buf, v);
        },
        MqttProperty::SubscriptionIdentifier(v) => push_vbi(buf, *v),
    }
}

/// Writes a property list: its length, then the properties.
pub fn push_properties(buf: &mut Vec<u8>, props: &Option<Vec<MqttProperty>>)
    requires
        props_len(props_view(*props)) <= usize::MAX,
    ensures
        final(buf)@ == old(buf)@ + props_bytes(props_view(*props)),
{
    push_vbi(buf, get_properties_len(props) as u32);

    match props {
        None => {},
        Some(v) => {
            let ghost ps = v@.map_values(|p: MqttProperty| p@);
            let ghost b1 = buf@;
            let mut i: usize = 0;
            while i < v.len()
                invariant
                    i <= v@.len(),
                    ps == v@.map_values(|p: MqttProperty| p@),
                    buf@ == b1 + props_seq_bytes(ps.take(i as int)),
                decreases v@.len() - i,
            {
                proof {
                    lemma_props_seq_len_take(ps, i as int);
                }
                push_prop(buf, &v[i]);
                i += 1;
            }
            proof {
                assert(ps.take(i as int) == ps);
            }
        },
    }
}

/// The highest protocol level (MQTT 5.0) that the codec knows.
pub const MAX_PROTOCOL_LEVEL: u8 = 5;

#[derive(Default, Debug)]
pub struct ConnectProps {
    pub protocol_name: String,
    pub protocol_level: u8,
    pub keep_alive: u16,
    pub will_retain: bool,
    pub will_qos: u8,
    pub clean_session: bool,
    pub client_identifier: String,
    pub will_topic: Option<String>,
    pub will_message: Option<String>,
    pub user_name: Option<String>,
    pub password: Option<String>,
    //mqtt 5.0
    pub properties: Option<Vec<MqttProperty>>,
    pub will_properties: Option<Vec<MqttProperty>>,
}

#[derive(Default, Debug)]
pub struct PublishProps {
    pub dup: bool,
    pub qos: u8,
    pub retain: bool,
    pub topic_name: String,
    pub packet_identifier: u16,
    pub payload: Vec<u8>,
    //mqtt 5.0
    pub properties: Option<Vec<MqttProperty>>,
}

#[derive(Debug, Clone, Copy, PartialEq, Eq, Structural)]
pub enum ConnackReturnCode {
    Accepted,
    UnacceptableProtocolVersion,
    IdentifierRejected,
    ServerUnavailable,
    BadUsernameOrPassword,
    NotAuthorized,
    //mqtt 5.0
    Error(u8),
}

impl Default for ConnackReturnCode {
    fn default() -> (r: ConnackReturnCode)
        ensures
            r == ConnackReturnCode::Accepted,
    {
        ConnackReturnCode::Accepted
    }
}

#[derive(Default, Debug)]
pub struct ConnackProps {
    pub session_present: bool,
    pub return_code: ConnackReturnCode,
    //mqtt 5.0
    pub properties: Option<Vec<MqttProperty>>,
}

#[derive(Default, Debug, Clone)]
pub struct SubscribeTopic {
    pub topic_name: String,
    pub req_qos: u8,
    //mqtt 5.0
    pub retain_handling: u8,
    pub rap: bool,
    pub nl: bool,
}

#[derive(Default, Debug)]
pub struct SubscribeProps {
    pub packet_identifier: u16,
    pub topics: Vec<SubscribeTopic>,
    //mqtt 5.0
    pub properties: Option<Vec<MqttProperty>>,
}

#[derive(Debug)]
pub struct UnsubscribeProps {
    pub packet_identifier: u16,
    pub topics: Vec<String>,
    //mqtt 5.0
    pub properties: Option<Vec<MqttProperty>>,
}

#[derive(Default, Debug)]
pub struct SubackProps {
    pub packet_identifier: u16,
    pub topics: Vec<SubackRet>,
    //mqtt 5.0
    pub properties: Option<Vec<MqttProperty>>,
}

#[derive(Debug, Clone, Copy, PartialEq, Eq, Structural)]
pub enum SubackRet {
    Success(u8),
    Failure(u8),
}

#[derive(Default, Debug)]
pub struct PubackProps {
    pub packet_identifier: u16,
    //mqtt 5.0
    pub reason_code: u8,
    pub properties: Option<Vec<MqttProperty>>,
}

#[derive(Default, Debug)]
pub struct PubrecProps {
    pub packet_identifier: u16,
    //mqtt 5.0
    pub reason_code: u8,
    pub properties: Option<Vec<MqttProperty>>,
}

#[derive(Default, Debug)]
pub struct PubrelProps {
    pub packet_identifier: u16,
    //mqtt 5.0
    pub reason_code: u8,
    pub properties: Option<Vec<MqttProperty>>,
}

#[derive(Default, Debug)]
pub struct PubcompProps {
    pub packet_identifier: u16,
    //mqtt 5.0
    pub reason_code: u8,
    pub properties: Option<Vec<MqttProperty>>,
}

#[derive(Default, Debug)]
pub struct UnsubackProps {
    pub packet_identifier: u16,
    //mqtt 5.0
    pub reason_code: u8,
    pub properties: Option<Vec<MqttProperty>>,
}

#[derive(Debug)]
pub struct DisconnectProps {
    //mqtt 5.0
    pub reason_code: u8,
    pub properties: Option<Vec<MqttProperty>>,
}

#[derive(Debug)]
pub enum MqttPacket {
    Connect(ConnectProps),
    Connack(ConnackProps),
    Publish(PublishProps),
    Puback(PubackProps),
    Pubrec(PubrecProps),
    Pubrel(PubrelProps),
    Pubcomp(PubcompProps),
    Subscribe(SubscribeProps),
    Suback(SubackProps),
    Unsubscribe(UnsubscribeProps),
    Unsuback(UnsubackProps),
    Pingreq,
    Pingresp,
    Disconnect(DisconnectProps),
    Reserved,
}

/// The model of an optional string.
pub open spec fn opt_str_view(o: Option<String>) -> Option<Seq<char>> {
    match o {
        None => None,
        Some(s) => Some(s@),
    }
}

impl View for ConnectProps {
    type V = ConnectV;

    open spec fn view(&self) -> ConnectV {
        ConnectV {
            protocol_name: self.protocol_name@,
            protocol_level: self.protocol_level,
            keep_alive: self.keep_alive,
            will_retain: self.will_retain,
            will_qos: self.will_qos,
            clean_session: self.clean_session,
            client_identifier: self.client_identifier@,
            will_topic: opt_str_view(self.will_topic),
            will_message: opt_str_view(self.will_message),
            user_name: opt_str_view(self.user_name),
            password: opt_str_view(self.password),
            properties: props_view(self.properties),
            will_properties: props_view(self.will_properties),
        }
    }
}

impl View for PublishProps {
    type V = PublishV;

    open spec fn view(&self) -> PublishV {
        PublishV {
            dup: self.dup,
            qos: self.qos,
            retain: self.retain,
            topic_name: self.topic_name@,
            packet_identifier: self.packet_identifier,
            payload: self.payload@,
            properties: props_view(self.properties),
        }
    }
}

impl View for ConnackProps {
    type V = ConnackV;

    open spec fn view(&self) -> ConnackV {
        ConnackV {
            session_present: self.session_present,
            return_code: self.return_code,
            properties: props_view(self.properties),
        }
    }
}

impl View for SubscribeTopic {
    type V = SubscribeTopicV;

    open spec fn view(&self) -> SubscribeTopicV {
        SubscribeTopicV {
            topic_name: self.topic_name@,
            req_qos: self.req_qos,
            retain_handling: self.retain_handling,
            rap: self.rap,
            nl: self.nl,
        }
    }
}

impl View for SubscribeProps {
    type V = SubscribeV;

    open spec fn view(&self) -> SubscribeV {
        SubscribeV {
            packet_identifier: self.packet_identifier,
            topics: self.topics@.map_values(|t: SubscribeTopic| t@),
            properties: props_view(self.properties),
        }
    }
}

impl View for UnsubscribeProps {
    type V = UnsubscribeV;

    open spec fn view(&self) -> UnsubscribeV {
        UnsubscribeV {
            packet_identifier: self.packet_identifier,
            topics: self.topics@.map_values(|t: String| t@),
            properties: props_view(self.properties),
        }
    }
}

impl View for SubackProps {
    type V = SubackV;

    open spec fn view(&self) -> SubackV {
        SubackV {
            packet_identifier: self.packet_identifier,
            topics: self.topics@,
            properties: props_view(self.properties),
        }
    }
}

impl View for PubackProps {
    type V = AckV;

    open spec fn view(&self) -> AckV {
        AckV {
            packet_identifier: self.packet_identifier,
            reason_code: self.reason_code,
            properties: props_view(self.properties),
        }
    }
}

impl View for PubrecProps {
    type V = AckV;

    open spec fn view(&self) -> AckV {
        AckV {
            packet_identifier: self.packet_identifier,
            reason_code: self.reason_code,
            properties: props_view(self.properties),
        }
    }
}

impl View for PubrelProps {
    type V = AckV;

    open spec fn view(&self) -> AckV {
        AckV {
            packet_identifier: self.packet_identifier,
            reason_code: self.reason_code,
            properties: props_view(self.properties),
        }
    }
}

impl View for PubcompProps {
    type V = AckV;

    open spec fn view(&self) -> AckV {
        AckV {
            packet_identifier: self.packet_identifier,
            reason_code: self.reason_code,
            properties: props_view(self.properties),
        }
    }
}

impl View for UnsubackProps {
    type V = AckV;

    open spec fn view(&self) -> AckV {
        AckV {
            packet_identifier: self.packet_identifier,
            reason_code: self.reason_code,
            properties: props_view(self.properties),
        }
    }
}

impl View for DisconnectProps {
    type V = DisconnectV;

    open spec fn view(&self) -> DisconnectV {
        DisconnectV { reason_code: self.reason_code, properties: props_view(self.properties) }
    }
}

impl View for MqttPacket {
    type V = PacketV;

    open spec fn view(&self) -> PacketV {
        match self {
            MqttPacket::Connect(p) => PacketV::Connect(p@),
            MqttPacket::Connack(p) => PacketV::Connack(p@),
            MqttPacket::Publish(p) => PacketV::Publish(p@),
            MqttPacket::Puback(p) => PacketV::Puback(p@),
            MqttPacket::Pubrec(p) => PacketV::Pubrec(p@),
            MqttPacket::Pubrel(p) => PacketV::Pubrel(p@),
            MqttPacket::Pubcomp(p) => PacketV::Pubcomp(p@),
            MqttPacket::Subscribe(p) => PacketV::Subscribe(p@),
            MqttPacket::Suback(p) => PacketV::Suback(p@),
            MqttPacket::Unsubscribe(p) => PacketV::Unsubscribe(p@),
            MqttPacket::Unsuback(p) => PacketV::Unsuback(p@),
            MqttPacket::Pingreq => PacketV::Pingreq,
            MqttPacket::Pingresp => PacketV::Pingresp,
            MqttPacket::Disconnect(p) => PacketV::Disconnect(p@),
            MqttPacket::Reserved => PacketV::Reserved,
        }
    }
}

/// The empty packet of type `pt` with flags `f`.
pub fn create_packet(pt: u8, f: u8) -> (r: MqttPacket)
    ensures
        r@ == initial_packet(pt, f),
{
    let r = match pt {
        1 => MqttPacket::Connect(
            ConnectProps {
                protocol_name: String::new(),
                protocol_level: 0,
                will_retain: false,
                will_qos: 0,
                clean_session: false,
                keep_alive: 0,
                client_identifier: String::new(),
                will_topic: None,
                will_message: None,
                user_name: None,
                password: None,
                properties: None,
                will_properties: None,
            },
        ),
        2 => MqttPacket::Connack(
            ConnackProps {
                session_present: false,
                return_code: ConnackReturnCode::Accepted,
                properties: None,
            },
        ),
        3 => MqttPacket::Publish(
            PublishProps {
                dup: (f & 8) == 8,
                qos: (f >> 1) & 3,
                retain: (f & 1) == 1,
                topic_name: String::new(),
                packet_identifier: 0,
                payload: Vec::new(),
                properties: None,
            },
        ),
        4 => MqttPacket::Puback(PubackProps { packet_identifier: 0, reason_code: 0, properties: None }),
        5 => MqttPacket::Pubrec(PubrecProps { packet_identifier: 0, reason_code: 0, properties: None }),
        6 => MqttPacket::Pubrel(PubrelProps { packet_identifier: 0, reason_code: 0, properties: None }),
        7 => MqttPacket::Pubcomp(
            PubcompProps { packet_identifier: 0, reason_code: 0, properties: None },
        ),
        8 => MqttPacket::Subscribe(
            SubscribeProps { packet_identifier: 0, topics: Vec::new(), properties: None },
        ),
        9 => MqttPacket::Suback(SubackProps { packet_identifier: 0, topics: Vec::new(), properties: None }),
        10 => MqttPacket::Unsubscribe(
            UnsubscribeProps { packet_identifier: 0, topics: Vec::new(), properties: None },
        ),
        11 => MqttPacket::Unsuback(
            UnsubackProps { packet_identifier: 0, reason_code: 0, properties: None },
        ),
        12 => MqttPacket::Pingreq,
        13 => MqttPacket::Pingresp,
        14 => MqttPacket::Disconnect(DisconnectProps { reason_code: 0, properties: None }),
        _ => MqttPacket::Reserved,
    };
    proof {
        assert(Seq::<SubscribeTopic>::empty().map_values(|t: SubscribeTopic| t@)
            =~= Seq::<SubscribeTopicV>::empty());
        assert(Seq::<String>::empty().map_values(|t: String| t@) =~= Seq::<Seq<char>>::empty());
    }
    r
}

/// The packet type: the high four bits of the first byte.
pub fn get_packet_type(buf: &[u8]) -> (r: u8)
    requires
        buf.len() > 0,
    ensures
        r == buf@[0] / 16,
{
    let b = buf[0];
    assert((b & 0xf0) >> 4 == b / 16) by (bit_vector);
    (b & 0xf0) >> 4
}

impl MqttPacket {
    /// How many more bytes `buf` needs to hold a whole packet (see
    /// `spec_get_buffer_len`).
    pub fn get_buffer_len(buf: &[u8]) -> (r: Result<usize, Error>)
        requires
            buf.len() <= isize::MAX,
        ensures
            match spec_get_buffer_len(buf@) {
                Ok(n) => r == Ok::<usize, Error>(n as usize),
                Err(k) => r matches Err(e) && e.kind() == k,
            },
    {
        let buf_len = buf.len();

        if buf_len == 0 {
            //header
            return Ok(1);
        } else {
            let mut pos: usize = 1;

            loop
                invariant_except_break
                    1 <= pos <= buf_len,
                    buf_len == buf@.len(),
                    first_last_byte(buf@, 1) == first_last_byte(buf@, pos as int),
                ensures
                    1 <= pos < buf_len,
                    buf_len == buf@.len(),
                    first_last_byte(buf@, 1) == Some(pos as int),
                decreases buf_len - pos,
            {
                //vbi
                if buf_len <= pos {
                    return Ok(1);
                }
                let x = buf[pos];
                assert(x & 0x80 == 0 <==> x < 128) by (bit_vector);
                if x & 0x80 == 0 {
                    break;
                }
                pos += 1;
            }

            let mut packet_len = pos + 1;

            let mut pos: usize = 1;
            let vbi = read_vbi(buf, &mut pos)?;
            proof {
                lemma_vbi_scan_bound(buf@, 1, 0, 0);
            }

            packet_len += vbi as usize;

            if packet_len >= buf_len {
                Ok(packet_len - buf_len)
            } else {
                Err(Error::BuffTooLong)
            }
        }
    }
}

/// What a parser that may meet an out-of-bounds input gave, against the
/// model `s` (positions aside).
pub open spec fn opt_result_matches<T, V>(
    r: Option<Result<T, Error>>,
    view: spec_fn(T) -> V,
    s: Rd<V>,
) -> bool {
    match s {
        Rd::Got(v, _) => r matches Some(Ok(x)) && view(x) == v,
        Rd::Bad(k) => r matches Some(Err(e)) && e.kind() == k,
        Rd::Abort => r is None,
    }
}

/// Reads the body of a CONNECT packet into `cp`.
fn read_connect(buf: &[u8], cp: ConnectProps) -> (r: Option<Result<ConnectProps, Error>>)
    ensures
        opt_result_matches(r, |x: ConnectProps| x@, parse_connect(buf@, cp@)),
{
    let mut cp = cp;
    let ghost cp0 = cp@;
    let mut pos: usize = 0;
    match read_str(buf, &mut pos, &mut cp.protocol_name) {
        Ok(()) => {},
        Err(e) => {
            return Some(Err(e));
        },
    }
    cp.protocol_level = match read_u8(buf, &mut pos) {
        Ok(x) => x,
        Err(e) => {
            return Some(Err(e));
        },
    };
    let connect_flags = match read_u8(buf, &mut pos) {
        Ok(x) => x,
        Err(e) => {
            return Some(Err(e));
        },
    };

    cp.will_retain = connect_flags & 0b00100000 != 0;
    cp.will_qos = (connect_flags >> 3) & 0b11;
    cp.clean_session = connect_flags & 0b00000010 != 0;
    cp.keep_alive = match read_u16(buf, &mut pos) {
        Ok(x) => x,
        Err(e) => {
            return Some(Err(e));
        },
    };

    if cp.protocol_level == 5 {
        cp.properties = match read_properties_opt(buf, &mut pos) {
            Some(Ok(x)) => x,
            Some(Err(e)) => {
                return Some(Err(e));
            },
            None => {
                return None;
            },
        };
    }
    //string fields
    match read_str(buf, &mut pos, &mut cp.client_identifier) {
        Ok(()) => {},
        Err(e) => {
            return Some(Err(e));
        },
    }
    let ghost p6 = pos as int;
    let ghost cp6 = cp@;
    assert(parse_connect(buf@, cp0) == parse_connect_tail(buf@, p6, connect_flags, cp6));

    if connect_flags & 0b00000100 != 0 {
        if cp.protocol_level == 5 {
            cp.will_properties = match read_properties_opt(buf, &mut pos) {
                Some(Ok(x)) => x,
                Some(Err(e)) => {
                    return Some(Err(e));
                },
                None => {
                    return None;
                },
            };
        }
        cp.will_topic = match read_str_r(buf, &mut pos) {
            Ok(x) => Some(x),
            Err(e) => {
                return Some(Err(e));
            },
        };
        cp.will_message = match read_str_r(buf, &mut pos) {
            Ok(x) => Some(x),
            Err(e) => {
                return Some(Err(e));
            },
        };
    }
    if connect_flags & 0b10000000 != 0 {
        cp.user_name = match read_str_r(buf, &mut pos) {
            Ok(x) => Some(x),
            Err(e) => {
                return Some(Err(e));
            },
        };
    }
    if connect_flags & 0b01000000 != 0 {
        cp.password = match read_str_r(buf, &mut pos) {
            Ok(x) => Some(x),
            Err(e) => {
                return Some(Err(e));
            },
        };
    }
    Some(Ok(cp))
}

/// Reads the body of a CONNACK packet into `cp`.
fn read_connack(buf: &[u8], cp: ConnackProps, protocol_level: u8) -> (r: Option<
    Result<ConnackProps, Error>,
>)
    ensures
        opt_result_matches(r, |x: ConnackProps| x@, parse_connack(buf@, cp@, protocol_level)),
{
    let mut cp = cp;
    let mut pos: usize = 0;
    let b = match read_u8(buf, &mut pos) {
        Ok(x) => x,
        Err(e) => {
            return Some(Err(e));
        },
    };

    cp.session_present = b & 1 == 1;
    cp.return_code = match read_u8(buf, &mut pos) {
        Ok(0) => ConnackReturnCode::Accepted,
        //mqtt 3.1.1
        Ok(1) => ConnackReturnCode::UnacceptableProtocolVersion,
        Ok(2) => ConnackReturnCode::IdentifierRejected,
        Ok(3) => ConnackReturnCode::ServerUnavailable,
        Ok(4) => ConnackReturnCode::BadUsernameOrPassword,
        Ok(5) => ConnackReturnCode::NotAuthorized,
        //mqtt 5.0
        Ok(n) => ConnackReturnCode::Error(n),
        Err(e) => {
            return Some(Err(e));
        },
    };

    if protocol_level == 5 {
        cp.properties = match read_properties_opt(buf, &mut pos) {
            Some(Ok(x)) => x,
            Some(Err(e)) => {
                return Some(Err(e));
            },
            None => {
                return None;
            },
        };
    }
    Some(Ok(cp))
}

/// Reads the body of a SUBSCRIBE packet into `sp`.
fn read_subscribe(buf: &[u8], sp: SubscribeProps, protocol_level: u8) -> (r: Option<
    Result<SubscribeProps, Error>,
>)
    ensures
        opt_result_matches(r, |x: SubscribeProps| x@, parse_subscribe(buf@, sp@, protocol_level)),
{
    let mut sp = sp;
    let ghost sp0 = sp@;
    let mut pos: usize = 0;
    sp.packet_identifier = match read_u16(buf, &mut pos) {
        Ok(x) => x,
        Err(e) => {
            return Some(Err(e));
        },
    };

    if protocol_level == 5 {
        sp.properties = match read_properties_opt(buf, &mut pos) {
            Some(Ok(x)) => x,
            Some(Err(e)) => {
                return Some(Err(e));
            },
            None => {
                return None;
            },
        };
    }
    let ghost p2 = pos as int;
    let ghost id = sp.packet_identifier;
    let ghost props = props_view(sp.properties);
    assert(parse_subscribe(buf@, sp0, protocol_level) == match parse_sub_topics(buf@, p2) {
        Rd::Got(ts, p3) => Rd::Got(
            SubscribeV { packet_identifier: id, topics: sp0.topics + ts, properties: props },
            p3,
        ),
        Rd::Bad(e) => Rd::Bad(e),
        Rd::Abort => Rd::<SubscribeV>::Abort,
    });

    while buf.len() - pos > 0
        invariant
            parse_subscribe(buf@, sp0, protocol_level) == match parse_sub_topics(buf@, p2) {
                Rd::Got(ts, p3) => Rd::Got(
                    SubscribeV { packet_identifier: id, topics: sp0.topics + ts, properties: props },
                    p3,
                ),
                Rd::Bad(e) => Rd::Bad(e),
                Rd::Abort => Rd::<SubscribeV>::Abort,
            },
            pos <= buf@.len(),
            sp.packet_identifier == id,
            props_view(sp.properties) == props,
            rd_prepend(sp0.topics, parse_sub_topics(buf@, p2)) == rd_prepend(
                sp.topics@.map_values(|t: SubscribeTopic| t@),
                parse_sub_topics(buf@, pos as int),
            ),
        decreases buf@.len() - pos,
    {
        let ghost pb = pos as int;
        let ghost acc = sp.topics@.map_values(|t: SubscribeTopic| t@);
        let topic_name = match read_str_r(buf, &mut pos) {
            Ok(x) => x,
            Err(e) => {
                return Some(Err(e));
            },
        };
        let so = match read_u8(buf, &mut pos) {
            Ok(x) => x,
            Err(e) => {
                return Some(Err(e));
            },
        };
        let st = SubscribeTopic {
            topic_name,
            req_qos: so & 0b11,
            //mqtt 5.0
            retain_handling: (so & 0b110000) >> 4,
            rap: so & 0b1000 == 0b1000,
            nl: so & 0b100 == 0b100,
        };
        let ghost stv = st@;
        sp.topics.push(st);
        proof {
            assert(stv == sub_topic(stv.topic_name, so));
            assert(sp.topics@.map_values(|t: SubscribeTopic| t@) == acc.push(stv));
            match parse_sub_topics(buf@, pos as int) {
                Rd::Got(rest, q) => {
                    assert(acc + (seq![stv] + rest) == acc.push(stv) + rest);
                },
                _ => {},
            }
        }
    }
    proof {
        let tv = sp.topics@.map_values(|t: SubscribeTopic| t@);
        assert(tv + Seq::<SubscribeTopicV>::empty() == tv);
    }
    Some(Ok(sp))
}

/// Reads the body of an UNSUBSCRIBE packet into `usp`.
fn read_unsubscribe(buf: &[u8], usp: UnsubscribeProps, protocol_level: u8) -> (r: Option<
    Result<UnsubscribeProps, Error>,
>)
    ensures
        opt_result_matches(
            r,
            |x: UnsubscribeProps| x@,
            parse_unsubscribe(buf@, usp@, protocol_level),
        ),
{
    let mut usp = usp;
    let ghost up0 = usp@;
    let mut pos: usize = 0;
    if protocol_level == 5 {
        usp.properties = match read_properties_opt(buf, &mut pos) {
            Some(Ok(x)) => x,
            Some(Err(e)) => {
                return Some(Err(e));
            },
            None => {
                return None;
            },
        };
    }
    if protocol_level < 5 {
        //todo check
        usp.packet_identifier = match read_u16(buf, &mut pos) {
            Ok(x) => x,
            Err(e) => {
                return Some(Err(e));
            },
        };
    }
    let ghost p2 = pos as int;
    let ghost id = usp.packet_identifier;
    let ghost props = props_view(usp.properties);
    assert(parse_unsubscribe(buf@, up0, protocol_level) == match parse_unsub_topics(buf@, p2) {
        Rd::Got(ts, p3) => Rd::Got(
            UnsubscribeV { packet_identifier: id, topics: up0.topics + ts, properties: props },
            p3,
        ),
        Rd::Bad(e) => Rd::Bad(e),
        Rd::Abort => Rd::<UnsubscribeV>::Abort,
    });

    while buf.len() - pos > 0
        invariant
            parse_unsubscribe(buf@, up0, protocol_level) == match parse_unsub_topics(buf@, p2) {
                Rd::Got(ts, p3) => Rd::Got(
                    UnsubscribeV { packet_identifier: id, topics: up0.topics + ts, properties: props },
                    p3,
                ),
                Rd::Bad(e) => Rd::Bad(e),
                Rd::Abort => Rd::<UnsubscribeV>::Abort,
            },
            pos <= buf@.len(),
            usp.packet_identifier == id,
            props_view(usp.properties) == props,
            rd_prepend(up0.topics, parse_unsub_topics(buf@, p2)) == rd_prepend(
                usp.topics@.map_values(|t: String| t@),
                parse_unsub_topics(buf@, pos as int),
            ),
        decreases buf@.len() - pos,
    {
        let ghost acc = usp.topics@.map_values(|t: String| t@);
        let t = match read_str_r(buf, &mut pos) {
            Ok(x) => x,
            Err(e) => {
                return Some(Err(e));
            },
        };
        let ghost tv = t@;
        usp.topics.push(t);
        proof {
            assert(usp.topics@.map_values(|t: String| t@) == acc.push(tv));
            match parse_unsub_topics(buf@, pos as int) {
                Rd::Got(rest, q) => {
                    assert(acc + (seq![tv] + rest) == acc.push(tv) + rest);
                },
                _ => {},
            }
        }
    }
    proof {
        let tv = usp.topics@.map_values(|t: String| t@);
        assert(tv + Seq::<Seq<char>>::empty() == tv);
    }
    Some(Ok(usp))
}

/// Reads the body of a SUBACK packet into `sp`.
fn read_suback(buf: &[u8], sp: SubackProps, protocol_level: u8) -> (r: Option<
    Result<SubackProps, Error>,
>)
    ensures
        opt_result_matches(r, |x: SubackProps| x@, parse_suback(buf@, sp@, protocol_level)),
{
    let mut sp = sp;
    let ghost sp0 = sp@;
    let mut pos: usize = 0;
    if protocol_level == 5 {
        sp.properties = match read_properties_opt(buf, &mut pos) {
            Some(Ok(x)) => x,
            Some(Err(e)) => {
                return Some(Err(e));
            },
            None => {
                return None;
            },
        };
    }
    sp.packet_identifier = match read_u16(buf, &mut pos) {
        Ok(x) => x,
        Err(e) => {
            return Some(Err(e));
        },
    };
    let ghost p2 = pos as int;
    let ghost id = sp.packet_identifier;
    let ghost props = props_view(sp.properties);

    while buf.len() - pos > 0
        invariant
            parse_suback(buf@, sp0, protocol_level) == Rd::Got(
                SubackV {
                    packet_identifier: id,
                    topics: sp0.topics + parse_suback_codes(buf@, p2),
                    properties: props,
                },
                buf@.len() as int,
            ),
            pos <= buf@.len(),
            sp.packet_identifier == id,
            props_view(sp.properties) == props,
            sp0.topics + parse_suback_codes(buf@, p2) == sp.topics@ + parse_suback_codes(
                buf@,
                pos as int,
            ),
        decreases buf@.len() - pos,
    {
        let ghost acc = sp.topics@;
        let b = match read_u8(buf, &mut pos) {
            Ok(x) => x,
            Err(e) => {
                return Some(Err(e));
            },
        };
        sp.topics.push(
            if b < 0x80 {
                SubackRet::Success(b)
            } else {
                SubackRet::Failure(b)
            },
        );
        proof {
            assert(acc + (seq![suback_ret(b)] + parse_suback_codes(buf@, pos as int)) == acc.push(
                suback_ret(b),
            ) + parse_suback_codes(buf@, pos as int));
        }
    }
    proof {
        assert(sp.topics@ + Seq::<SubackRet>::empty() == sp.topics@);
    }
    Some(Ok(sp))
}

/// Reads the body of an UNSUBACK packet into the fields of `up`.
fn read_unsuback(buf: &[u8], up: UnsubackProps, protocol_level: u8) -> (r: Option<
    Result<UnsubackProps, Error>,
>)
    ensures
        opt_result_matches(r, |x: UnsubackProps| x@, parse_unsuback(buf@, up@, protocol_level)),
{
    let mut up = up;
    let mut pos: usize = 0;
    up.packet_identifier = match read_u16(buf, &mut pos) {
        Ok(x) => x,
        Err(e) => {
            return Some(Err(e));
        },
    };

    if protocol_level == 5 {
        up.properties = match read_properties_opt(buf, &mut pos) {
            Some(Ok(x)) => x,
            Some(Err(e)) => {
                return Some(Err(e));
            },
            None => {
                return None;
            },
        };
        up.reason_code = match read_u8(buf, &mut pos) {
            Ok(x) => x,
            Err(e) => {
                return Some(Err(e));
            },
        };
    }
    Some(Ok(up))
}

/// Reads the fields of a PUBACK, PUBREC, PUBREL or PUBCOMP body: packet
/// identifier, reason code and properties, starting from the given ones.
fn read_ack(
    buf: &[u8],
    packet_identifier: u16,
    reason_code: u8,
    properties: Option<Vec<MqttProperty>>,
    protocol_level: u8,
) -> (r: Option<Result<(u16, u8, Option<Vec<MqttProperty>>), Error>>)
    ensures
        opt_result_matches(
            r,
            |x: (u16, u8, Option<Vec<MqttProperty>>)|
                AckV { packet_identifier: x.0, reason_code: x.1, properties: props_view(x.2) },
            parse_ack(
                buf@,
                AckV { packet_identifier, reason_code, properties: props_view(properties) },
                protocol_level,
            ),
        ),
{
    let mut pos: usize = 0;
    let mut properties = properties;
    let mut reason_code = reason_code;
    let packet_identifier = match read_u16(buf, &mut pos) {
        Ok(x) => x,
        Err(e) => {
            return Some(Err(e));
        },
    };

    if protocol_level == 5 {
        reason_code = match read_u8(buf, &mut pos) {
            Ok(x) => x,
            Err(e) => {
                return Some(Err(e));
            },
        };
        properties = match read_properties_opt(buf, &mut pos) {
            Some(Ok(x)) => x,
            Some(Err(e)) => {
                return Some(Err(e));
            },
            None => {
                return None;
            },
        };
    }
    Some(Ok((packet_identifier, reason_code, properties)))
}

/// Reads the body of a PUBLISH packet into `pp`.
fn read_publish(buf: &[u8], pp: PublishProps, protocol_level: u8) -> (r: Option<
    Result<PublishProps, Error>,
>)
    ensures
        opt_result_matches(r, |x: PublishProps| x@, parse_publish(buf@, pp@, protocol_level)),
{
    let mut pp = pp;
    let ghost pp0 = pp@;
    let mut pos: usize = 0;
    pp.topic_name = match read_str_r(buf, &mut pos) {
        Ok(x) => x,
        Err(e) => {
            return Some(Err(e));
        },
    };

    if pp.qos == 1 || pp.qos == 2 {
        pp.packet_identifier = match read_u16(buf, &mut pos) {
            Ok(x) => x,
            Err(e) => {
                return Some(Err(e));
            },
        };
    }
    if protocol_level == 5 {
        pp.properties = match read_properties_opt(buf, &mut pos) {
            Some(Ok(x)) => x,
            Some(Err(e)) => {
                return Some(Err(e));
            },
            None => {
                return None;
            },
        };
    }
    let ghost p3 = pos as int;
    let ghost pp3 = pp@;
    let mut i: usize = pos;
    while i < buf.len()
        invariant
            0 <= p3 <= i <= buf@.len(),
            pp@ == (PublishV { payload: pp3.payload + buf@.subrange(p3, i as int), ..pp3 }),
        decreases buf@.len() - i,
    {
        let ghost i0 = i as int;
        pp.payload.push(buf[i]);
        i += 1;
        proof {
            assert(buf@.subrange(p3, i0 + 1) =~= buf@.subrange(p3, i0).push(buf@[i0]));
        }
    }
    Some(Ok(pp))
}

/// Reads the body of a DISCONNECT packet into `dp`.
fn read_disconnect(buf: &[u8], dp: DisconnectProps, protocol_level: u8) -> (r: Option<
    Result<DisconnectProps, Error>,
>)
    ensures
        opt_result_matches(
            r,
            |x: DisconnectProps| x@,
            parse_disconnect(buf@, dp@, protocol_level),
        ),
{
    let mut dp = dp;
    let mut pos: usize = 0;
    if protocol_level == 5 {
        dp.reason_code = match read_u8(buf, &mut pos) {
            Ok(x) => x,
            Err(e) => {
                return Some(Err(e));
            },
        };
        dp.properties = match read_properties_opt(buf, &mut pos) {
            Some(Ok(x)) => x,
            Some(Err(e)) => {
                return Some(Err(e));
            },
            None => {
                return None;
            },
        };
    }
    Some(Ok(dp))
}

impl MqttPacket {
    /// Reads a packet from `buf` at protocol level `protocol_level`, as
    /// `from_buf` does; `None` on the inputs where `from_buf` would index out
    /// of bounds (an empty buffer, a property block longer than what follows
    /// it).
    pub fn try_from_buf(buf: &[u8], protocol_level: u8) -> (r: Option<Result<MqttPacket, Error>>)
        ensures
            opt_result_matches(r, |x: MqttPacket| x@, spec_from_buf(buf@, protocol_level)),
    {
        if buf.len() == 0 {
            return None;
        }
        let h = buf[0];

        let mut pos: usize = 1;
        let _ = read_vbi(buf, &mut pos);

        //packet type
        let b_pt = get_packet_type(buf);

        //skip header and length bytes
        let buf = &buf[pos..buf.len()];

        //flags
        let b_f = h & 0x0f;

        if b_pt == 0 || b_pt == 15 {
            return Some(Err(Error::BadMqttHeader));
        }
        match b_pt {
            6 | 8 | 10 => {
                if b_f != 0b0010 {
                    return Some(Err(Error::BadMqttHeader));
                }
            },
            1 | 2 | 4 | 5 | 7 | 9 | 11 | 12 | 13 | 14 => {
                if b_f != 0 {
                    return Some(Err(Error::BadMqttHeader));
                }
            },
            _ => {},
        }

        let packet = create_packet(b_pt, b_f);

        if buf.len() > 0 {
            //variable header
            let packet = match packet {
                MqttPacket::Connect(cp) => match read_connect(buf, cp) {
                    Some(Ok(x)) => MqttPacket::Connect(x),
                    Some(Err(e)) => {
                        return Some(Err(e));
                    },
                    None => {
                        return None;
                    },
                },
                MqttPacket::Connack(cp) => match read_connack(buf, cp, protocol_level) {
                    Some(Ok(x)) => MqttPacket::Connack(x),
                    Some(Err(e)) => {
                        return Some(Err(e));
                    },
                    None => {
                        return None;
                    },
                },
                MqttPacket::Subscribe(sp) => match read_subscribe(buf, sp, protocol_level) {
                    Some(Ok(x)) => MqttPacket::Subscribe(x),
                    Some(Err(e)) => {
                        return Some(Err(e));
                    },
                    None => {
                        return None;
                    },
                },
                MqttPacket::Unsubscribe(usp) => match read_unsubscribe(buf, usp, protocol_level) {
                    Some(Ok(x)) => MqttPacket::Unsubscribe(x),
                    Some(Err(e)) => {
                        return Some(Err(e));
                    },
                    None => {
                        return None;
                    },
                },
                MqttPacket::Suback(sp) => match read_suback(buf, sp, protocol_level) {
                    Some(Ok(x)) => MqttPacket::Suback(x),
                    Some(Err(e)) => {
                        return Some(Err(e));
                    },
                    None => {
                        return None;
                    },
                },
                MqttPacket::Unsuback(usp) => match read_unsuback(buf, usp, protocol_level) {
                    Some(Ok(x)) => MqttPacket::Unsuback(x),
                    Some(Err(e)) => {
                        return Some(Err(e));
                    },
                    None => {
                        return None;
                    },
                },
                MqttPacket::Publish(pp) => match read_publish(buf, pp, protocol_level) {
                    Some(Ok(x)) => MqttPacket::Publish(x),
                    Some(Err(e)) => {
                        return Some(Err(e));
                    },
                    None => {
                        return None;
                    },
                },
                MqttPacket::Puback(pp) => match read_ack(
                    buf,
                    pp.packet_identifier,
                    pp.reason_code,
                    pp.properties,
                    protocol_level,
                ) {
                    Some(Ok((packet_identifier, reason_code, properties))) => MqttPacket::Puback(
                        PubackProps { packet_identifier, reason_code, properties },
                    ),
                    Some(Err(e)) => {
                        return Some(Err(e));
                    },
                    None => {
                        return None;
                    },
                },
                MqttPacket::Pubrec(pp) => match read_ack(
                    buf,
                    pp.packet_identifier,
                    pp.reason_code,
                    pp.properties,
                    protocol_level,
                ) {
                    Some(Ok((packet_identifier, reason_code, properties))) => MqttPacket::Pubrec(
                        PubrecProps { packet_identifier, reason_code, properties },
                    ),
                    Some(Err(e)) => {
                        return Some(Err(e));
                    },
                    None => {
                        return None;
                    },
                },
                MqttPacket::Pubrel(pp) => match read_ack(
                    buf,
                    pp.packet_identifier,
                    pp.reason_code,
                    pp.properties,
                    protocol_level,
                ) {
                    Some(Ok((packet_identifier, reason_code, properties))) => MqttPacket::Pubrel(
                        PubrelProps { packet_identifier, reason_code, properties },
                    ),
                    Some(Err(e)) => {
                        return Some(Err(e));
                    },
                    None => {
                        return None;
                    },
                },
                MqttPacket::Pubcomp(pp) => match read_ack(
                    buf,
                    pp.packet_identifier,
                    pp.reason_code,
                    pp.properties,
                    protocol_level,
                ) {
                    Some(Ok((packet_identifier, reason_code, properties))) => MqttPacket::Pubcomp(
                        PubcompProps { packet_identifier, reason_code, properties },
                    ),
                    Some(Err(e)) => {
                        return Some(Err(e));
                    },
                    None => {
                        return None;
                    },
                },
                MqttPacket::Disconnect(dp) => match read_disconnect(buf, dp, protocol_level) {
                    Some(Ok(x)) => MqttPacket::Disconnect(x),
                    Some(Err(e)) => {
                        return Some(Err(e));
                    },
                    None => {
                        return None;
                    },
                },
                other => other,
            };
            return Some(Ok(packet));
        }
        Some(Ok(packet))
    }

    /// Reads a packet from `buf` (fixed header, remaining length, body) at
    /// protocol level `protocol_level`.
    pub fn from_buf(buf: &[u8], protocol_level: u8) -> (r: Result<MqttPacket, Error>)
        requires
            !(spec_from_buf(buf@, protocol_level) is Abort),
        ensures
            match spec_from_buf(buf@, protocol_level) {
                Rd::Got(v, _) => r matches Ok(p) && p@ == v,
                Rd::Bad(k) => r matches Err(e) && e.kind() == k,
                Rd::Abort => false,
            },
    {
        match Self::try_from_buf(buf, protocol_level) {
            Some(r) => r,
            None => Err(Error::PacketTooShort),
        }
    }
}

/// The text of the error for a packet type the writer does not write:
/// `Not implemented packet type ` and the type in decimal.
pub open spec fn not_implemented_text(pt: u8) -> Seq<char> {
    "Not implemented packet type "@ + crate::http::decimal(pt as nat)
}

/// The text of the error for a packet type the writer does not write, as
/// `not_implemented_text` says.
fn not_implemented_message(pt: u8) -> (r: String)
    ensures
        r@ == not_implemented_text(pt),
{
    let mut r = String::from_str("Not implemented packet type ");
    proof {
        reveal_strlit("Not implemented packet type ");
    }
    let d = crate::http::usize_to_decimal(pt as usize);
    r.append(d.as_str());
    r
}

/// What a property list adds to the remaining length.
fn props_part_len(props: &Option<Vec<MqttProperty>>) -> (r: usize)
    requires
        props_len(props_view(*props)) <= usize::MAX,
        props_part(props_view(*props)) <= usize::MAX,
    ensures
        r == props_part(props_view(*props)),
{
    let pl = get_properties_len(props);
    vbi_len(pl) as usize + pl as usize
}

/// The remaining length of a CONNECT packet.
fn connect_rem_len(cp: &ConnectProps) -> (r: usize)
    requires
        rem_len(PacketV::Connect(cp@), 0) <= usize::MAX,
        packet_props_fit(PacketV::Connect(cp@)),
    ensures
        r == rem_len(PacketV::Connect(cp@), 0),
{
    let mut rem_len: usize = 0;
    rem_len += 2;
    rem_len += cp.protocol_name.as_str().len();

    //protocol_level + connect_flags + keep_alive
    rem_len += 4;

    rem_len += 2;
    rem_len += cp.client_identifier.as_str().len();

    let will = cp.will_topic.is_some() || cp.will_message.is_some();

    if will {
        rem_len += 2;

        if let Some(will_topic) = &cp.will_topic {
            rem_len += will_topic.as_str().len();
        }
        rem_len += 2;

        if let Some(will_message) = &cp.will_message {
            rem_len += will_message.as_str().len();
        }
    }
    if let Some(user_name) = &cp.user_name {
        rem_len += 2;
        rem_len += user_name.as_str().len();
    }
    if let Some(password) = &cp.password {
        rem_len += 2;
        rem_len += password.as_str().len();
    }
    if cp.protocol_level == 5 {
        rem_len += props_part_len(&cp.properties);

        if will {
            rem_len += props_part_len(&cp.will_properties);
        }
    }
        rem_len
}

/// The CONNECT flags byte, as `connect_flags` says.
fn connect_flags_byte(cp: &ConnectProps) -> (r: u8)
    ensures
        r == connect_flags(cp@),
{
    let will = cp.will_topic.is_some() || cp.will_message.is_some();
    let q = cp.will_qos;
    proof {
        assert(q & 3 == q % 4) by (bit_vector);
    }
    let r: u8 = (if cp.will_retain {
        0b00100000u8
    } else {
        0
    }) + (q & 0b11) * 8 + (if cp.clean_session {
        0b00000010u8
    } else {
        0
    }) + (if cp.user_name.is_some() {
        0b10000000u8
    } else {
        0
    }) + (if cp.password.is_some() {
        0b01000000u8
    } else {
        0
    }) + (if will {
        0b00000100u8
    } else {
        0
    });
    r
}

/// Writes the will of a CONNECT, where it has one: its properties (at
/// MQTT 5.0), its topic and its message.
fn push_will(cp: &ConnectProps, buf: &mut Vec<u8>)
    requires
        packet_props_fit(PacketV::Connect(cp@)),
    ensures
        final(buf)@ == old(buf)@ + present_if(
            has_will(cp@),
            present_if(cp@.protocol_level == 5, props_bytes(cp@.will_properties)) + str_bytes(
                opt_or_empty(cp@.will_topic),
            ) + str_bytes(opt_or_empty(cp@.will_message)),
        ),
{
    let ghost b0 = buf@;
    let will = cp.will_topic.is_some() || cp.will_message.is_some();
    if will {
        if cp.protocol_level == 5 {
            push_properties(buf, &cp.will_properties);
        }
        match &cp.will_topic {
            Some(t) => push_str(buf, t.as_str()),
            None => {
                proof {
                    reveal_strlit("");
                }
                push_str(buf, "");
            },
        }
        match &cp.will_message {
            Some(t) => push_str(buf, t.as_str()),
            None => {
                proof {
                    reveal_strlit("");
                }
                push_str(buf, "");
            },
        }
    }
    proof {
        assert(buf@ =~= b0 + present_if(
            has_will(cp@),
            present_if(cp@.protocol_level == 5, props_bytes(cp@.will_properties)) + str_bytes(
                opt_or_empty(cp@.will_topic),
            ) + str_bytes(opt_or_empty(cp@.will_message)),
        ));
    }
}

/// Writes the user name and the password of a CONNECT, where present.
fn push_credentials(cp: &ConnectProps, buf: &mut Vec<u8>)
    ensures
        final(buf)@ == old(buf)@ + present_if(cp@.user_name is Some, str_bytes(opt_or_empty(cp@.user_name)))
            + present_if(cp@.password is Some, str_bytes(opt_or_empty(cp@.password))),
{
    let ghost b0 = buf@;
    match &cp.user_name {
        Some(u) => push_str(buf, u.as_str()),
        None => {},
    }
    let ghost b1 = buf@;
    assert(b1 =~= b0 + present_if(cp@.user_name is Some, str_bytes(opt_or_empty(cp@.user_name))));
    match &cp.password {
        Some(pw) => push_str(buf, pw.as_str()),
        None => {},
    }
    assert(buf@ =~= b1 + present_if(cp@.password is Some, str_bytes(opt_or_empty(cp@.password))));
}

/// Writes the body of a CONNECT packet.
#[verifier::rlimit(80)]
#[verifier::spinoff_prover]
fn push_connect_body(cp: &ConnectProps, buf: &mut Vec<u8>)
    requires
        !as_bytes_overflows(PacketV::Connect(cp@)),
        packet_props_fit(PacketV::Connect(cp@)),
    ensures
        final(buf)@ == old(buf)@ + body_bytes(PacketV::Connect(cp@), 0),
{
    let ghost cv = cp@;
    let ghost b0 = buf@;
    push_str(buf, cp.protocol_name.as_str());

    buf.push(cp.protocol_level);
    let connect_flags = connect_flags_byte(cp);

    buf.push(connect_flags);
    push_u16(buf, cp.keep_alive);
    let ghost b1 = buf@;
    assert(b1 == b0 + str_bytes(cv.protocol_name) + seq![cv.protocol_level, connect_flags] + u16_bytes(cv.keep_alive));

    if cp.protocol_level == 5 {
        push_properties(buf, &cp.properties);
    }
    //string fields
    push_str(buf, cp.client_identifier.as_str());
    let ghost b2 = buf@;
    assert(b2 == b1 + present_if(cv.protocol_level == 5, props_bytes(cv.properties)) + str_bytes(cv.client_identifier));

    push_will(cp, buf);
    push_credentials(cp, buf);
    assert(buf@ =~= b0 + body_bytes(PacketV::Connect(cv), 0));
}

/// Writes the topic filters of a SUBSCRIBE: each name, then its QoS.
fn push_sub_topics(buf: &mut Vec<u8>, topics: &Vec<SubscribeTopic>)
    ensures
        final(buf)@ == old(buf)@ + sub_topics_bytes(topics@.map_values(|t: SubscribeTopic| t@)),
{
    let ghost b1 = buf@;
    let ghost ts = topics@.map_values(|t: SubscribeTopic| t@);
    let mut i: usize = 0;
    while i < topics.len()
        invariant
            i <= topics@.len(),
            ts == topics@.map_values(|t: SubscribeTopic| t@),
            buf@ == b1 + sub_topics_bytes(ts.take(i as int)),
        decreases topics@.len() - i,
    {
        proof {
            lemma_sub_topics_prefix(ts, i as int);
        }
        push_str(buf, topics[i].topic_name.as_str());
        buf.push(topics[i].req_qos);
        i += 1;
    }
    proof {
        assert(ts.take(i as int) == ts);
    }
}

/// Writes the return codes of a SUBACK.
fn push_suback_codes(buf: &mut Vec<u8>, topics: &Vec<SubackRet>)
    ensures
        final(buf)@ == old(buf)@ + suback_codes_bytes(topics@),
{
    let ghost b1 = buf@;
    let mut i: usize = 0;
    while i < topics.len()
        invariant
            i <= topics@.len(),
            buf@ == b1 + suback_codes_bytes(topics@.take(i as int)),
        decreases topics@.len() - i,
    {
        buf.push(
            match topics[i] {
                SubackRet::Success(qos) => qos,
                SubackRet::Failure(err) => err,
            },
        );
        proof {
            assert(suback_codes_bytes(topics@.take(i + 1)) =~= suback_codes_bytes(
                topics@.take(i as int),
            ).push(suback_byte(topics@[i as int])));
        }
        i += 1;
    }
    proof {
        assert(topics@.take(i as int) == topics@);
    }
}

impl MqttPacket {
    /// The remaining length, packet type and header flags of the packet.
    fn head(&self, protocol_level: u8) -> (r: (usize, u8, u8))
        requires
            !as_bytes_overflows(self@),
            as_bytes_fits(self@, protocol_level),
        ensures
            r.0 == rem_len(self@, protocol_level),
            r.1 == packet_type(self@),
            r.2 == header_flags(self@),
    {
        //flags
        let mut b_f: u8 = 0;

        //remaining length
        let mut rem_len: usize = 0;

        //packet type
        let b_pt: u8 = match self {
            MqttPacket::Connect(cp) => {
                rem_len = connect_rem_len(cp);
                1
            },
            MqttPacket::Connack(cp) => {
                rem_len += 2;

                if protocol_level == 5 {
                    rem_len += props_part_len(&cp.properties);
                }
                2
            },
            MqttPacket::Publish(pp) => {
                let q2 = pp.qos << 1;
                proof {
                    let q = pp.qos;
                    assert((q << 1u8) == ((q as int * 2) % 256) as u8) by (bit_vector);
                }
                b_f = if pp.dup {
                    8
                } else {
                    0
                } + q2 + if pp.retain {
                    1
                } else {
                    0
                };

                rem_len += 2;
                rem_len += pp.topic_name.as_str().len();

                if pp.qos > 0 {
                    rem_len += 2;
                }
                rem_len += pp.payload.len();

                if protocol_level == 5 {
                    rem_len += props_part_len(&pp.properties);
                }
                3
            },
            MqttPacket::Puback(pp) => {
                rem_len += 2;

                if protocol_level == 5 {
                    rem_len += 1;
                    rem_len += props_part_len(&pp.properties);
                }
                4
            },
            MqttPacket::Pubrec(pp) => {
                rem_len += 2;

                if protocol_level == 5 {
                    rem_len += 1;
                    rem_len += props_part_len(&pp.properties);
                }
                5
            },
            MqttPacket::Pubrel(pp) => {
                //Bits 3,2,1 and 0 of the fixed header in the PUBREL Control Packet are reserved and MUST be set to 0,0,1 and 0 respectively.
                b_f = 0b0010;

                rem_len += 2;

                if protocol_level == 5 {
                    rem_len += 1;
                    rem_len += props_part_len(&pp.properties);
                }
                6
            },
            MqttPacket::Pubcomp(pp) => {
                rem_len += 2;

                if protocol_level == 5 {
                    rem_len += 1;
                    rem_len += props_part_len(&pp.properties);
                }
                7
            },
            MqttPacket::Subscribe(sp) => {
                rem_len += 2;

                //Bits 3,2,1 and 0 of the fixed header of the SUBSCRIBE Control Packet are reserved and MUST be set to 0,0,1 and 0 respectively.
                b_f = 0b0010;

                let ghost ts = sp.topics@.map_values(|t: SubscribeTopic| t@);
                let mut i: usize = 0;
                while i < sp.topics.len()
                    invariant
                        i <= sp.topics@.len(),
                        ts == sp.topics@.map_values(|t: SubscribeTopic| t@),
                        rem_len == 2 + sub_topics_len(ts.take(i as int)),
                        2 + sub_topics_len(ts) <= usize::MAX,
                    decreases sp.topics@.len() - i,
                {
                    proof {
                        lemma_sub_topics_prefix(ts, i as int);
                        lemma_sub_topics_prefix(ts, i + 1);
                    }
                    //2 bytes len + req qos
                    rem_len += 3 + sp.topics[i].topic_name.as_str().len();
                    i += 1;
                }
                proof {
                    assert(ts.take(i as int) == ts);
                }
                if protocol_level == 5 {
                    rem_len += props_part_len(&sp.properties);
                }
                8
            },
            MqttPacket::Suback(sp) => {
                rem_len += 2 + sp.topics.len();

                if protocol_level == 5 {
                    rem_len += props_part_len(&sp.properties);
                }
                9
            },
            MqttPacket::Unsubscribe(up) => {
                //Bits 3,2,1 and 0 of the fixed header of the UNSUBSCRIBE Control Packet are reserved and MUST be set to 0,0,1 and 0 respectively.
                b_f = 0b0010;

                rem_len += 2;

                let ghost ts = up.topics@.map_values(|t: String| t@);
                let mut i: usize = 0;
                while i < up.topics.len()
                    invariant
                        i <= up.topics@.len(),
                        ts == up.topics@.map_values(|t: String| t@),
                        rem_len == 2 + unsub_topics_len(ts.take(i as int)),
                        2 + unsub_topics_len(ts) <= usize::MAX,
                    decreases up.topics@.len() - i,
                {
                    proof {
                        lemma_unsub_topics_prefix(ts, i as int);
                        lemma_unsub_topics_prefix(ts, i + 1);
                    }
                    //2 bytes len
                    rem_len += 2 + up.topics[i].as_str().len();
                    i += 1;
                }
                proof {
                    assert(ts.take(i as int) == ts);
                }
                if protocol_level == 5 {
                    rem_len += props_part_len(&up.properties);
                }
                10
            },
            MqttPacket::Unsuback(up) => {
                rem_len += 2;

                if protocol_level == 5 {
                    rem_len += 1;
                    rem_len += props_part_len(&up.properties);
                }
                11
            },
            MqttPacket::Pingreq => 12,
            MqttPacket::Pingresp => 13,
            MqttPacket::Disconnect(dp) => {
                if protocol_level == 5 {
                    rem_len += 1;
                    rem_len += props_part_len(&dp.properties);
                }
                14
            },
            MqttPacket::Reserved => 0,
        };
        (rem_len, b_pt, b_f)
    }

    /// Writes the body of the packet; `NotImplemented` for the packet types
    /// the writer does not write.
    #[verifier::rlimit(60)]
    fn push_body(&self, protocol_level: u8, buf: &mut Vec<u8>) -> (r: Result<(), Error>)
        requires
            !as_bytes_overflows(self@),
            packet_props_fit(self@),
        ensures
            as_bytes_supported(self@) ==> r is Ok && final(buf)@ == old(buf)@ + body_bytes(
                self@,
                protocol_level,
            ),
            !as_bytes_supported(self@) ==> (r matches Err(Error::NotImplemented(m)) && m@
                == not_implemented_text(packet_type(self@)) && final(buf)@ == old(buf)@),
    {
        let ghost after_header = buf@;
        //content
        match self {
            MqttPacket::Connect(cp) => {
                push_connect_body(cp, buf);
            },
            MqttPacket::Connack(cp) => {
                buf.push(
                    if cp.session_present {
                        1
                    } else {
                        0
                    },
                );
                buf.push(
                    match cp.return_code {
                        ConnackReturnCode::Accepted => 0,
                        //mqtt 3.1.1
                        ConnackReturnCode::UnacceptableProtocolVersion => 1,
                        ConnackReturnCode::IdentifierRejected => 2,
                        ConnackReturnCode::ServerUnavailable => 3,
                        ConnackReturnCode::BadUsernameOrPassword => 4,
                        ConnackReturnCode::NotAuthorized => 5,
                        //mqtt 5.0
                        ConnackReturnCode::Error(n) => n,
                    },
                );

                if protocol_level == 5 {
                    push_properties(buf, &cp.properties);
                }
                assert(buf@ == after_header + body_bytes(self@, protocol_level));
            },
            MqttPacket::Subscribe(sp) => {
                push_u16(buf, sp.packet_identifier);

                if protocol_level == 5 {
                    push_properties(buf, &sp.properties);
                }
                push_sub_topics(buf, &sp.topics);
                assert(buf@ == after_header + body_bytes(self@, protocol_level));
            },
            MqttPacket::Suback(sp) => {
                if protocol_level == 5 {
                    push_properties(buf, &sp.properties);
                }
                push_u16(buf, sp.packet_identifier);

                push_suback_codes(buf, &sp.topics);
                assert(buf@ == after_header + body_bytes(self@, protocol_level));
            },
            MqttPacket::Publish(pp) => {
                push_str(buf, pp.topic_name.as_str());

                if pp.qos == 1 || pp.qos == 2 {
                    push_u16(buf, pp.packet_identifier);
                }
                if protocol_level == 5 {
                    push_properties(buf, &pp.properties);
                }
                push_binary_data(buf, &pp.payload);
                assert(buf@ == after_header + body_bytes(self@, protocol_level));
            },
            MqttPacket::Puback(sp) => {
                push_u16(buf, sp.packet_identifier);

                if protocol_level == 5 {
                    push_u8(buf, sp.reason_code);
                    push_properties(buf, &sp.properties);
                }
                assert(buf@ == after_header + body_bytes(self@, protocol_level));
            },
            MqttPacket::Unsuback(up) => {
                push_u16(buf, up.packet_identifier);

                if protocol_level == 5 {
                    push_properties(buf, &up.properties);
                    push_u8(buf, up.reason_code);
                }
                assert(buf@ == after_header + body_bytes(self@, protocol_level));
            },
            MqttPacket::Pingreq => {
                assert(buf@ == after_header + body_bytes(self@, protocol_level));
            },
            MqttPacket::Pingresp => {
                assert(buf@ == after_header + body_bytes(self@, protocol_level));
            },
            MqttPacket::Disconnect(dp) => {
                if protocol_level == 5 {
                    push_u8(buf, dp.reason_code);
                    push_properties(buf, &dp.properties);
                }
                assert(buf@ == after_header + body_bytes(self@, protocol_level));
            },
            _ => {
                return Err(Error::NotImplemented(not_implemented_message(
                    match self {
                        MqttPacket::Pubrec(_) => 5,
                        MqttPacket::Pubrel(_) => 6,
                        MqttPacket::Pubcomp(_) => 7,
                        MqttPacket::Unsubscribe(_) => 10,
                        _ => 0,
                    },
                )));
            },
        };

        Ok(())
    }

    /// Writes the packet at protocol level `protocol_level` to the end of
    /// `buf`: fixed header, remaining length, body. For the packet types it
    /// does not write, it appends the fixed header and remaining length and
    /// returns `NotImplemented`.
    pub fn as_bytes(&self, protocol_level: u8, buf: &mut Vec<u8>) -> (r: Result<(), Error>)
        requires
            !as_bytes_overflows(self@),
            as_bytes_fits(self@, protocol_level),
        ensures
            as_bytes_supported(self@) ==> r is Ok && final(buf)@ == old(buf)@ + packet_bytes(
                self@,
                protocol_level,
            ),
            !as_bytes_supported(self@) ==> (r matches Err(Error::NotImplemented(m)) && m@
                == not_implemented_text(packet_type(self@)) && final(buf)@ == old(buf)@
                + header_bytes(self@, protocol_level)),
    {
        let (rem_len, b_pt, b_f) = self.head(protocol_level);
        proof {
            assert((b_pt << 4u8) == b_pt * 16) by (bit_vector)
                requires
                    b_pt < 16,
            ;
            assert(b_pt * 16 + b_f <= 255);
        }

        //header
        buf.push((b_pt << 4) + b_f);

        //remaining length
        push_vbi(buf, rem_len as u32);
        assert(buf@ == old(buf)@ + header_bytes(self@, protocol_level));

        //content
        self.push_body(protocol_level, buf)
    }
}

} // verus!
