//! What holds of the MQTT codec as a whole: what the reader makes of what
//! the writer wrote.

use vstd::prelude::*;
use vstd::utf8::*;
use crate::bytes::{occurs_at, lemma_occurs_at_concat, lemma_occurs_whole};
use crate::mqtt::mqtt_packet::{ConnackReturnCode, SubackRet};
use crate::mqtt::wire::{
    ErrorKind, Rd, PacketV, ConnectV, ConnackV, PublishV, AckV, SubscribeV, SubscribeTopicV,
    SubackV, DisconnectV, PropV, be16, spec_read_u8, spec_read_u16, spec_read_str, vbi_scan,
    spec_read_vbi, vbi_end, vbi_bytes, u16_bytes, str_bytes, pow128, utf8_len, first_last_byte,
    spec_get_buffer_len, spec_read_properties, props_bytes, props_len, rem_len,
    as_bytes_supported, as_bytes_overflows, packet_bytes, header_bytes, body_bytes,
    packet_type, header_flags, publish_flags, initial_packet, spec_from_buf, parse_body,
    header_flags_ok, present_if, opt_read_props, empty_ack, parse_ack, parse_unsuback,
    parse_connack, parse_disconnect, connack_code, connack_byte, parse_publish, parse_connect,
    connect_flags, has_will, opt_or_empty, parse_connect_tail,
    sub_topics_bytes, sub_topic, parse_sub_topics, parse_subscribe, suback_ret, suback_byte,
    suback_codes_bytes, parse_suback_codes, parse_suback, rd_prepend, spec_read_u32, be32,
    u32_bytes, prop_bytes, prop_len, prop_type, props_seq_bytes, props_seq_len, spec_read_prop,
    spec_read_prop_value, spec_read_props_from, rd_map, rd_then, props_part, sub_topics_len,
    lemma_vbi_bytes_len, opt_utf8_len,
};

verus! {

broadcast use {encode_utf8_valid_utf8, encode_utf8_decode_utf8};

pub proof fn lemma_read_u8_at(b: Seq<u8>, p: int, v: u8)
    requires
        occurs_at(b, p, seq![v]),
    ensures
        spec_read_u8(b, p) == Rd::Got(v, p + 1),
{
    assert(b[p] == b.subrange(p, p + 1)[0]);
}

pub proof fn lemma_read_u16_at(b: Seq<u8>, p: int, v: u16)
    requires
        occurs_at(b, p, u16_bytes(v)),
    ensures
        spec_read_u16(b, p) == Rd::Got(v, p + 2),
{
    assert(b[p] == b.subrange(p, p + 2)[0]);
    assert(b[p + 1] == b.subrange(p, p + 2)[1]);
    assert(be16((v / 256) as u8, (v % 256) as u8) == v);
}

/// A string the writer put (shorter than 64 KiB in UTF-8) reads back.
pub proof fn lemma_read_str_at(b: Seq<u8>, p: int, s: Seq<char>)
    requires
        occurs_at(b, p, str_bytes(s)),
        utf8_len(s) < 65536,
    ensures
        spec_read_str(b, p) == Rd::Got(s, p + 2 + utf8_len(s)),
{
    let e = encode_utf8(s);
    let l = e.len() as u16;
    lemma_occurs_at_concat(b, p, u16_bytes(l), e);
    lemma_read_u16_at(b, p, l);
    assert(b.subrange(p + 2, p + 2 + e.len()) == e);
}

/// The scan of a variable byte integer the writer put, from digit `k` on
/// with `acc` gathered so far, adds its value at that digit's weight and
/// stops right after it, as long as it has at most four digits.
proof fn lemma_vbi_scan_at(b: Seq<u8>, p: int, k: nat, acc: nat, v: nat)
    requires
        k + vbi_bytes(v).len() <= 4,
        acc < pow128(k),
        occurs_at(b, p, vbi_bytes(v)),
    ensures
        acc + v * pow128(k) < 268435456,
        vbi_scan(b, p, k, acc) == (
            Ok::<u32, ErrorKind>((acc + v * pow128(k)) as u32),
            p + vbi_bytes(v).len(),
        ),
    decreases v,
{
    reveal_with_fuel(pow128, 5);
    let bs = vbi_bytes(v);
    assert(b[p] == b.subrange(p, p + bs.len())[0]);
    if v < 128 {
        assert(bs == seq![v as u8]);
        assert(acc + v * pow128(k) < 268435456) by (nonlinear_arith)
            requires
                k <= 3,
                acc < pow128(k),
                v < 128,
                pow128(k) <= 2097152,
        ;
    } else {
        let v1 = v / 128;
        let x = (v % 128 + 128) as u8;
        assert(bs == seq![x] + vbi_bytes(v1));
        assert(x % 128 == v % 128);
        let acc2 = acc + (v % 128) as nat * pow128(k);
        assert(acc2 < pow128(k + 1)) by (nonlinear_arith)
            requires
                acc < pow128(k),
                v % 128 < 128,
                acc2 == acc + (v % 128) as nat * pow128(k),
                pow128(k + 1) == 128 * pow128(k),
        ;
        assert(b.subrange(p + 1, p + 1 + vbi_bytes(v1).len()) =~= vbi_bytes(v1)) by {
            assert(b.subrange(p + 1, p + 1 + vbi_bytes(v1).len()) =~= bs.subrange(
                1,
                bs.len() as int,
            ));
        }
        lemma_vbi_scan_at(b, p + 1, k + 1, acc2, v1);
        assert(acc2 + v1 * pow128(k + 1) == acc + v * pow128(k)) by (nonlinear_arith)
            requires
                acc2 == acc + (v % 128) as nat * pow128(k),
                pow128(k + 1) == 128 * pow128(k),
                v1 == v / 128,
        ;
    }
}

/// The number of bytes of a variable byte integer below `2^28`: at most
/// four.
proof fn lemma_vbi_bytes_short(v: nat)
    requires
        v < 268435456,
    ensures
        1 <= vbi_bytes(v).len() <= 4,
{
    reveal_with_fuel(pow128, 5);
    lemma_vbi_bytes_len(v, 4);
}

/// A variable byte integer the writer put (below `2^28`, the largest MQTT
/// allows) reads back, and the read stops right after it.
pub proof fn lemma_vbi_at(b: Seq<u8>, p: int, v: nat)
    requires
        v < 268435456,
        occurs_at(b, p, vbi_bytes(v)),
    ensures
        vbi_scan(b, p, 0, 0) == (Ok::<u32, ErrorKind>(v as u32), p + vbi_bytes(v).len()),
        spec_read_vbi(b, p) == Rd::Got(v as u32, p + vbi_bytes(v).len()),
        vbi_end(b, p) == p + vbi_bytes(v).len(),
{
    reveal_with_fuel(pow128, 1);
    lemma_vbi_bytes_short(v);
    lemma_vbi_scan_at(b, p, 0, 0, v);
}

/// The frame length law: once the fixed header of a packet whose remaining
/// length is `n` (below `2^21`) is in the buffer, together with `k` bytes of
/// its body, `get_buffer_len` asks for the `n - k` bytes still missing, and
/// for none once the packet is whole.
pub proof fn lemma_get_buffer_len_frame(h: u8, n: nat, body: Seq<u8>)
    requires
        n < 2097152,
        body.len() <= n,
    ensures
        spec_get_buffer_len(seq![h] + vbi_bytes(n) + body) == Ok::<nat, ErrorKind>(
            (n - body.len()) as nat,
        ),
{
    reveal_with_fuel(first_last_byte, 4);
    let b = seq![h] + vbi_bytes(n) + body;
    let l = vbi_bytes(n).len();
    assert(b.subrange(1, 1 + l as int) =~= vbi_bytes(n));
    lemma_vbi_at(b, 1, n);
    // the first byte with a clear high bit after the header is the last
    // byte of the length
    if n < 128 {
        assert(vbi_bytes(n) == seq![n as u8]);
        assert(b[1] == n as u8);
    } else {
        let n1 = n / 128;
        assert(vbi_bytes(n) == seq![(n % 128 + 128) as u8] + vbi_bytes(n1));
        assert(b[1] == (n % 128 + 128) as u8);
        if n1 < 128 {
            assert(vbi_bytes(n1) == seq![n1 as u8]);
            assert(b[2] == n1 as u8);
        } else {
            let n2 = n1 / 128;
            assert(vbi_bytes(n1) == seq![(n1 % 128 + 128) as u8] + vbi_bytes(n2));
            assert(vbi_bytes(n2) == seq![n2 as u8]);
            assert(b[2] == (n1 % 128 + 128) as u8);
            assert(b[3] == n2 as u8);
        }
    }
}

/// An empty property list, as the writer puts it, reads back as `None`.
proof fn lemma_read_no_props_at(b: Seq<u8>, p: int)
    requires
        occurs_at(b, p, props_bytes(None)),
    ensures
        props_bytes(None) == seq![0u8],
        spec_read_properties(b, p) == Rd::Got(None::<Seq<PropV>>, p + 1),
{
    assert(props_len(None) == 0);
    assert(vbi_bytes(0) == seq![0u8]);
    assert(props_bytes(None) =~= seq![0u8]);
    lemma_vbi_at(b, p, 0);
}

/// The fixed header the writer puts reads back: the reader sees the packet
/// type and flags the writer put, skips the remaining length, and reads
/// the body the writer put.
proof fn lemma_from_buf_header(p: PacketV, lvl: u8)
    requires
        rem_len(p, lvl) < 2097152,
        packet_type(p) > 0,
        0 <= header_flags(p) < 16,
        header_flags_ok(packet_type(p), header_flags(p) as u8),
    ensures
        spec_from_buf(packet_bytes(p, lvl), lvl) == if body_bytes(p, lvl).len() > 0 {
            parse_body(
                initial_packet(packet_type(p), header_flags(p) as u8),
                body_bytes(p, lvl),
                lvl,
            )
        } else {
            Rd::Got(initial_packet(packet_type(p), header_flags(p) as u8), 0)
        },
{
    let b = packet_bytes(p, lvl);
    let n = rem_len(p, lvl);
    let vb = vbi_bytes(n as u32 as nat);
    let body = body_bytes(p, lvl);
    let pt = packet_type(p);
    let f = header_flags(p) as u8;
    let h = (pt as int * 16 + header_flags(p)) as u8;
    assert(n as u32 as nat == n);
    assert(b == seq![h] + vb + body);
    assert(b[0] == h);
    assert(b.subrange(1, 1 + vb.len() as int) =~= vb);
    lemma_vbi_at(b, 1, n);
    assert(b.subrange(1 + vb.len() as int, b.len() as int) =~= body);
    assert(h / 16 == pt && h & 0x0f == f) by (bit_vector)
        requires
            h == pt * 16 + f,
            f < 16,
            pt < 16,
    ;
}

/// A PUBACK body the writer put reads back.
proof fn lemma_parse_puback(ap: AckV, lvl: u8)
    requires
        props_roundtrip(ap.properties, lvl),
        lvl != 5 ==> ap.reason_code == 0,
    ensures
        parse_ack(body_bytes(PacketV::Puback(ap), lvl), empty_ack(), lvl).is_got(),
        parse_ack(body_bytes(PacketV::Puback(ap), lvl), empty_ack(), lvl).value() == ap,
{
    let b = body_bytes(PacketV::Puback(ap), lvl);
    let ib = u16_bytes(ap.packet_identifier);
    if lvl == 5 {
        lemma_occurs_whole(b);
        assert(props_bytes(None) =~= seq![0u8]) by {
            assert(vbi_bytes(0) == seq![0u8]);
        }
        assert(b =~= ib + seq![ap.reason_code] + props_bytes(ap.properties));
        lemma_occurs_at_concat(b, 0, ib + seq![ap.reason_code], props_bytes(ap.properties));
        lemma_occurs_at_concat(b, 0, ib, seq![ap.reason_code]);
        lemma_read_u16_at(b, 0, ap.packet_identifier);
        lemma_read_u8_at(b, 2, ap.reason_code);
        lemma_read_props_written(b, 3, ap.properties);
    } else {
        assert(b =~= ib);
        lemma_occurs_whole(b);
        lemma_read_u16_at(b, 0, ap.packet_identifier);
    }
}

/// An UNSUBACK body the writer put reads back.
proof fn lemma_parse_unsuback(ap: AckV, lvl: u8)
    requires
        props_roundtrip(ap.properties, lvl),
        lvl != 5 ==> ap.reason_code == 0,
    ensures
        parse_unsuback(body_bytes(PacketV::Unsuback(ap), lvl), empty_ack(), lvl).is_got(),
        parse_unsuback(body_bytes(PacketV::Unsuback(ap), lvl), empty_ack(), lvl).value() == ap,
{
    let b = body_bytes(PacketV::Unsuback(ap), lvl);
    let ib = u16_bytes(ap.packet_identifier);
    if lvl == 5 {
        lemma_occurs_whole(b);
        assert(props_bytes(None) =~= seq![0u8]) by {
            assert(vbi_bytes(0) == seq![0u8]);
        }
        assert(b =~= ib + props_bytes(ap.properties) + seq![ap.reason_code]);
        lemma_occurs_at_concat(b, 0, ib + props_bytes(ap.properties), seq![ap.reason_code]);
        lemma_occurs_at_concat(b, 0, ib, props_bytes(ap.properties));
        lemma_read_u16_at(b, 0, ap.packet_identifier);
        lemma_read_props_written(b, 2, ap.properties);
        lemma_read_u8_at(b, 2 + props_bytes(ap.properties).len() as int, ap.reason_code);
    } else {
        assert(b =~= ib);
        lemma_occurs_whole(b);
        lemma_read_u16_at(b, 0, ap.packet_identifier);
    }
}

/// A CONNACK body the writer put reads back, where its return code is not
/// a numbered error that reads as one of the named codes.
proof fn lemma_parse_connack(cp: ConnackV, lvl: u8, init: ConnackV)
    requires
        props_roundtrip(cp.properties, lvl),
        init.properties is None,
        connack_code(connack_byte(cp.return_code)) == cp.return_code,
    ensures
        parse_connack(body_bytes(PacketV::Connack(cp), lvl), init, lvl).is_got(),
        parse_connack(body_bytes(PacketV::Connack(cp), lvl), init, lvl).value() == cp,
{
    let b = body_bytes(PacketV::Connack(cp), lvl);
    let x: u8 = if cp.session_present { 1 } else { 0 };
    let c = connack_byte(cp.return_code);
    assert(x & 1 == 1 <==> x == 1) by (bit_vector)
        requires
            x == 0 || x == 1,
    ;
    lemma_occurs_whole(b);
    if lvl == 5 {
        assert(props_bytes(None) =~= seq![0u8]) by {
            assert(vbi_bytes(0) == seq![0u8]);
        }
        assert(b =~= seq![x] + seq![c] + props_bytes(cp.properties));
        lemma_occurs_at_concat(b, 0, seq![x] + seq![c], props_bytes(cp.properties));
        lemma_occurs_at_concat(b, 0, seq![x], seq![c]);
        lemma_read_props_written(b, 2, cp.properties);
    } else {
        assert(b =~= seq![x] + seq![c]);
        lemma_occurs_at_concat(b, 0, seq![x], seq![c]);
    }
    lemma_read_u8_at(b, 0, x);
    lemma_read_u8_at(b, 1, c);
}

/// A DISCONNECT body the writer put reads back (at MQTT 5.0; before, the
/// body is empty).
proof fn lemma_parse_disconnect(dp: DisconnectV, init: DisconnectV)
    requires
        props_roundtrip(dp.properties, 5),
    ensures
        parse_disconnect(body_bytes(PacketV::Disconnect(dp), 5), init, 5).is_got(),
        parse_disconnect(body_bytes(PacketV::Disconnect(dp), 5), init, 5).value() == dp,
{
    let b = body_bytes(PacketV::Disconnect(dp), 5);
    assert(props_bytes(None) =~= seq![0u8]) by {
        assert(vbi_bytes(0) == seq![0u8]);
    }
    assert(b =~= seq![dp.reason_code] + props_bytes(dp.properties));
    lemma_occurs_whole(b);
    lemma_occurs_at_concat(b, 0, seq![dp.reason_code], props_bytes(dp.properties));
    lemma_read_u8_at(b, 0, dp.reason_code);
    lemma_read_props_written(b, 1, dp.properties);
}

/// A PUBLISH body the writer put (QoS at most 2) reads back.
proof fn lemma_parse_publish(pp: PublishV, lvl: u8, init: PublishV)
    requires
        props_roundtrip(pp.properties, lvl),
        pp.qos <= 2,
        pp.qos == 0 ==> pp.packet_identifier == 0,
        utf8_len(pp.topic_name) < 65536,
        init == (PublishV {
            topic_name: Seq::empty(),
            payload: Seq::empty(),
            properties: None,
            packet_identifier: 0,
            ..pp
        }),
    ensures
        parse_publish(body_bytes(PacketV::Publish(pp), lvl), init, lvl).is_got(),
        parse_publish(body_bytes(PacketV::Publish(pp), lvl), init, lvl).value() == pp,
{
    let b = body_bytes(PacketV::Publish(pp), lvl);
    let tb = str_bytes(pp.topic_name);
    let ib = present_if(pp.qos == 1 || pp.qos == 2, u16_bytes(pp.packet_identifier));
    let pb = present_if(lvl == 5, props_bytes(pp.properties));
    assert(b =~= tb + ib + pb + pp.payload);
    lemma_occurs_whole(b);
    lemma_occurs_at_concat(b, 0, tb + ib + pb, pp.payload);
    lemma_occurs_at_concat(b, 0, tb + ib, pb);
    lemma_occurs_at_concat(b, 0, tb, ib);
    lemma_read_str_at(b, 0, pp.topic_name);
    let p1 = tb.len() as int;
    if pp.qos == 1 || pp.qos == 2 {
        lemma_read_u16_at(b, p1, pp.packet_identifier);
    }
    let p2 = p1 + ib.len();
    if lvl == 5 {
        lemma_read_props_written(b, p2, pp.properties);
    }
    let p3 = p2 + pb.len();
    assert(b.subrange(p3, b.len() as int) =~= pp.payload);
    assert(Seq::<u8>::empty() + pp.payload =~= pp.payload);
}

/// What a CONNECT flags byte says: each field in its own bits.
proof fn lemma_connect_flags_bits(cp: ConnectV)
    requires
        cp.will_qos < 4,
    ensures
        (connect_flags(cp) & 0b00100000 != 0) == cp.will_retain,
        (connect_flags(cp) >> 3) & 0b11 == cp.will_qos,
        (connect_flags(cp) & 0b00000010 != 0) == cp.clean_session,
        (connect_flags(cp) & 0b00000100 != 0) == has_will(cp),
        (connect_flags(cp) & 0b10000000 != 0) == (cp.user_name is Some),
        (connect_flags(cp) & 0b01000000 != 0) == (cp.password is Some),
{
    let q = cp.will_qos;
    let u: u8 = if cp.user_name is Some { 1 } else { 0 };
    let w: u8 = if cp.password is Some { 1 } else { 0 };
    let r: u8 = if cp.will_retain { 1 } else { 0 };
    let h: u8 = if has_will(cp) { 1 } else { 0 };
    let c: u8 = if cp.clean_session { 1 } else { 0 };
    let f = connect_flags(cp);
    assert(f == u * 128 + w * 64 + r * 32 + q * 8 + h * 4 + c * 2);
    assert((f & 0b00100000 != 0) == (r == 1) && (f >> 3) & 0b11 == q && (f & 0b00000010 != 0) == (c
        == 1) && (f & 0b00000100 != 0) == (h == 1) && (f & 0b10000000 != 0) == (u == 1) && (f
        & 0b01000000 != 0) == (w == 1)) by (bit_vector)
        requires
            f == u * 128 + w * 64 + r * 32 + q * 8 + h * 4 + c * 2,
            q < 4,
            u < 2,
            w < 2,
            r < 2,
            h < 2,
            c < 2,
    ;
}

/// Where the reads of a CONNECT body the writer put (no will, user name or
/// password, no properties) stop, and what they give.
#[verifier::rlimit(40)]
proof fn lemma_connect_body_reads(cp: ConnectV)
    requires
        cp.properties is None,
        cp.will_topic is None,
        cp.will_message is None,
        cp.user_name is None,
        cp.password is None,
        utf8_len(cp.protocol_name) < 65536,
        utf8_len(cp.client_identifier) < 65536,
    ensures
        ({
            let b = body_bytes(PacketV::Connect(cp), 0);
            let p1 = (2 + utf8_len(cp.protocol_name)) as int;
            let p5 = p1 + 4 + if cp.protocol_level == 5 {
                1int
            } else {
                0
            };
            &&& spec_read_str(b, 0) == Rd::Got(cp.protocol_name, p1)
            &&& spec_read_u8(b, p1) == Rd::Got(cp.protocol_level, p1 + 1)
            &&& spec_read_u8(b, p1 + 1) == Rd::Got(connect_flags(cp), p1 + 2)
            &&& spec_read_u16(b, p1 + 2) == Rd::Got(cp.keep_alive, p1 + 4)
            &&& opt_read_props(cp.protocol_level == 5, b, p1 + 4, None) == Rd::Got(
                None::<Seq<PropV>>,
                p5,
            )
            &&& spec_read_str(b, p5) == Rd::Got(
                cp.client_identifier,
                p5 + 2 + utf8_len(cp.client_identifier),
            )
        }),
{
    let b = body_bytes(PacketV::Connect(cp), 0);
    let l5 = cp.protocol_level == 5;
    let f = connect_flags(cp);
    let nb = str_bytes(cp.protocol_name);
    let pb = present_if(l5, props_bytes(None));
    let cb = str_bytes(cp.client_identifier);
    let hb = nb + seq![cp.protocol_level] + seq![f] + u16_bytes(cp.keep_alive);
    assert(props_bytes(None) =~= seq![0u8]) by {
        assert(vbi_bytes(0) == seq![0u8]);
    }
    assert(b =~= hb + pb + cb);
    lemma_occurs_whole(b);
    lemma_occurs_at_concat(b, 0, hb + pb, cb);
    lemma_occurs_at_concat(b, 0, hb, pb);
    lemma_occurs_at_concat(b, 0, nb + seq![cp.protocol_level] + seq![f], u16_bytes(cp.keep_alive));
    lemma_occurs_at_concat(b, 0, nb + seq![cp.protocol_level], seq![f]);
    lemma_occurs_at_concat(b, 0, nb, seq![cp.protocol_level]);
    let p1 = nb.len() as int;
    lemma_read_str_at(b, 0, cp.protocol_name);
    lemma_read_u8_at(b, p1, cp.protocol_level);
    lemma_read_u8_at(b, p1 + 1, f);
    lemma_read_u16_at(b, p1 + 2, cp.keep_alive);
    if l5 {
        lemma_read_no_props_at(b, p1 + 4);
    }
    lemma_read_str_at(b, p1 + 4 + pb.len(), cp.client_identifier);
}

/// A CONNECT body the writer put (no will, user name or password, no
/// properties) reads back.
proof fn lemma_parse_connect(cp: ConnectV, init: ConnectV)
    requires
        cp.properties is None,
        cp.will_properties is None,
        cp.will_qos < 4,
        cp.will_topic is None,
        cp.will_message is None,
        cp.user_name is None,
        cp.password is None,
        utf8_len(cp.protocol_name) < 65536,
        utf8_len(cp.client_identifier) < 65536,
        init.protocol_name == Seq::<char>::empty(),
        init.client_identifier == Seq::<char>::empty(),
        init.will_topic is None,
        init.will_message is None,
        init.user_name is None,
        init.password is None,
        init.properties is None,
        init.will_properties is None,
    ensures
        parse_connect(body_bytes(PacketV::Connect(cp), 0), init).is_got(),
        parse_connect(body_bytes(PacketV::Connect(cp), 0), init).value() == cp,
{
    let b = body_bytes(PacketV::Connect(cp), 0);
    let f = connect_flags(cp);
    lemma_connect_flags_bits(cp);
    lemma_connect_body_reads(cp);
    let p1 = (2 + utf8_len(cp.protocol_name)) as int;
    let p5 = p1 + 4 + if cp.protocol_level == 5 {
        1int
    } else {
        0
    };
    let p6 = p5 + 2 + utf8_len(cp.client_identifier);
    assert(init.protocol_name + cp.protocol_name =~= cp.protocol_name);
    assert(init.client_identifier + cp.client_identifier =~= cp.client_identifier);
    let cp2 = ConnectV {
        protocol_name: init.protocol_name + cp.protocol_name,
        protocol_level: cp.protocol_level,
        keep_alive: cp.keep_alive,
        will_retain: f & 0b00100000 != 0,
        will_qos: (f >> 3) & 0b11,
        clean_session: f & 0b00000010 != 0,
        client_identifier: init.client_identifier + cp.client_identifier,
        properties: None,
        ..init
    };
    assert(cp2 == cp);
    assert(parse_connect_tail(b, p6, f, cp2) == Rd::Got(cp, p6));
    assert(parse_connect(b, init) == parse_connect_tail(b, p6, f, cp2));
}

/// A topic filter that the reader takes back as the writer put it: a name
/// of less than 64 KiB, a requested QoS below 4 and no MQTT 5.0 options.
pub open spec fn plain_topic(t: SubscribeTopicV) -> bool {
    &&& utf8_len(t.topic_name) < 65536
    &&& t.req_qos < 4
    &&& t.retain_handling == 0
    &&& !t.rap
    &&& !t.nl
}

/// The topic filters as written, taken from the front.
proof fn lemma_sub_topics_bytes_cons(ts: Seq<SubscribeTopicV>)
    requires
        ts.len() > 0,
    ensures
        sub_topics_bytes(ts) == str_bytes(ts[0].topic_name) + seq![ts[0].req_qos]
            + sub_topics_bytes(ts.subrange(1, ts.len() as int)),
    decreases ts.len(),
{
    let rest = ts.subrange(1, ts.len() as int);
    if ts.len() == 1 {
        assert(ts.drop_last() =~= Seq::<SubscribeTopicV>::empty());
        assert(rest =~= Seq::<SubscribeTopicV>::empty());
        assert(sub_topics_bytes(ts) =~= str_bytes(ts[0].topic_name) + seq![ts[0].req_qos]
            + sub_topics_bytes(rest));
    } else {
        let d = ts.drop_last();
        lemma_sub_topics_bytes_cons(d);
        assert(d.subrange(1, d.len() as int) =~= rest.drop_last());
        assert(rest.last() == ts.last());
        assert(sub_topics_bytes(ts) =~= str_bytes(ts[0].topic_name) + seq![ts[0].req_qos]
            + sub_topics_bytes(rest));
    }
}

/// The topic filters the writer put at `p`, up to the end, read back.
proof fn lemma_parse_sub_topics(b: Seq<u8>, p: int, ts: Seq<SubscribeTopicV>)
    requires
        occurs_at(b, p, sub_topics_bytes(ts)),
        p + sub_topics_bytes(ts).len() == b.len(),
        forall|i: int| 0 <= i < ts.len() ==> plain_topic(#[trigger] ts[i]),
    ensures
        parse_sub_topics(b, p) == Rd::Got(ts, b.len() as int),
    decreases ts.len(),
{
    if ts.len() == 0 {
        assert(sub_topics_bytes(ts) == Seq::<u8>::empty());
        assert(ts =~= Seq::<SubscribeTopicV>::empty());
    } else {
        let t = ts[0];
        let rest = ts.subrange(1, ts.len() as int);
        lemma_sub_topics_bytes_cons(ts);
        let nb = str_bytes(t.topic_name);
        lemma_occurs_at_concat(b, p, nb + seq![t.req_qos], sub_topics_bytes(rest));
        lemma_occurs_at_concat(b, p, nb, seq![t.req_qos]);
        assert(plain_topic(ts[0]));
        lemma_read_str_at(b, p, t.topic_name);
        let q = p + nb.len();
        lemma_read_u8_at(b, q, t.req_qos);
        assert forall|i: int| 0 <= i < rest.len() implies plain_topic(#[trigger] rest[i]) by {
            assert(rest[i] == ts[i + 1]);
        }
        lemma_parse_sub_topics(b, q + 1, rest);
        let so = t.req_qos;
        assert(so & 0b11 == so && (so & 0b110000) >> 4 == 0 && so & 0b1000 != 0b1000 && so
            & 0b100 != 0b100) by (bit_vector)
            requires
                so < 4,
        ;
        assert(sub_topic(t.topic_name, so) == t);
        assert(p < b.len());
        assert(spec_read_str(b, p) == Rd::Got(t.topic_name, q));
        assert(spec_read_u8(b, q) == Rd::Got(so, q + 1));
        assert(parse_sub_topics(b, p) == rd_prepend(seq![t], parse_sub_topics(b, q + 1)));
        assert(seq![t] + rest =~= ts);
    }
}

/// A SUBSCRIBE body the writer put (plain topic filters, no properties)
/// reads back.
proof fn lemma_parse_subscribe(sp: SubscribeV, lvl: u8, init: SubscribeV)
    requires
        props_roundtrip(sp.properties, lvl),
        forall|i: int| 0 <= i < sp.topics.len() ==> plain_topic(#[trigger] sp.topics[i]),
        init.topics == Seq::<SubscribeTopicV>::empty(),
        init.properties is None,
    ensures
        parse_subscribe(body_bytes(PacketV::Subscribe(sp), lvl), init, lvl).is_got(),
        parse_subscribe(body_bytes(PacketV::Subscribe(sp), lvl), init, lvl).value() == sp,
{
    let b = body_bytes(PacketV::Subscribe(sp), lvl);
    let ib = u16_bytes(sp.packet_identifier);
    let pb = present_if(lvl == 5, props_bytes(sp.properties));
    let tb = sub_topics_bytes(sp.topics);
    assert(props_bytes(None) =~= seq![0u8]) by {
        assert(vbi_bytes(0) == seq![0u8]);
    }
    assert(b =~= ib + pb + tb);
    lemma_occurs_whole(b);
    lemma_occurs_at_concat(b, 0, ib + pb, tb);
    lemma_occurs_at_concat(b, 0, ib, pb);
    lemma_read_u16_at(b, 0, sp.packet_identifier);
    if lvl == 5 {
        lemma_read_props_written(b, 2, sp.properties);
    }
    lemma_parse_sub_topics(b, 2 + pb.len() as int, sp.topics);
    assert(init.topics + sp.topics =~= sp.topics);
}

/// A SUBACK return code the reader takes back as the writer put it.
pub open spec fn plain_suback_ret(r: SubackRet) -> bool {
    match r {
        SubackRet::Success(q) => q < 0x80,
        SubackRet::Failure(e) => e >= 0x80,
    }
}

/// The return codes from `p` to the end are read one byte each.
proof fn lemma_parse_suback_codes(b: Seq<u8>, p: int)
    requires
        0 <= p <= b.len(),
    ensures
        parse_suback_codes(b, p) == b.subrange(p, b.len() as int).map_values(
            |x: u8| suback_ret(x),
        ),
    decreases b.len() - p,
{
    if p < b.len() {
        lemma_parse_suback_codes(b, p + 1);
        assert(parse_suback_codes(b, p) =~= b.subrange(p, b.len() as int).map_values(
            |x: u8| suback_ret(x),
        ));
    } else {
        assert(parse_suback_codes(b, p) =~= b.subrange(p, b.len() as int).map_values(
            |x: u8| suback_ret(x),
        ));
    }
}

/// A SUBACK body the writer put (plain return codes, no properties) reads
/// back.
proof fn lemma_parse_suback(sp: SubackV, lvl: u8, init: SubackV)
    requires
        props_roundtrip(sp.properties, lvl),
        forall|i: int| 0 <= i < sp.topics.len() ==> plain_suback_ret(#[trigger] sp.topics[i]),
        init.topics == Seq::<SubackRet>::empty(),
        init.properties is None,
    ensures
        parse_suback(body_bytes(PacketV::Suback(sp), lvl), init, lvl).is_got(),
        parse_suback(body_bytes(PacketV::Suback(sp), lvl), init, lvl).value() == sp,
{
    let b = body_bytes(PacketV::Suback(sp), lvl);
    let ib = u16_bytes(sp.packet_identifier);
    let pb = present_if(lvl == 5, props_bytes(sp.properties));
    let cb = suback_codes_bytes(sp.topics);
    assert(props_bytes(None) =~= seq![0u8]) by {
        assert(vbi_bytes(0) == seq![0u8]);
    }
    assert(b =~= pb + ib + cb);
    lemma_occurs_whole(b);
    lemma_occurs_at_concat(b, 0, pb + ib, cb);
    lemma_occurs_at_concat(b, 0, pb, ib);
    if lvl == 5 {
        lemma_read_props_written(b, 0, sp.properties);
    }
    let p2 = pb.len() as int + 2;
    lemma_read_u16_at(b, pb.len() as int, sp.packet_identifier);
    lemma_parse_suback_codes(b, p2);
    assert(b.subrange(p2, b.len() as int) =~= cb);
    assert forall|i: int| 0 <= i < sp.topics.len() implies suback_ret(
        suback_byte(sp.topics[i]),
    ) == sp.topics[i] by {
        assert(plain_suback_ret(sp.topics[i]));
    }
    assert(init.topics + cb.map_values(|x: u8| suback_ret(x)) =~= sp.topics);
}

/// The packets that the reader takes back as the writer put them at the
/// connection's protocol level `lvl`: those the writer supports, whose
/// remaining length is below `2^21` and whose strings are shorter than
/// 64 KiB, with property lists that read back (`props_roundtrip`; none on
/// a CONNECT), and without what the writer drops or
/// misplaces: a CONNECT without a will, a user name or a password; a
/// PUBLISH of QoS at most 2 (with no packet identifier at QoS 0);
/// acknowledgements and
/// DISCONNECT with reason code 0 before MQTT 5.0; CONNACK codes above 5
/// that are not numbered errors; SUBACK codes of the right class.
pub open spec fn roundtrips(p: PacketV, lvl: u8) -> bool {
    &&& rem_len(p, lvl) < 2097152
    &&& match p {
        PacketV::Connect(cp) => {
            &&& cp.properties is None
            &&& cp.will_properties is None
            &&& cp.will_qos < 4
            &&& cp.will_topic is None
            &&& cp.will_message is None
            &&& cp.user_name is None
            &&& cp.password is None
            &&& utf8_len(cp.protocol_name) < 65536
            &&& utf8_len(cp.client_identifier) < 65536
        },
        PacketV::Connack(cp) => {
            &&& props_roundtrip(cp.properties, lvl)
            &&& connack_code(connack_byte(cp.return_code)) == cp.return_code
        },
        PacketV::Publish(pp) => {
            &&& props_roundtrip(pp.properties, lvl)
            &&& pp.qos <= 2
            &&& pp.qos == 0 ==> pp.packet_identifier == 0
            &&& utf8_len(pp.topic_name) < 65536
        },
        PacketV::Puback(ap) | PacketV::Unsuback(ap) => {
            &&& props_roundtrip(ap.properties, lvl)
            &&& lvl != 5 ==> ap.reason_code == 0
        },
        PacketV::Subscribe(sp) => {
            &&& props_roundtrip(sp.properties, lvl)
            &&& forall|i: int| 0 <= i < sp.topics.len() ==> plain_topic(#[trigger] sp.topics[i])
        },
        PacketV::Suback(sp) => {
            &&& props_roundtrip(sp.properties, lvl)
            &&& forall|i: int|
                0 <= i < sp.topics.len() ==> plain_suback_ret(#[trigger] sp.topics[i])
        },
        PacketV::Disconnect(dp) => {
            &&& props_roundtrip(dp.properties, lvl)
            &&& lvl != 5 ==> dp.reason_code == 0
        },
        PacketV::Pingreq | PacketV::Pingresp => true,
        _ => false,
    }
}

/// The round trip of one kind of packet.
proof fn lemma_roundtrip_connect(p: PacketV, lvl: u8)
    requires
        roundtrips(p, lvl),
        p is Connect,
    ensures
        as_bytes_supported(p),
        !as_bytes_overflows(p),
        spec_from_buf(packet_bytes(p, lvl), lvl).is_got(),
        spec_from_buf(packet_bytes(p, lvl), lvl).value() == p,
{
    let pt = packet_type(p);
    let f = header_flags(p);
    let cp = p->Connect_0;
    lemma_from_buf_header(p, lvl);
    let init = initial_packet(pt, f as u8);
    lemma_parse_connect(cp, init->Connect_0);
    assert(body_bytes(p, lvl) == body_bytes(p, 0));
}

/// The round trip of one kind of packet.
proof fn lemma_roundtrip_connack(p: PacketV, lvl: u8)
    requires
        roundtrips(p, lvl),
        p is Connack,
    ensures
        as_bytes_supported(p),
        !as_bytes_overflows(p),
        spec_from_buf(packet_bytes(p, lvl), lvl).is_got(),
        spec_from_buf(packet_bytes(p, lvl), lvl).value() == p,
{
    let pt = packet_type(p);
    let f = header_flags(p);
    let cp = p->Connack_0;
    lemma_from_buf_header(p, lvl);
    let init = initial_packet(pt, f as u8);
    lemma_parse_connack(cp, lvl, init->Connack_0);
}

/// The round trip of one kind of packet.
proof fn lemma_roundtrip_publish(p: PacketV, lvl: u8)
    requires
        roundtrips(p, lvl),
        p is Publish,
    ensures
        as_bytes_supported(p),
        !as_bytes_overflows(p),
        spec_from_buf(packet_bytes(p, lvl), lvl).is_got(),
        spec_from_buf(packet_bytes(p, lvl), lvl).value() == p,
{
    let pt = packet_type(p);
    let f = header_flags(p);
    let pp = p->Publish_0;
    let fb = f as u8;
    let d: u8 = if pp.dup { 1 } else { 0 };
    let r: u8 = if pp.retain { 1 } else { 0 };
    let q = pp.qos;
    assert(fb == d * 8 + q * 2 + r);
    assert(((fb & 8) == 8) == (d == 1) && (fb >> 1) & 3 == q && ((fb & 1) == 1) == (r == 1) && fb
        < 16) by (bit_vector)
        requires
            fb == d * 8 + q * 2 + r,
            d < 2,
            r < 2,
            q <= 2,
    ;
    lemma_from_buf_header(p, lvl);
    let init = initial_packet(pt, fb);
    lemma_parse_publish(pp, lvl, init->Publish_0);
}

/// The round trip of one kind of packet.
proof fn lemma_roundtrip_puback(p: PacketV, lvl: u8)
    requires
        roundtrips(p, lvl),
        p is Puback,
    ensures
        as_bytes_supported(p),
        !as_bytes_overflows(p),
        spec_from_buf(packet_bytes(p, lvl), lvl).is_got(),
        spec_from_buf(packet_bytes(p, lvl), lvl).value() == p,
{
    let pt = packet_type(p);
    let f = header_flags(p);
    lemma_from_buf_header(p, lvl);
    lemma_parse_puback(p->Puback_0, lvl);
}

/// The round trip of one kind of packet.
proof fn lemma_roundtrip_unsuback(p: PacketV, lvl: u8)
    requires
        roundtrips(p, lvl),
        p is Unsuback,
    ensures
        as_bytes_supported(p),
        !as_bytes_overflows(p),
        spec_from_buf(packet_bytes(p, lvl), lvl).is_got(),
        spec_from_buf(packet_bytes(p, lvl), lvl).value() == p,
{
    let pt = packet_type(p);
    let f = header_flags(p);
    lemma_from_buf_header(p, lvl);
    lemma_parse_unsuback(p->Unsuback_0, lvl);
}

/// The round trip of one kind of packet.
proof fn lemma_roundtrip_subscribe(p: PacketV, lvl: u8)
    requires
        roundtrips(p, lvl),
        p is Subscribe,
    ensures
        as_bytes_supported(p),
        !as_bytes_overflows(p),
        spec_from_buf(packet_bytes(p, lvl), lvl).is_got(),
        spec_from_buf(packet_bytes(p, lvl), lvl).value() == p,
{
    let pt = packet_type(p);
    let f = header_flags(p);
    lemma_from_buf_header(p, lvl);
    let init = initial_packet(pt, f as u8);
    lemma_parse_subscribe(p->Subscribe_0, lvl, init->Subscribe_0);
}

/// The round trip of one kind of packet.
proof fn lemma_roundtrip_suback(p: PacketV, lvl: u8)
    requires
        roundtrips(p, lvl),
        p is Suback,
    ensures
        as_bytes_supported(p),
        !as_bytes_overflows(p),
        spec_from_buf(packet_bytes(p, lvl), lvl).is_got(),
        spec_from_buf(packet_bytes(p, lvl), lvl).value() == p,
{
    let pt = packet_type(p);
    let f = header_flags(p);
    lemma_from_buf_header(p, lvl);
    let init = initial_packet(pt, f as u8);
    lemma_parse_suback(p->Suback_0, lvl, init->Suback_0);
}

/// The round trip of one kind of packet.
proof fn lemma_roundtrip_disconnect(p: PacketV, lvl: u8)
    requires
        roundtrips(p, lvl),
        p is Disconnect,
    ensures
        as_bytes_supported(p),
        !as_bytes_overflows(p),
        spec_from_buf(packet_bytes(p, lvl), lvl).is_got(),
        spec_from_buf(packet_bytes(p, lvl), lvl).value() == p,
{
    let pt = packet_type(p);
    let f = header_flags(p);
    lemma_from_buf_header(p, lvl);
    if lvl == 5 {
        lemma_parse_disconnect(p->Disconnect_0, DisconnectV { reason_code: 0, properties: None });
    } else {
        assert(body_bytes(p, lvl) =~= Seq::<u8>::empty());
    }
}

/// The round trip of the codec: a packet that `MqttPacket::as_bytes`
/// writes, `MqttPacket::from_buf` reads back as the same packet, for the
/// packets of `roundtrips`. The writer writes them without error (they are
/// supported and do not overflow).
pub proof fn lemma_packet_roundtrip(p: PacketV, lvl: u8)
    requires
        roundtrips(p, lvl),
    ensures
        as_bytes_supported(p),
        !as_bytes_overflows(p),
        spec_from_buf(packet_bytes(p, lvl), lvl).is_got(),
        spec_from_buf(packet_bytes(p, lvl), lvl).value() == p,
{
    match p {
        PacketV::Connect(_) => lemma_roundtrip_connect(p, lvl),
        PacketV::Connack(_) => lemma_roundtrip_connack(p, lvl),
        PacketV::Publish(_) => lemma_roundtrip_publish(p, lvl),
        PacketV::Puback(_) => lemma_roundtrip_puback(p, lvl),
        PacketV::Unsuback(_) => lemma_roundtrip_unsuback(p, lvl),
        PacketV::Subscribe(_) => lemma_roundtrip_subscribe(p, lvl),
        PacketV::Suback(_) => lemma_roundtrip_suback(p, lvl),
        PacketV::Disconnect(_) => lemma_roundtrip_disconnect(p, lvl),
        PacketV::Pingreq | PacketV::Pingresp => {
            lemma_from_buf_header(p, lvl);
        },
        _ => {},
    }
}

pub proof fn lemma_read_u32_at(b: Seq<u8>, p: int, v: u32)
    requires
        occurs_at(b, p, u32_bytes(v)),
    ensures
        spec_read_u32(b, p) == Rd::Got(v, p + 4),
{
    let s = b.subrange(p, p + 4);
    assert(b[p] == s[0] && b[p + 1] == s[1] && b[p + 2] == s[2] && b[p + 3] == s[3]);
    let x = v as int;
    let b0 = x / 16777216;
    let b1 = (x / 65536) % 256;
    let b2 = (x / 256) % 256;
    let b3 = x % 256;
    assert(b0 * 16777216 + b1 * 65536 + b2 * 256 + b3 == x && 0 <= b0 < 256) by (nonlinear_arith)
        requires
            0 <= x < 4294967296,
            b0 == x / 16777216,
            b1 == (x / 65536) % 256,
            b2 == (x / 256) % 256,
            b3 == x % 256,
    ;
    assert(u32_bytes(v) == seq![b0 as u8, b1 as u8, b2 as u8, b3 as u8]);
}

/// A property that the reader takes back as the writer put it: strings and
/// binary data shorter than 64 KiB, a subscription identifier below `2^28`.
pub open spec fn plain_prop(pr: PropV) -> bool {
    match pr {
        PropV::CorrelationData(v) | PropV::AuthenticationData(v) => v.len() < 65536,
        PropV::ContentType(s)
        | PropV::ResponseTopic(s)
        | PropV::AssignedClientIdentifier(s)
        | PropV::AuthenticationMethod(s)
        | PropV::ResponseInformation(s)
        | PropV::ServerReference(s)
        | PropV::ReasonString(s) => utf8_len(s) < 65536,
        PropV::UserProperty(k, v) => utf8_len(k) < 65536 && utf8_len(v) < 65536,
        PropV::SubscriptionIdentifier(v) => v < 268435456,
        _ => true,
    }
}

/// One property the writer put reads back, and its counted length is its
/// written length.
proof fn lemma_read_prop_at(b: Seq<u8>, p: int, pr: PropV)
    requires
        plain_prop(pr),
        occurs_at(b, p, prop_bytes(pr)),
    ensures
        prop_len(pr) == prop_bytes(pr).len(),
        spec_read_prop(b, p) == Rd::Got(pr, p + prop_bytes(pr).len()),
{
    let t = prop_type(pr);
    let pb = prop_bytes(pr);
    let rest = pb.subrange(1, pb.len() as int);
    assert(pb =~= seq![t] + rest);
    lemma_occurs_at_concat(b, p, seq![t], rest);
    lemma_read_u8_at(b, p, t);
    let q = p + 1;
    match pr {
        PropV::PayloadFormatIndicator(v)
        | PropV::RequestResponseInformation(v)
        | PropV::SubscriptionIdentifierAvailable(v)
        | PropV::RequestProblemInformation(v)
        | PropV::MaximumQoS(v)
        | PropV::RetainAvailable(v)
        | PropV::WildcardSubscriptionAvailable(v)
        | PropV::SharedSubscriptionAvailable(v) => {
            assert(rest =~= seq![v]);
            lemma_read_u8_at(b, q, v);
        },
        PropV::ServerKeepAlive(v)
        | PropV::WillDelayInterval(v)
        | PropV::ReceiveMaximum(v)
        | PropV::TopicAliasMaximum(v)
        | PropV::TopicAlias(v) => {
            assert(rest =~= u16_bytes(v));
            lemma_read_u16_at(b, q, v);
        },
        PropV::MessageExpiryInterval(v)
        | PropV::SessionExpiryInterval(v)
        | PropV::MaximumPacketSize(v) => {
            assert(rest =~= u32_bytes(v));
            lemma_read_u32_at(b, q, v);
        },
        PropV::ContentType(v)
        | PropV::ResponseTopic(v)
        | PropV::AssignedClientIdentifier(v)
        | PropV::AuthenticationMethod(v)
        | PropV::ResponseInformation(v)
        | PropV::ServerReference(v)
        | PropV::ReasonString(v) => {
            assert(rest =~= str_bytes(v));
            lemma_read_str_at(b, q, v);
        },
        PropV::UserProperty(k, v) => {
            assert(rest =~= str_bytes(k) + str_bytes(v));
            lemma_occurs_at_concat(b, q, str_bytes(k), str_bytes(v));
            lemma_read_str_at(b, q, k);
            lemma_read_str_at(b, q + str_bytes(k).len(), v);
        },
        PropV::CorrelationData(v) | PropV::AuthenticationData(v) => {
            assert(rest =~= u16_bytes(v.len() as u16) + v);
            lemma_occurs_at_concat(b, q, u16_bytes(v.len() as u16), v);
            lemma_read_u16_at(b, q, v.len() as u16);
            assert(b.subrange(q + 2, q + 2 + v.len()) == v);
        },
        PropV::SubscriptionIdentifier(v) => {
            assert(rest =~= vbi_bytes(v as nat));
            lemma_vbi_at(b, q, v as nat);
        },
        _ => {},
    }
}

/// The properties as written, taken from the front.
proof fn lemma_props_seq_bytes_cons(ps: Seq<PropV>)
    requires
        ps.len() > 0,
    ensures
        props_seq_bytes(ps) == prop_bytes(ps[0]) + props_seq_bytes(ps.subrange(1, ps.len() as int)),
    decreases ps.len(),
{
    let rest = ps.subrange(1, ps.len() as int);
    if ps.len() == 1 {
        assert(ps.drop_last() =~= Seq::<PropV>::empty());
        assert(rest =~= Seq::<PropV>::empty());
        assert(props_seq_bytes(ps) =~= prop_bytes(ps[0]) + props_seq_bytes(rest));
    } else {
        let d = ps.drop_last();
        lemma_props_seq_bytes_cons(d);
        assert(d.subrange(1, d.len() as int) =~= rest.drop_last());
        assert(rest.last() == ps.last());
        assert(props_seq_bytes(ps) =~= prop_bytes(ps[0]) + props_seq_bytes(rest));
    }
}

/// The length that `get_properties_len` counts for a list of properties is
/// the length of the property bytes that `push_properties` writes after it
/// (for properties that read back: strings and binary data below 64 KiB),
/// and positive where there is a property.
pub proof fn lemma_props_seq_len_plain(ps: Seq<PropV>)
    requires
        forall|i: int| 0 <= i < ps.len() ==> plain_prop(#[trigger] ps[i]),
    ensures
        props_seq_len(ps) == props_seq_bytes(ps).len(),
        ps.len() > 0 ==> props_seq_len(ps) > 0,
    decreases ps.len(),
{
    if ps.len() > 0 {
        let d = ps.drop_last();
        assert forall|i: int| 0 <= i < d.len() implies plain_prop(#[trigger] d[i]) by {
            assert(d[i] == ps[i]);
        }
        lemma_props_seq_len_plain(d);
        assert(plain_prop(ps[ps.len() - 1]));
        lemma_occurs_whole(prop_bytes(ps.last()));
        lemma_read_prop_at(prop_bytes(ps.last()), 0, ps.last());
    }
}

/// The properties the writer put from `p` to the end read back.
proof fn lemma_read_props_from(b: Seq<u8>, p: int, ps: Seq<PropV>)
    requires
        occurs_at(b, p, props_seq_bytes(ps)),
        p + props_seq_bytes(ps).len() == b.len(),
        forall|i: int| 0 <= i < ps.len() ==> plain_prop(#[trigger] ps[i]),
    ensures
        spec_read_props_from(b, p) == Rd::Got(ps, b.len() as int),
    decreases ps.len(),
{
    if ps.len() == 0 {
        assert(props_seq_bytes(ps) == Seq::<u8>::empty());
        assert(ps =~= Seq::<PropV>::empty());
    } else {
        let pr = ps[0];
        let rest = ps.subrange(1, ps.len() as int);
        lemma_props_seq_bytes_cons(ps);
        lemma_occurs_at_concat(b, p, prop_bytes(pr), props_seq_bytes(rest));
        assert(plain_prop(ps[0]));
        lemma_read_prop_at(b, p, pr);
        lemma_props_seq_len_plain(seq![pr]);
        assert forall|i: int| 0 <= i < rest.len() implies plain_prop(#[trigger] rest[i]) by {
            assert(rest[i] == ps[i + 1]);
        }
        let q = p + prop_bytes(pr).len();
        lemma_read_props_from(b, q, rest);
        assert(prop_bytes(pr).len() > 0);
        assert(p < b.len());
        assert(seq![pr] + rest =~= ps);
    }
}

/// The property round trip: a non-empty list of properties that
/// `push_properties` writes (of properties that read back),
/// `read_properties` reads back as the same list, and stops right after it.
pub proof fn lemma_props_roundtrip(b: Seq<u8>, p: int, ps: Seq<PropV>)
    requires
        ps.len() > 0,
        forall|i: int| 0 <= i < ps.len() ==> plain_prop(#[trigger] ps[i]),
        props_seq_len(ps) < 2097152,
        occurs_at(b, p, props_bytes(Some(ps))),
    ensures
        spec_read_properties(b, p) == Rd::Got(Some(ps), p + props_bytes(Some(ps)).len()),
{
    lemma_props_seq_len_plain(ps);
    let n = props_seq_len(ps);
    assert(n as u32 as nat == n);
    let vb = vbi_bytes(n);
    let sb = props_seq_bytes(ps);
    assert(props_bytes(Some(ps)) == vb + sb);
    lemma_occurs_at_concat(b, p, vb, sb);
    lemma_vbi_at(b, p, n);
    let q = p + vb.len();
    let sub = b.subrange(q, q + n);
    assert(sub =~= sb);
    lemma_occurs_whole(sub);
    lemma_read_props_from(sub, 0, ps);
}

/// A property with the value of its kind left out: what tells the kinds
/// apart.
pub open spec fn kind_of(p: PropV) -> PropV {
    match p {
        PropV::PayloadFormatIndicator(_) => PropV::PayloadFormatIndicator(0),
        PropV::MessageExpiryInterval(_) => PropV::MessageExpiryInterval(0),
        PropV::ContentType(_) => PropV::ContentType(Seq::empty()),
        PropV::ResponseTopic(_) => PropV::ResponseTopic(Seq::empty()),
        PropV::CorrelationData(_) => PropV::CorrelationData(Seq::empty()),
        PropV::SubscriptionIdentifier(_) => PropV::SubscriptionIdentifier(0),
        PropV::SessionExpiryInterval(_) => PropV::SessionExpiryInterval(0),
        PropV::AssignedClientIdentifier(_) => PropV::AssignedClientIdentifier(Seq::empty()),
        PropV::ServerKeepAlive(_) => PropV::ServerKeepAlive(0),
        PropV::AuthenticationMethod(_) => PropV::AuthenticationMethod(Seq::empty()),
        PropV::AuthenticationData(_) => PropV::AuthenticationData(Seq::empty()),
        PropV::RequestProblemInformation(_) => PropV::RequestProblemInformation(0),
        PropV::WillDelayInterval(_) => PropV::WillDelayInterval(0),
        PropV::RequestResponseInformation(_) => PropV::RequestResponseInformation(0),
        PropV::ResponseInformation(_) => PropV::ResponseInformation(Seq::empty()),
        PropV::ServerReference(_) => PropV::ServerReference(Seq::empty()),
        PropV::ReasonString(_) => PropV::ReasonString(Seq::empty()),
        PropV::ReceiveMaximum(_) => PropV::ReceiveMaximum(0),
        PropV::TopicAliasMaximum(_) => PropV::TopicAliasMaximum(0),
        PropV::TopicAlias(_) => PropV::TopicAlias(0),
        PropV::MaximumQoS(_) => PropV::MaximumQoS(0),
        PropV::RetainAvailable(_) => PropV::RetainAvailable(0),
        PropV::UserProperty(_, _) => PropV::UserProperty(Seq::empty(), Seq::empty()),
        PropV::MaximumPacketSize(_) => PropV::MaximumPacketSize(0),
        PropV::WildcardSubscriptionAvailable(_) => PropV::WildcardSubscriptionAvailable(0),
        PropV::SubscriptionIdentifierAvailable(_) => PropV::SubscriptionIdentifierAvailable(0),
        PropV::SharedSubscriptionAvailable(_) => PropV::SharedSubscriptionAvailable(0),
    }
}

/// Property identifiers: two properties have the same identifier exactly
/// when they are of the same kind; the written bytes of a property start
/// with its identifier; and a property that reads back (`plain_prop`)
/// is read from its bytes as itself, identifier and value.
pub proof fn lemma_prop_identifiers(p: PropV, q: PropV)
    ensures
        (prop_type(p) == prop_type(q)) <==> (kind_of(p) == kind_of(q)),
        prop_bytes(p)[0] == prop_type(p),
        plain_prop(p) ==> spec_read_prop(prop_bytes(p), 0) == Rd::Got(p, prop_bytes(p).len() as int),
{
    if plain_prop(p) {
        lemma_occurs_whole(prop_bytes(p));
        lemma_read_prop_at(prop_bytes(p), 0, p);
    }
}

/// A property list the reader takes back as the writer put it at protocol
/// level `lvl`: none, or at MQTT 5.0 a non-empty list (an empty one reads
/// back as none) of properties that read back, of counted length below
/// `2^21`.
pub open spec fn props_roundtrip(o: Option<Seq<PropV>>, lvl: u8) -> bool {
    match o {
        None => true,
        Some(ps) => {
            &&& lvl == 5
            &&& ps.len() > 0
            &&& forall|i: int| 0 <= i < ps.len() ==> plain_prop(#[trigger] ps[i])
            &&& props_seq_len(ps) < 2097152
        },
    }
}

/// A property list the writer put reads back as itself, and the reader
/// stops right after it.
proof fn lemma_read_props_written(b: Seq<u8>, p: int, o: Option<Seq<PropV>>)
    requires
        props_roundtrip(o, 5),
        occurs_at(b, p, props_bytes(o)),
    ensures
        spec_read_properties(b, p) == Rd::Got(o, p + props_bytes(o).len()),
{
    match o {
        None => {
            lemma_read_no_props_at(b, p);
        },
        Some(ps) => {
            lemma_props_roundtrip(b, p, ps);
        },
    }
}

/// The written length of a property list that reads back is what the
/// remaining length counts for it.
proof fn lemma_props_part_len(o: Option<Seq<PropV>>)
    requires
        props_roundtrip(o, 5),
    ensures
        props_bytes(o).len() == props_part(o),
{
    match o {
        None => {
            assert(vbi_bytes(0) == seq![0u8]);
        },
        Some(ps) => {
            lemma_props_seq_len_plain(ps);
            assert(props_len(o) as u32 as nat == props_len(o));
        },
    }
}

/// The written length of SUBSCRIBE topic filters is what the remaining
/// length counts for them.
proof fn lemma_sub_topics_len(ts: Seq<SubscribeTopicV>)
    ensures
        sub_topics_bytes(ts).len() == sub_topics_len(ts),
    decreases ts.len(),
{
    if ts.len() > 0 {
        lemma_sub_topics_len(ts.drop_last());
    }
}

/// The written length of a property is its counted length.
proof fn lemma_prop_bytes_len(pr: PropV)
    ensures
        prop_bytes(pr).len() == prop_len(pr),
{
}

/// The written length of a list of properties is its counted length.
proof fn lemma_props_seq_bytes_len(ps: Seq<PropV>)
    ensures
        props_seq_bytes(ps).len() == props_seq_len(ps),
    decreases ps.len(),
{
    if ps.len() > 0 {
        lemma_props_seq_bytes_len(ps.drop_last());
        lemma_prop_bytes_len(ps.last());
    }
}

/// A property list whose counted length fits in 32 bits takes what the
/// remaining length counts for it.
proof fn lemma_props_bytes_len(o: Option<Seq<PropV>>)
    requires
        props_len(o) < 4294967296,
    ensures
        props_bytes(o).len() == props_part(o),
{
    assert(props_len(o) as u32 as nat == props_len(o));
    match o {
        None => {},
        Some(ps) => {
            lemma_props_seq_bytes_len(ps);
        },
    }
}

/// The property lists of a packet have counted lengths that fit in 32
/// bits.
pub open spec fn props_fit_u32(p: PacketV) -> bool {
    match p {
        PacketV::Connect(cp) => props_len(cp.properties) < 4294967296 && props_len(
            cp.will_properties,
        ) < 4294967296,
        PacketV::Connack(cp) => props_len(cp.properties) < 4294967296,
        PacketV::Publish(pp) => props_len(pp.properties) < 4294967296,
        PacketV::Puback(ap) | PacketV::Unsuback(ap) => props_len(ap.properties) < 4294967296,
        PacketV::Subscribe(sp) => props_len(sp.properties) < 4294967296,
        PacketV::Suback(sp) => props_len(sp.properties) < 4294967296,
        PacketV::Disconnect(dp) => props_len(dp.properties) < 4294967296,
        _ => true,
    }
}

/// The packets the frame law speaks of: those the writer writes, at QoS at
/// most 2 for a PUBLISH, with property lists whose length fits in 32 bits
/// and a remaining length below `2^21`.
pub open spec fn frame_law_applies(p: PacketV, lvl: u8) -> bool {
    &&& as_bytes_supported(p)
    &&& !as_bytes_overflows(p)
    &&& rem_len(p, lvl) < 2097152
    &&& props_fit_u32(p)
    &&& p matches PacketV::Publish(pp) ==> pp.qos <= 2
}

/// The body length of a CONNECT.
proof fn lemma_rem_len_connect(p: PacketV, lvl: u8)
    requires
        frame_law_applies(p, lvl),
        p is Connect,
    ensures
        rem_len(p, lvl) == body_bytes(p, lvl).len(),
{
    let cp = p->Connect_0;
    lemma_props_bytes_len(cp.properties);
    lemma_props_bytes_len(cp.will_properties);
    let will = has_will(cp);
    let l5 = cp.protocol_level == 5;
    assert(str_bytes(cp.protocol_name).len() == 2 + utf8_len(cp.protocol_name));
    assert(str_bytes(cp.client_identifier).len() == 2 + utf8_len(cp.client_identifier));
    assert(str_bytes(opt_or_empty(cp.will_topic)).len() == 2 + opt_utf8_len(cp.will_topic));
    assert(str_bytes(opt_or_empty(cp.will_message)).len() == 2 + opt_utf8_len(cp.will_message));
    assert(cp.user_name is Some ==> str_bytes(opt_or_empty(cp.user_name)).len() == 2 + utf8_len(
        cp.user_name->Some_0,
    ));
    assert(cp.password is Some ==> str_bytes(opt_or_empty(cp.password)).len() == 2 + utf8_len(
        cp.password->Some_0,
    ));
}

/// The remaining length the writer puts in the fixed header is the length
/// of the body it writes after it.
pub proof fn lemma_rem_len_is_body_len(p: PacketV, lvl: u8)
    requires
        frame_law_applies(p, lvl),
    ensures
        rem_len(p, lvl) == body_bytes(p, lvl).len(),
{
    match p {
        PacketV::Connect(_) => {
            lemma_rem_len_connect(p, lvl);
        },
        PacketV::Connack(cp) => {
            lemma_props_bytes_len(cp.properties);
        },
        PacketV::Publish(pp) => {
            lemma_props_bytes_len(pp.properties);
        },
        PacketV::Puback(ap) | PacketV::Unsuback(ap) => {
            lemma_props_bytes_len(ap.properties);
        },
        PacketV::Subscribe(sp) => {
            lemma_sub_topics_len(sp.topics);
            lemma_props_bytes_len(sp.properties);
        },
        PacketV::Suback(sp) => {
            lemma_props_bytes_len(sp.properties);
        },
        PacketV::Disconnect(dp) => {
            lemma_props_bytes_len(dp.properties);
        },
        _ => {},
    }
}

/// The frame law of a whole packet: the bytes `MqttPacket::as_bytes`
/// appends start with the packet's type, and `get_buffer_len` asks for no
/// more bytes once they are all there (the remaining length is the number
/// of bytes after it).
pub proof fn lemma_packet_frame(p: PacketV, lvl: u8)
    requires
        frame_law_applies(p, lvl),
    ensures
        packet_bytes(p, lvl)[0] / 16 == packet_type(p),
        spec_get_buffer_len(packet_bytes(p, lvl)) == Ok::<nat, ErrorKind>(0),
{
    lemma_rem_len_is_body_len(p, lvl);
    let n = rem_len(p, lvl);
    let pt = packet_type(p);
    let f = header_flags(p);
    if let PacketV::Publish(pp) = p {
        let d: u8 = if pp.dup { 1 } else { 0 };
        let r: u8 = if pp.retain { 1 } else { 0 };
        let q = pp.qos;
        assert(f == d * 8 + q * 2 + r);
    }
    assert(0 <= f < 16 && 0 < pt < 16);
    let h = (pt as int * 16 + f) as u8;
    assert(n as u32 as nat == n);
    assert(packet_bytes(p, lvl) =~= seq![h] + vbi_bytes(n) + body_bytes(p, lvl));
    lemma_get_buffer_len_frame(h, n, body_bytes(p, lvl));
    let fb = f as u8;
    assert(h / 16 == pt) by (bit_vector)
        requires
            h == pt * 16 + fb,
            fb < 16,
            pt < 16,
    ;
}

/// PUBREL, SUBSCRIBE and UNSUBSCRIBE carry the fixed-header flags `0b0010`:
/// the first byte the writer puts for them is `0x62`, `0x82` and `0xA2`.
pub proof fn lemma_reserved_flags_written(p: PacketV, lvl: u8)
    ensures
        p is Pubrel ==> header_bytes(p, lvl)[0] == 0x62,
        p is Subscribe ==> header_bytes(p, lvl)[0] == 0x82,
        p is Unsubscribe ==> header_bytes(p, lvl)[0] == 0xA2,
        p is Pubrel || p is Subscribe || p is Unsubscribe ==> header_bytes(p, lvl)[0] % 16 == 2,
{
}

/// The reader holds PUBREL, SUBSCRIBE and UNSUBSCRIBE (types 6, 8 and 10) to
/// the flags `0b0010` exactly: a first byte with other flags is a bad header,
/// and with `0b0010` the rest is read as a packet of that type.
pub proof fn lemma_reserved_flags_read(b: Seq<u8>, lvl: u8)
    requires
        b.len() > 0,
        b[0] / 16 == 6 || b[0] / 16 == 8 || b[0] / 16 == 10,
    ensures
        b[0] % 16 != 2 ==> spec_from_buf(b, lvl) == Rd::<PacketV>::Bad(ErrorKind::BadMqttHeader),
        b[0] % 16 == 2 ==> spec_from_buf(b, lvl) == ({
            let pk = initial_packet(b[0] / 16, 2);
            let body = b.subrange(vbi_end(b, 1), b.len() as int);
            if body.len() > 0 {
                parse_body(pk, body, lvl)
            } else {
                Rd::Got(pk, 0)
            }
        }),
        b[0] / 16 == 6 ==> initial_packet(b[0] / 16, 2) is Pubrel,
        b[0] / 16 == 8 ==> initial_packet(b[0] / 16, 2) is Subscribe,
        b[0] / 16 == 10 ==> initial_packet(b[0] / 16, 2) is Unsubscribe,
        b[0] == 0xA2 && b.len() == 2 && b[1] == 0 ==> spec_from_buf(b, lvl) == Rd::Got(
            initial_packet(10, 2),
            0,
        ),
        b[0] == 0xA0 ==> spec_from_buf(b, lvl) == Rd::<PacketV>::Bad(ErrorKind::BadMqttHeader),
{
    let h = b[0];
    assert(h & 0x0f == h % 16) by (bit_vector);
    if h == 0xA2 && b.len() == 2 && b[1] == 0 {
        assert(vbi_bytes(0) == seq![0u8]);
        assert(b.subrange(1, 2) =~= vbi_bytes(0));
        lemma_vbi_at(b, 1, 0);
        assert(vbi_end(b, 1) == 2);
    }
}

} // verus!
