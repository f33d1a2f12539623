//! What holds of the ASH and EZSP codecs as a whole: what the reader makes
//! of what the writer wrote.

use vstd::prelude::*;
use crate::bytes::{occurs_at, lemma_occurs_at_concat, lemma_occurs_whole};
use crate::zigbee::ezsp::{
    Error, AshControl, AshControlData, AshControlAck, AshDataV, AshFrameV, EzspFrameV, FrameControl,
    FrameDataV, CommandControl, ResponseControl, is_reserved, stuff_byte, stuff, destuff_from,
    destuff, randomized, rand_state, control_byte, ash_body, crc_bytes, crc16_of,
    ash_bytes, ash_parse, ash_parse_panics, ezsp_bytes, ezsp_parse, control_bytes, data_bytes,
    CONTROL_DATA_MASK, CONTROL_ACK_MASK, CONTROL_ACK, CONTROL_NAK, CONTROL_RST, CONTROL_RSTACK, CONTROL_ERROR,
};

verus! {

/// De-stuffing from `i`, where the writer put `s` stuffed, gives `s` back
/// and goes on after it.
proof fn lemma_destuff_stuffed(x: Seq<u8>, i: int, s: Seq<u8>)
    requires
        occurs_at(x, i, stuff(s)),
    ensures
        destuff_from(x, i, false) == s + destuff_from(x, i + stuff(s).len(), false),
    decreases s.len(),
{
    if s.len() == 0 {
        assert(s + destuff_from(x, i, false) =~= destuff_from(x, i, false));
    } else {
        let t = s.drop_last();
        let b = s.last();
        lemma_occurs_at_concat(x, i, stuff(t), stuff_byte(b));
        lemma_destuff_stuffed(x, i, t);
        let j = i + stuff(t).len();
        let k = j + stuff_byte(b).len();
        assert(x[j] == x.subrange(j, k)[0]);
        if is_reserved(b) {
            assert(x[j + 1] == x.subrange(j, k)[1]);
            let y = b ^ 0x20u8;
            assert(y ^ 0x20u8 == b) by (bit_vector)
                requires
                    y == b ^ 0x20u8,
            ;
            assert(destuff_from(x, j, false) == destuff_from(x, j + 1, true));
            assert(destuff_from(x, j + 1, true) == seq![b] + destuff_from(x, k, false));
        } else {
            assert(destuff_from(x, j, false) == seq![b] + destuff_from(x, k, false));
        }
        assert(s =~= t + seq![b]);
        assert(t + (seq![b] + destuff_from(x, k, false)) =~= s + destuff_from(x, k, false));
    }
}

/// Stuffing never shortens.
proof fn lemma_stuff_len(s: Seq<u8>)
    ensures
        stuff(s).len() >= s.len(),
    decreases s.len(),
{
    if s.len() > 0 {
        lemma_stuff_len(s.drop_last());
    }
}

/// De-stuffing undoes byte stuffing: a frame body stuffed and closed by the
/// flag byte de-stuffs to the body and the flag byte.
pub proof fn lemma_destuff_stuff(s: Seq<u8>)
    ensures
        destuff(stuff(s) + seq![0x7eu8]) == s + seq![0x7eu8],
{
    let x = stuff(s) + seq![0x7eu8];
    lemma_occurs_whole(x);
    lemma_occurs_at_concat(x, 0, stuff(s), seq![0x7eu8]);
    lemma_destuff_stuffed(x, 0, s);
    let j = stuff(s).len() as int;
    assert(x[j] == 0x7e);
    assert(destuff_from(x, j + 1, false) =~= Seq::<u8>::empty());
    assert(destuff_from(x, j, false) =~= seq![0x7eu8]);
}

/// Randomising the same positions twice gives the sequence back.
pub proof fn lemma_randomized_twice(s: Seq<u8>, lo: int, hi: int)
    ensures
        randomized(randomized(s, lo, hi), lo, hi) == s,
{
    let r = randomized(randomized(s, lo, hi), lo, hi);
    assert forall|i: int| 0 <= i < s.len() implies r[i] == s[i] by {
        if lo <= i < hi {
            let a = s[i];
            let m = rand_state((i - lo + 1) as nat);
            assert((a ^ m) ^ m == a) by (bit_vector);
        }
    }
    assert(r =~= s);
}

/// The EZSP frames that read back as written: the frame control and the
/// data are both of a command or both of a response, the control fields fit
/// their widths, and in the legacy format (one control byte, one byte of
/// frame identifier) the second control byte is zero and the identifier is
/// below 256.
pub open spec fn ezsp_roundtrips(f: EzspFrameV, legacy: bool) -> bool {
    &&& match (f.control, f.data) {
        (FrameControl::Command(cc), FrameDataV::Command(id, _)) => cc.fits() && (legacy ==> (
        cc.spec_bytes().1 == 0 && id < 256)),
        (FrameControl::Response(rc), FrameDataV::Response(id, _)) => rc.fits() && (legacy ==> (
        rc.spec_bytes().1 == 0 && id < 256)),
        _ => false,
    }
}

proof fn lemma_command_control_roundtrip(cc: CommandControl)
    requires
        cc.fits(),
    ensures
        control_bytes(FrameControl::Command(cc)).0 & 0b10000000u8 == 0,
        CommandControl::spec_from_bytes(
            control_bytes(FrameControl::Command(cc)).0,
            control_bytes(FrameControl::Command(cc)).1,
        ) == cc,
        cc.spec_bytes().1 == 0 ==> CommandControl::spec_from_bytes(
            control_bytes(FrameControl::Command(cc)).0,
            0,
        ) == cc,
{
    let ni = cc.network_index;
    let sm = cc.sleep_mode;
    let se = cc.security_enabled;
    let pe = cc.padding_enabled;
    let fv = cc.frame_format_version;
    let b0 = (((ni & 3) << 5) | (sm & 3)) & !0b10000000u8;
    let b1 = ((se & 1) << 7) | ((pe & 1) << 6) | (fv & 3);
    assert(b0 & 0b10000000u8 == 0 && (b0 >> 5) & 3 == ni && b0 & 3 == sm && (b1 >> 7) & 1 == se
        && (b1 >> 6) & 1 == pe && b1 & 3 == fv && (b1 == 0 ==> (se == 0 && pe == 0 && fv == 0)))
        by (bit_vector)
        requires
            ni < 4 && sm < 4 && se < 2 && pe < 2 && fv < 4,
            b0 == (((ni & 3) << 5) | (sm & 3)) & !0b10000000u8,
            b1 == ((se & 1) << 7) | ((pe & 1) << 6) | (fv & 3),
    ;
    assert((0u8 >> 7) & 1 == 0 && (0u8 >> 6) & 1 == 0 && 0u8 & 3 == 0) by (bit_vector);
}

proof fn lemma_response_control_roundtrip(rc: ResponseControl)
    requires
        rc.fits(),
    ensures
        control_bytes(FrameControl::Response(rc)).0 & 0b10000000u8 != 0,
        ResponseControl::spec_from_bytes(
            control_bytes(FrameControl::Response(rc)).0,
            control_bytes(FrameControl::Response(rc)).1,
        ) == rc,
        rc.spec_bytes().1 == 0 ==> ResponseControl::spec_from_bytes(
            control_bytes(FrameControl::Response(rc)).0,
            0,
        ) == rc,
{
    let ni = rc.network_index;
    let ct = rc.callback_type;
    let cp = rc.callback_pending;
    let tr = rc.truncated;
    let ov = rc.overflow;
    let se = rc.security_enabled;
    let pe = rc.padding_enabled;
    let fv = rc.frame_format_version;
    let b0 = (((ni & 3) << 5) | ((ct & 3) << 3) | ((cp & 1) << 2) | ((tr & 1) << 1) | (ov & 1))
        | 0b10000000u8;
    let b1 = ((se & 1) << 7) | ((pe & 1) << 6) | (fv & 3);
    assert(b0 & 0b10000000u8 != 0 && (b0 >> 5) & 3 == ni && (b0 >> 3) & 3 == ct && (b0 >> 2) & 1
        == cp && (b0 >> 1) & 1 == tr && b0 & 1 == ov && (b1 >> 7) & 1 == se && (b1 >> 6) & 1 == pe
        && b1 & 3 == fv && (b1 == 0 ==> (se == 0 && pe == 0 && fv == 0))) by (bit_vector)
        requires
            ni < 4 && ct < 4 && cp < 2 && tr < 2 && ov < 2 && se < 2 && pe < 2 && fv < 4,
            b0 == (((ni & 3) << 5) | ((ct & 3) << 3) | ((cp & 1) << 2) | ((tr & 1) << 1) | (ov
                & 1)) | 0b10000000u8,
            b1 == ((se & 1) << 7) | ((pe & 1) << 6) | (fv & 3),
    ;
    assert((0u8 >> 7) & 1 == 0 && (0u8 >> 6) & 1 == 0 && 0u8 & 3 == 0) by (bit_vector);
}

/// The EZSP round trip: a frame that `EzspFrame::as_bytes` writes,
/// `EzspFrame::from_buf` reads back, for the frames of `ezsp_roundtrips`.
pub proof fn lemma_ezsp_roundtrip(f: EzspFrameV, legacy: bool)
    requires
        ezsp_roundtrips(f, legacy),
    ensures
        ezsp_bytes(f, legacy).len() >= 3,
        ezsp_parse(ezsp_bytes(f, legacy), legacy) == Ok::<EzspFrameV, Error>(f),
{
    let b = ezsp_bytes(f, legacy);
    let d = data_bytes(f.data);
    let (id, ps) = match f.data {
        FrameDataV::Command(id, ps) => (id, ps),
        FrameDataV::Response(id, ps) => (id, ps),
    };
    assert(d == seq![(id % 256) as u8, (id / 256) as u8] + ps);
    match f.control {
        FrameControl::Command(cc) => {
            lemma_command_control_roundtrip(cc);
        },
        FrameControl::Response(rc) => {
            lemma_response_control_roundtrip(rc);
        },
    }
    if legacy {
        assert(d.subrange(2, d.len() as int) =~= ps);
        let d2 = seq![b[2], 0u8] + b.subrange(3, b.len() as int);
        assert(d2 =~= seq![(id % 256) as u8, 0u8] + ps);
        assert(d2.subrange(2, d2.len() as int) =~= ps);
    } else {
        let d2 = b.subrange(3, b.len() as int);
        assert(d2 =~= d);
        assert(d2.subrange(2, d2.len() as int) =~= ps);
    }
}

/// The ASH frames that read back as written: the control fields fit their
/// widths; a DATA frame carries nothing or an EZSP frame that reads back;
/// ACK, NAK and RST frames carry nothing; RSTACK and ERROR frames carry a
/// version and a code.
pub open spec fn ash_roundtrips(f: AshFrameV, legacy: bool) -> bool {
    match f.control {
        AshControl::Data(d) => d.fits() && match f.data {
            AshDataV::Empty => true,
            AshDataV::Ezsp(ef) => ezsp_roundtrips(ef, legacy),
            _ => false,
        },
        AshControl::Ack(a) | AshControl::Nak(a) => a.fits() && f.data is Empty,
        AshControl::Rst => f.data is Empty,
        AshControl::Rstack => f.data is Rstack,
        AshControl::Error => f.data is Error,
    }
}

/// What the reader makes of the control byte the writer put.
proof fn lemma_control_byte_roundtrip(c: AshControl)
    requires
        match c {
            AshControl::Data(d) => d.fits(),
            AshControl::Ack(a) | AshControl::Nak(a) => a.fits(),
            _ => true,
        },
    ensures
        ({
            let cb = control_byte(c);
            match c {
                AshControl::Data(d) => cb & CONTROL_DATA_MASK == 0
                    && AshControlData::spec_from_byte(cb) == d,
                AshControl::Ack(a) => cb & CONTROL_DATA_MASK != 0 && cb & CONTROL_ACK_MASK
                    == CONTROL_ACK && AshControlAck::spec_from_byte(cb) == a,
                AshControl::Nak(a) => cb & CONTROL_DATA_MASK != 0 && cb & CONTROL_ACK_MASK
                    != CONTROL_ACK && cb & CONTROL_ACK_MASK == CONTROL_NAK
                    && AshControlAck::spec_from_byte(cb) == a,
                AshControl::Rst => cb & CONTROL_DATA_MASK != 0 && cb & CONTROL_ACK_MASK
                    != CONTROL_ACK && cb & CONTROL_ACK_MASK != CONTROL_NAK && cb == CONTROL_RST,
                AshControl::Rstack => cb & CONTROL_DATA_MASK != 0 && cb & CONTROL_ACK_MASK
                    != CONTROL_ACK && cb & CONTROL_ACK_MASK != CONTROL_NAK && cb != CONTROL_RST
                    && cb == CONTROL_RSTACK,
                AshControl::Error => cb & CONTROL_DATA_MASK != 0 && cb & CONTROL_ACK_MASK
                    != CONTROL_ACK && cb & CONTROL_ACK_MASK != CONTROL_NAK && cb != CONTROL_RST
                    && cb != CONTROL_RSTACK && cb == CONTROL_ERROR,
            }
        }),
{
    match c {
        AshControl::Data(d) => {
            let (f, r, a) = (d.frm_num, d.re_tx, d.ack_num);
            let cb = (((f & 7) << 4) | ((r & 1) << 3) | (a & 7)) & !0b10000000u8;
            assert(cb & 0b10000000u8 == 0 && (cb >> 4) & 7 == f && (cb >> 3) & 1 == r && cb & 7
                == a) by (bit_vector)
                requires
                    f < 8 && r < 2 && a < 8,
                    cb == (((f & 7) << 4) | ((r & 1) << 3) | (a & 7)) & !0b10000000u8,
            ;
        },
        AshControl::Ack(k) | AshControl::Nak(k) => {
            let (s, n, a) = (k.res, k.n_rdy, k.ack_num);
            let x = ((s & 1) << 4) | ((n & 1) << 3) | (a & 7);
            let ca = (x & !0b11100000u8) | 0b10000000u8;
            let cn = (x & !0b11100000u8) | 0b10100000u8;
            assert(ca & 0b10000000u8 != 0 && ca & 0b11100000u8 == 0b10000000u8 && (ca >> 4) & 1
                == s && (ca >> 3) & 1 == n && ca & 7 == a && cn & 0b10000000u8 != 0 && cn
                & 0b11100000u8 == 0b10100000u8 && (cn >> 4) & 1 == s && (cn >> 3) & 1 == n && cn
                & 7 == a) by (bit_vector)
                requires
                    s < 2 && n < 2 && a < 8,
                    x == ((s & 1) << 4) | ((n & 1) << 3) | (a & 7),
                    ca == (x & !0b11100000u8) | 0b10000000u8,
                    cn == (x & !0b11100000u8) | 0b10100000u8,
            ;
        },
        _ => {
            assert(0b11000000u8 & 0b10000000u8 != 0 && 0b11000000u8 & 0b11100000u8 != 0b10000000u8
                && 0b11000000u8 & 0b11100000u8 != 0b10100000u8) by (bit_vector);
            assert(0b11000001u8 & 0b10000000u8 != 0 && 0b11000001u8 & 0b11100000u8 != 0b10000000u8
                && 0b11000001u8 & 0b11100000u8 != 0b10100000u8) by (bit_vector);
            assert(0b11000010u8 & 0b10000000u8 != 0 && 0b11000010u8 & 0b11100000u8 != 0b10000000u8
                && 0b11000010u8 & 0b11100000u8 != 0b10100000u8) by (bit_vector);
        },
    }
}

/// The ASH round trip: a frame that `AshFrame::as_bytes` writes,
/// `AshFrame::from_buf` reads back as the same frame (and can be handed to
/// it), for the frames of `ash_roundtrips`.
pub proof fn lemma_ash_roundtrip(f: AshFrameV, legacy: bool)
    requires
        ash_roundtrips(f, legacy),
    ensures
        !ash_parse_panics(ash_bytes(f, legacy)),
        ash_parse(ash_bytes(f, legacy), legacy) == Ok::<AshFrameV, Error>(f),
{
    let body = ash_body(f, legacy);
    let c = crc16_of(body);
    let x = ash_bytes(f, legacy);
    assert(x =~= stuff(body + crc_bytes(c)) + seq![0x7eu8]);
    lemma_destuff_stuff(body + crc_bytes(c));
    let d = destuff(x);
    assert(d == body + crc_bytes(c) + seq![0x7eu8]);
    let n = d.len() as int;
    assert(d.subrange(0, n - 3) =~= body);
    let hi = (c >> 8) as u8;
    let lo = c as u8;
    assert(hi as u16 * 256 + lo as u16 == c) by (bit_vector)
        requires
            hi == (c >> 8) as u8,
            lo == c as u8,
    ;
    assert(d[n - 3] == hi && d[n - 2] == lo);
    lemma_control_byte_roundtrip(f.control);
    assert(d[0] == control_byte(f.control));
    lemma_stuff_len(body + crc_bytes(c));
    assert(x.last() == 0x7e);
    match f.data {
        AshDataV::Ezsp(ef) => {
            lemma_ezsp_roundtrip(ef, legacy);
            let raw = seq![control_byte(f.control)] + ezsp_bytes(ef, legacy);
            assert(body == randomized(raw, 1, raw.len() as int));
            let e = randomized(d, 1, n - 3).subrange(1, n - 3);
            assert forall|i: int| 0 <= i < e.len() implies e[i] == ezsp_bytes(ef, legacy)[i] by {
                let a = raw[i + 1];
                let m = rand_state((i + 1) as nat);
                assert((a ^ m) ^ m == a) by (bit_vector);
            }
            assert(e =~= ezsp_bytes(ef, legacy));
        },
        AshDataV::Rstack { .. } | AshDataV::Error { .. } => {
            assert(body.len() == 3);
        },
        _ => {
            assert(body.len() == 1);
        },
    }
}

} // verus!
