//! One client's connection to the switcher's MQTT broker, packet by packet:
//! what each packet is answered with, whether the broker goes on reading,
//! what the client subscribed to and which value it stores.

use vstd::prelude::*;
use vstd::string::StrSliceExecFns;
use crate::mqtt::mqtt_packet::{
    MqttPacket, MqttProperty, SubscribeProps, UnsubackProps, MAX_PROTOCOL_LEVEL,
};
use crate::mqtt::wire::{PacketV, ConnackV, SubackV, AckV, PropV, SubscribeTopicV, SubscribeV};
use crate::mqtt::mqtt_packet::{ConnackReturnCode, SubackRet};
use crate::switcher::mqtt_server::{
    auth_ok, connack_for, suback_for, puback_for, topic_attr, store_attr, spec_auth_ok,
    spec_topic_attr, spec_store_attr, opt_str, is_welcome,
};

verus! {

/// Where a client's connection stands: waiting for its CONNECT, open, or
/// over.
#[derive(Debug, Clone, Copy, PartialEq, Eq, Structural)]
pub enum SessionPhase {
    AwaitConnect,
    Open,
    Closed,
}

/// A client's connection: the credentials the broker asks for, the phase,
/// the protocol level and client identifier its CONNECT gave, and the
/// attributes it subscribed to.
pub struct Session {
    pub user_name: Option<String>,
    pub password: Option<String>,
    pub phase: SessionPhase,
    pub protocol_level: u8,
    pub client_identifier: String,
    pub subscriptions: Vec<String>,
}

/// The model of a connection.
pub struct SessionV {
    pub user_name: Option<Seq<char>>,
    pub password: Option<Seq<char>>,
    pub phase: SessionPhase,
    pub protocol_level: u8,
    pub client_identifier: Seq<char>,
    pub subscriptions: Seq<Seq<char>>,
}

impl View for Session {
    type V = SessionV;

    open spec fn view(&self) -> SessionV {
        SessionV {
            user_name: opt_str(self.user_name),
            password: opt_str(self.password),
            phase: self.phase,
            protocol_level: self.protocol_level,
            client_identifier: self.client_identifier@,
            subscriptions: self.subscriptions@.map_values(|s: String| s@),
        }
    }
}

/// What the broker does with one packet: the packets it writes back,
/// whether it reads on, the attribute and value a PUBLISH stores, and the
/// attributes a SUBSCRIBE adds (whose current values go out next).
pub struct SessionReply {
    pub packets: Vec<MqttPacket>,
    pub go_on: bool,
    pub store: Option<(String, Vec<u8>)>,
    pub new_attrs: Vec<String>,
}

/// The model of a reply.
pub struct ReplyV {
    pub packets: Seq<PacketV>,
    pub go_on: bool,
    pub store: Option<(Seq<char>, Seq<u8>)>,
    pub new_attrs: Seq<Seq<char>>,
}

impl View for SessionReply {
    type V = ReplyV;

    open spec fn view(&self) -> ReplyV {
        ReplyV {
            packets: self.packets@.map_values(|p: MqttPacket| p@),
            go_on: self.go_on,
            store: match self.store {
                Some((a, v)) => Some((a@, v@)),
                None => None,
            },
            new_attrs: self.new_attrs@.map_values(|s: String| s@),
        }
    }
}

/// A reply of the given packets that stores nothing and adds nothing.
pub open spec fn plain_reply(packets: Seq<PacketV>, go_on: bool) -> ReplyV {
    ReplyV { packets, go_on, store: None, new_attrs: Seq::empty() }
}

/// The attributes that the topics of a SUBSCRIBE name, in order.
pub open spec fn topic_attrs(ts: Seq<SubscribeTopicV>) -> Seq<Seq<char>>
    decreases ts.len(),
{
    if ts.len() == 0 {
        Seq::empty()
    } else {
        let rest = topic_attrs(ts.drop_last());
        match spec_topic_attr(ts.last().topic_name) {
            Some(a) => rest.push(a),
            None => rest,
        }
    }
}

/// The SUBACK for a SUBSCRIBE at a protocol level: its identifier, each
/// topic granted at the QoS asked for, and at level 5 a reason string
/// "Welcome".
pub open spec fn suback_v(sp: SubscribeV, protocol_level: u8) -> SubackV {
    SubackV {
        packet_identifier: sp.packet_identifier,
        topics: sp.topics.map_values(|t: SubscribeTopicV| SubackRet::Success(t.req_qos)),
        properties: if protocol_level == 5 {
            Some(seq![PropV::ReasonString("Welcome"@)])
        } else {
            None
        },
    }
}

/// The acknowledgement of a packet identifier, with reason code 0 and no
/// properties.
pub open spec fn ack_v(packet_identifier: u16) -> AckV {
    AckV { packet_identifier, reason_code: 0, properties: None }
}

/// The connection after one packet, and what the broker does with it.
/// Before the CONNECT: a CONNECT is answered with a CONNACK that accepts
/// the client where its credentials match (`spec_auth_ok`) and refuses it
/// (not authorised) else, and takes the client's protocol level and
/// identifier; a refused client is done with. Any other first packet ends
/// the connection unanswered. On an open connection: DISCONNECT ends it;
/// SUBSCRIBE is answered with its SUBACK and adds the attributes its topics
/// name; UNSUBSCRIBE with its UNSUBACK; PUBLISH with a PUBACK at QoS 1 (none
/// else), and stores its payload under the attribute a
/// `devices/<dev>/store/<attr>` topic names; PINGREQ with PINGRESP; other
/// packets are passed over. Once over, nothing more is done.
pub open spec fn spec_session_step(st: SessionV, p: PacketV) -> (SessionV, ReplyV) {
    let closed = SessionV { phase: SessionPhase::Closed, ..st };
    match st.phase {
        SessionPhase::AwaitConnect => match p {
            PacketV::Connect(cp) => {
                let ok = spec_auth_ok(st.user_name, st.password, cp.user_name, cp.password);
                (
                    SessionV {
                        phase: if ok {
                            SessionPhase::Open
                        } else {
                            SessionPhase::Closed
                        },
                        protocol_level: cp.protocol_level,
                        client_identifier: cp.client_identifier,
                        ..st
                    },
                    plain_reply(
                        seq![
                            PacketV::Connack(
                                ConnackV {
                                    session_present: false,
                                    return_code: if ok {
                                        ConnackReturnCode::Accepted
                                    } else {
                                        ConnackReturnCode::NotAuthorized
                                    },
                                    properties: None,
                                },
                            ),
                        ],
                        ok,
                    ),
                )
            },
            _ => (closed, plain_reply(Seq::empty(), false)),
        },
        SessionPhase::Open => match p {
            PacketV::Disconnect(_) => (closed, plain_reply(Seq::empty(), false)),
            PacketV::Subscribe(sp) => {
                let attrs = topic_attrs(sp.topics);
                (
                    SessionV { subscriptions: st.subscriptions + attrs, ..st },
                    ReplyV {
                        packets: seq![PacketV::Suback(suback_v(sp, st.protocol_level))],
                        go_on: true,
                        store: None,
                        new_attrs: attrs,
                    },
                )
            },
            PacketV::Unsubscribe(up) => (
                st,
                plain_reply(seq![PacketV::Unsuback(ack_v(up.packet_identifier))], true),
            ),
            PacketV::Publish(pp) => (
                st,
                ReplyV {
                    packets: if pp.qos == 1 {
                        seq![PacketV::Puback(ack_v(pp.packet_identifier))]
                    } else {
                        Seq::empty()
                    },
                    go_on: true,
                    store: match spec_store_attr(pp.topic_name) {
                        Some(a) => Some((a, pp.payload)),
                        None => None,
                    },
                    new_attrs: Seq::empty(),
                },
            ),
            PacketV::Pingreq => (st, plain_reply(seq![PacketV::Pingresp], true)),
            _ => (st, plain_reply(Seq::empty(), true)),
        },
        SessionPhase::Closed => (st, plain_reply(Seq::empty(), false)),
    }
}

impl Session {
    /// A connection that waits for its CONNECT, to a broker that asks for
    /// the given credentials (where set); until the CONNECT says otherwise
    /// the highest protocol level is assumed.
    pub fn new(user_name: Option<String>, password: Option<String>) -> (r: Session)
        ensures
            r@ == (SessionV {
                user_name: opt_str(user_name),
                password: opt_str(password),
                phase: SessionPhase::AwaitConnect,
                protocol_level: MAX_PROTOCOL_LEVEL,
                client_identifier: Seq::empty(),
                subscriptions: Seq::empty(),
            }),
    {
        let r = Session {
            user_name,
            password,
            phase: SessionPhase::AwaitConnect,
            protocol_level: MAX_PROTOCOL_LEVEL,
            client_identifier: String::new(),
            subscriptions: Vec::new(),
        };
        proof {
            assert(r.subscriptions@.map_values(|s: String| s@) =~= Seq::<Seq<char>>::empty());
        }
        r
    }
}

/// A reply of no packets.
fn quiet(go_on: bool) -> (r: SessionReply)
    ensures
        r@ == plain_reply(Seq::empty(), go_on),
{
    let r = SessionReply { packets: Vec::new(), go_on, store: None, new_attrs: Vec::new() };
    proof {
        assert(r.packets@.map_values(|p: MqttPacket| p@) =~= Seq::<PacketV>::empty());
        assert(r.new_attrs@.map_values(|s: String| s@) =~= Seq::<Seq<char>>::empty());
    }
    r
}

/// A reply of one packet.
fn one(p: MqttPacket, go_on: bool) -> (r: SessionReply)
    ensures
        r@ == plain_reply(seq![p@], go_on),
{
    let mut packets: Vec<MqttPacket> = Vec::new();
    packets.push(p);
    let r = SessionReply { packets, go_on, store: None, new_attrs: Vec::new() };
    proof {
        assert(r.packets@.map_values(|q: MqttPacket| q@) =~= seq![p@]);
        assert(r.new_attrs@.map_values(|s: String| s@) =~= Seq::<Seq<char>>::empty());
    }
    r
}

/// The attributes that the topics of a SUBSCRIBE name, in order.
pub fn subscribe_attrs(sp: &SubscribeProps) -> (r: Vec<String>)
    ensures
        r@.map_values(|s: String| s@) == topic_attrs(sp@.topics),
{
    let mut r: Vec<String> = Vec::new();
    let mut i: usize = 0;
    let ghost ts = sp@.topics;
    proof {
        assert(ts.take(0) =~= Seq::<SubscribeTopicV>::empty());
        assert(r@.map_values(|s: String| s@) =~= Seq::<Seq<char>>::empty());
    }
    while i < sp.topics.len()
        invariant
            i <= sp.topics@.len(),
            ts == sp.topics@.map_values(|t: crate::mqtt::mqtt_packet::SubscribeTopic| t@),
            r@.map_values(|s: String| s@) == topic_attrs(ts.take(i as int)),
        decreases sp.topics@.len() - i,
    {
        let ghost before = r@.map_values(|s: String| s@);
        let a = topic_attr(sp.topics[i].topic_name.as_str());
        proof {
            assert(ts.take(i + 1).drop_last() =~= ts.take(i as int));
            assert(ts.take(i + 1).last() == sp.topics@[i as int]@);
        }
        match a {
            Some(x) => {
                r.push(x);
                proof {
                    assert(r@.map_values(|s: String| s@) =~= before.push(x@));
                }
            },
            None => {},
        }
        i += 1;
    }
    proof {
        assert(ts.take(sp.topics@.len() as int) =~= ts);
    }
    r
}

/// Whether an attribute is among those subscribed to: named, or all of
/// them with `#`.
pub open spec fn spec_wants(subscriptions: Seq<Seq<char>>, attr: Seq<char>) -> bool {
    exists|i: int|
        0 <= i < subscriptions.len() && (#[trigger] subscriptions[i] == "#"@ || subscriptions[i]
            == attr)
}

/// Whether an attribute is among those subscribed to, as `spec_wants`
/// says.
pub fn wants(subscriptions: &Vec<String>, attr: &str) -> (r: bool)
    ensures
        r == spec_wants(subscriptions@.map_values(|s: String| s@), attr@),
{
    let ghost subs = subscriptions@.map_values(|s: String| s@);
    let all = String::from_str("#");
    let name = String::from_str(attr);
    let mut i: usize = 0;
    while i < subscriptions.len()
        invariant
            i <= subscriptions@.len(),
            subs == subscriptions@.map_values(|s: String| s@),
            all@ == "#"@,
            name@ == attr@,
            forall|j: int| 0 <= j < i ==> !(#[trigger] subs[j] == "#"@ || subs[j] == attr@),
        decreases subscriptions@.len() - i,
    {
        if subscriptions[i] == all || subscriptions[i] == name {
            proof {
                assert(subs[i as int] == "#"@ || subs[i as int] == attr@);
            }
            return true;
        }
        i += 1;
    }
    false
}

/// What the broker does with one packet of a client, as
/// `spec_session_step` says.
pub fn session_step(st: &mut Session, p: MqttPacket) -> (out: SessionReply)
    ensures
        (final(st)@, out@) == spec_session_step(old(st)@, p@),
{
    match st.phase {
        SessionPhase::AwaitConnect => match p {
            MqttPacket::Connect(cp) => {
                let ok = auth_ok(&st.user_name, &st.password, &cp.user_name, &cp.password);
                st.phase = if ok {
                    SessionPhase::Open
                } else {
                    SessionPhase::Closed
                };
                st.protocol_level = cp.protocol_level;
                st.client_identifier = cp.client_identifier;
                let c = connack_for(ok);
                proof {
                    assert(c.properties is None);
                }
                one(MqttPacket::Connack(c), ok)
            },
            _ => {
                st.phase = SessionPhase::Closed;
                quiet(false)
            },
        },
        SessionPhase::Open => match p {
            MqttPacket::Disconnect(_) => {
                st.phase = SessionPhase::Closed;
                quiet(false)
            },
            MqttPacket::Subscribe(sp) => {
                let attrs = subscribe_attrs(&sp);
                let sa = suback_for(&sp, st.protocol_level);
                proof {
                    if st.protocol_level == 5 {
                        let ps = sa.properties->Some_0;
                        assert(ps@.map_values(|q: MqttProperty| q@) =~= seq![
                            PropV::ReasonString("Welcome"@),
                        ]);
                    }
                    assert(sa@.topics =~= sp@.topics.map_values(
                        |t: SubscribeTopicV| SubackRet::Success(t.req_qos),
                    ));
                }
                let ghost subs0 = st.subscriptions@.map_values(|s: String| s@);
                let ghost added = attrs@.map_values(|s: String| s@);
                let mut k: usize = 0;
                while k < attrs.len()
                    invariant
                        k <= attrs@.len(),
                        added == attrs@.map_values(|s: String| s@),
                        st.subscriptions@.map_values(|s: String| s@) == subs0 + added.take(
                            k as int,
                        ),
                        st.phase == old(st).phase,
                        st.protocol_level == old(st).protocol_level,
                        st.client_identifier@ == old(st).client_identifier@,
                        opt_str(st.user_name) == opt_str(old(st).user_name),
                        opt_str(st.password) == opt_str(old(st).password),
                    decreases attrs@.len() - k,
                {
                    let ghost prev = st.subscriptions@.map_values(|s: String| s@);
                    st.subscriptions.push(attrs[k].clone());
                    k += 1;
                    proof {
                        assert(st.subscriptions@.map_values(|s: String| s@) =~= prev.push(
                            added[k - 1],
                        ));
                        assert(added.take(k as int) =~= added.take(k - 1).push(added[k - 1]));
                    }
                }
                proof {
                    assert(added.take(attrs@.len() as int) =~= added);
                }
                let mut packets: Vec<MqttPacket> = Vec::new();
                let ghost spv = MqttPacket::Suback(sa)@;
                packets.push(MqttPacket::Suback(sa));
                let r = SessionReply { packets, go_on: true, store: None, new_attrs: attrs };
                proof {
                    assert(r.packets@.map_values(|q: MqttPacket| q@) =~= seq![spv]);
                }
                r
            },
            MqttPacket::Unsubscribe(up) => {
                let ack = UnsubackProps {
                    packet_identifier: up.packet_identifier,
                    reason_code: 0,
                    properties: None,
                };
                one(MqttPacket::Unsuback(ack), true)
            },
            MqttPacket::Publish(pp) => {
                let mut packets: Vec<MqttPacket> = Vec::new();
                match puback_for(&pp) {
                    Some(a) => {
                        packets.push(MqttPacket::Puback(a));
                    },
                    None => {},
                }
                let store = match store_attr(pp.topic_name.as_str()) {
                    Some(a) => Some((a, pp.payload)),
                    None => None,
                };
                let r = SessionReply { packets, go_on: true, store, new_attrs: Vec::new() };
                proof {
                    if pp.qos == 1 {
                        assert(r.packets@.map_values(|q: MqttPacket| q@) =~= seq![
                            PacketV::Puback(ack_v(pp.packet_identifier)),
                        ]);
                    } else {
                        assert(r.packets@.map_values(|q: MqttPacket| q@) =~= Seq::<
                            PacketV,
                        >::empty());
                    }
                    assert(r.new_attrs@.map_values(|s: String| s@) =~= Seq::<Seq<char>>::empty());
                }
                r
            },
            MqttPacket::Pingreq => one(MqttPacket::Pingresp, true),
            _ => quiet(true),
        },
        SessionPhase::Closed => quiet(false),
    }
}

/// The connection after a sequence of packets, with the replies to each.
pub open spec fn run_session(st: SessionV, ps: Seq<PacketV>) -> (SessionV, Seq<ReplyV>)
    decreases ps.len(),
{
    if ps.len() == 0 {
        (st, Seq::empty())
    } else {
        let (st1, r) = spec_session_step(st, ps[0]);
        let (st2, rs) = run_session(st1, ps.drop_first());
        (st2, seq![r] + rs)
    }
}

/// A client's CONNECT is accepted exactly when its credentials match
/// those the broker asks for, else refused as not authorised; a refused
/// client is done with: no packet it sends later is answered, stores a
/// value or subscribes to anything, and the broker reads no more of it.
pub proof fn lemma_refused_connect_ends(st: SessionV, cp: crate::mqtt::wire::ConnectV, later: Seq<
    PacketV,
>)
    requires
        st.phase == SessionPhase::AwaitConnect,
    ensures
        ({
            let (st1, r) = spec_session_step(st, PacketV::Connect(cp));
            let ok = spec_auth_ok(st.user_name, st.password, cp.user_name, cp.password);
            &&& r.packets.len() == 1
            &&& r.packets[0] matches PacketV::Connack(c) && (c.return_code
                == ConnackReturnCode::Accepted) == ok && (!ok ==> c.return_code
                == ConnackReturnCode::NotAuthorized)
            &&& !ok ==> {
                &&& !r.go_on
                &&& run_session(st1, later).0 == st1
                &&& forall|i: int|
                    0 <= i < later.len() ==> #[trigger] run_session(st1, later).1[i]
                        == plain_reply(Seq::empty(), false)
            }
        }),
{
    let (st1, r) = spec_session_step(st, PacketV::Connect(cp));
    if !spec_auth_ok(st.user_name, st.password, cp.user_name, cp.password) {
        lemma_closed_stays(st1, later);
    }
}

/// Once a connection is over, packets change nothing and get no answer.
pub proof fn lemma_closed_stays(st: SessionV, ps: Seq<PacketV>)
    requires
        st.phase == SessionPhase::Closed,
    ensures
        run_session(st, ps).0 == st,
        run_session(st, ps).1.len() == ps.len(),
        forall|i: int|
            0 <= i < ps.len() ==> #[trigger] run_session(st, ps).1[i] == plain_reply(
                Seq::empty(),
                false,
            ),
    decreases ps.len(),
{
    if ps.len() > 0 {
        lemma_closed_stays(st, ps.drop_first());
        let rs = run_session(st, ps).1;
        let rest = run_session(st, ps.drop_first()).1;
        assert forall|i: int| 0 <= i < ps.len() implies #[trigger] rs[i] == plain_reply(
            Seq::empty(),
            false,
        ) by {
            if i > 0 {
                assert(rs[i] == rest[i - 1]);
            }
        }
    }
}

/// On an open connection, a SUBSCRIBE is answered with a SUBACK of its
/// packet identifier that grants each topic at the QoS it asked for; a
/// PUBLISH at QoS 1 with a PUBACK of its packet identifier; a PINGREQ with
/// a PINGRESP; and a DISCONNECT ends the reading.
pub proof fn lemma_open_answers(st: SessionV, p: PacketV)
    requires
        st.phase == SessionPhase::Open,
    ensures
        ({
            let (st1, r) = spec_session_step(st, p);
            &&& p matches PacketV::Subscribe(sp) ==> r.packets.len() == 1 && (r.packets[0] matches PacketV::Suback(sa)
                && sa.packet_identifier == sp.packet_identifier && sa.topics == sp.topics.map_values(
                |t: SubscribeTopicV| SubackRet::Success(t.req_qos),
            )) && r.go_on
            &&& p matches PacketV::Publish(pp) ==> pp.qos == 1 ==> r.packets == seq![
                PacketV::Puback(ack_v(pp.packet_identifier)),
            ] && r.go_on
            &&& p is Pingreq ==> r.packets == seq![PacketV::Pingresp] && r.go_on
            &&& p is Disconnect ==> !r.go_on && r.packets.len() == 0 && st1.phase
                == SessionPhase::Closed
        }),
{
}

} // verus!
