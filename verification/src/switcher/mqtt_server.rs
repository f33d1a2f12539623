//! The decisions of the switcher's MQTT broker: who may connect, which
//! attribute a topic names, and what a client's packet is answered with.

use vstd::prelude::*;
use vstd::string::{StringExecFns, StrSliceExecFns};
use crate::http::{chars_of, split_chars, split_on, decimal, usize_to_decimal};
use crate::switcher::SwServerData;
use crate::mqtt::mqtt_packet::{
    ConnackProps, ConnackReturnCode, SubackProps, SubackRet, SubscribeProps, PublishProps,
    PubackProps, MqttProperty,
};

verus! {

/// The broker's settings: its name, the address and port it listens on
/// (by default the system's address and 1883), and the user name and
/// password clients must give, where set.
pub struct SwServerMqtt {
    pub id: String,
    pub ip: Option<String>,
    pub port: Option<u16>,
    pub user_name: Option<String>,
    pub password: Option<String>,
}

/// The host a server listens on: its own address, else the system's.
pub open spec fn host_of(ip: Option<String>, default_ip: Seq<char>) -> Seq<char> {
    match ip {
        Some(h) => h@,
        None => default_ip,
    }
}

/// A server's port: its own, else the default.
pub open spec fn port_or(p: Option<u16>, default: u16) -> u16 {
    match p {
        Some(p) => p,
        None => default,
    }
}

/// A listening address: the host, a colon and the port.
pub open spec fn listen_addr(host: Seq<char>, port: u16) -> Seq<char> {
    host + seq![':'] + decimal(port as nat)
}

/// The host a server listens on and the address it binds.
pub fn host_and_addr(ip: &Option<String>, default_ip: &str, port: u16) -> (r: (String, String))
    ensures
        r.0@ == host_of(*ip, default_ip@),
        r.1@ == listen_addr(host_of(*ip, default_ip@), port),
{
    let host = match ip {
        Some(h) => String::from_str(h.as_str()),
        None => String::from_str(default_ip),
    };
    let mut addr = String::from_str(host.as_str());
    addr.append(":");
    let p = usize_to_decimal(port as usize);
    addr.append(p.as_str());
    proof {
        reveal_strlit(":");
        assert(addr@ =~= listen_addr(host@, port));
    }
    (host, addr)
}

impl SwServerMqtt {
    /// The port the broker listens on.
    pub fn port(&self) -> (r: u16)
        ensures
            r == port_or(self.port, 1883),
    {
        match self.port {
            Some(p) => p,
            None => 1883,
        }
    }

    /// What the broker registers about itself, and the address it binds,
    /// given the system's address.
    pub fn server_data(&self, default_ip: &str) -> (r: (SwServerData, String))
        ensures
            r.0 matches SwServerData::Mqtt { host, port, user_name, password } && host@ == host_of(
                self.ip,
                default_ip@,
            ) && port == port_or(self.port, 1883) && opt_str(user_name) == opt_str(self.user_name) && opt_str(
                password,
            ) == opt_str(self.password),
            r.1@ == listen_addr(host_of(self.ip, default_ip@), port_or(self.port, 1883)),
    {
        let port = self.port();
        let (host, addr) = host_and_addr(&self.ip, default_ip, port);
        let user_name = match &self.user_name {
            Some(u) => Some(String::from_str(u.as_str())),
            None => None,
        };
        let password = match &self.password {
            Some(p) => Some(String::from_str(p.as_str())),
            None => None,
        };
        (SwServerData::Mqtt { host, port, user_name, password }, addr)
    }
}

/// The model of an optional string.
pub open spec fn opt_str(o: Option<String>) -> Option<Seq<char>> {
    match o {
        Some(s) => Some(s@),
        None => None,
    }
}

/// Whether a client may connect: where the broker has a user name, the
/// client's must be the same, and likewise for the password.
pub open spec fn spec_auth_ok(
    user_name: Option<Seq<char>>,
    password: Option<Seq<char>>,
    cp_user_name: Option<Seq<char>>,
    cp_password: Option<Seq<char>>,
) -> bool {
    (user_name is None || cp_user_name == user_name) && (password is None || cp_password
        == password)
}

fn opt_eq(a: &Option<String>, b: &Option<String>) -> (r: bool)
    ensures
        r == (opt_str(*a) == opt_str(*b)),
{
    match a {
        Some(x) => match b {
            Some(y) => {
                let e = *x == *y;
                proof {
                    if x@ == y@ {
                        assert(opt_str(*a) == opt_str(*b));
                    }
                }
                e
            },
            None => false,
        },
        None => b.is_none(),
    }
}

/// Whether a client that connects with `cp_user_name` and `cp_password` may
/// connect to a broker configured with `user_name` and `password`.
pub fn auth_ok(
    user_name: &Option<String>,
    password: &Option<String>,
    cp_user_name: &Option<String>,
    cp_password: &Option<String>,
) -> (r: bool)
    ensures
        r == spec_auth_ok(
            opt_str(*user_name),
            opt_str(*password),
            opt_str(*cp_user_name),
            opt_str(*cp_password),
        ),
{
    (user_name.is_none() || opt_eq(cp_user_name, user_name)) && (password.is_none() || opt_eq(
        cp_password,
        password,
    ))
}

/// The CONNACK a client gets: accepted, or not authorised.
pub fn connack_for(auth_ok: bool) -> (r: ConnackProps)
    ensures
        r.return_code == if auth_ok {
            ConnackReturnCode::Accepted
        } else {
            ConnackReturnCode::NotAuthorized
        },
        !r.session_present,
        r.properties is None,
{
    ConnackProps {
        session_present: false,
        return_code: if auth_ok {
            ConnackReturnCode::Accepted
        } else {
            ConnackReturnCode::NotAuthorized
        },
        properties: None,
    }
}

/// The attribute a subscription topic names: `#` for all, or `dev.attr`
/// for `devices/dev/actual/attr`.
pub open spec fn spec_topic_attr(t: Seq<char>) -> Option<Seq<char>> {
    if t == "#"@ {
        Some("#"@)
    } else {
        let v = split_on(t, '/');
        if v.len() == 4 && v[0] == "devices"@ && v[2] == "actual"@ {
            Some(v[1] + "."@ + v[3])
        } else {
            None
        }
    }
}

/// The attribute a topic that stores a value names: `dev.attr` for
/// `devices/dev/store/attr`.
pub open spec fn spec_store_attr(t: Seq<char>) -> Option<Seq<char>> {
    let v = split_on(t, '/');
    if v.len() == 4 && v[0] == "devices"@ && v[2] == "store"@ {
        Some(v[1] + "."@ + v[3])
    } else {
        None
    }
}

/// The topic a value of the attribute `dev.attr` is published on:
/// `devices/dev/actual/attr`.
pub open spec fn spec_attr_topic(name: Seq<char>) -> Option<Seq<char>> {
    let a = split_on(name, '.');
    if a.len() == 2 {
        Some("devices/"@ + a[0] + "/actual/"@ + a[1])
    } else {
        None
    }
}

/// The attribute `dev.attr` named by a topic of four parts whose first is
/// `devices` and whose third is `kind`.
fn attr_of(topic: &str, kind: &str) -> (r: Option<String>)
    ensures
        ({
            let v = split_on(topic@, '/');
            if v.len() == 4 && v[0] == "devices"@ && v[2] == kind@ {
                r matches Some(x) && x@ == v[1] + "."@ + v[3]
            } else {
                r is None
            }
        }),
{
    let cs = chars_of(topic);
    let v = split_chars(cs.as_slice(), '/');
    proof {
        assert(v@.len() == split_on(topic@, '/').len());
    }
    if v.len() == 4 {
        let devices = String::from_str("devices");
        let k = String::from_str(kind);
        proof {
            assert(v@[0]@ == split_on(topic@, '/')[0]);
            assert(v@[2]@ == split_on(topic@, '/')[2]);
        }
        if v[0] == devices && v[2] == k {
            let r = String::from_str(v[1].as_str()).concat(".").concat(v[3].as_str());
            proof {
                assert(v@[1]@ == split_on(topic@, '/')[1]);
                assert(v@[3]@ == split_on(topic@, '/')[3]);
            }
            return Some(r);
        }
    }
    None
}

/// The attribute a subscription topic names, as `spec_topic_attr` says.
pub fn topic_attr(topic: &str) -> (r: Option<String>)
    ensures
        match spec_topic_attr(topic@) {
            Some(a) => r matches Some(x) && x@ == a,
            None => r is None,
        },
{
    let t = String::from_str(topic);
    let all = String::from_str("#");
    if t == all {
        return Some(all);
    }
    attr_of(topic, "actual")
}

/// The attribute a topic that stores a value names, as `spec_store_attr`
/// says.
pub fn store_attr(topic: &str) -> (r: Option<String>)
    ensures
        match spec_store_attr(topic@) {
            Some(a) => r matches Some(x) && x@ == a,
            None => r is None,
        },
{
    attr_of(topic, "store")
}

/// The topic a value of an attribute is published on, as `spec_attr_topic`
/// says.
pub fn attr_topic(name: &str) -> (r: Option<String>)
    ensures
        match spec_attr_topic(name@) {
            Some(t) => r matches Some(x) && x@ == t,
            None => r is None,
        },
{
    let cs = chars_of(name);
    let a = split_chars(cs.as_slice(), '.');
    proof {
        assert(a@.len() == split_on(name@, '.').len());
    }
    if a.len() == 2 {
        proof {
            assert(a@[0]@ == split_on(name@, '.')[0]);
            assert(a@[1]@ == split_on(name@, '.')[1]);
        }
        Some(
            String::from_str("devices/").concat(a[0].as_str()).concat("/actual/").concat(
                a[1].as_str(),
            ),
        )
    } else {
        None
    }
}

/// A single reason string "Welcome".
pub open spec fn is_welcome(ps: Seq<MqttProperty>) -> bool {
    ps.len() == 1 && (ps[0] matches MqttProperty::ReasonString(s) && s@ == "Welcome"@)
}

/// The SUBACK a SUBSCRIBE is answered with: its packet identifier, each
/// topic granted at the QoS it asked for, and, at MQTT 5.0, a reason
/// string "Welcome" (some clients want at least one property).
pub fn suback_for(sp: &SubscribeProps, protocol_level: u8) -> (r: SubackProps)
    ensures
        r.packet_identifier == sp.packet_identifier,
        r.topics@ == sp.topics@.map_values(|t: crate::mqtt::mqtt_packet::SubscribeTopic| SubackRet::Success(t.req_qos)),
        protocol_level == 5 ==> (r.properties matches Some(ps) && is_welcome(ps@)),
        protocol_level != 5 ==> r.properties is None,
{
    let mut v: Vec<SubackRet> = Vec::new();
    let mut i: usize = 0;
    while i < sp.topics.len()
        invariant
            i <= sp.topics@.len(),
            v@ == sp.topics@.take(i as int).map_values(
                |t: crate::mqtt::mqtt_packet::SubscribeTopic| SubackRet::Success(t.req_qos),
            ),
        decreases sp.topics@.len() - i,
    {
        v.push(SubackRet::Success(sp.topics[i].req_qos));
        i += 1;
        proof {
            assert(v@ =~= sp.topics@.take(i as int).map_values(
                |t: crate::mqtt::mqtt_packet::SubscribeTopic| SubackRet::Success(t.req_qos),
            ));
        }
    }
    proof {
        assert(sp.topics@.take(sp.topics@.len() as int) =~= sp.topics@);
    }
    let properties = if protocol_level == 5 {
        let mut ps: Vec<MqttProperty> = Vec::new();
        ps.push(MqttProperty::ReasonString(String::from_str("Welcome")));
        Some(ps)
    } else {
        None
    };
    SubackProps { packet_identifier: sp.packet_identifier, topics: v, properties }
}

/// The PUBACK a PUBLISH is answered with: one for QoS 1, with its packet
/// identifier; none for QoS 0 or 2.
pub fn puback_for(pp: &PublishProps) -> (r: Option<PubackProps>)
    ensures
        pp.qos == 1 ==> (r matches Some(a) && a.packet_identifier == pp.packet_identifier
            && a.reason_code == 0 && a.properties is None),
        pp.qos != 1 ==> r is None,
{
    if pp.qos == 1 {
        Some(PubackProps { packet_identifier: pp.packet_identifier, reason_code: 0, properties: None })
    } else {
        None
    }
}

/// Whether `c` does not occur in `s`.
pub open spec fn lacks(s: Seq<char>, c: char) -> bool {
    forall|i: int| 0 <= i < s.len() ==> s[i] != c
}

/// Splitting where the tail holds no separator extends the last part.
proof fn lemma_split_append(x: Seq<char>, y: Seq<char>, c: char)
    requires
        lacks(y, c),
    ensures
        split_on(x + y, c) == split_on(x, c).update(
            split_on(x, c).len() - 1,
            split_on(x, c).last() + y,
        ),
        split_on(x + seq![c] + y, c) == split_on(x, c).push(y),
    decreases y.len(),
{
    crate::http::lemma_split_on_len(x, c);
    if y.len() == 0 {
        assert(x + y =~= x);
        assert(split_on(x, c).last() + y =~= split_on(x, c).last());
        assert(split_on(x, c).update(split_on(x, c).len() - 1, split_on(x, c).last())
            =~= split_on(x, c));
        assert(x + seq![c] + y =~= x.push(c));
        assert(x.push(c).drop_last() =~= x);
        assert(split_on(x.push(c), c) == split_on(x, c).push(Seq::empty()));
        assert(y =~= Seq::<char>::empty());
    } else {
        let y2 = y.drop_last();
        assert forall|i: int| 0 <= i < y2.len() implies y2[i] != c by {
            assert(y2[i] == y[i]);
        }
        lemma_split_append(x, y2, c);
        assert((x + y).drop_last() =~= x + y2);
        assert((x + y).last() == y.last());
        assert(y.last() != c);
        let sx = split_on(x, c);
        let l = sx.len() - 1;
        let r = split_on(x + y2, c);
        assert(r == sx.update(l, sx.last() + y2));
        assert(r.len() == sx.len());
        assert(r.last() == sx.last() + y2);
        assert(split_on(x + y, c) == r.update(r.len() - 1, r.last().push(y.last())));
        assert((sx.last() + y2).push(y.last()) =~= sx.last() + y);
        assert(split_on(x + y, c) =~= sx.update(l, sx.last() + y));
        assert((x + seq![c] + y).drop_last() =~= x + seq![c] + y2);
        assert((x + seq![c] + y).last() == y.last());
        let r2 = split_on(x + seq![c] + y2, c);
        assert(r2 == sx.push(y2));
        assert(split_on(x + seq![c] + y, c) == r2.update(r2.len() - 1, r2.last().push(y.last())));
        assert(y2.push(y.last()) =~= y);
        assert(split_on(x + seq![c] + y, c) =~= sx.push(y));
    }
}

/// A string of no separator splits into itself.
proof fn lemma_split_plain(y: Seq<char>, c: char)
    requires
        lacks(y, c),
    ensures
        split_on(y, c) == seq![y],
{
    lemma_split_append(Seq::empty(), y, c);
    assert(Seq::<char>::empty() + y =~= y);
    assert(split_on(Seq::<char>::empty(), c).update(0, Seq::<char>::empty() + y) =~= seq![y]);
}

/// The attribute round trip of the broker: the topic of an attribute
/// `dev.attr` (neither part holding `/` or `.`) names that attribute, and
/// the topic of the attribute it names is that topic again.
pub proof fn lemma_attr_topic_roundtrip(d: Seq<char>, a: Seq<char>)
    requires
        lacks(d, '/'),
        lacks(d, '.'),
        lacks(a, '/'),
        lacks(a, '.'),
    ensures
        spec_attr_topic(d + "."@ + a) == Some("devices/"@ + d + "/actual/"@ + a),
        spec_topic_attr("devices/"@ + d + "/actual/"@ + a) == Some(d + "."@ + a),
{
    reveal_strlit(".");
    reveal_strlit("devices/");
    reveal_strlit("/actual/");
    reveal_strlit("devices");
    reveal_strlit("actual");
    reveal_strlit("#");
    lemma_split_plain(d, '.');
    lemma_split_append(d, a, '.');
    assert(d + "."@ + a =~= d + seq!['.'] + a);
    let t = "devices/"@ + d + "/actual/"@ + a;
    let dv = "devices"@;
    let ac = "actual"@;
    assert(lacks(dv, '/'));
    assert(lacks(ac, '/'));
    lemma_split_plain(dv, '/');
    lemma_split_append(dv, d, '/');
    lemma_split_append(dv + seq!['/'] + d, ac, '/');
    lemma_split_append(dv + seq!['/'] + d + seq!['/'] + ac, a, '/');
    assert(t =~= dv + seq!['/'] + d + seq!['/'] + ac + seq!['/'] + a);
    assert(split_on(t, '/') =~= seq![dv, d, ac, a]);
    assert(t.len() > 1);
    assert(t != "#"@);
}

} // verus!
