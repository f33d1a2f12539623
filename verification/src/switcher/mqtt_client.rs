//! The decisions of the switcher's MQTT bridge: it connects to an outer
//! broker and to the local one, subscribes to its topics outside, and
//! relays publications, acknowledgements and pings both ways. The sockets
//! and timers are the caller's.

use vstd::prelude::*;
use vstd::string::{StringExecFns, StrSliceExecFns};
use crate::http::usize_to_decimal;
use crate::mqtt::mqtt_packet::{opt_str_view, ConnectProps, MqttPacket, SubscribeProps, SubscribeTopic};
use crate::mqtt::wire::{ConnectV, PacketV, SubscribeTopicV, SubscribeV};
use crate::switcher::mqtt_server::{host_of, listen_addr, port_or};

verus! {

/// The MQTT port.
pub const MQTT_PORT: u16 = 1883;

/// A bridge between an outer broker and the local one.
#[derive(Debug, Clone)]
pub struct SwServerMqttClient {
    pub id: String,
    /// The outer broker.
    pub ip: String,
    /// The topics taken from the outer broker.
    pub topics: Vec<String>,
    pub port: Option<u16>,
    pub protocol_level: Option<u8>,
    pub user_name: Option<String>,
    pub password: Option<String>,
    /// In seconds.
    pub keep_alive: Option<u16>,
    /// The local broker.
    pub local_ip: Option<String>,
    pub local_port: Option<u16>,
}

/// The connection a bridge opens: no will, no clean session, the MQTT
/// protocol at the given level.
pub open spec fn connect_view(
    level: u8,
    keep_alive: u16,
    id: Seq<char>,
    user_name: Option<Seq<char>>,
    password: Option<Seq<char>>,
) -> PacketV {
    PacketV::Connect(
        ConnectV {
            protocol_name: seq!['M', 'Q', 'T', 'T'],
            protocol_level: level,
            keep_alive,
            will_retain: false,
            will_qos: 0,
            clean_session: false,
            client_identifier: id,
            will_topic: None,
            will_message: None,
            user_name,
            password,
            properties: None,
            will_properties: None,
        },
    )
}

/// A subscription to a topic at quality of service 0.
pub open spec fn topic_view(t: String) -> SubscribeTopicV {
    SubscribeTopicV { topic_name: t@, req_qos: 0, retain_handling: 0, rap: false, nl: false }
}

/// What a bridge does with a packet of a type, read on either side.
#[derive(Debug, Clone, Copy, PartialEq, Eq, Structural)]
pub enum Relay {
    /// Pass it to the other side: a publication, its acknowledgement, or a
    /// ping or its answer.
    Forward,
    /// The side disconnects: stop.
    Stop,
    /// Anything else is dropped.
    Drop,
}

/// What a bridge does with a packet of a type.
pub fn relay(packet_type: u8) -> (r: Relay)
    ensures
        r == (if packet_type == 3 || packet_type == 4 || packet_type == 12 || packet_type == 13 {
            Relay::Forward
        } else if packet_type == 14 {
            Relay::Stop
        } else {
            Relay::Drop
        }),
{
    if packet_type == 3 || packet_type == 4 || packet_type == 12 || packet_type == 13 {
        Relay::Forward
    } else if packet_type == 14 {
        Relay::Stop
    } else {
        Relay::Drop
    }
}

/// How long the local side may stay silent before the bridge pings the
/// outer broker, in seconds: a second less than the keep alive; no limit
/// for a keep alive of one second or less.
pub fn ping_after(keep_alive: u16) -> (r: Option<u16>)
    ensures
        r == (if keep_alive <= 1 {
            None
        } else {
            Some((keep_alive - 1) as u16)
        }),
{
    if keep_alive <= 1 {
        None
    } else {
        Some(keep_alive - 1)
    }
}

fn address(host: &str, port: u16) -> (r: String)
    ensures
        r@ == listen_addr(host@, port),
{
    let mut addr = String::from_str(host);
    addr.append(":");
    let p = usize_to_decimal(port as usize);
    addr.append(p.as_str());
    proof {
        reveal_strlit(":");
        assert(addr@ =~= listen_addr(host@, port));
    }
    addr
}

fn opt_clone(o: &Option<String>) -> (r: Option<String>)
    ensures
        opt_str_view(r) == opt_str_view(*o),
{
    match o {
        Some(s) => Some(String::from_str(s.as_str())),
        None => None,
    }
}

impl SwServerMqttClient {
    /// The protocol level: 4 (MQTT 3.1.1) unless set.
    pub fn protocol_level(&self) -> (r: u8)
        ensures
            r == (match self.protocol_level {
                Some(l) => l,
                None => 4,
            }),
    {
        match self.protocol_level {
            Some(l) => l,
            None => 4,
        }
    }

    /// The keep alive, in seconds: 36000 unless set.
    pub fn keep_alive(&self) -> (r: u16)
        ensures
            r == (match self.keep_alive {
                Some(k) => k,
                None => 36000,
            }),
    {
        match self.keep_alive {
            Some(k) => k,
            None => 36000,
        }
    }

    /// The address of the outer broker: its port is 1883 unless set.
    pub fn out_addr(&self) -> (r: String)
        ensures
            r@ == listen_addr(self.ip@, port_or(self.port, MQTT_PORT)),
    {
        let port = match self.port {
            Some(p) => p,
            None => MQTT_PORT,
        };
        address(self.ip.as_str(), port)
    }

    /// The address of the local broker: the switcher's own address unless
    /// set, port 1883 unless set.
    pub fn local_addr(&self, default_ip: &str) -> (r: String)
        ensures
            r@ == listen_addr(host_of(self.local_ip, default_ip@), port_or(self.local_port, MQTT_PORT)),
    {
        let port = match self.local_port {
            Some(p) => p,
            None => MQTT_PORT,
        };
        match &self.local_ip {
            Some(h) => address(h.as_str(), port),
            None => address(default_ip, port),
        }
    }

    fn connect(&self, user_name: Option<String>, password: Option<String>) -> (r: MqttPacket)
        ensures
            r@ == connect_view(
                match self.protocol_level {
                    Some(l) => l,
                    None => 4,
                },
                match self.keep_alive {
                    Some(k) => k,
                    None => 36000,
                },
                self.id@,
                opt_str_view(user_name),
                opt_str_view(password),
            ),
    {
        let name = String::from_str("MQTT");
        proof {
            reveal_strlit("MQTT");
            assert(name@ =~= seq!['M', 'Q', 'T', 'T']);
        }
        MqttPacket::Connect(
            ConnectProps {
                protocol_name: name,
                protocol_level: self.protocol_level(),
                keep_alive: self.keep_alive(),
                will_retain: false,
                will_qos: 0,
                clean_session: false,
                client_identifier: String::from_str(self.id.as_str()),
                will_topic: None,
                will_message: None,
                user_name,
                password,
                properties: None,
                will_properties: None,
            },
        )
    }

    /// The connection to the outer broker, with the bridge's credentials.
    pub fn out_connect(&self) -> (r: MqttPacket)
        ensures
            r@ == connect_view(
                match self.protocol_level {
                    Some(l) => l,
                    None => 4,
                },
                match self.keep_alive {
                    Some(k) => k,
                    None => 36000,
                },
                self.id@,
                opt_str_view(self.user_name),
                opt_str_view(self.password),
            ),
    {
        self.connect(opt_clone(&self.user_name), opt_clone(&self.password))
    }

    /// The connection to the local broker, with no credentials.
    pub fn local_connect(&self) -> (r: MqttPacket)
        ensures
            r@ == connect_view(
                match self.protocol_level {
                    Some(l) => l,
                    None => 4,
                },
                match self.keep_alive {
                    Some(k) => k,
                    None => 36000,
                },
                self.id@,
                None,
                None,
            ),
    {
        self.connect(None, None)
    }

    /// The subscription to the bridge's topics at the outer broker, packet
    /// identifier 1.
    pub fn out_subscribe(&self) -> (r: MqttPacket)
        ensures
            r@ == PacketV::Subscribe(
                SubscribeV {
                    packet_identifier: 1,
                    topics: self.topics@.map_values(|t: String| topic_view(t)),
                    properties: None,
                },
            ),
    {
        let mut topics: Vec<SubscribeTopic> = Vec::new();
        let mut i: usize = 0;
        while i < self.topics.len()
            invariant
                i <= self.topics@.len(),
                topics@.map_values(|t: SubscribeTopic| t@) == self.topics@.take(i as int).map_values(
                    |t: String| topic_view(t),
                ),
            decreases self.topics@.len() - i,
        {
            let t = SubscribeTopic {
                topic_name: String::from_str(self.topics[i].as_str()),
                req_qos: 0,
                retain_handling: 0,
                rap: false,
                nl: false,
            };
            let ghost tv = t@;
            let ghost mapped = topics@.map_values(|t: SubscribeTopic| t@);
            proof {
                assert(tv == topic_view(self.topics@[i as int]));
            }
            topics.push(t);
            i += 1;
            proof {
                let g = |t: String| topic_view(t);
                assert(topics@.map_values(|t: SubscribeTopic| t@) =~= mapped.push(tv));
                assert(self.topics@.take(i as int) =~= self.topics@.take(i - 1).push(self.topics@[i - 1]));
                assert(self.topics@.take(i as int).map_values(g) =~= self.topics@.take(i - 1).map_values(g).push(
                    topic_view(self.topics@[i - 1]),
                ));
            }
        }
        proof {
            assert(self.topics@.take(self.topics@.len() as int) =~= self.topics@);
        }
        MqttPacket::Subscribe(SubscribeProps { packet_identifier: 1, topics, properties: None })
    }
}

} // verus!
