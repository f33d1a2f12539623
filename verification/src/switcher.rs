//! The switcher service's own logic: device colours, the kinds of servers
//! and connections, and the decisions of its MQTT broker.

pub mod sw_device;
pub mod zgate;
pub mod mqtt_client;
pub mod http_switcher;
pub mod mqtt_server;
pub mod device;
pub mod routing;
pub mod action;
pub mod expr;
pub mod eval;
pub mod mqtt_session;
pub mod discover_upnp;
pub mod http_server;

use vstd::prelude::*;

verus! {

/// The kinds of servers a service registers.
#[derive(Debug, Clone, Copy, PartialEq, Eq, Structural)]
pub enum SwServerType {
    Http,
    Mqtt,
    Zigbee,
}

/// What a server registers about itself.
pub enum SwServerData {
    Http { host: String, port: u16 },
    Zigbee,
    Mqtt { host: String, port: u16, user_name: Option<String>, password: Option<String> },
}

impl SwServerData {
    /// The kind of the server.
    pub fn get_server_type(&self) -> (r: SwServerType)
        ensures
            r == match self {
                SwServerData::Mqtt { .. } => SwServerType::Mqtt,
                SwServerData::Http { .. } => SwServerType::Http,
                SwServerData::Zigbee => SwServerType::Zigbee,
            },
    {
        match self {
            SwServerData::Mqtt { .. } => SwServerType::Mqtt,
            SwServerData::Http { .. } => SwServerType::Http,
            SwServerData::Zigbee => SwServerType::Zigbee,
        }
    }
}

/// The connection a device service holds, as the switcher tracks it (the
/// streams themselves stay with the services).
#[derive(Debug, Clone, Copy, PartialEq, Eq, Structural)]
pub enum SwConn {
    NoConn,
    Tcp,
    Mqtt { protocol_level: u8 },
    Zigbee { server_sender_id: usize },
}

impl SwConn {
    /// Whether a device with this connection has to be initialised (again):
    /// without a connection, and always over Zigbee, which has no real
    /// connection; a TCP or MQTT connection is kept until it drops.
    pub fn check_init(conn: &Self) -> (r: bool)
        ensures
            r == (*conn is NoConn || *conn is Zigbee),
    {
        match conn {
            SwConn::Zigbee { .. } | SwConn::NoConn => true,
            SwConn::Tcp | SwConn::Mqtt { .. } => false,
        }
    }
}

} // verus!
