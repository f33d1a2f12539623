//! MQTT 3.1.1 / 5.0 control packets: the wire model (`wire`) and the
//! packet codec (`mqtt_packet`).

pub mod wire;
pub mod mqtt_packet;
pub mod laws;
