//! Zigbee over an EZSP network co-processor: the ASH serial framing, the
//! EZSP frame header, and the ZCL and ZDP frame headers.

pub mod ezsp;
pub mod ezsp_data;
pub mod laws;
pub mod zcl;
pub mod zcl_command;
pub mod zdp;
