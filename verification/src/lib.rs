use vstd::prelude::*;

pub mod bytes;
pub mod frames;
pub mod http;
pub mod mqtt;
pub mod switcher;
pub mod text;
pub mod tokenizer;
pub mod websocket;
pub mod zigbee;

verus! {
}
