//! Exchange connectivity building blocks: API credentials, websocket channel
//! tags and subscription messages, and the signed REST requests of the FTX
//! exchange, with the Binance websocket stream messages alongside.

pub mod text;
pub mod signing;
pub mod weburl;
pub mod json;
pub mod ftx;
pub mod ftx_rest;
pub mod binance;
