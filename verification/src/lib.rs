//! Client core for the local REST API of a Philips Hue Bridge.
//!
//! The crate builds the requests that the bridge understands, interprets the
//! two response envelopes that the bridge answers with, and resolves a light
//! from an identifier or a part of its name. Sending a request over the
//! network is left to the caller: every function here works on plain values.

pub mod client;
pub mod device;
pub mod envelope;
pub mod error;
pub mod json;
pub mod message;
pub mod resolver;
pub mod seq_laws;
pub mod text;
pub mod transport;
