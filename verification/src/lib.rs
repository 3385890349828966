//! Polling bridge between the MELCloud heat-pump API and time-series stores.
//!
//! The crate holds the rules of the bridge: how an HTTP reply is classified,
//! how the two upstream shapes collapse into one snapshot, what each storage
//! sink is handed, and how the polling cycle recovers from a rejected token.
//! Network, database and clock access are left to the caller, which performs
//! the actions that the cycle asks for and reports back what happened.

pub mod client;
pub mod config;
pub mod cycle;
pub mod errors;
pub mod influx;
pub mod models;
pub mod sink;
pub mod snapshot;
pub mod startup;
pub mod time;
pub mod timescale;
