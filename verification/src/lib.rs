//! The engine of a parameter sweep against a message broker.
//!
//! Two actors work a grid of quality-of-service levels and delays: a publishing actor that
//! sends bursts of payload messages, and a subscribing actor that listens to the broker. The
//! actor that holds the parameters tells the other one of every change over a control
//! channel; the other one checks each value against its range before it takes it over.
//!
//! Nothing in this library talks to a broker, sleeps or starts a thread. Each actor is a
//! state machine: it is told what has happened and answers with what is to be done. The
//! program around the library does it and comes back with the result.

pub mod channel;
pub mod config;
pub mod connector;
pub mod coordinator;
pub mod decimal;
pub mod driver;
pub mod exceptions;
pub mod fatal;
pub mod header;
pub mod marker;
pub mod params;
pub mod pattern;
pub mod plan;
pub mod probe;
pub mod protocol;
pub mod reconnect;
pub mod source;
pub mod text;
pub mod topic;
