//! A runtime for nodes that exchange line-delimited JSON messages with a
//! distributed-systems test harness: the message model and its wire codec,
//! the initialization handshake, the dispatch state machine, and a few
//! reference handlers.

pub mod json;
pub mod message;
pub mod node;
pub mod runtime;
pub mod text;

pub mod broadcast;
pub mod echo;
pub mod uniq;
