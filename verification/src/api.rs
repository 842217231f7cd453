//! What the client answers to requests about the state of the chain.

pub mod common;
