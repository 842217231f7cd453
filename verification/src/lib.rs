//! Verification of block authorship under the BABE slot-based consensus
//! algorithm, as needed by a light client.
//!
//! Everything in this crate is a pure function of its explicit inputs. A header
//! is verified against its already verified parent and the chain-wide genesis
//! configuration, see [`babe::start_verify_header`].

pub mod api;
pub mod babe;
pub mod header;
