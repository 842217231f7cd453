//! Parts that all interfaces of the client share.

pub mod types;
