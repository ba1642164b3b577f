//! Typed model of the post cache canister's interface: the records it
//! exchanges and the remote methods it exposes.

pub mod types;
pub mod service;
pub mod reply;
