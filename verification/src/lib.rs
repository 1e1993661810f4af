//! A typed client for numbered host extension families.
//!
//! Every operation is one request and one response. The library computes the
//! function identifier and the encoded input of a request, and turns the status
//! code and the output bytes of a response into a typed value or a typed error.
//! Crossing the host boundary is left to the caller.

pub mod func_id;
pub mod types;
pub mod codec;
pub mod assets_error;
pub mod wire;
pub mod environment;
pub mod assets;
pub mod unified_accounts;
pub mod xvm;
pub mod dummy_error;
pub mod asset_contract;
pub mod mapping_contract;
