//! HTTP translation layer over an asset-wallet backend: request planning,
//! reply shaping, error mapping and server lifecycle decisions.
pub mod encoding;
pub mod errors;
pub mod response;
pub mod handler;
pub mod lifecycle;
