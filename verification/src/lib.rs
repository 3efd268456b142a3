//! The request-authentication and dispatch core of a webhook endpoint
//! for a command platform: a request is validated, its Ed25519 signature
//! is checked against the timestamp and body it covers, the body is
//! decoded into an interaction, commands are routed to their handlers,
//! and the reply is encoded for the wire. Every stage carries a contract
//! over the request's bytes, and the pipeline's answer is proved to be a
//! pure function of the key and the request.

pub mod auth;
pub mod bytes;
pub mod encode;
pub mod hexcode;
pub mod interaction;
pub mod jsonval;
pub mod pipeline;
pub mod router;
pub mod validate;
