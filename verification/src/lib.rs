//! Verified core of an AWS toolkit that speaks the Model Context Protocol.
pub mod text;
pub mod profile;
pub mod base64;
pub mod error;
pub mod state;
pub mod manifest;
pub mod jsonrpc;
pub mod dispatcher;
pub mod requests;
pub mod credentials;
pub mod login;
pub mod records;
pub mod platform;
