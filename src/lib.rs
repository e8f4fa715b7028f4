//! Client library for the weg.li REST API, built around a retrying request
//! executor whose decisions are verified.

pub mod archive;
pub mod backoff;
pub mod chain;
pub mod charge;
pub mod client;
pub mod error;
pub mod executor;
pub mod export;
pub mod notice;
pub mod retry_after;
pub mod settings;
pub mod text;
pub mod timestamp;
