//! A verified client core for the PluralKit system-management REST API.
//!
//! The crate builds typed records for systems, members, groups, switches and
//! messages, turns them into JSON documents, reads such documents back, and
//! describes every API exchange as a plain request value (method, URL, query,
//! headers, body) with a contract. Sending the request over the network and
//! parsing raw bytes into a JSON tree are left to the surrounding program.

pub mod model;
pub mod timestamp;
pub mod json;
pub mod codec;
pub mod decimal;
pub mod http;
pub mod endpoints;
pub mod responses;
pub mod commands;
pub mod dispatch;
