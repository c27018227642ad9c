//! Client for the `getTrytes` command of an IOTA node's HTTP API: hash
//! validation, the command envelope and its headers, and a strict decoder
//! of the node's answer.

pub mod command;
pub mod get_trytes;
pub mod json;
pub mod validator;
