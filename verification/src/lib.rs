//! A gateway between RPC method calls and the Vercel REST API, written
//! without I/O: calls are routed and checked, requests are planned and
//! answers are interpreted here, and the caller carries the requests over
//! the network.
//!
//! A call goes through three steps. `VercelService::dispatch` turns a method
//! name and its parameters into an `Operation`, or refuses the call before
//! anything is sent. `VercelService::request` gives the request that carries
//! the operation out. `VercelService::respond` turns what came of sending it
//! into the method's result.

pub mod api;
pub mod catalog;
pub mod error;
pub mod http;
pub mod json;
pub mod laws;
pub mod models;
pub mod operation;
pub mod service;
pub mod text;
