//! The Vercel REST API.

pub mod client;

pub use client::VercelClient;
