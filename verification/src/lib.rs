//! Probe engine for checking which streaming and AI services are reachable
//! from the current network egress, and which region each service sees.
//!
//! The engine is split into pure, verified classification logic (this crate)
//! and a thin unverified driver that performs the actual HTTP requests and
//! feeds the responses in as plain values.

pub mod chatgpt;
pub mod codec;
pub mod gemini;
pub mod model;
pub mod netflix;
pub mod orchestra;
pub mod prime;
pub mod service;
pub mod text;
pub mod youtube;
