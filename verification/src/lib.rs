//! The execution gateway's verified core: the session and credential
//! authority, the per-language execution dispatcher, the network-diagnostic
//! dispatcher and the transpiler-bridge planner, with the response
//! normalization they share.
//!
//! The dispatchers map symbolic requests to concrete host-process invocation
//! recipes and normalize what came back; the surrounding server does the
//! spawning and the HTTP wiring. Staging locations are unique per request,
//! a failed compile step is reported distinctly rather than running a stale
//! binary, and caller-supplied scanner options are held to an allow-list
//! grammar.

pub mod auth;
pub mod executor;
pub mod lumos;
pub mod network;
pub mod proc;
pub mod session;
pub mod strutil;
