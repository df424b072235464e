//! A verified core for a code-formatting dispatch service.
//!
//! The service accepts a source snippet and a language token, selects an
//! external formatter executable for that language, pipes the code through
//! the child process, and relays the child's output (or its diagnostic) to
//! the HTTP caller. Everything the service decides — which tool a language
//! token routes to, how a child process outcome is interpreted, what text
//! each error carries, and which HTTP status and body a result maps to —
//! lives here, verified. The process spawning and HTTP plumbing around it
//! hand this crate plain values and take plain values back.

pub mod dispatch;
pub mod outcome;
pub mod reply;
pub mod tool;
