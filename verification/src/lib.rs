//! Core logic of a Windows-Update-blocking background service: the
//! quote-aware command-line tokenizer, the service lifecycle controller,
//! the Service Control Manager (SCM) operation flows, and the
//! update-blocking configuration rewrite.
//!
//! Everything here is plain decision logic over plain values.  The actual
//! OS calls (SCM handles, process tokens, the async scheduler) live in the
//! surrounding binary, which drives these machines and hands their actions
//! to the operating system.

pub mod blocker;
pub mod lifecycle;
pub mod logging;
pub mod registry;
pub mod setup;
pub mod split;
