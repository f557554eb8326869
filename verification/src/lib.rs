//! Verified core of a terminal-session server.
//!
//! The crate models terminal sessions (metadata records with a status
//! lifecycle), a registry of sessions shared between a management API and the
//! per-connection runtime, shell-configuration resolution with layered
//! defaults, the message translation between transport frames and terminal
//! byte streams, and the session-runtime state machine that pumps bytes
//! between a terminal and a remote connection and tears both down.
//!
//! Transport and process I/O live outside the crate; the runtime here is
//! driven by events and hands back actions, and in-memory bindings of the
//! connection and terminal interfaces let the pump itself run verified.

pub mod api;
pub mod assoc;
pub mod config;
pub mod message_handler;
pub mod protocol;
pub mod pty;
pub mod pty_manager;
pub mod registry;
pub mod runtime;
pub mod service_error;
pub mod session;
pub mod session_manager;
pub mod sync_client;
pub mod text;
pub mod ws_client;
