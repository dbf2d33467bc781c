//! Decision logic of a local tunnel client for a bastion gateway.
//!
//! The crate holds what the client decides: how a listen target is read,
//! what each token exchange asks of the bastion and how the session state
//! moves on, what a relay does with each chunk and message, and when the
//! session is revoked. Sockets, HTTP and the tunnel transport belong to the
//! program around it, which performs the actions that these functions return.

pub mod cli;
pub mod error;
pub mod handler;
pub mod serve;
pub mod shutdown;
