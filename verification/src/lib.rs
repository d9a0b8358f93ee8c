//! Sends one mail from the command line, with the credentials and the relay
//! host of a stored record.
//!
//! This library holds what such a run decides: how the stored record is read
//! and when it is rejected, how a line typed by the operator is cleaned and
//! when it counts as assent, how a message is composed, and, in `flow`, which
//! step follows which. It does no input or output of its own. A program
//! around it performs each `flow::Action` and hands back what happened as a
//! `flow::Event`.

pub mod config;
pub mod email;
pub mod flow;
pub mod input;
