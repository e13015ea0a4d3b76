//! A provider-side model of an operating-system placeholder / cloud-sync
//! callback protocol.
//!
//! The operating system delivers asynchronous operation requests, each
//! identified by an opaque correlation key pair.  The provider answers every
//! *terminating* request with exactly one resolving command (an approval with
//! its result, or a denial with an error), issued through a capability-scoped
//! ticket.  This crate verifies that protocol: the commands and their
//! validation rules, the single-use tickets, the per-pair operation lifecycle
//! on the system side, and the dispatcher that turns an unhandled callback
//! into a clean denial.

pub mod command;
pub mod error;
pub mod info;
pub mod keys;
pub mod register;
pub mod session;
pub mod sync_filter;
pub mod ticket;
