//! A synchronous command-response control channel for a VM manager.
//!
//! Caller threads push a command envelope onto a queue, signal a wakeup
//! event, and block on a private reply channel until the single dispatcher
//! thread that owns the virtual machine answers. This crate holds the
//! envelope and reply types and the per-call protocol that turns the
//! outcome of each transport step into one result.
pub mod api;
pub mod call;
pub mod config;
pub mod vm;
