//! The action/state engine of a peer-to-peer application host.
//!
//! Instance state is split into three sub-states (agent, network, nucleus)
//! that change only when the dispatcher applies an action to them, one at a
//! time and in admission order. Workflows never touch state: they are state
//! machines that turn the outcome of storage and network work into the next
//! action to dispatch.

pub mod content;
pub mod config;
pub mod text;
pub mod hdk;
pub mod table;
pub mod action;
pub mod agent;
pub mod network;
pub mod nucleus;
pub mod instance;
pub mod workflows;
