//! Runtime core of a reparenting tiling window manager.
//!
//! The crate models the manager's decision logic: suppression of
//! self-caused protocol events by sequence number, the window/frame
//! lifecycle registry, the memoized atom cache and the ICCCM close
//! decision, the monitor/desktop/client topology, and the control
//! protocol (its line grammar and the executor that applies parsed
//! commands to the topology).  All display and socket I/O is left to
//! the embedding binary, which feeds events and command lines in and
//! performs the actions handed back.

pub mod cli;
pub mod client;
pub mod command_executor;
pub mod desktop;
pub mod display;
pub mod kvstore;
pub mod monitors;
pub mod registry;
pub mod sequencer;
pub mod text;
pub mod window_manager;
