//! Event discovery and vote submission for a bridge oracle that watches an
//! EVM-compatible chain on behalf of a consensus chain.

pub mod bytes;
pub mod chain;
pub mod events;
pub mod event_data;
pub mod registry;
pub mod discovery;
pub mod pool;
pub mod orchestrator;
pub mod votes;
pub mod node_manager;
pub mod config;
pub mod timer;
