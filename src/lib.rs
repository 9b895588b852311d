//! Supervisor and pipeline lifecycle core of a network-observability agent.
//!
//! The library decides; the embedding program acts. The functions here take
//! plain values and hand back decisions, plans and ordered lists of actions;
//! the program that embeds them captures packets, resolves names, spawns
//! threads and carries the actions out.
pub mod config;
pub mod supervisor;
pub mod names;
pub mod graph;
pub mod lifecycle;
pub mod listener;
pub mod watcher;
pub mod boot;
pub mod version;
