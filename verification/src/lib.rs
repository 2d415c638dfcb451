//! Core logic of a multi-session werewolf game server.
//!
//! Each session ("village") walks a fixed sequence of timed phases while
//! accepting asynchronous participant actions. This crate holds the verified
//! core: the phase state machine, the deadline-aware wait budget, role
//! assignment, night-action resolution, and the registry that routes commands
//! and events between the outside world and the sessions. Channels, timers and
//! the persistence collaborator live outside; they drive this core through
//! plain events and carry out the actions it returns.

pub mod assigner;
pub mod console;
pub mod defaults;
pub mod handle_from_world;
pub mod inlet_data;
pub mod night_events;
pub mod outlet_data;
pub mod periods;
pub mod person;
pub mod roles;
pub mod streamer;
pub mod tower;
pub mod transports;
pub mod village_main;
pub mod world;
pub mod world_antenna;
pub mod world_inlet;
pub mod world_outlet;
