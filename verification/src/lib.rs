//! Scenario engine for exercising a node across the RFC0221 activation boundary.
//!
//! The engine decides; a driver performs. Every scenario is a state machine that names the
//! next action to take against the nodes and consumes the event that the action produced.

pub mod case;
pub mod chain;
pub mod config;
pub mod node;
pub mod nodes;
pub mod script;
pub mod testdata;
pub mod transaction;
pub mod util;
