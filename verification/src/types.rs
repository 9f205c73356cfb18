//! The data model and the simulation engine.
//!
//! - `enums`, `structs`, `tables`: the data of the game.
//! - `numeric`: the formulas, over plain numbers.
//! - `catalog`: what each action requires, costs and applies by itself.
//! - `model`, `transitions`: the session as a mathematical value, and what
//!   actions, ticks, steps and runs make of it.
//! - `conditions`: the condition process.
//! - `simulation`, `capability`, `executor`, `builder`: the executable
//!   session.
//! - `traits`, `actions`: every action as a type of its own.
//! - `laws`, `invariants`: what is proved of every session.
//! - `random`: the dice.

pub mod actions;
pub mod builder;
pub mod capability;
pub mod catalog;
pub mod conditions;
pub mod enums;
pub mod executor;
pub mod invariants;
pub mod laws;
pub mod model;
pub mod numeric;
pub mod random;
pub mod simulation;
pub mod structs;
pub mod tables;
pub mod traits;
pub mod transitions;

pub use executor::SimulationResult;
pub use simulation::Simulation;
