//! A simulation of a turn-based crafting mini-game.
//!
//! A recipe, a crafter and an ordered list of actions go in; out come the
//! progress, quality, durability and CP that the craft ends with, the record
//! of every step, and whether the craft succeeded. The arithmetic follows the
//! game to the point: every value is floored or rounded up exactly where the
//! game does it.
//!
//! ```text
//! let sim = Simulation::builder()
//!     .recipe(recipe)
//!     .crafter_stats(stats)
//!     .actions(vec![
//!         actions::Reflect.into(),
//!         actions::BasicTouch.into(),
//!         actions::ByregotsBlessing.into(),
//!         actions::CarefulSynthesis.into(),
//!     ])
//!     .build();
//! let result = sim.start().linear(true).run();
//! ```
//!
//! The executable code is verified against a mathematical model of the
//! session, `types::model::SimulationView`: each function that changes a
//! session says which function of the model it computes, and what holds of
//! every session is proved of the model in `types::laws` and
//! `types::invariants`. The one thing taken on trust is the dice,
//! `types::random`.

pub mod types;
