//! Builders: a session is put together from a recipe, a crafter and
//! whatever else the caller has, and a run from a session and its flags.

use vstd::prelude::*;
use super::enums::{CraftingActionEnum, StepState};
use super::executor::SimulationResult;
use super::model::SimulationView;
use super::simulation::Simulation;
use super::structs::{Craft, CrafterStats, Ingredient};
use super::transitions::{admissible, starting_quality_of, RunMode, StepRolls};

verus! {

/// Stands where a builder has not been given a part that it cannot do
/// without.
pub struct Unset;

/// A session in the making. `R` and `S` say whether the recipe and the
/// crafter have been given: only with both can the session be built.
pub struct SimulationBuilder<R, S> {
    pub recipe: R,
    pub crafter_stats: S,
    pub actions: Option<Vec<CraftingActionEnum>>,
    pub hq_ingredients: Option<Vec<Ingredient>>,
    pub step_states: Option<Vec<StepState>>,
    pub fails: Option<Vec<usize>>,
}

impl Simulation {
    /// A builder that has been given nothing yet.
    pub fn builder() -> (r: SimulationBuilder<Unset, Unset>)
        ensures
            r.actions is None,
            r.hq_ingredients is None,
            r.step_states is None,
            r.fails is None,
    {
        SimulationBuilder {
            recipe: Unset,
            crafter_stats: Unset,
            actions: None,
            hq_ingredients: None,
            step_states: None,
            fails: None,
        }
    }

    /// A run of this session in the making, with no flag set.
    pub fn start(self) -> (r: SimulationRun)
        ensures
            r.simulation == self,
            r.linear is None,
            r.max_steps is None,
            r.safe is None,
    {
        SimulationRun { simulation: self, linear: None, max_steps: None, safe: None }
    }
}

impl<S> SimulationBuilder<Unset, S> {
    /// Gives the recipe.
    pub fn recipe(self, recipe: Craft) -> (r: SimulationBuilder<Craft, S>)
        ensures
            r.recipe == recipe,
            r.crafter_stats == self.crafter_stats,
            r.actions == self.actions,
            r.hq_ingredients == self.hq_ingredients,
            r.step_states == self.step_states,
            r.fails == self.fails,
    {
        SimulationBuilder {
            recipe,
            crafter_stats: self.crafter_stats,
            actions: self.actions,
            hq_ingredients: self.hq_ingredients,
            step_states: self.step_states,
            fails: self.fails,
        }
    }
}

impl<R> SimulationBuilder<R, Unset> {
    /// Gives the crafter.
    pub fn crafter_stats(self, crafter_stats: CrafterStats) -> (r: SimulationBuilder<
        R,
        CrafterStats,
    >)
        ensures
            r.recipe == self.recipe,
            r.crafter_stats == crafter_stats,
            r.actions == self.actions,
            r.hq_ingredients == self.hq_ingredients,
            r.step_states == self.step_states,
            r.fails == self.fails,
    {
        SimulationBuilder {
            recipe: self.recipe,
            crafter_stats,
            actions: self.actions,
            hq_ingredients: self.hq_ingredients,
            step_states: self.step_states,
            fails: self.fails,
        }
    }
}

impl<R, S> SimulationBuilder<R, S> {
    /// Gives the rotation.
    pub fn actions(self, actions: Vec<CraftingActionEnum>) -> (r: Self)
        ensures
            r == (SimulationBuilder { actions: Some(actions), ..self }),
    {
        SimulationBuilder { actions: Some(actions), ..self }
    }

    /// Gives the high-quality ingredients that go into the craft.
    pub fn hq_ingredients(self, hq_ingredients: Vec<Ingredient>) -> (r: Self)
        ensures
            r == (SimulationBuilder { hq_ingredients: Some(hq_ingredients), ..self }),
    {
        SimulationBuilder { hq_ingredients: Some(hq_ingredients), ..self }
    }

    /// Gives the condition that each step is scripted to start on.
    pub fn step_states(self, step_states: Vec<StepState>) -> (r: Self)
        ensures
            r == (SimulationBuilder { step_states: Some(step_states), ..self }),
    {
        SimulationBuilder { step_states: Some(step_states), ..self }
    }

    /// Gives the steps that are scripted to fail.
    pub fn fails(self, fails: Vec<usize>) -> (r: Self)
        ensures
            r == (SimulationBuilder { fails: Some(fails), ..self }),
    {
        SimulationBuilder { fails: Some(fails), ..self }
    }
}

impl SimulationBuilder<Craft, CrafterStats> {
    /// The session that `Simulation::new` makes of what the builder was
    /// given.
    pub fn build(self) -> (r: Simulation)
        ensures
            r@ == SimulationView::initial(
                self.recipe,
                self.crafter_stats,
                match self.actions {
                    Some(list) => list@,
                    None => Seq::empty(),
                },
                match self.hq_ingredients {
                    Some(list) => starting_quality_of(self.recipe.ingredients@, list@),
                    None => 0,
                },
                match self.step_states {
                    Some(list) => list@,
                    None => Seq::empty(),
                },
                match self.fails {
                    Some(list) => list@,
                    None => Seq::empty(),
                },
            ),
            r@.wf(),
    {
        Simulation::new(
            self.recipe,
            self.crafter_stats,
            self.actions,
            self.hq_ingredients,
            self.step_states,
            self.fails,
        )
    }
}

/// A run in the making: a session and the flags given so far.
pub struct SimulationRun {
    pub simulation: Simulation,
    pub linear: Option<bool>,
    pub max_steps: Option<usize>,
    pub safe: Option<bool>,
}

impl SimulationRun {
    /// Whether the run is linear: without dice.
    pub fn linear(self, linear: bool) -> (r: Self)
        ensures
            r == (SimulationRun { linear: Some(linear), ..self }),
    {
        SimulationRun { linear: Some(linear), ..self }
    }

    /// The number of recorded steps from which on nothing is carried out.
    pub fn max_steps(self, max_steps: usize) -> (r: Self)
        ensures
            r == (SimulationRun { max_steps: Some(max_steps), ..self }),
    {
        SimulationRun { max_steps: Some(max_steps), ..self }
    }

    /// Whether the run is safe: an action that could fail is turned down.
    pub fn safe(self, safe: bool) -> (r: Self)
        ensures
            r == (SimulationRun { safe: Some(safe), ..self }),
    {
        SimulationRun { safe: Some(safe), ..self }
    }

    /// The flags of the run: one that was not given is unset, and without a
    /// limit the steps are not limited.
    pub open spec fn mode(self) -> RunMode {
        RunMode {
            linear: self.linear == Some(true),
            max_steps: match self.max_steps {
                Some(limit) => limit,
                None => usize::MAX,
            },
            safe: self.safe == Some(true),
        }
    }

    /// Runs the rotation of the session with the flags given: see
    /// `Simulation::run`.
    pub fn run(self) -> (r: SimulationResult)
        ensures
            exists|rolls: Seq<StepRolls>|
                rolls.len() == self.simulation@.actions.len() && admissible(
                    rolls,
                    self.mode().linear,
                    self.simulation@.odds().total(),
                ) && r.simulation@ == self.simulation@.run_steps(
                    self.mode(),
                    rolls,
                    self.simulation@.actions.len() as int,
                ),
            r.steps@ == r.simulation@.steps,
            r.success == r.simulation@.succeeded(),
            r.fail_cause == r.simulation@.final_cause(),
            r.hq_percent == r.simulation@.hq_percent(),
            self.simulation@.wf() ==> r.simulation@.wf(),
    {
        let linear = match self.linear {
            Some(flag) => flag,
            None => false,
        };
        let max_steps = match self.max_steps {
            Some(limit) => limit,
            None => usize::MAX,
        };
        let safe = match self.safe {
            Some(flag) => flag,
            None => false,
        };
        proof {
            assert(self.mode() == (RunMode { linear, max_steps, safe }));
        }
        let result = self.simulation.run(linear, max_steps, safe);
        proof {
            let rolls = choose|rolls: Seq<StepRolls>|
                rolls.len() == self.simulation@.actions.len() && admissible(
                    rolls,
                    linear,
                    self.simulation@.odds().total(),
                ) && result.simulation@ == self.simulation@.run_steps(
                    (RunMode { linear, max_steps, safe }),
                    rolls,
                    self.simulation@.actions.len() as int,
                );
            assert(self.mode().linear == linear);
            assert(admissible(rolls, self.mode().linear, self.simulation@.odds().total()));
            assert(rolls.len() == self.simulation@.actions.len() && admissible(
                rolls,
                self.mode().linear,
                self.simulation@.odds().total(),
            ) && result.simulation@ == self.simulation@.run_steps(
                self.mode(),
                rolls,
                self.simulation@.actions.len() as int,
            ));
        }
        result
    }
}

} // verus!
