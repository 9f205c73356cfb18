//! The executor: the buff tick pass, the condition process, one attempt at an
//! action, one step of a run and the run itself.

use vstd::prelude::*;
use super::conditions::parse_conditions;
use super::enums::{Buff, CraftingActionEnum, FailCause, StepState};
use super::invariants::{
    lemma_run_steps_keeps_wf,
    lemma_run_steps_reads_prefix,
    lemma_step_keeps_script,
};
use super::model::{live, live_prefix, SimulationView};
use super::numeric::{clamp_i32, compute_signed_difference, gained};
use super::random::random_below;
use super::simulation::{copy_buffs, copy_steps, find_buff, full_durability, Simulation};
use super::structs::{
    ActionResult,
    BuffEffect,
    BuffTickResult,
    Craft,
    CrafterStats,
    EffectiveBuff,
    Ingredient,
};
use super::transitions::{
    admissible,
    first_cause_from,
    quality_of,
    starting_quality_of,
    starting_quality_upto,
    RunMode,
    StepRolls,
    FORCED_FAILURE_ROLL,
};

verus! {

/// What a run hands back.
pub struct SimulationResult {
    /// The history of the run.
    pub steps: Vec<ActionResult>,
    /// The chance of a high-quality result in percent.
    pub hq_percent: u32,
    pub success: bool,
    /// The session as the run left it.
    pub simulation: Simulation,
    pub fail_cause: Option<FailCause>,
}

/// The buffs of the list that have time left, in their order.
pub fn keep_live(buffs: &Vec<EffectiveBuff>) -> (r: Vec<EffectiveBuff>)
    ensures
        r@ == live(buffs@),
{
    let mut kept: Vec<EffectiveBuff> = Vec::new();
    let mut i: usize = 0;
    while i < buffs.len()
        invariant
            i <= buffs.len(),
            kept@ == live_prefix(buffs@, i as int),
        decreases buffs.len() - i,
    {
        if buffs[i].duration > 0 {
            kept.push(buffs[i]);
        }
        i += 1;
    }
    kept
}

/// Whether the list holds the index.
pub fn contains_index(list: &Vec<usize>, index: usize) -> (r: bool)
    ensures
        r == list@.contains(index),
{
    let mut i: usize = 0;
    while i < list.len()
        invariant
            i <= list.len(),
            forall|j: int| 0 <= j < i ==> list@[j] != index,
        decreases list.len() - i,
    {
        if list[i] == index {
            return true;
        }
        i += 1;
    }
    false
}

/// How much larger `after` is than `before`; zero where it is not larger.
pub fn compute_gained(after: u32, before: u32) -> (r: u32)
    ensures
        r == gained(after, before),
{
    if after >= before {
        after - before
    } else {
        0
    }
}

/// The difference of two durabilities, cut off to what an `i32` can hold.
pub fn durability_difference(after: i32, before: i32) -> (r: i32)
    ensures
        r == clamp_i32(after - before),
{
    let d: i64 = after as i64 - before as i64;
    if d < i32::MIN as i64 {
        i32::MIN
    } else if d > i32::MAX as i64 {
        i32::MAX
    } else {
        d as i32
    }
}

/// The fail cause of the first step that has one.
pub fn first_cause(steps: &Vec<ActionResult>) -> (r: Option<FailCause>)
    ensures
        r == first_cause_from(steps@, 0),
{
    let mut i: usize = 0;
    while i < steps.len()
        invariant
            i <= steps.len(),
            first_cause_from(steps@, 0) == first_cause_from(steps@, i as int),
        decreases steps.len() - i,
    {
        match steps[i].fail_cause {
            Some(cause) => {
                return Some(cause);
            },
            None => {},
        }
        i += 1;
    }
    None
}

impl EffectiveBuff {
    /// Has the tick effect of the buff on the session, on a step that
    /// `action` occupies.
    pub fn tick(&self, simulation_state: &mut Simulation, action: &CraftingActionEnum)
        ensures
            final(simulation_state)@ == old(simulation_state)@.apply_effect(self.tick, *action),
    {
        simulation_state.apply_effect(self.tick, action);
    }

    /// Has the expiry effect of the buff on the session, on a step that
    /// `action` occupies.
    pub fn on_expire(&self, simulation_state: &mut Simulation, action: &CraftingActionEnum)
        ensures
            final(simulation_state)@ == old(simulation_state)@.apply_effect(
                self.on_expire,
                *action,
            ),
    {
        simulation_state.apply_effect(self.on_expire, action);
    }
}

impl Simulation {
    /// Has the effect of a buff, on a step that `action` occupies.
    pub fn apply_effect(&mut self, effect: Option<BuffEffect>, action: &CraftingActionEnum)
        ensures
            final(self)@ == old(self)@.apply_effect(effect, *action),
    {
        match effect {
            Some(BuffEffect::Repair(amount)) => {
                self.repair(amount);
            },
            Some(BuffEffect::ClearOnOffCondition(kind)) => {
                if action.is_condition_gated() && !(self.state == StepState::Good || self.state
                    == StepState::Excellent) {
                    self.remove_buff(kind);
                }
            },
            None => {},
        }
    }

    /// Takes one step off the first buff of the kind, if there is one.
    pub fn decrement(&mut self, kind: Buff)
        ensures
            final(self)@ == old(self)@.decrement(kind),
    {
        let at = find_buff(&self.buffs, kind);
        if at < self.buffs.len() {
            let held = self.buffs[at];
            let duration: i32 = if held.duration > i32::MIN {
                held.duration - 1
            } else {
                i32::MIN
            };
            self.buffs[at] = EffectiveBuff { duration, ..held };
        }
    }

    /// The buff tick pass of a step that `action` occupies: the buffs as they
    /// stand tick in their order, then those that have run out have their
    /// expiry effect, then they leave.
    pub fn tick_buffs(&mut self, action: &CraftingActionEnum)
        ensures
            final(self)@ == old(self)@.tick_buffs(*action),
    {
        let ghost start = self@;
        let snapshot = copy_buffs(&self.buffs);
        let mut i: usize = 0;
        while i < snapshot.len()
            invariant
                i <= snapshot.len(),
                snapshot@ == start.buffs,
                self@ == start.tick_pass(snapshot@, *action, i as int),
            decreases snapshot.len() - i,
        {
            let buff = snapshot[i];
            if (buff.applied_step as usize) < self.steps.len() {
                buff.tick(self, action);
                self.decrement(buff.buff);
            }
            i += 1;
        }
        let ghost ticked = self@;
        let run_out = copy_buffs(&self.buffs);
        let mut j: usize = 0;
        while j < run_out.len()
            invariant
                j <= run_out.len(),
                run_out@ == ticked.buffs,
                self@ == ticked.expire_pass(run_out@, *action, j as int),
            decreases run_out.len() - j,
        {
            let buff = run_out[j];
            if buff.duration <= 0 {
                buff.on_expire(self, action);
            }
            j += 1;
        }
        self.buffs = keep_live(&self.buffs);
    }

    /// Moves the condition process on by the given roll: Poor follows
    /// Excellent and Good follows Good Omen whatever the roll; otherwise the
    /// roll selects among the legal conditions by their weights.
    pub fn tick_state_with(&mut self, roll: u32)
        ensures
            final(self)@ == old(self)@.tick_state(roll),
    {
        if self.state == StepState::Excellent {
            self.state = StepState::Poor;
        } else if self.state == StepState::GoodOmen {
            self.state = StepState::Good;
        } else {
            let odds = self.get_odds();
            self.state = odds.get_pick(roll);
        }
    }

    /// Moves the condition process on by one roll of the dice. Whatever the
    /// dice say, Poor follows Excellent and Good follows Good Omen.
    pub fn tick_state(&mut self)
        ensures
            exists|roll: u32|
                roll < old(self)@.odds().total() && final(self)@ == old(self)@.tick_state(roll),
            old(self)@.state == StepState::Excellent ==> final(self)@.state == StepState::Poor,
            old(self)@.state == StepState::GoodOmen ==> final(self)@.state == StepState::Good,
    {
        let odds = self.get_odds();
        let roll = random_below(odds.get_total());
        self.tick_state_with(roll);
    }

    /// One attempt at an action on the given roll, which succeeds where the
    /// chance of success is not below the roll: the attempt, then the
    /// durability cost and the CP cost whether or not it succeeded, then the
    /// look for an end of the craft. Hands back the record of the attempt.
    pub fn run_action_with_roll(&mut self, action: &CraftingActionEnum, roll: u32, safe: bool) -> (r:
        ActionResult)
        ensures
            final(self)@ == old(self)@.after_action(*action, roll, safe),
            r == old(self)@.action_record(*action, roll, safe),
    {
        let quality_before = self.quality;
        let progression_before = self.progression;
        let durability_before = self.durability;
        let cp_before = self.available_cp;
        let combo = action.has_combo(self);
        let rate = action.get_success_rate(self);
        let turned_down = safe && (rate < 100 || (action.requires_good() && !self.has_buff(
            Buff::HeartAndSoul,
        )));
        let mut fail_cause: Option<FailCause> = None;
        let mut success = false;
        if turned_down {
            fail_cause = Some(FailCause::UnsafeAction);
            action.on_fail(self);
            self.safe = false;
        } else if rate >= roll {
            action.execute(self);
            success = true;
        } else {
            action.on_fail(self);
        }
        let durability_cost = action.get_durability_cost(self);
        if self.has_buff(Buff::TrainedPerfection) && durability_cost > 0 {
            self.remove_buff(Buff::TrainedPerfection);
        } else {
            let left: i64 = self.durability as i64 - durability_cost as i64;
            self.durability = if left < i32::MIN as i64 {
                i32::MIN
            } else {
                left as i32
            };
        }
        let cp_cost = action.get_cp_cost(self);
        self.available_cp = if self.available_cp >= cp_cost {
            self.available_cp - cp_cost
        } else {
            0
        };
        if self.progression >= self.recipe.progress {
            self.success = Some(true);
        } else if self.durability <= 0 {
            fail_cause = Some(FailCause::DurabilityReachedZero);
            self.success = Some(false);
        }
        ActionResult {
            action: *action,
            success: Some(success),
            fail_cause,
            added_progression: compute_gained(self.progression, progression_before),
            added_quality: compute_gained(self.quality, quality_before),
            cp_difference: compute_signed_difference(self.available_cp, cp_before),
            solidity_difference: durability_difference(self.durability, durability_before),
            skipped: false,
            combo: Some(combo),
            state: self.state,
            after_buff_tick: None,
        }
    }

    /// One attempt at an action by the dice, in a run that is neither linear
    /// nor safe.
    pub fn run_action(&mut self, action: &CraftingActionEnum, index: usize) -> (r: ActionResult)
        ensures
            exists|roll: u32|
                roll < 100 && final(self)@ == old(self)@.after_action(
                    *action,
                    old(self)@.effective_roll(index, false, roll),
                    false,
                ) && r == old(self)@.action_record(
                    *action,
                    old(self)@.effective_roll(index, false, roll),
                    false,
                ),
    {
        self.run_action_linear(action, false, index)
    }

    /// One attempt at an action in a run that is not safe; by the dice unless
    /// the run is linear.
    pub fn run_action_linear(&mut self, action: &CraftingActionEnum, linear: bool, index: usize) -> (r:
        ActionResult)
        ensures
            exists|roll: u32|
                roll < 100 && final(self)@ == old(self)@.after_action(
                    *action,
                    old(self)@.effective_roll(index, linear, roll),
                    false,
                ) && r == old(self)@.action_record(
                    *action,
                    old(self)@.effective_roll(index, linear, roll),
                    false,
                ),
    {
        self.run_action_with_flags(action, linear, false, index)
    }

    /// One attempt at an action as step `index` of a run. The roll is a
    /// failure where the script says that this step fails, a success in
    /// linear mode, and otherwise drawn from 0 to 99: whatever is drawn, the
    /// session and the record are those of `run_action_with_roll` on that
    /// roll.
    pub fn run_action_with_flags(
        &mut self,
        action: &CraftingActionEnum,
        linear: bool,
        safe: bool,
        index: usize,
    ) -> (r: ActionResult)
        ensures
            exists|roll: u32|
                roll < 100 && final(self)@ == old(self)@.after_action(
                    *action,
                    old(self)@.effective_roll(index, linear, roll),
                    safe,
                ) && r == old(self)@.action_record(
                    *action,
                    old(self)@.effective_roll(index, linear, roll),
                    safe,
                ),
    {
        let drawn: u32 = if contains_index(&self.fails, index) || linear {
            0
        } else {
            random_below(100)
        };
        let probability_roll = self.roll_for(index, linear, drawn);
        self.run_action_with_roll(action, probability_roll, safe)
    }

    /// The roll that decides step `index`, given what the dice said.
    pub fn roll_for(&self, index: usize, linear: bool, drawn: u32) -> (r: u32)
        ensures
            r == self@.effective_roll(index, linear, drawn),
    {
        if contains_index(&self.fails, index) {
            FORCED_FAILURE_ROLL
        } else if linear {
            0
        } else {
            drawn
        }
    }

    /// The condition that step `index` starts on.
    pub fn scripted_condition(&self, index: usize) -> (r: StepState)
        ensures
            r == self@.scripted_condition(index as int),
    {
        if index < self.step_states.len() && self.step_states[index] != StepState::Failure {
            self.step_states[index]
        } else {
            StepState::Normal
        }
    }

    /// Step `index` of a run on the given rolls: see `SimulationView::step`.
    /// Nothing happens where the rotation has no such step.
    pub fn run_step(&mut self, index: usize, mode: RunMode, rolls: StepRolls)
        ensures
            index < old(self)@.actions.len() ==> final(self)@ == old(self)@.step(index, mode, rolls),
            index >= old(self)@.actions.len() ==> final(self)@ == old(self)@,
            final(self)@.actions == old(self)@.actions,
    {
        if index >= self.actions.len() {
            return ;
        }
        proof {
            reveal(SimulationView::step);
            lemma_step_keeps_script(self@, index, mode, rolls);
        }
        let action = self.actions[index];
        self.state = self.scripted_condition(index);
        let roll = self.roll_for(index, mode.linear, rolls.success);
        let can_use_action = action.can_be_used_with_flags(
            self,
            Some(mode.linear),
            Some(mode.safe),
        );
        let has_enough_cp = action.get_base_cp_cost(self) <= self.available_cp;
        let carried = self.success.is_none() && has_enough_cp && self.steps.len() < mode.max_steps
            && can_use_action;
        let mut result = if carried {
            self.run_action_with_roll(&action, roll, mode.safe)
        } else {
            let fail_cause = if !has_enough_cp {
                Some(FailCause::NotEnoughCP)
            } else if !can_use_action {
                action.get_fail_cause_with_flags(self, Some(mode.linear), Some(mode.safe))
            } else {
                None
            };
            ActionResult {
                action,
                success: None,
                fail_cause,
                added_progression: 0,
                added_quality: 0,
                cp_difference: 0,
                solidity_difference: 0,
                skipped: true,
                combo: None,
                state: self.state,
                after_buff_tick: None,
            }
        };
        let succeeded = match result.success {
            Some(outcome) => outcome,
            None => false,
        };
        if carried && self.success.is_none() && !action.skips_buff_ticks() && (succeeded
            || !action.skip_on_fail()) {
            let quality_before = self.quality;
            let progression_before = self.progression;
            let durability_before = self.durability;
            let cp_before = self.available_cp;
            self.tick_buffs(&action);
            result.after_buff_tick = Some(
                BuffTickResult {
                    added_progression: compute_gained(self.progression, progression_before),
                    added_quality: compute_gained(self.quality, quality_before),
                    cp_difference: compute_signed_difference(self.available_cp, cp_before),
                    solidity_difference: durability_difference(self.durability, durability_before),
                },
            );
        }
        if !mode.linear && action != CraftingActionEnum::FinalAppraisal && action
            != CraftingActionEnum::RemoveFinalAppraisal {
            self.tick_state_with(rolls.condition);
        }
        self.steps.push(result);
    }
}

/// The quality that the recipe names for an ingredient id; zero where it
/// names none.
pub fn ingredient_quality(ingredients: &Vec<Ingredient>, id: &String) -> (r: u32)
    ensures
        r == quality_of(ingredients@, id@, 0),
{
    let mut i: usize = 0;
    while i < ingredients.len()
        invariant
            i <= ingredients.len(),
            quality_of(ingredients@, id@, 0) == quality_of(ingredients@, id@, i as int),
        decreases ingredients.len() - i,
    {
        if ingredients[i].id == *id {
            return match ingredients[i].quality {
                Some(quality) => quality,
                None => 0,
            };
        }
        i += 1;
    }
    0
}

/// The quality that high-quality ingredients bring in.
pub fn starting_quality(ingredients: &Vec<Ingredient>, supplied: &Vec<Ingredient>) -> (r: u32)
    ensures
        r == starting_quality_of(ingredients@, supplied@),
{
    let mut total: u32 = 0;
    let mut i: usize = 0;
    while i < supplied.len()
        invariant
            i <= supplied.len(),
            total == starting_quality_upto(ingredients@, supplied@, i as int),
        decreases supplied.len() - i,
    {
        let quality = ingredient_quality(ingredients, &supplied[i].id);
        let amount = supplied[i].amount;
        assert(quality * amount <= 0x1_0000_0000 * 0x1_0000_0000) by (nonlinear_arith)
            requires
                quality <= 0x1_0000_0000,
                amount <= 0x1_0000_0000,
        ;
        let brought: u128 = quality as u128 * amount as u128;
        let sum: u128 = total as u128 + brought;
        total = if sum > u32::MAX as u128 {
            u32::MAX
        } else {
            sum as u32
        };
        i += 1;
    }
    total
}

impl Simulation {
    /// A session for the recipe and the crafter, with nothing done yet: no
    /// progress, the quality that the high-quality ingredients bring in, the
    /// durability of the recipe, the CP pool of the crafter, no buffs, the
    /// condition Normal, and the legal conditions read from the recipe's
    /// conditions flag. What is left out is empty.
    pub fn new(
        recipe: Craft,
        crafter_stats: CrafterStats,
        actions: Option<Vec<CraftingActionEnum>>,
        hq_ingredients: Option<Vec<Ingredient>>,
        step_states: Option<Vec<StepState>>,
        fails: Option<Vec<usize>>,
    ) -> (r: Simulation)
        ensures
            r@ == SimulationView::initial(
                recipe,
                crafter_stats,
                match actions {
                    Some(list) => list@,
                    None => Seq::empty(),
                },
                match hq_ingredients {
                    Some(list) => starting_quality_of(recipe.ingredients@, list@),
                    None => 0,
                },
                match step_states {
                    Some(list) => list@,
                    None => Seq::empty(),
                },
                match fails {
                    Some(list) => list@,
                    None => Seq::empty(),
                },
            ),
            r@.wf(),
    {
        let starting_quality = match &hq_ingredients {
            Some(list) => starting_quality(&recipe.ingredients, list),
            None => 0,
        };
        let possible_conditions = parse_conditions(recipe.conditions_flag);
        let durability = full_durability(&recipe);
        let max_cp = crafter_stats.cp;
        Simulation {
            recipe,
            crafter_stats,
            actions: match actions {
                Some(list) => list,
                None => Vec::new(),
            },
            step_states: match step_states {
                Some(list) => list,
                None => Vec::new(),
            },
            fails: match fails {
                Some(list) => list,
                None => Vec::new(),
            },
            progression: 0,
            starting_quality,
            quality: starting_quality,
            durability,
            state: StepState::Normal,
            max_cp,
            available_cp: max_cp,
            buffs: Vec::new(),
            success: None,
            steps: Vec::new(),
            safe: false,
            possible_conditions,
        }
    }

    /// Puts the session back to where it started: the script stays, all
    /// that was done goes.
    pub fn reset(&mut self)
        ensures
            final(self)@ == old(self)@.reset(),
    {
        self.success = None;
        self.progression = 0;
        self.durability = full_durability(&self.recipe);
        self.quality = self.starting_quality;
        self.buffs = Vec::new();
        self.steps = Vec::new();
        self.max_cp = self.crafter_stats.cp;
        self.available_cp = self.max_cp;
        self.state = StepState::Normal;
        self.safe = false;
    }

    /// Whether the craft is a success as it stands.
    pub fn has_succeeded(&self) -> (r: bool)
        ensures
            r == self@.succeeded(),
    {
        self.progression >= self.recipe.progress && match self.recipe.required_quality {
            Some(required) => self.quality > required,
            None => true,
        }
    }

    /// Runs the rotation, one step for each action in its order, and hands
    /// back the session, its history and the outcome.
    ///
    /// In linear mode no dice are thrown and the result is fixed by the
    /// session; otherwise it is the result of the steps on some rolls that
    /// the dice can give. The craft is a success where the progress has
    /// reached the recipe's and the quality exceeds the required quality, if
    /// there is one. The fail cause is that of the first step that has one,
    /// and else a quality that is too low where that is why the craft failed.
    pub fn run(self, linear: bool, max_steps: usize, safe: bool) -> (r: SimulationResult)
        ensures
            exists|rolls: Seq<StepRolls>|
                rolls.len() == self@.actions.len() && admissible(
                    rolls,
                    linear,
                    self@.odds().total(),
                ) && r.simulation@ == self@.run_steps(
                    (RunMode { linear, max_steps, safe }),
                    rolls,
                    self@.actions.len() as int,
                ),
            r.steps@ == r.simulation@.steps,
            r.success == r.simulation@.succeeded(),
            r.fail_cause == r.simulation@.final_cause(),
            r.hq_percent == r.simulation@.hq_percent(),
            self@.wf() ==> r.simulation@.wf(),
    {
        let mut simulation = self;
        let mode = RunMode { linear, max_steps, safe };
        let ghost start = simulation@;
        let ghost mut rolls: Seq<StepRolls> = Seq::empty();
        let count = simulation.actions.len();
        let total = simulation.get_odds().get_total();
        let mut i: usize = 0;
        while i < count
            invariant
                i <= count,
                count == start.actions.len(),
                simulation@.actions == start.actions,
                rolls.len() == i,
                admissible(rolls, linear, start.odds().total()),
                simulation@ == start.run_steps(mode, rolls, i as int),
                total == start.odds().total(),
                total >= 100,
            decreases count - i,
        {
            let drawn = if linear {
                StepRolls { success: 0, condition: 0 }
            } else {
                StepRolls { success: random_below(100), condition: random_below(total) }
            };
            proof {
                lemma_run_steps_reads_prefix(start, mode, rolls, rolls.push(drawn), i as int);
                rolls = rolls.push(drawn);
            }
            simulation.run_step(i, mode, drawn);
            i += 1;
        }
        proof {
            if start.wf() {
                lemma_run_steps_keeps_wf(start, mode, rolls, count as int);
            }
        }
        let success = simulation.has_succeeded();
        let fail_cause = match first_cause(&simulation.steps) {
            Some(cause) => Some(cause),
            None => if simulation.recipe.required_quality.is_some() && !success {
                Some(FailCause::QualityTooLow)
            } else {
                None
            },
        };
        SimulationResult {
            steps: copy_steps(&simulation.steps),
            hq_percent: simulation.get_hq_percent(),
            success,
            simulation,
            fail_cause,
        }
    }
}

} // verus!
