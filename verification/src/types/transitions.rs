//! What happens to a session: the effect of each action, a buff tick pass, one
//! attempt at an action, one step of a run and a whole run, each as a
//! function from the session before to the session after.

use vstd::prelude::*;
use super::catalog::UNLIMITED;
use super::conditions::{next_condition, odds_of, ConditionOdds};
use super::enums::{Buff, CraftingActionEnum, FailCause, StepState};
use super::model::{holds, live, position, step_count, without, SimulationView};
use super::numeric::{
    clamp_i32,
    clamp_u32,
    gained,
    progress_gain,
    quality_gain,
    signed_difference,
    ProgressFactors,
    QualityFactors,
};
use super::conditions::legal_conditions;
use super::structs::{
    ActionResult,
    BuffEffect,
    BuffTickResult,
    Craft,
    CrafterStats,
    EffectiveBuff,
    Ingredient,
};
use super::tables::hq_percent_of;

verus! {

/// The roll that makes every action fail: it is above every chance of
/// success.
pub const FORCED_FAILURE_ROLL: u32 = 999;

/// How a run is carried out.
#[derive(Clone, Copy, Debug)]
pub struct RunMode {
    /// No dice: every action that is not scripted to fail succeeds, and the
    /// condition does not move by itself.
    pub linear: bool,
    /// The number of recorded steps from which on nothing is carried out.
    pub max_steps: usize,
    /// Whether an action that could fail, or that waits for a condition, is
    /// turned down.
    pub safe: bool,
}

/// The two rolls of a step: one in 0..100 for the success of the action, one
/// below the total weight of the conditions for the condition that follows.
#[derive(Clone, Copy, Debug)]
pub struct StepRolls {
    pub success: u32,
    pub condition: u32,
}

/// The duration of a buff that is applied on this condition: two steps more
/// while the condition is Primed, and never more than `UNLIMITED`.
pub open spec fn lengthened(duration: i32, condition: StepState) -> i32 {
    if condition == StepState::Primed {
        if duration > UNLIMITED - 2 {
            UNLIMITED
        } else {
            (duration + 2) as i32
        }
    } else {
        duration
    }
}

/// The record of a step on which nothing was carried out.
pub open spec fn skipped_step(
    action: CraftingActionEnum,
    cause: Option<FailCause>,
    condition: StepState,
) -> ActionResult {
    ActionResult {
        action,
        success: None,
        fail_cause: cause,
        added_progression: 0,
        added_quality: 0,
        cp_difference: 0,
        solidity_difference: 0,
        skipped: true,
        combo: None,
        state: condition,
        after_buff_tick: None,
    }
}

/// The quality as a percentage of the recipe's, floored and never above one
/// hundred. A recipe of quality zero is at one hundred percent as soon as
/// there is any quality.
pub open spec fn quality_percent(quality: u32, full: u32) -> u32 {
    if full == 0 {
        if quality > 0 {
            100
        } else {
            0
        }
    } else if (quality * 100) / (full as int) > 100 {
        100
    } else {
        ((quality * 100) / (full as int)) as u32
    }
}

/// The fail cause of the first step at or after `from` that has one.
pub open spec fn first_cause_from(steps: Seq<ActionResult>, from: int) -> Option<FailCause>
    decreases steps.len() - from,
{
    if from < 0 || from >= steps.len() {
        None
    } else if steps[from].fail_cause is Some {
        steps[from].fail_cause
    } else {
        first_cause_from(steps, from + 1)
    }
}

/// The quality of the first ingredient at or after `from` that has the id;
/// zero where there is no such ingredient or where it names no quality.
pub open spec fn quality_of(ingredients: Seq<Ingredient>, id: Seq<char>, from: int) -> u32
    decreases ingredients.len() - from,
{
    if from < 0 || from >= ingredients.len() {
        0
    } else if ingredients[from].id@ == id {
        match ingredients[from].quality {
            Some(quality) => quality,
            None => 0,
        }
    } else {
        quality_of(ingredients, id, from + 1)
    }
}

/// The quality that the first `n` high-quality ingredients bring in: for
/// each of them the quality that the recipe names for its id, times its
/// amount. The sum stops at the largest `u32`.
pub open spec fn starting_quality_upto(
    ingredients: Seq<Ingredient>,
    supplied: Seq<Ingredient>,
    n: int,
) -> u32
    decreases n,
{
    if n <= 0 || n > supplied.len() {
        0
    } else {
        clamp_u32(
            starting_quality_upto(ingredients, supplied, n - 1) + quality_of(
                ingredients,
                supplied[n - 1].id@,
                0,
            ) * supplied[n - 1].amount,
        )
    }
}

/// The quality that high-quality ingredients bring in.
pub open spec fn starting_quality_of(ingredients: Seq<Ingredient>, supplied: Seq<Ingredient>) -> u32 {
    starting_quality_upto(ingredients, supplied, supplied.len() as int)
}

/// The rolls are such as the dice of a run can give: in linear mode no dice
/// are thrown and every roll is zero; otherwise each success roll is below
/// one hundred and each condition roll below the total weight.
pub open spec fn admissible(rolls: Seq<StepRolls>, linear: bool, total: int) -> bool {
    forall|i: int|
        0 <= i < rolls.len() ==> if linear {
            (#[trigger] rolls[i]).success == 0 && rolls[i].condition == 0
        } else {
            (#[trigger] rolls[i]).success < 100 && rolls[i].condition < total
        }
}

impl SimulationView {
    /// The durability that the session starts from and that no repair
    /// exceeds.
    pub open spec fn max_durability(self) -> i32 {
        clamp_i32(self.recipe.durability as int)
    }

    /// The session without its first buff of the kind.
    pub open spec fn without_buff(self, kind: Buff) -> SimulationView {
        SimulationView { buffs: without(self.buffs, kind), ..self }
    }

    /// The session with one more buff at the end of its list.
    pub open spec fn with_buff(self, buff: EffectiveBuff) -> SimulationView {
        SimulationView { buffs: self.buffs.push(buff), ..self }
    }

    /// The session after a repair: durability rises by the amount, up to the
    /// durability of the recipe.
    pub open spec fn repair(self, amount: u32) -> SimulationView {
        SimulationView {
            durability: if self.durability + amount < self.max_durability() {
                (self.durability + amount) as i32
            } else {
                self.max_durability()
            },
            ..self
        }
    }

    /// The session with this many more stacks of Inner Quiet, ten at most.
    /// Where Inner Quiet is not active yet it becomes so, without a limit in
    /// time.
    pub open spec fn add_inner_quiet_stacks(self, stacks: u32) -> SimulationView {
        if holds(self.buffs, Buff::InnerQuiet) {
            let at = position(self.buffs, Buff::InnerQuiet);
            let grown = EffectiveBuff {
                stacks: if self.buffs[at].stacks + stacks < 10 {
                    (self.buffs[at].stacks + stacks) as u32
                } else {
                    10
                },
                ..self.buffs[at]
            };
            SimulationView { buffs: self.buffs.update(at, grown), ..self }
        } else {
            self.with_buff(
                EffectiveBuff {
                    duration: UNLIMITED,
                    stacks: if stacks < 10 {
                        stacks
                    } else {
                        10
                    },
                    buff: Buff::InnerQuiet,
                    applied_step: step_count(self.steps),
                    tick: None,
                    on_expire: None,
                },
            )
        }
    }

    /// What scales the progress of the action now.
    pub open spec fn progress_factors(self, action: CraftingActionEnum) -> ProgressFactors {
        ProgressFactors {
            base_condition: action.base_condition(),
            malleable: self.state == StepState::Malleable,
            base_bonus: action.base_bonus(),
            muscle_memory: self.has_buff(Buff::MuscleMemory),
            veneration: self.has_buff(Buff::Veneration),
        }
    }

    /// The progress that the action adds now, by the formula.
    pub open spec fn progress_increase(self, action: CraftingActionEnum) -> u32 {
        progress_gain(self.base_progression(), self.progress_factors(action), self.potency(action))
    }

    /// The session after the action added its progress: Muscle Memory is used
    /// up; and where Final Appraisal is active and the progress would reach
    /// the recipe's, it stops one short of it and Final Appraisal is used up.
    pub open spec fn add_progress(self, action: CraftingActionEnum) -> SimulationView {
        let total = clamp_u32(self.progression + self.progress_increase(action));
        let used = self.without_buff(Buff::MuscleMemory);
        if self.has_buff(Buff::FinalAppraisal) && total >= self.recipe.progress {
            SimulationView {
                progression: if self.recipe.progress == 0 {
                    0
                } else {
                    (self.recipe.progress - 1) as u32
                },
                ..used.without_buff(Buff::FinalAppraisal)
            }
        } else {
            SimulationView { progression: total, ..used }
        }
    }

    /// What scales the quality of the action now.
    pub open spec fn quality_factors(self, action: CraftingActionEnum) -> QualityFactors {
        QualityFactors {
            base_condition: action.base_condition(),
            condition: self.state,
            splendorous: self.crafter_stats.splendorous,
            base_bonus: action.base_bonus(),
            great_strides: self.has_buff(Buff::GreatStrides),
            innovation: self.has_buff(Buff::Innovation),
        }
    }

    /// The quality that the action adds now, by the formula.
    pub open spec fn quality_increase(self, action: CraftingActionEnum) -> u32 {
        quality_gain(
            self.base_quality(),
            self.quality_factors(action),
            self.potency(action),
            self.inner_quiet(),
        )
    }

    /// The session after the action added its quality: Great Strides is used
    /// up.
    pub open spec fn add_quality(self, action: CraftingActionEnum) -> SimulationView {
        SimulationView {
            quality: clamp_u32(self.quality + self.quality_increase(action)),
            ..self.without_buff(Buff::GreatStrides)
        }
    }

    /// The stacks of Inner Quiet that a quality action earns: none below
    /// crafter level 11; from there on one, unless the caller asked to skip
    /// it, and those that the action adds of its own, which for Refined Touch
    /// is one where it is a combo.
    pub open spec fn stacks_earned(
        self,
        action: CraftingActionEnum,
        skip_stack_addition: bool,
    ) -> u32 {
        if self.crafter_stats.level@ < 11 {
            0
        } else {
            ((if skip_stack_addition {
                0int
            } else {
                1int
            }) + action.extra_stacks() + (if action == CraftingActionEnum::RefinedTouch
                && self.has_combo(action) {
                1int
            } else {
                0int
            })) as u32
        }
    }

    /// The session with the stacks that a quality action earned.
    pub open spec fn earn_stacks(self, stacks: u32) -> SimulationView {
        if stacks > 0 {
            self.add_inner_quiet_stacks(stacks)
        } else {
            self
        }
    }

    /// The buff that a buff action applies now.
    pub open spec fn applied_by(self, action: CraftingActionEnum, kind: Buff) -> EffectiveBuff {
        EffectiveBuff {
            duration: lengthened(action.buff_duration(), self.state),
            stacks: action.initial_stacks(),
            buff: kind,
            applied_step: step_count(self.steps),
            tick: action.tick_effect(),
            on_expire: action.expire_effect(),
        }
    }

    /// The session after a buff action: the buffs that the action overrides
    /// are cleared, its own first, and then its buff is applied.
    pub open spec fn apply_buff(self, action: CraftingActionEnum, kind: Buff) -> SimulationView {
        let cleared = self.without_buff(kind);
        let cleared = match action.also_overrides() {
            Some(other) => cleared.without_buff(other),
            None => cleared,
        };
        cleared.with_buff(self.applied_by(action, kind))
    }

    /// The buff that Muscle Memory leaves behind.
    pub open spec fn muscle_memory_buff(self) -> EffectiveBuff {
        EffectiveBuff {
            duration: lengthened(5, self.state),
            stacks: 0,
            buff: Buff::MuscleMemory,
            applied_step: step_count(self.steps),
            tick: None,
            on_expire: None,
        }
    }

    /// The session after Tricks of the Trade: 20 CP more, up to the size of
    /// the pool, where the condition is Good or Excellent or Heart and Soul
    /// stands in for it.
    pub open spec fn recover_cp(self) -> SimulationView {
        if self.has_buff(Buff::HeartAndSoul) || self.state.is_good_or_excellent() {
            SimulationView {
                available_cp: if self.available_cp + 20 > self.max_cp {
                    self.max_cp
                } else {
                    (self.available_cp + 20) as u32
                },
                ..self
            }
        } else {
            self
        }
    }

    /// The session after the action succeeded. Costs are not counted here.
    ///
    /// An action with a formula adds its progress, then its quality, then the
    /// stacks of Inner Quiet that it earned; Muscle Memory then leaves its
    /// buff and Byregot's Blessing takes Inner Quiet away. A buff action
    /// applies its buff. Of the others each has an effect of its own, or none.
    pub open spec fn execute(
        self,
        action: CraftingActionEnum,
        skip_stack_addition: bool,
    ) -> SimulationView {
        if action.adds_progress() || action.adds_quality() {
            let earned = self.stacks_earned(action, skip_stack_addition);
            let after = if action.adds_progress() {
                self.add_progress(action)
            } else {
                self
            };
            let after = if action.adds_quality() {
                after.add_quality(action).earn_stacks(earned)
            } else {
                after
            };
            match action {
                CraftingActionEnum::MuscleMemory => after.with_buff(self.muscle_memory_buff()),
                CraftingActionEnum::ByregotsBlessing => after.without_buff(Buff::InnerQuiet),
                _ => after,
            }
        } else {
            match action.applied_buff() {
                Some(kind) => self.apply_buff(action, kind),
                None => match action {
                    CraftingActionEnum::TrainedEye => SimulationView {
                        quality: self.recipe.quality,
                        ..self
                    },
                    CraftingActionEnum::MastersMend => self.repair(30),
                    CraftingActionEnum::ImmaculateMend => SimulationView {
                        durability: self.max_durability(),
                        ..self
                    },
                    CraftingActionEnum::TricksOfTheTrade => self.recover_cp(),
                    CraftingActionEnum::RemoveFinalAppraisal => self.without_buff(
                        Buff::FinalAppraisal,
                    ),
                    _ => self,
                },
            }
        }
    }

    /// The session after the action failed: no action of the catalog leaves a
    /// trace when it fails.
    pub open spec fn on_fail(self, action: CraftingActionEnum) -> SimulationView {
        self
    }

    /// The session after the effect of a buff, on a step that `action`
    /// occupies.
    pub open spec fn apply_effect(
        self,
        effect: Option<BuffEffect>,
        action: CraftingActionEnum,
    ) -> SimulationView {
        match effect {
            Some(BuffEffect::Repair(amount)) => self.repair(amount),
            Some(BuffEffect::ClearOnOffCondition(kind)) => if action.condition_gated()
                && !self.state.is_good_or_excellent() {
                self.without_buff(kind)
            } else {
                self
            },
            None => self,
        }
    }

    /// The session with one step less on its first buff of the kind.
    pub open spec fn decrement(self, kind: Buff) -> SimulationView {
        if holds(self.buffs, kind) {
            let at = position(self.buffs, kind);
            let older = EffectiveBuff {
                duration: if self.buffs[at].duration > i32::MIN {
                    (self.buffs[at].duration - 1) as i32
                } else {
                    i32::MIN
                },
                ..self.buffs[at]
            };
            SimulationView { buffs: self.buffs.update(at, older), ..self }
        } else {
            self
        }
    }

    /// The session after the first `n` buffs of the snapshot ticked: each
    /// buff that was applied on an earlier step has its tick effect, and then
    /// the active buff of its kind loses one step.
    pub open spec fn tick_pass(
        self,
        snapshot: Seq<EffectiveBuff>,
        action: CraftingActionEnum,
        n: int,
    ) -> SimulationView
        decreases n,
    {
        if n <= 0 || n > snapshot.len() {
            self
        } else {
            let before = self.tick_pass(snapshot, action, n - 1);
            let buff = snapshot[n - 1];
            if buff.applied_step < before.steps.len() {
                before.apply_effect(buff.tick, action).decrement(buff.buff)
            } else {
                before
            }
        }
    }

    /// The session after those of the first `n` buffs of the snapshot that
    /// have no time left had their expiry effect.
    pub open spec fn expire_pass(
        self,
        snapshot: Seq<EffectiveBuff>,
        action: CraftingActionEnum,
        n: int,
    ) -> SimulationView
        decreases n,
    {
        if n <= 0 || n > snapshot.len() {
            self
        } else {
            let before = self.expire_pass(snapshot, action, n - 1);
            let buff = snapshot[n - 1];
            if buff.duration <= 0 {
                before.apply_effect(buff.on_expire, action)
            } else {
                before
            }
        }
    }

    /// The session after a buff tick pass on a step that `action` occupies:
    /// the buffs as they stand tick in their order, then those that have run
    /// out have their expiry effect in their order, then they leave.
    pub open spec fn tick_buffs(self, action: CraftingActionEnum) -> SimulationView {
        let ticked = self.tick_pass(self.buffs, action, self.buffs.len() as int);
        let expired = ticked.expire_pass(ticked.buffs, action, ticked.buffs.len() as int);
        SimulationView { buffs: live(expired.buffs), ..expired }
    }

    /// Whether a safe run turns the action down: its chance of success is
    /// below one hundred, or it waits for a condition and Heart and Soul is
    /// not there to stand in.
    pub open spec fn is_unsafe(self, action: CraftingActionEnum) -> bool {
        self.success_rate(action) < 100 || (action.spec_requires_good() && !self.has_buff(
            Buff::HeartAndSoul,
        ))
    }

    /// Whether an attempt at the action succeeds on this roll.
    pub open spec fn succeeds(self, action: CraftingActionEnum, roll: u32, safe: bool) -> bool {
        !(safe && self.is_unsafe(action)) && self.success_rate(action) >= roll
    }

    /// The session after the attempt itself, before any cost is counted.
    pub open spec fn attempt(self, action: CraftingActionEnum, roll: u32, safe: bool) -> SimulationView {
        if safe && self.is_unsafe(action) {
            SimulationView { safe: false, ..self.on_fail(action) }
        } else if self.succeeds(action, roll, safe) {
            self.execute(action, false)
        } else {
            self.on_fail(action)
        }
    }

    /// The session after the durability cost of the action was counted:
    /// Trained Perfection is used up in place of a cost that is not zero.
    pub open spec fn pay_durability(self, action: CraftingActionEnum) -> SimulationView {
        if self.has_buff(Buff::TrainedPerfection) && self.durability_cost(action) > 0 {
            self.without_buff(Buff::TrainedPerfection)
        } else {
            SimulationView {
                durability: clamp_i32(self.durability - self.durability_cost(action)),
                ..self
            }
        }
    }

    /// The session after the CP cost of the action was counted.
    pub open spec fn pay_cp(self, action: CraftingActionEnum) -> SimulationView {
        SimulationView {
            available_cp: if self.available_cp >= self.cp_cost(action) {
                (self.available_cp - self.cp_cost(action)) as u32
            } else {
                0
            },
            ..self
        }
    }

    /// The session after it was looked at for an end of the craft: a
    /// success where the progress has reached the recipe's, and else a failure
    /// where no durability is left.
    pub open spec fn settle(self) -> SimulationView {
        if self.progression >= self.recipe.progress {
            SimulationView { success: Some(true), ..self }
        } else if self.durability <= 0 {
            SimulationView { success: Some(false), ..self }
        } else {
            self
        }
    }

    /// The session after one attempt at an action on the given roll: the
    /// attempt, the durability cost, the CP cost (both whether or not the
    /// action succeeded), then the look for an end of the craft.
    pub open spec fn after_action(
        self,
        action: CraftingActionEnum,
        roll: u32,
        safe: bool,
    ) -> SimulationView {
        self.attempt(action, roll, safe).pay_durability(action).pay_cp(action).settle()
    }

    /// The record of one attempt at an action on the given roll.
    pub open spec fn action_record(
        self,
        action: CraftingActionEnum,
        roll: u32,
        safe: bool,
    ) -> ActionResult {
        let after = self.after_action(action, roll, safe);
        ActionResult {
            action,
            success: Some(self.succeeds(action, roll, safe)),
            fail_cause: if after.progression < after.recipe.progress && after.durability <= 0 {
                Some(FailCause::DurabilityReachedZero)
            } else if safe && self.is_unsafe(action) {
                Some(FailCause::UnsafeAction)
            } else {
                None
            },
            added_progression: gained(after.progression, self.progression),
            added_quality: gained(after.quality, self.quality),
            cp_difference: signed_difference(after.available_cp, self.available_cp),
            solidity_difference: clamp_i32(after.durability - self.durability),
            skipped: false,
            combo: Some(self.has_combo(action)),
            state: after.state,
            after_buff_tick: None,
        }
    }

    /// What a buff tick pass added, from the session before it to this one.
    pub open spec fn tick_record(self, before: SimulationView) -> BuffTickResult {
        BuffTickResult {
            added_progression: gained(self.progression, before.progression),
            added_quality: gained(self.quality, before.quality),
            cp_difference: signed_difference(self.available_cp, before.available_cp),
            solidity_difference: clamp_i32(self.durability - before.durability),
        }
    }

    /// The weights of the conditions in this session.
    pub open spec fn odds(self) -> ConditionOdds {
        odds_of(
            self.possible_conditions,
            self.crafter_stats.level@,
            self.recipe.expert == Some(true),
        )
    }

    /// The session after the condition process moved on by one roll.
    pub open spec fn tick_state(self, roll: u32) -> SimulationView {
        SimulationView { state: next_condition(self.state, self.odds(), roll), ..self }
    }

    /// The condition that step `index` starts on: the scripted one where the
    /// script reaches that far, Normal otherwise, and Normal too where the
    /// script says that the step is to fail.
    pub open spec fn scripted_condition(self, index: int) -> StepState {
        if 0 <= index < self.step_states.len() && self.step_states[index] != StepState::Failure {
            self.step_states[index]
        } else {
            StepState::Normal
        }
    }

    /// The roll that decides step `index`: a failure where the script says
    /// so, a success in linear mode, and the dice otherwise.
    pub open spec fn effective_roll(self, index: usize, linear: bool, roll: u32) -> u32 {
        if self.fails.contains(index) {
            FORCED_FAILURE_ROLL
        } else if linear {
            0
        } else {
            roll
        }
    }

    /// Whether the action is carried out on this step: the craft is still
    /// undecided, the CP are there for its base cost, the step limit is not
    /// reached and the action can be used.
    pub open spec fn carries_out(self, action: CraftingActionEnum, mode: RunMode) -> bool {
        self.success is None && self.base_cp_cost(action) <= self.available_cp
            && self.steps.len() < mode.max_steps && self.can_be_used(action, mode.linear)
    }

    /// The fail cause that a step records where the action cannot be used or
    /// paid for: a lack of CP goes before any other cause.
    pub open spec fn refusal(self, action: CraftingActionEnum, mode: RunMode) -> Option<
        FailCause,
    > {
        if self.base_cp_cost(action) > self.available_cp {
            Some(FailCause::NotEnoughCP)
        } else if !self.can_be_used(action, mode.linear) {
            self.fail_cause(action, mode.safe)
        } else {
            None
        }
    }

    /// Whether the buffs tick after an attempt at the action with this
    /// outcome, this being the session after the attempt: the craft is still
    /// undecided, the action does not skip the ticks, and it did not fail
    /// while being one that skips them on failure.
    pub open spec fn ticks_after(self, action: CraftingActionEnum, succeeded: bool) -> bool {
        self.success is None && !action.spec_skips_buff_ticks() && (succeeded
            || !action.spec_skip_on_fail())
    }

    /// The session after step `index` of a run, on the given rolls.
    ///
    /// The step starts on its scripted condition. Where the action is carried
    /// out, the attempt is made and, unless ticking is suppressed, the buffs
    /// tick, and what the tick pass added is attached to the record; where it
    /// is not, the record is one of a skipped step, with the cause. Unless the
    /// run is linear or the action is one of the two that manage Final
    /// Appraisal, the condition process moves on. The record is added to the
    /// history last.
    #[verifier::opaque]
    pub open spec fn step(self, index: usize, mode: RunMode, rolls: StepRolls) -> SimulationView
        recommends
            index < self.actions.len(),
    {
        let action = self.actions[index as int];
        let start = SimulationView { state: self.scripted_condition(index as int), ..self };
        let roll = start.effective_roll(index, mode.linear, rolls.success);
        let carried = start.carries_out(action, mode);
        let acted = if carried {
            start.after_action(action, roll, mode.safe)
        } else {
            start
        };
        let record = if carried {
            start.action_record(action, roll, mode.safe)
        } else {
            skipped_step(action, start.refusal(action, mode), start.state)
        };
        let ticking = carried && acted.ticks_after(action, start.succeeds(action, roll, mode.safe));
        let ticked = if ticking {
            acted.tick_buffs(action)
        } else {
            acted
        };
        let record = if ticking {
            ActionResult { after_buff_tick: Some(ticked.tick_record(acted)), ..record }
        } else {
            record
        };
        let moved = if !mode.linear && action != CraftingActionEnum::FinalAppraisal && action
            != CraftingActionEnum::RemoveFinalAppraisal {
            ticked.tick_state(rolls.condition)
        } else {
            ticked
        };
        SimulationView { steps: moved.steps.push(record), ..moved }
    }

    /// The session after the first `n` steps of a run.
    pub open spec fn run_steps(self, mode: RunMode, rolls: Seq<StepRolls>, n: int) -> SimulationView
        decreases n,
    {
        if n <= 0 || n > rolls.len() || n > usize::MAX {
            self
        } else {
            self.run_steps(mode, rolls, n - 1).step((n - 1) as usize, mode, rolls[n - 1])
        }
    }

    /// Whether the craft is a success in the end: the progress has reached
    /// the recipe's, and the quality exceeds the required quality where the
    /// recipe has one.
    pub open spec fn succeeded(self) -> bool {
        self.progression >= self.recipe.progress && match self.recipe.required_quality {
            Some(required) => self.quality > required,
            None => true,
        }
    }

    /// Why the craft failed in the end: the cause of the first step that has
    /// one; where no step has one, a quality that is too low where the recipe
    /// requires a quality and the craft is no success; else nothing.
    pub open spec fn final_cause(self) -> Option<FailCause> {
        if first_cause_from(self.steps, 0) is Some {
            first_cause_from(self.steps, 0)
        } else if self.recipe.required_quality is Some && !self.succeeded() {
            Some(FailCause::QualityTooLow)
        } else {
            None
        }
    }

    /// The chance of a high-quality result in percent.
    pub open spec fn hq_percent(self) -> u32 {
        hq_percent_of(quality_percent(self.quality, self.recipe.quality))
    }

    /// A session before anything was done in it.
    pub open spec fn initial(
        recipe: Craft,
        crafter_stats: CrafterStats,
        actions: Seq<CraftingActionEnum>,
        starting_quality: u32,
        step_states: Seq<StepState>,
        fails: Seq<usize>,
    ) -> SimulationView {
        SimulationView {
            recipe,
            crafter_stats,
            actions,
            step_states,
            fails,
            progression: 0,
            starting_quality,
            quality: starting_quality,
            durability: clamp_i32(recipe.durability as int),
            state: StepState::Normal,
            max_cp: crafter_stats.cp,
            available_cp: crafter_stats.cp,
            buffs: Seq::empty(),
            success: None,
            steps: Seq::empty(),
            safe: false,
            possible_conditions: legal_conditions(recipe.conditions_flag),
        }
    }

    /// The session as it was before anything was done in it.
    pub open spec fn reset(self) -> SimulationView {
        SimulationView {
            success: None,
            progression: 0,
            durability: self.max_durability(),
            quality: self.starting_quality,
            buffs: Seq::empty(),
            steps: Seq::empty(),
            max_cp: self.crafter_stats.cp,
            available_cp: self.crafter_stats.cp,
            state: StepState::Normal,
            safe: false,
            ..self
        }
    }
}

} // verus!
