//! What each action requires, costs and does in a given session: the
//! executable side of the action capability.

use vstd::prelude::*;
use super::enums::{Buff, CraftingActionEnum, FailCause, StepState};
use super::numeric::{
    compute_halved_cost,
    compute_progress_gain,
    compute_quality_gain,
    compute_reduced_durability_cost,
    ProgressFactors,
    QualityFactors,
};
use super::simulation::{count_steps, full_durability, is_true, Simulation};
use super::structs::EffectiveBuff;
use super::transitions::lengthened;

verus! {

/// Computes the duration of a buff that is applied on this condition.
pub fn compute_lengthened(duration: i32, condition: StepState) -> (r: i32)
    ensures
        r == lengthened(duration, condition),
{
    if condition == StepState::Primed {
        if duration > i32::MAX - 2 {
            i32::MAX
        } else {
            duration + 2
        }
    } else {
        duration
    }
}

impl CraftingActionEnum {
    /// Whether the action would be a combo now.
    pub fn has_combo(&self, simulation_state: &Simulation) -> (r: bool)
        ensures
            r == simulation_state@.has_combo(*self),
    {
        if *self == CraftingActionEnum::AdvancedTouch {
            simulation_state.advanced_touch_ready()
        } else {
            match self.get_combo_predecessor() {
                Some(wanted) => simulation_state.has_combo_available(&wanted),
                None => false,
            }
        }
    }

    /// What the action costs in CP before the condition is counted.
    pub fn get_base_cp_cost(&self, simulation_state: &Simulation) -> (r: u32)
        ensures
            r == simulation_state@.base_cp_cost(*self),
    {
        if self.has_combo(simulation_state) {
            self.get_combo_cp_cost()
        } else {
            self.get_plain_cp_cost()
        }
    }

    /// What the action costs in CP: half the base cost, rounded up, while the
    /// condition is Pliant.
    pub fn get_cp_cost(&self, simulation_state: &Simulation) -> (r: u32)
        ensures
            r == simulation_state@.cp_cost(*self),
            r <= simulation_state@.base_cp_cost(*self),
    {
        let base_cost = self.get_base_cp_cost(simulation_state);
        if simulation_state.state() == StepState::Pliant {
            compute_halved_cost(base_cost)
        } else {
            base_cost
        }
    }

    /// What the action costs in durability.
    pub fn get_durability_cost(&self, simulation_state: &Simulation) -> (r: u32)
        ensures
            r == simulation_state@.durability_cost(*self),
    {
        let waste_not = simulation_state.has_buff(Buff::WasteNot) || simulation_state.has_buff(
            Buff::WasteNotII,
        );
        compute_reduced_durability_cost(
            self.get_base_durability_cost(),
            waste_not,
            simulation_state.state() == StepState::Sturdy,
        )
    }

    /// The chance of success in percent, before the condition is counted.
    pub fn _get_success_rate(&self, simulation_state: &Simulation) -> (r: u32)
        ensures
            r == self.base_success_rate(),
    {
        self.get_base_success_rate()
    }

    /// The chance of success in percent.
    pub fn get_success_rate(&self, simulation_state: &Simulation) -> (r: u32)
        ensures
            r == simulation_state@.success_rate(*self),
    {
        let base_rate = self._get_success_rate(simulation_state);
        if simulation_state.state() == StepState::Centered {
            base_rate + 25
        } else {
            base_rate
        }
    }

    /// The potency of the action in percent.
    pub fn get_potency(&self, simulation_state: &Simulation) -> (r: u32)
        ensures
            r == simulation_state@.potency(*self),
    {
        let level = simulation_state.crafter_stats.level.value();
        match self {
            CraftingActionEnum::BasicSynthesis => if level >= 31 {
                120
            } else {
                100
            },
            CraftingActionEnum::CarefulSynthesis => if level >= 82 {
                180
            } else {
                150
            },
            CraftingActionEnum::PrudentSynthesis => 180,
            CraftingActionEnum::RapidSynthesis => if level >= 63 {
                500
            } else {
                250
            },
            CraftingActionEnum::Groundwork => {
                let full: u32 = if level >= 86 {
                    360
                } else {
                    300
                };
                if simulation_state.has_buff(Buff::TrainedPerfection)
                    || simulation_state.durability as i64 >= self.get_durability_cost(
                    simulation_state,
                ) as i64 {
                    full
                } else {
                    full / 2
                }
            },
            CraftingActionEnum::MuscleMemory => 300,
            CraftingActionEnum::IntensiveSynthesis => 400,
            CraftingActionEnum::BasicTouch => 100,
            CraftingActionEnum::StandardTouch => 125,
            CraftingActionEnum::AdvancedTouch => 150,
            CraftingActionEnum::HastyTouch => 100,
            CraftingActionEnum::ByregotsBlessing => {
                let grown: u64 = simulation_state.inner_quiet_stacks() as u64 * 20 + 100;
                if grown < 300 {
                    grown as u32
                } else {
                    300
                }
            },
            CraftingActionEnum::PreciseTouch => 150,
            CraftingActionEnum::PrudentTouch => 100,
            CraftingActionEnum::PreparatoryTouch => 200,
            CraftingActionEnum::Reflect => 300,
            CraftingActionEnum::TrainedFinesse => 100,
            CraftingActionEnum::DaringTouch => 150,
            CraftingActionEnum::RefinedTouch => 100,
            CraftingActionEnum::DelicateSynthesis => 100,
            _ => 0,
        }
    }

    /// Whether the crafter has the level that the action requires.
    pub fn meets_level(&self, simulation_state: &Simulation) -> (r: bool)
        ensures
            r == simulation_state@.has_level(*self),
    {
        let (job, level) = self.get_level_requirement();
        match simulation_state.crafter_stats.levels.get(job) {
            Some(held) => held.value() >= level.value(),
            None => simulation_state.crafter_stats.level.value() >= level.value(),
        }
    }

    /// Whether the crafter has the craftsmanship and the control that the
    /// recipe demands.
    pub fn meets_stats(&self, simulation_state: &Simulation) -> (r: bool)
        ensures
            r == simulation_state@.has_stats(),
    {
        let craftsmanship_met = match simulation_state.recipe.craftsmanship_req {
            Some(least) => simulation_state.crafter_stats.craftsmanship >= least,
            None => true,
        };
        let control_met = match simulation_state.recipe.control_req {
            Some(least) => simulation_state.crafter_stats.control >= least,
            None => true,
        };
        craftsmanship_met && control_met
    }

    /// What the action itself asks of the session, beyond level and stats.
    /// A `linear` that is left out counts as unset.
    pub fn _can_be_used(&self, simulation_state: &Simulation, linear: Option<bool>) -> (r: bool)
        ensures
            r == simulation_state@.usable(*self, linear == Some(true)),
    {
        let linear = is_true(linear);
        if self.is_opener_only() && !simulation_state.has_only_free_actions() {
            return false;
        }
        if self.is_barred_by_waste_not() && (simulation_state.has_buff(Buff::WasteNot)
            || simulation_state.has_buff(Buff::WasteNotII)) {
            return false;
        }
        if self.is_specialist_only() && !simulation_state.crafter_stats.specialist {
            return false;
        }
        if self.is_once_per_craft() && simulation_state.has_recorded(*self) {
            return false;
        }
        if self.is_condition_gated() {
            let condition = simulation_state.state();
            let open = linear || simulation_state.has_buff(Buff::HeartAndSoul) || (
            !simulation_state.safe && (condition == StepState::Good || condition
                == StepState::Excellent));
            if !open {
                return false;
            }
        }
        match self.get_buff() {
            Some(kind) => {
                if !self.can_be_clipped() && simulation_state.has_buff(kind) {
                    return false;
                }
            },
            None => {},
        }
        match self {
            CraftingActionEnum::ByregotsBlessing => simulation_state.inner_quiet_stacks() > 0,
            CraftingActionEnum::TrainedFinesse => simulation_state.inner_quiet_stacks() == 10,
            CraftingActionEnum::TrainedEye => is_false(simulation_state.recipe.expert)
                && simulation_state.crafter_stats.level.value() as u32
                >= simulation_state.recipe.lvl.value() as u32 + 10 && simulation_state.steps.len()
                == 0,
            CraftingActionEnum::DaringTouch => simulation_state.has_combo_available(
                &CraftingActionEnum::HastyTouch,
            ),
            CraftingActionEnum::RemoveFinalAppraisal => simulation_state.has_buff(
                Buff::FinalAppraisal,
            ),
            _ => true,
        }
    }

    /// Whether the action can be used now, outside linear mode.
    pub fn can_be_used(&self, simulation_state: &Simulation) -> (r: bool)
        ensures
            r == simulation_state@.can_be_used(*self, false),
    {
        self.can_be_used_linear(simulation_state, None)
    }

    /// Whether the action can be used now.
    pub fn can_be_used_linear(&self, simulation_state: &Simulation, linear: Option<bool>) -> (r:
        bool)
        ensures
            r == simulation_state@.can_be_used(*self, linear == Some(true)),
    {
        self.can_be_used_with_flags(simulation_state, linear, None)
    }

    /// Whether the action can be used now: level first, then stats, then what
    /// the action itself asks. Whether the run is safe changes nothing here.
    pub fn can_be_used_with_flags(
        &self,
        simulation_state: &Simulation,
        linear: Option<bool>,
        safe: Option<bool>,
    ) -> (r: bool)
        ensures
            r == simulation_state@.can_be_used(*self, linear == Some(true)),
    {
        self.meets_level(simulation_state) && self.meets_stats(simulation_state)
            && self._can_be_used(simulation_state, linear)
    }

    /// Why the action cannot be used, where the run is not safe.
    pub fn get_fail_cause(&self, simulation_state: &Simulation) -> (r: Option<FailCause>)
        ensures
            r == simulation_state@.fail_cause(*self, false),
    {
        self.get_fail_cause_with_flags(simulation_state, None, None)
    }

    /// Why the action cannot be used: a safe run that meets a chance below one
    /// hundred, the level, the stats, then the action's own cause.
    pub fn get_fail_cause_with_flags(
        &self,
        simulation_state: &Simulation,
        linear: Option<bool>,
        safe: Option<bool>,
    ) -> (r: Option<FailCause>)
        ensures
            r == simulation_state@.fail_cause(*self, safe == Some(true)),
    {
        if is_true(safe) && self.get_success_rate(simulation_state) < 100 {
            Some(FailCause::UnsafeAction)
        } else if !self.meets_level(simulation_state) {
            Some(FailCause::MissingLevelRequirement)
        } else if !self.meets_stats(simulation_state) {
            Some(FailCause::MissingStatsRequirement)
        } else if self.is_specialist_only() && !simulation_state.crafter_stats.specialist {
            Some(FailCause::NotSpecialist)
        } else if *self == CraftingActionEnum::ByregotsBlessing && is_false(
            simulation_state.success,
        ) && !simulation_state.has_buff(Buff::InnerQuiet) {
            Some(FailCause::NoInnerQuiet)
        } else {
            None
        }
    }

    /// The buff that a buff action applies now, of the kind given.
    pub fn get_applied_buff(&self, simulation_state: &Simulation, kind: Buff) -> (r: EffectiveBuff)
        ensures
            r == simulation_state@.applied_by(*self, kind),
    {
        EffectiveBuff {
            duration: compute_lengthened(self.get_duration(), simulation_state.state()),
            stacks: self.get_initial_stacks(),
            buff: kind,
            applied_step: count_steps(&simulation_state.steps),
            tick: self.get_tick(),
            on_expire: self.get_on_expire(),
        }
    }

    /// Carries the action out as a success, in a run that is not safe.
    pub fn execute(&self, simulation_state: &mut Simulation)
        ensures
            final(simulation_state)@ == old(simulation_state)@.execute(*self, false),
    {
        self.execute_with_safe_flag(simulation_state, false)
    }

    /// Carries the action out as a success.
    pub fn execute_with_safe_flag(&self, simulation_state: &mut Simulation, safe: bool)
        ensures
            final(simulation_state)@ == old(simulation_state)@.execute(*self, false),
    {
        self.execute_with_flags(simulation_state, safe, false)
    }

    /// Carries the action out as a success: the change that the action makes
    /// to the session, costs aside. With `skip_stack_addition` a quality
    /// action does not earn its regular stack of Inner Quiet. Whether the run
    /// is safe changes nothing here.
    pub fn execute_with_flags(
        &self,
        simulation_state: &mut Simulation,
        safe: bool,
        skip_stack_addition: bool,
    )
        ensures
            final(simulation_state)@ == old(simulation_state)@.execute(*self, skip_stack_addition),
    {
        if self.does_add_progress() || self.does_add_quality() {
            let earned = stacks_earned(self, simulation_state, skip_stack_addition);
            let left_behind = muscle_memory_buff(simulation_state);
            if self.does_add_progress() {
                add_progress(simulation_state, self);
            }
            if self.does_add_quality() {
                add_quality(simulation_state, self);
                if earned > 0 {
                    simulation_state.add_inner_quiet_stacks(earned);
                }
            }
            match self {
                CraftingActionEnum::MuscleMemory => {
                    simulation_state.add_buff(left_behind);
                },
                CraftingActionEnum::ByregotsBlessing => {
                    simulation_state.remove_buff(Buff::InnerQuiet);
                },
                _ => {},
            }
        } else {
            match self.get_buff() {
                Some(kind) => {
                    let applied = self.get_applied_buff(simulation_state, kind);
                    simulation_state.remove_buff(kind);
                    match self.get_also_overrides() {
                        Some(other) => {
                            simulation_state.remove_buff(other);
                        },
                        None => {},
                    }
                    simulation_state.add_buff(applied);
                },
                None => {
                    match self {
                        CraftingActionEnum::TrainedEye => {
                            simulation_state.quality = simulation_state.recipe.quality;
                        },
                        CraftingActionEnum::MastersMend => {
                            simulation_state.repair(30);
                        },
                        CraftingActionEnum::ImmaculateMend => {
                            simulation_state.durability = full_durability(
                                &simulation_state.recipe,
                            );
                        },
                        CraftingActionEnum::TricksOfTheTrade => {
                            recover_cp(simulation_state);
                        },
                        CraftingActionEnum::RemoveFinalAppraisal => {
                            simulation_state.remove_buff(Buff::FinalAppraisal);
                        },
                        _ => {},
                    }
                },
            }
        }
    }

    /// What a failed attempt at the action leaves behind: nothing, for every
    /// action of the catalog.
    pub fn on_fail(&self, simulation_state: &mut Simulation)
        ensures
            final(simulation_state)@ == old(simulation_state)@.on_fail(*self),
    {
    }
}

/// Whether an optional flag is there and unset.
pub fn is_false(flag: Option<bool>) -> (r: bool)
    ensures
        r == (flag == Some(false)),
{
    match flag {
        Some(set) => !set,
        None => false,
    }
}

/// The stacks of Inner Quiet that a quality action earns.
pub fn stacks_earned(
    action: &CraftingActionEnum,
    simulation_state: &Simulation,
    skip_stack_addition: bool,
) -> (r: u32)
    ensures
        r == simulation_state@.stacks_earned(*action, skip_stack_addition),
{
    if simulation_state.crafter_stats.level.value() < 11 {
        0
    } else {
        let regular: u32 = if skip_stack_addition {
            0
        } else {
            1
        };
        let refined: u32 = if *action == CraftingActionEnum::RefinedTouch && action.has_combo(
            simulation_state,
        ) {
            1
        } else {
            0
        };
        regular + action.get_extra_stacks() + refined
    }
}

/// The buff that Muscle Memory leaves behind.
pub fn muscle_memory_buff(simulation_state: &Simulation) -> (r: EffectiveBuff)
    ensures
        r == simulation_state@.muscle_memory_buff(),
{
    EffectiveBuff {
        duration: compute_lengthened(5, simulation_state.state()),
        stacks: 0,
        buff: Buff::MuscleMemory,
        applied_step: count_steps(&simulation_state.steps),
        tick: None,
        on_expire: None,
    }
}

/// Adds the progress of the action, by the formula.
pub fn add_progress(simulation_state: &mut Simulation, action: &CraftingActionEnum)
    ensures
        final(simulation_state)@ == old(simulation_state)@.add_progress(*action),
{
    let base = simulation_state.get_base_progression();
    let factors = ProgressFactors {
        base_condition: action.get_base_condition(),
        malleable: simulation_state.state() == StepState::Malleable,
        base_bonus: action.get_base_bonus(),
        muscle_memory: simulation_state.has_buff(Buff::MuscleMemory),
        veneration: simulation_state.has_buff(Buff::Veneration),
    };
    let appraised = simulation_state.has_buff(Buff::FinalAppraisal);
    let potency = action.get_potency(simulation_state);
    let gain = compute_progress_gain(base, factors, potency);
    let total: u32 = if gain > u32::MAX - simulation_state.progression {
        u32::MAX
    } else {
        simulation_state.progression + gain
    };
    simulation_state.remove_buff(Buff::MuscleMemory);
    if appraised && total >= simulation_state.recipe.progress {
        simulation_state.remove_buff(Buff::FinalAppraisal);
        simulation_state.progression = if simulation_state.recipe.progress == 0 {
            0
        } else {
            simulation_state.recipe.progress - 1
        };
    } else {
        simulation_state.progression = total;
    }
}

/// Adds the quality of the action, by the formula.
pub fn add_quality(simulation_state: &mut Simulation, action: &CraftingActionEnum)
    ensures
        final(simulation_state)@ == old(simulation_state)@.add_quality(*action),
{
    let base = simulation_state.get_base_quality();
    let factors = QualityFactors {
        base_condition: action.get_base_condition(),
        condition: simulation_state.state(),
        splendorous: simulation_state.crafter_stats.splendorous,
        base_bonus: action.get_base_bonus(),
        great_strides: simulation_state.has_buff(Buff::GreatStrides),
        innovation: simulation_state.has_buff(Buff::Innovation),
    };
    let potency = action.get_potency(simulation_state);
    let gain = compute_quality_gain(
        base,
        factors,
        potency,
        simulation_state.inner_quiet_stacks(),
    );
    let total: u32 = if gain > u32::MAX - simulation_state.quality {
        u32::MAX
    } else {
        simulation_state.quality + gain
    };
    simulation_state.remove_buff(Buff::GreatStrides);
    simulation_state.quality = total;
}

/// Gives 20 CP back, up to the size of the pool, where the condition is Good
/// or Excellent or Heart and Soul stands in for it.
pub fn recover_cp(simulation_state: &mut Simulation)
    ensures
        final(simulation_state)@ == old(simulation_state)@.recover_cp(),
{
    let condition = simulation_state.state();
    if simulation_state.has_buff(Buff::HeartAndSoul) || condition == StepState::Good || condition
        == StepState::Excellent {
        if simulation_state.available_cp as u64 + 20 > simulation_state.max_cp as u64 {
            simulation_state.available_cp = simulation_state.max_cp;
        } else {
            simulation_state.available_cp = simulation_state.available_cp + 20;
        }
    }
}

} // verus!
