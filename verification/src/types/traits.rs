//! The action capability as traits, for callers who hold an action as a value
//! of its own type: each method answers for the action that `get_enum`
//! names.

use vstd::prelude::*;
use vstd::std_specs::convert::FromSpecImpl;
use super::enums::{ActionType, Buff, CraftingActionEnum, CraftingJob, FailCause};
use super::simulation::Simulation;
use super::structs::{BuffEffect, CraftingLevel, EffectiveBuff};

verus! {

/// What every action can be asked and told.
pub trait CraftingAction: Sized {
    /// The action.
    spec fn as_enum(&self) -> CraftingActionEnum;

    /// The action.
    fn get_enum(&self) -> (r: CraftingActionEnum)
        ensures
            r == self.as_enum(),
    ;

    /// Whether the action may be moved from position `current_index`.
    fn can_be_moved(&self, current_index: u32) -> (r: bool)
        ensures
            r == self.as_enum().movable_at(current_index),
    {
        self.get_enum().can_be_moved(current_index)
    }

    /// How many seconds a macro waits after the action.
    fn get_wait_duration(&self) -> (r: u32)
        ensures
            r == self.as_enum().wait_duration(),
    {
        self.get_enum().get_wait_duration()
    }

    /// Whether a failed attempt keeps the buffs from ticking on that step.
    fn skip_on_fail(&self) -> (r: bool)
        ensures
            r == self.as_enum().spec_skip_on_fail(),
    {
        self.get_enum().skip_on_fail()
    }

    /// Whether the action waits for a Good or Excellent condition.
    fn requires_good(&self) -> (r: bool)
        ensures
            r == self.as_enum().spec_requires_good(),
    {
        self.get_enum().requires_good()
    }

    /// Whether the buffs never tick on a step that the action occupies.
    fn skips_buff_ticks(&self) -> (r: bool)
        ensures
            r == self.as_enum().spec_skips_buff_ticks(),
    {
        self.get_enum().skips_buff_ticks()
    }

    /// Whether the action would be a combo now.
    fn has_combo(&self, simulation_state: &Simulation) -> (r: bool)
        ensures
            r == simulation_state@.has_combo(self.as_enum()),
    {
        self.get_enum().has_combo(simulation_state)
    }

    /// The discipline and the level that the action requires.
    fn get_level_requirement(&self) -> (r: (CraftingJob, CraftingLevel))
        ensures
            r.0 == self.as_enum().level_requirement().0,
            r.1@ == self.as_enum().level_requirement().1,
    {
        self.get_enum().get_level_requirement()
    }

    /// What the action is for.
    fn get_type(&self) -> (r: ActionType)
        ensures
            r == self.as_enum().action_type(),
    {
        self.get_enum().get_type()
    }

    /// The chance of success in percent, before the condition is counted.
    fn _get_success_rate(&self, simulation_state: &Simulation) -> (r: u32)
        ensures
            r == self.as_enum().base_success_rate(),
    {
        self.get_enum()._get_success_rate(simulation_state)
    }

    /// The chance of success in percent: 25 more while the condition is
    /// Centered.
    fn get_success_rate(&self, simulation_state: &Simulation) -> (r: u32)
        ensures
            r == simulation_state@.success_rate(self.as_enum()),
    {
        self.get_enum().get_success_rate(simulation_state)
    }

    /// Whether the action can be used now, outside linear mode.
    fn can_be_used(&self, simulation_state: &Simulation) -> (r: bool)
        ensures
            r == simulation_state@.can_be_used(self.as_enum(), false),
    {
        self.get_enum().can_be_used(simulation_state)
    }

    /// Whether the action can be used now.
    fn can_be_used_linear(&self, simulation_state: &Simulation, linear: Option<bool>) -> (r: bool)
        ensures
            r == simulation_state@.can_be_used(self.as_enum(), linear == Some(true)),
    {
        self.get_enum().can_be_used_linear(simulation_state, linear)
    }

    /// Whether the action can be used now: level first, then stats, then what
    /// the action itself asks.
    fn can_be_used_with_flags(
        &self,
        simulation_state: &Simulation,
        linear: Option<bool>,
        safe: Option<bool>,
    ) -> (r: bool)
        ensures
            r == simulation_state@.can_be_used(self.as_enum(), linear == Some(true)),
    {
        self.get_enum().can_be_used_with_flags(simulation_state, linear, safe)
    }

    /// What the action itself asks of the session, beyond level and stats.
    fn _can_be_used(&self, simulation_state: &Simulation, linear: Option<bool>) -> (r: bool)
        ensures
            r == simulation_state@.usable(self.as_enum(), linear == Some(true)),
    {
        self.get_enum()._can_be_used(simulation_state, linear)
    }

    /// Why the action cannot be used, where the run is not safe.
    fn get_fail_cause(&self, simulation_state: &Simulation) -> (r: Option<FailCause>)
        ensures
            r == simulation_state@.fail_cause(self.as_enum(), false),
    {
        self.get_enum().get_fail_cause(simulation_state)
    }

    /// Why the action cannot be used.
    fn get_fail_cause_with_flags(
        &self,
        simulation_state: &Simulation,
        linear: Option<bool>,
        safe: Option<bool>,
    ) -> (r: Option<FailCause>)
        ensures
            r == simulation_state@.fail_cause(self.as_enum(), safe == Some(true)),
    {
        self.get_enum().get_fail_cause_with_flags(simulation_state, linear, safe)
    }

    /// What the action costs in CP: half the base cost, rounded up, while the
    /// condition is Pliant.
    fn get_cp_cost(&self, simulation_state: &Simulation) -> (r: u32)
        ensures
            r == simulation_state@.cp_cost(self.as_enum()),
    {
        self.get_enum().get_cp_cost(simulation_state)
    }

    /// What the action costs in CP before the condition is counted.
    fn get_base_cp_cost(&self, simulation_state: &Simulation) -> (r: u32)
        ensures
            r == simulation_state@.base_cp_cost(self.as_enum()),
    {
        self.get_enum().get_base_cp_cost(simulation_state)
    }

    /// What the action costs in durability.
    fn get_durability_cost(&self, simulation_state: &Simulation) -> (r: u32)
        ensures
            r == simulation_state@.durability_cost(self.as_enum()),
    {
        self.get_enum().get_durability_cost(simulation_state)
    }

    /// Carries the action out as a success, in a run that is not safe.
    fn execute(&self, simulation_state: &mut Simulation)
        ensures
            final(simulation_state)@ == old(simulation_state)@.execute(self.as_enum(), false),
    {
        self.get_enum().execute(simulation_state)
    }

    /// Carries the action out as a success.
    fn execute_with_safe_flag(&self, simulation_state: &mut Simulation, safe: bool)
        ensures
            final(simulation_state)@ == old(simulation_state)@.execute(self.as_enum(), false),
    {
        self.get_enum().execute_with_safe_flag(simulation_state, safe)
    }

    /// Carries the action out as a success: the change that the action makes
    /// to the session, costs aside.
    fn execute_with_flags(
        &self,
        simulation_state: &mut Simulation,
        safe: bool,
        skip_stack_addition: bool,
    )
        ensures
            final(simulation_state)@ == old(simulation_state)@.execute(
                self.as_enum(),
                skip_stack_addition,
            ),
    {
        self.get_enum().execute_with_flags(simulation_state, safe, skip_stack_addition)
    }

    /// What a failed attempt at the action leaves behind.
    fn on_fail(&self, simulation_state: &mut Simulation)
        ensures
            final(simulation_state)@ == old(simulation_state)@.on_fail(self.as_enum()),
    {
        self.get_enum().on_fail(simulation_state)
    }

    /// The base value of progress in the session.
    fn get_base_progression(&self, simulation_state: &Simulation) -> (r: u32)
        ensures
            r == simulation_state@.base_progression(),
    {
        simulation_state.get_base_progression()
    }

    /// The base value of quality in the session.
    fn get_base_quality(&self, simulation_state: &Simulation) -> (r: u32)
        ensures
            r == simulation_state@.base_quality(),
    {
        simulation_state.get_base_quality()
    }
}

/// An action whose effect follows from a potency by a formula.
pub trait GeneralAction: CraftingAction {
    /// The factor that the action starts the buff factor of its formula
    /// from, in percent.
    fn get_base_bonus(&self, simulation_state: &Simulation) -> (r: u8)
        ensures
            r == self.as_enum().base_bonus(),
    {
        self.get_enum().get_base_bonus()
    }

    /// The factor that the action starts the condition factor of its formula
    /// from, in percent.
    fn get_base_condition(&self, simulation_state: &Simulation) -> (r: u8)
        ensures
            r == self.as_enum().base_condition(),
    {
        self.get_enum().get_base_condition()
    }

    /// The potency of the action in percent.
    fn get_potency(&self, simulation_state: &Simulation) -> (r: u32)
        ensures
            r == simulation_state@.potency(self.as_enum()),
    {
        self.get_enum().get_potency(simulation_state)
    }

    /// What the action costs in durability before Waste Not and the condition
    /// are counted.
    fn get_base_durability_cost(&self, simulation_state: &Simulation) -> (r: u32)
        ensures
            r == self.as_enum().base_durability_cost(),
    {
        self.get_enum().get_base_durability_cost()
    }

    /// The chance of success in percent, before the condition is counted.
    fn get_base_success_rate(&self, simulation_state: &Simulation) -> (r: u32)
        ensures
            r == self.as_enum().base_success_rate(),
    {
        self.get_enum().get_base_success_rate()
    }
}

/// An action that adds progress by the progress formula.
pub trait ProgressAction: GeneralAction {
    /// The action does add progress by the formula.
    proof fn adds_progress(&self)
        ensures
            self.as_enum().adds_progress(),
    ;
}

/// An action that adds quality by the quality formula.
pub trait QualityAction: GeneralAction {
    /// The action does add quality by the formula.
    proof fn adds_quality(&self)
        ensures
            self.as_enum().adds_quality(),
    ;
}

/// An action that applies a buff and does nothing else.
pub trait BuffAction: CraftingAction {
    /// The kind of buff that the action applies.
    spec fn kind(&self) -> Buff;

    /// The action does apply a buff of that kind.
    proof fn applies_kind(&self)
        ensures
            self.as_enum().applied_buff() == Some(self.kind()),
    ;

    /// The kind of buff that the action applies.
    fn get_buff(&self) -> (r: Buff)
        ensures
            r == self.kind(),
    ;

    /// For how many steps the buff lasts.
    fn get_duration(&self, simulation_state: &Simulation) -> (r: i32)
        ensures
            r == self.as_enum().buff_duration(),
    {
        self.get_enum().get_duration()
    }

    /// Whether the action may be used again while its buff is active.
    fn can_be_clipped(&self) -> (r: bool)
        ensures
            r == self.as_enum().spec_can_be_clipped(),
    {
        self.get_enum().can_be_clipped()
    }

    /// The buffs that the action clears before it applies its own.
    fn get_overrides(&self) -> (r: Vec<Buff>)
        ensures
            r@ == self.as_enum().overrides(),
    {
        self.get_enum().get_overrides()
    }

    /// The stacks that the buff starts with.
    fn get_initial_stacks(&self) -> (r: u32)
        ensures
            r == self.as_enum().initial_stacks(),
    {
        self.get_enum().get_initial_stacks()
    }

    /// What the buff does on each tick.
    fn get_tick(&self) -> (r: Option<BuffEffect>)
        ensures
            r == self.as_enum().tick_effect(),
    {
        self.get_enum().get_tick()
    }

    /// What the buff does when it runs out.
    fn get_on_expire(&self) -> (r: Option<BuffEffect>)
        ensures
            r == self.as_enum().expire_effect(),
    {
        self.get_enum().get_on_expire()
    }

    /// The buff that the action applies now: two steps longer while the
    /// condition is Primed.
    fn get_applied_buff(&self, simulation_state: &Simulation) -> (r: EffectiveBuff)
        ensures
            r == simulation_state@.applied_by(self.as_enum(), self.kind()),
    {
        let kind = self.get_buff();
        self.get_enum().get_applied_buff(simulation_state, kind)
    }
}

impl<A: CraftingAction> From<A> for CraftingActionEnum {
    fn from(action: A) -> (r: CraftingActionEnum) {
        action.get_enum()
    }
}

impl<A: CraftingAction> FromSpecImpl<A> for CraftingActionEnum {
    open spec fn obeys_from_spec() -> bool {
        true
    }

    open spec fn from_spec(action: A) -> CraftingActionEnum {
        action.as_enum()
    }
}

} // verus!
