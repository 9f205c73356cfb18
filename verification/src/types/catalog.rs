//! The catalog of actions: what each action requires, costs and applies, as
//! far as that does not depend on the session.

use vstd::prelude::*;
use super::enums::{ActionType, Buff, CraftingActionEnum, CraftingJob};
use super::structs::{BuffEffect, CraftingLevel};

verus! {

/// The duration of a buff that lasts until something uses it up.
pub const UNLIMITED: i32 = i32::MAX;

impl CraftingActionEnum {
    /// The crafter level from which the action can be used.
    pub open spec fn required_level(self) -> u8 {
        match self {
            CraftingActionEnum::BasicSynthesis => 1,
            CraftingActionEnum::CarefulSynthesis => 62,
            CraftingActionEnum::PrudentSynthesis => 88,
            CraftingActionEnum::RapidSynthesis => 9,
            CraftingActionEnum::Groundwork => 72,
            CraftingActionEnum::MuscleMemory => 54,
            CraftingActionEnum::IntensiveSynthesis => 78,
            CraftingActionEnum::BasicTouch => 5,
            CraftingActionEnum::StandardTouch => 18,
            CraftingActionEnum::AdvancedTouch => 84,
            CraftingActionEnum::HastyTouch => 9,
            CraftingActionEnum::ByregotsBlessing => 50,
            CraftingActionEnum::PreciseTouch => 53,
            CraftingActionEnum::PrudentTouch => 66,
            CraftingActionEnum::TrainedEye => 80,
            CraftingActionEnum::PreparatoryTouch => 71,
            CraftingActionEnum::Reflect => 69,
            CraftingActionEnum::TrainedFinesse => 90,
            CraftingActionEnum::DaringTouch => 96,
            CraftingActionEnum::RefinedTouch => 92,
            CraftingActionEnum::TricksOfTheTrade => 13,
            CraftingActionEnum::MastersMend => 7,
            CraftingActionEnum::Manipulation => 65,
            CraftingActionEnum::ImmaculateMend => 98,
            CraftingActionEnum::WasteNot => 15,
            CraftingActionEnum::WasteNotII => 47,
            CraftingActionEnum::GreatStrides => 21,
            CraftingActionEnum::Innovation => 26,
            CraftingActionEnum::Veneration => 15,
            CraftingActionEnum::FinalAppraisal => 42,
            CraftingActionEnum::QuickInnovation => 96,
            CraftingActionEnum::TrainedPerfection => 100,
            CraftingActionEnum::Observe => 13,
            CraftingActionEnum::HeartAndSoul => 86,
            CraftingActionEnum::CarefulObservation => 55,
            CraftingActionEnum::DelicateSynthesis => 76,
            CraftingActionEnum::RemoveFinalAppraisal => 42,
        }
    }

    /// The crafter level from which the action can be used.
    pub fn get_required_level(&self) -> (r: u8)
        ensures
            r == self.required_level(),
    {
        match self {
            CraftingActionEnum::BasicSynthesis => 1,
            CraftingActionEnum::CarefulSynthesis => 62,
            CraftingActionEnum::PrudentSynthesis => 88,
            CraftingActionEnum::RapidSynthesis => 9,
            CraftingActionEnum::Groundwork => 72,
            CraftingActionEnum::MuscleMemory => 54,
            CraftingActionEnum::IntensiveSynthesis => 78,
            CraftingActionEnum::BasicTouch => 5,
            CraftingActionEnum::StandardTouch => 18,
            CraftingActionEnum::AdvancedTouch => 84,
            CraftingActionEnum::HastyTouch => 9,
            CraftingActionEnum::ByregotsBlessing => 50,
            CraftingActionEnum::PreciseTouch => 53,
            CraftingActionEnum::PrudentTouch => 66,
            CraftingActionEnum::TrainedEye => 80,
            CraftingActionEnum::PreparatoryTouch => 71,
            CraftingActionEnum::Reflect => 69,
            CraftingActionEnum::TrainedFinesse => 90,
            CraftingActionEnum::DaringTouch => 96,
            CraftingActionEnum::RefinedTouch => 92,
            CraftingActionEnum::TricksOfTheTrade => 13,
            CraftingActionEnum::MastersMend => 7,
            CraftingActionEnum::Manipulation => 65,
            CraftingActionEnum::ImmaculateMend => 98,
            CraftingActionEnum::WasteNot => 15,
            CraftingActionEnum::WasteNotII => 47,
            CraftingActionEnum::GreatStrides => 21,
            CraftingActionEnum::Innovation => 26,
            CraftingActionEnum::Veneration => 15,
            CraftingActionEnum::FinalAppraisal => 42,
            CraftingActionEnum::QuickInnovation => 96,
            CraftingActionEnum::TrainedPerfection => 100,
            CraftingActionEnum::Observe => 13,
            CraftingActionEnum::HeartAndSoul => 86,
            CraftingActionEnum::CarefulObservation => 55,
            CraftingActionEnum::DelicateSynthesis => 76,
            CraftingActionEnum::RemoveFinalAppraisal => 42,
        }
    }

    /// What the action is for.
    pub open spec fn action_type(self) -> ActionType {
        match self {
            CraftingActionEnum::BasicSynthesis
            | CraftingActionEnum::CarefulSynthesis
            | CraftingActionEnum::PrudentSynthesis
            | CraftingActionEnum::RapidSynthesis
            | CraftingActionEnum::Groundwork
            | CraftingActionEnum::MuscleMemory
            | CraftingActionEnum::IntensiveSynthesis => ActionType::Progression,
            CraftingActionEnum::BasicTouch
            | CraftingActionEnum::StandardTouch
            | CraftingActionEnum::AdvancedTouch
            | CraftingActionEnum::HastyTouch
            | CraftingActionEnum::ByregotsBlessing
            | CraftingActionEnum::PreciseTouch
            | CraftingActionEnum::PrudentTouch
            | CraftingActionEnum::TrainedEye
            | CraftingActionEnum::PreparatoryTouch
            | CraftingActionEnum::Reflect
            | CraftingActionEnum::TrainedFinesse
            | CraftingActionEnum::DaringTouch
            | CraftingActionEnum::RefinedTouch => ActionType::Quality,
            CraftingActionEnum::TricksOfTheTrade => ActionType::CPRecovery,
            CraftingActionEnum::MastersMend
            | CraftingActionEnum::Manipulation
            | CraftingActionEnum::ImmaculateMend => ActionType::Repair,
            CraftingActionEnum::WasteNot
            | CraftingActionEnum::WasteNotII
            | CraftingActionEnum::GreatStrides
            | CraftingActionEnum::Innovation
            | CraftingActionEnum::Veneration
            | CraftingActionEnum::FinalAppraisal
            | CraftingActionEnum::QuickInnovation
            | CraftingActionEnum::TrainedPerfection => ActionType::Buff,
            _ => ActionType::Other,
        }
    }

    /// What the action is for.
    pub fn get_type(&self) -> (r: ActionType)
        ensures
            r == self.action_type(),
    {
        match self {
            CraftingActionEnum::BasicSynthesis
            | CraftingActionEnum::CarefulSynthesis
            | CraftingActionEnum::PrudentSynthesis
            | CraftingActionEnum::RapidSynthesis
            | CraftingActionEnum::Groundwork
            | CraftingActionEnum::MuscleMemory
            | CraftingActionEnum::IntensiveSynthesis => ActionType::Progression,
            CraftingActionEnum::BasicTouch
            | CraftingActionEnum::StandardTouch
            | CraftingActionEnum::AdvancedTouch
            | CraftingActionEnum::HastyTouch
            | CraftingActionEnum::ByregotsBlessing
            | CraftingActionEnum::PreciseTouch
            | CraftingActionEnum::PrudentTouch
            | CraftingActionEnum::TrainedEye
            | CraftingActionEnum::PreparatoryTouch
            | CraftingActionEnum::Reflect
            | CraftingActionEnum::TrainedFinesse
            | CraftingActionEnum::DaringTouch
            | CraftingActionEnum::RefinedTouch => ActionType::Quality,
            CraftingActionEnum::TricksOfTheTrade => ActionType::CPRecovery,
            CraftingActionEnum::MastersMend
            | CraftingActionEnum::Manipulation
            | CraftingActionEnum::ImmaculateMend => ActionType::Repair,
            CraftingActionEnum::WasteNot
            | CraftingActionEnum::WasteNotII
            | CraftingActionEnum::GreatStrides
            | CraftingActionEnum::Innovation
            | CraftingActionEnum::Veneration
            | CraftingActionEnum::FinalAppraisal
            | CraftingActionEnum::QuickInnovation
            | CraftingActionEnum::TrainedPerfection => ActionType::Buff,
            _ => ActionType::Other,
        }
    }

    /// What the action costs in CP where no combo makes it cheaper.
    pub open spec fn plain_cp_cost(self) -> u32 {
        match self {
            CraftingActionEnum::CarefulSynthesis
            | CraftingActionEnum::Observe => 7,
            CraftingActionEnum::PrudentSynthesis
            | CraftingActionEnum::Groundwork
            | CraftingActionEnum::BasicTouch
            | CraftingActionEnum::PreciseTouch
            | CraftingActionEnum::Innovation
            | CraftingActionEnum::Veneration => 18,
            CraftingActionEnum::MuscleMemory
            | CraftingActionEnum::IntensiveSynthesis
            | CraftingActionEnum::Reflect => 6,
            CraftingActionEnum::StandardTouch
            | CraftingActionEnum::TrainedFinesse
            | CraftingActionEnum::GreatStrides
            | CraftingActionEnum::DelicateSynthesis => 32,
            CraftingActionEnum::AdvancedTouch => 46,
            CraftingActionEnum::ByregotsBlessing
            | CraftingActionEnum::RefinedTouch => 24,
            CraftingActionEnum::PrudentTouch => 25,
            CraftingActionEnum::TrainedEye => 250,
            CraftingActionEnum::PreparatoryTouch => 40,
            CraftingActionEnum::MastersMend => 88,
            CraftingActionEnum::Manipulation => 96,
            CraftingActionEnum::ImmaculateMend => 112,
            CraftingActionEnum::WasteNot => 56,
            CraftingActionEnum::WasteNotII => 98,
            CraftingActionEnum::FinalAppraisal => 1,
            _ => 0,
        }
    }

    /// What the action costs in CP where no combo makes it cheaper.
    pub fn get_plain_cp_cost(&self) -> (r: u32)
        ensures
            r == self.plain_cp_cost(),
    {
        match self {
            CraftingActionEnum::CarefulSynthesis
            | CraftingActionEnum::Observe => 7,
            CraftingActionEnum::PrudentSynthesis
            | CraftingActionEnum::Groundwork
            | CraftingActionEnum::BasicTouch
            | CraftingActionEnum::PreciseTouch
            | CraftingActionEnum::Innovation
            | CraftingActionEnum::Veneration => 18,
            CraftingActionEnum::MuscleMemory
            | CraftingActionEnum::IntensiveSynthesis
            | CraftingActionEnum::Reflect => 6,
            CraftingActionEnum::StandardTouch
            | CraftingActionEnum::TrainedFinesse
            | CraftingActionEnum::GreatStrides
            | CraftingActionEnum::DelicateSynthesis => 32,
            CraftingActionEnum::AdvancedTouch => 46,
            CraftingActionEnum::ByregotsBlessing
            | CraftingActionEnum::RefinedTouch => 24,
            CraftingActionEnum::PrudentTouch => 25,
            CraftingActionEnum::TrainedEye => 250,
            CraftingActionEnum::PreparatoryTouch => 40,
            CraftingActionEnum::MastersMend => 88,
            CraftingActionEnum::Manipulation => 96,
            CraftingActionEnum::ImmaculateMend => 112,
            CraftingActionEnum::WasteNot => 56,
            CraftingActionEnum::WasteNotII => 98,
            CraftingActionEnum::FinalAppraisal => 1,
            _ => 0,
        }
    }

    /// What the action costs in durability before Waste Not and the condition
    /// are counted.
    pub open spec fn base_durability_cost(self) -> u32 {
        match self {
            CraftingActionEnum::BasicSynthesis
            | CraftingActionEnum::CarefulSynthesis
            | CraftingActionEnum::RapidSynthesis
            | CraftingActionEnum::MuscleMemory
            | CraftingActionEnum::IntensiveSynthesis
            | CraftingActionEnum::BasicTouch
            | CraftingActionEnum::StandardTouch
            | CraftingActionEnum::AdvancedTouch
            | CraftingActionEnum::HastyTouch
            | CraftingActionEnum::ByregotsBlessing
            | CraftingActionEnum::PreciseTouch
            | CraftingActionEnum::Reflect
            | CraftingActionEnum::DaringTouch
            | CraftingActionEnum::RefinedTouch
            | CraftingActionEnum::DelicateSynthesis => 10,
            CraftingActionEnum::PrudentSynthesis
            | CraftingActionEnum::PrudentTouch => 5,
            CraftingActionEnum::Groundwork
            | CraftingActionEnum::PreparatoryTouch => 20,
            _ => 0,
        }
    }

    /// What the action costs in durability before Waste Not and the condition
    /// are counted.
    pub fn get_base_durability_cost(&self) -> (r: u32)
        ensures
            r == self.base_durability_cost(),
    {
        match self {
            CraftingActionEnum::BasicSynthesis
            | CraftingActionEnum::CarefulSynthesis
            | CraftingActionEnum::RapidSynthesis
            | CraftingActionEnum::MuscleMemory
            | CraftingActionEnum::IntensiveSynthesis
            | CraftingActionEnum::BasicTouch
            | CraftingActionEnum::StandardTouch
            | CraftingActionEnum::AdvancedTouch
            | CraftingActionEnum::HastyTouch
            | CraftingActionEnum::ByregotsBlessing
            | CraftingActionEnum::PreciseTouch
            | CraftingActionEnum::Reflect
            | CraftingActionEnum::DaringTouch
            | CraftingActionEnum::RefinedTouch
            | CraftingActionEnum::DelicateSynthesis => 10,
            CraftingActionEnum::PrudentSynthesis
            | CraftingActionEnum::PrudentTouch => 5,
            CraftingActionEnum::Groundwork
            | CraftingActionEnum::PreparatoryTouch => 20,
            _ => 0,
        }
    }

    /// The chance of success in percent, before the condition is counted.
    pub open spec fn base_success_rate(self) -> u32 {
        match self {
            CraftingActionEnum::RapidSynthesis => 50,
            CraftingActionEnum::HastyTouch
            | CraftingActionEnum::DaringTouch => 60,
            _ => 100,
        }
    }

    /// The chance of success in percent, before the condition is counted.
    pub fn get_base_success_rate(&self) -> (r: u32)
        ensures
            r == self.base_success_rate(),
    {
        match self {
            CraftingActionEnum::RapidSynthesis => 50,
            CraftingActionEnum::HastyTouch
            | CraftingActionEnum::DaringTouch => 60,
            _ => 100,
        }
    }

    /// Whether a failed attempt at the action keeps the buffs from ticking on
    /// that step.
    pub open spec fn spec_skip_on_fail(self) -> bool {
        match self {
            CraftingActionEnum::Reflect
            | CraftingActionEnum::TricksOfTheTrade
            | CraftingActionEnum::MastersMend
            | CraftingActionEnum::Manipulation
            | CraftingActionEnum::WasteNot
            | CraftingActionEnum::WasteNotII
            | CraftingActionEnum::GreatStrides
            | CraftingActionEnum::Innovation
            | CraftingActionEnum::Veneration
            | CraftingActionEnum::FinalAppraisal
            | CraftingActionEnum::QuickInnovation
            | CraftingActionEnum::TrainedPerfection
            | CraftingActionEnum::Observe
            | CraftingActionEnum::HeartAndSoul
            | CraftingActionEnum::CarefulObservation => true,
            _ => false,
        }
    }

    /// Whether a failed attempt at the action keeps the buffs from ticking on
    /// that step.
    pub fn skip_on_fail(&self) -> (r: bool)
        ensures
            r == self.spec_skip_on_fail(),
    {
        match self {
            CraftingActionEnum::Reflect
            | CraftingActionEnum::TricksOfTheTrade
            | CraftingActionEnum::MastersMend
            | CraftingActionEnum::Manipulation
            | CraftingActionEnum::WasteNot
            | CraftingActionEnum::WasteNotII
            | CraftingActionEnum::GreatStrides
            | CraftingActionEnum::Innovation
            | CraftingActionEnum::Veneration
            | CraftingActionEnum::FinalAppraisal
            | CraftingActionEnum::QuickInnovation
            | CraftingActionEnum::TrainedPerfection
            | CraftingActionEnum::Observe
            | CraftingActionEnum::HeartAndSoul
            | CraftingActionEnum::CarefulObservation => true,
            _ => false,
        }
    }

    /// Whether the buffs never tick on a step that the action occupies.
    pub open spec fn spec_skips_buff_ticks(self) -> bool {
        match self {
            CraftingActionEnum::FinalAppraisal
            | CraftingActionEnum::QuickInnovation
            | CraftingActionEnum::HeartAndSoul
            | CraftingActionEnum::CarefulObservation
            | CraftingActionEnum::RemoveFinalAppraisal => true,
            _ => false,
        }
    }

    /// Whether the buffs never tick on a step that the action occupies.
    pub fn skips_buff_ticks(&self) -> (r: bool)
        ensures
            r == self.spec_skips_buff_ticks(),
    {
        match self {
            CraftingActionEnum::FinalAppraisal
            | CraftingActionEnum::QuickInnovation
            | CraftingActionEnum::HeartAndSoul
            | CraftingActionEnum::CarefulObservation
            | CraftingActionEnum::RemoveFinalAppraisal => true,
            _ => false,
        }
    }

    /// Whether the action waits for a Good or Excellent condition.
    pub open spec fn spec_requires_good(self) -> bool {
        match self {
            CraftingActionEnum::IntensiveSynthesis
            | CraftingActionEnum::PreciseTouch => true,
            _ => false,
        }
    }

    /// Whether the action waits for a Good or Excellent condition.
    pub fn requires_good(&self) -> (r: bool)
        ensures
            r == self.spec_requires_good(),
    {
        match self {
            CraftingActionEnum::IntensiveSynthesis
            | CraftingActionEnum::PreciseTouch => true,
            _ => false,
        }
    }

    /// The buff that the action applies, for the actions that do nothing else.
    pub open spec fn applied_buff(self) -> Option<Buff> {
        match self {
            CraftingActionEnum::WasteNot => Some(Buff::WasteNot),
            CraftingActionEnum::WasteNotII => Some(Buff::WasteNotII),
            CraftingActionEnum::Manipulation => Some(Buff::Manipulation),
            CraftingActionEnum::GreatStrides => Some(Buff::GreatStrides),
            CraftingActionEnum::Innovation
            | CraftingActionEnum::QuickInnovation => Some(Buff::Innovation),
            CraftingActionEnum::Veneration => Some(Buff::Veneration),
            CraftingActionEnum::FinalAppraisal => Some(Buff::FinalAppraisal),
            CraftingActionEnum::HeartAndSoul => Some(Buff::HeartAndSoul),
            CraftingActionEnum::TrainedPerfection => Some(Buff::TrainedPerfection),
            _ => None,
        }
    }

    /// The buff that the action applies, for the actions that do nothing else.
    pub fn get_buff(&self) -> (r: Option<Buff>)
        ensures
            r == self.applied_buff(),
    {
        match self {
            CraftingActionEnum::WasteNot => Some(Buff::WasteNot),
            CraftingActionEnum::WasteNotII => Some(Buff::WasteNotII),
            CraftingActionEnum::Manipulation => Some(Buff::Manipulation),
            CraftingActionEnum::GreatStrides => Some(Buff::GreatStrides),
            CraftingActionEnum::Innovation
            | CraftingActionEnum::QuickInnovation => Some(Buff::Innovation),
            CraftingActionEnum::Veneration => Some(Buff::Veneration),
            CraftingActionEnum::FinalAppraisal => Some(Buff::FinalAppraisal),
            CraftingActionEnum::HeartAndSoul => Some(Buff::HeartAndSoul),
            CraftingActionEnum::TrainedPerfection => Some(Buff::TrainedPerfection),
            _ => None,
        }
    }

    /// For how many steps the buff of a buff action lasts; `UNLIMITED` for one
    /// that lasts until it is used up, and 0 for an action that applies no buff.
    pub open spec fn buff_duration(self) -> i32 {
        match self {
            CraftingActionEnum::GreatStrides => 3,
            CraftingActionEnum::WasteNot
            | CraftingActionEnum::Innovation
            | CraftingActionEnum::Veneration => 4,
            CraftingActionEnum::FinalAppraisal => 5,
            CraftingActionEnum::WasteNotII
            | CraftingActionEnum::Manipulation => 8,
            CraftingActionEnum::QuickInnovation => 1,
            CraftingActionEnum::HeartAndSoul
            | CraftingActionEnum::TrainedPerfection => UNLIMITED,
            _ => 0,
        }
    }

    /// For how many steps the buff of a buff action lasts; `UNLIMITED` for one
    /// that lasts until it is used up, and 0 for an action that applies no buff.
    pub fn get_duration(&self) -> (r: i32)
        ensures
            r == self.buff_duration(),
    {
        match self {
            CraftingActionEnum::GreatStrides => 3,
            CraftingActionEnum::WasteNot
            | CraftingActionEnum::Innovation
            | CraftingActionEnum::Veneration => 4,
            CraftingActionEnum::FinalAppraisal => 5,
            CraftingActionEnum::WasteNotII
            | CraftingActionEnum::Manipulation => 8,
            CraftingActionEnum::QuickInnovation => 1,
            CraftingActionEnum::HeartAndSoul
            | CraftingActionEnum::TrainedPerfection => UNLIMITED,
            _ => 0,
        }
    }

    /// Whether a buff action may be used again while its buff is active.
    pub open spec fn spec_can_be_clipped(self) -> bool {
        match self {
            CraftingActionEnum::WasteNot
            | CraftingActionEnum::WasteNotII
            | CraftingActionEnum::Manipulation
            | CraftingActionEnum::GreatStrides
            | CraftingActionEnum::Innovation
            | CraftingActionEnum::Veneration
            | CraftingActionEnum::FinalAppraisal
            | CraftingActionEnum::HeartAndSoul => true,
            _ => false,
        }
    }

    /// Whether a buff action may be used again while its buff is active.
    pub fn can_be_clipped(&self) -> (r: bool)
        ensures
            r == self.spec_can_be_clipped(),
    {
        match self {
            CraftingActionEnum::WasteNot
            | CraftingActionEnum::WasteNotII
            | CraftingActionEnum::Manipulation
            | CraftingActionEnum::GreatStrides
            | CraftingActionEnum::Innovation
            | CraftingActionEnum::Veneration
            | CraftingActionEnum::FinalAppraisal
            | CraftingActionEnum::HeartAndSoul => true,
            _ => false,
        }
    }

    /// The second buff that a buff action clears before it applies its own.
    pub open spec fn also_overrides(self) -> Option<Buff> {
        match self {
            CraftingActionEnum::WasteNot => Some(Buff::WasteNotII),
            CraftingActionEnum::WasteNotII => Some(Buff::WasteNot),
            _ => None,
        }
    }

    /// The second buff that a buff action clears before it applies its own.
    pub fn get_also_overrides(&self) -> (r: Option<Buff>)
        ensures
            r == self.also_overrides(),
    {
        match self {
            CraftingActionEnum::WasteNot => Some(Buff::WasteNotII),
            CraftingActionEnum::WasteNotII => Some(Buff::WasteNot),
            _ => None,
        }
    }

    /// What the buff of a buff action does on each tick.
    pub open spec fn tick_effect(self) -> Option<BuffEffect> {
        match self {
            CraftingActionEnum::Manipulation => Some(BuffEffect::Repair(5)),
            CraftingActionEnum::HeartAndSoul => Some(BuffEffect::ClearOnOffCondition(Buff::HeartAndSoul)),
            _ => None,
        }
    }

    /// What the buff of a buff action does on each tick.
    pub fn get_tick(&self) -> (r: Option<BuffEffect>)
        ensures
            r == self.tick_effect(),
    {
        match self {
            CraftingActionEnum::Manipulation => Some(BuffEffect::Repair(5)),
            CraftingActionEnum::HeartAndSoul => Some(BuffEffect::ClearOnOffCondition(Buff::HeartAndSoul)),
            _ => None,
        }
    }

    /// The action whose success on the step before makes this one a combo.
    pub open spec fn combo_predecessor(self) -> Option<CraftingActionEnum> {
        match self {
            CraftingActionEnum::StandardTouch
            | CraftingActionEnum::RefinedTouch => Some(CraftingActionEnum::BasicTouch),
            CraftingActionEnum::AdvancedTouch => Some(CraftingActionEnum::StandardTouch),
            CraftingActionEnum::DaringTouch => Some(CraftingActionEnum::HastyTouch),
            _ => None,
        }
    }

    /// The action whose success on the step before makes this one a combo.
    pub fn get_combo_predecessor(&self) -> (r: Option<CraftingActionEnum>)
        ensures
            r == self.combo_predecessor(),
    {
        match self {
            CraftingActionEnum::StandardTouch
            | CraftingActionEnum::RefinedTouch => Some(CraftingActionEnum::BasicTouch),
            CraftingActionEnum::AdvancedTouch => Some(CraftingActionEnum::StandardTouch),
            CraftingActionEnum::DaringTouch => Some(CraftingActionEnum::HastyTouch),
            _ => None,
        }
    }

    /// What the action costs in CP as a combo.
    pub open spec fn combo_cp_cost(self) -> u32 {
        match self {
            CraftingActionEnum::StandardTouch
            | CraftingActionEnum::AdvancedTouch => 18,
            _ => self.plain_cp_cost(),
        }
    }

    /// What the action costs in CP as a combo.
    pub fn get_combo_cp_cost(&self) -> (r: u32)
        ensures
            r == self.combo_cp_cost(),
    {
        match self {
            CraftingActionEnum::StandardTouch
            | CraftingActionEnum::AdvancedTouch => 18,
            _ => self.get_plain_cp_cost(),
        }
    }

    /// By how many Inner Quiet stacks the action adds more than the one that
    /// every quality action adds.
    pub open spec fn extra_stacks(self) -> u32 {
        match self {
            CraftingActionEnum::PreciseTouch
            | CraftingActionEnum::PreparatoryTouch
            | CraftingActionEnum::Reflect => 1,
            _ => 0,
        }
    }

    /// By how many Inner Quiet stacks the action adds more than the one that
    /// every quality action adds.
    pub fn get_extra_stacks(&self) -> (r: u32)
        ensures
            r == self.extra_stacks(),
    {
        match self {
            CraftingActionEnum::PreciseTouch
            | CraftingActionEnum::PreparatoryTouch
            | CraftingActionEnum::Reflect => 1,
            _ => 0,
        }
    }

    /// Whether only a specialist can use the action.
    pub open spec fn specialist_only(self) -> bool {
        match self {
            CraftingActionEnum::HeartAndSoul
            | CraftingActionEnum::CarefulObservation
            | CraftingActionEnum::QuickInnovation => true,
            _ => false,
        }
    }

    /// Whether only a specialist can use the action.
    pub fn is_specialist_only(&self) -> (r: bool)
        ensures
            r == self.specialist_only(),
    {
        match self {
            CraftingActionEnum::HeartAndSoul
            | CraftingActionEnum::CarefulObservation
            | CraftingActionEnum::QuickInnovation => true,
            _ => false,
        }
    }

    /// Whether the action can be used once in a craft and no more.
    pub open spec fn once_per_craft(self) -> bool {
        match self {
            CraftingActionEnum::HeartAndSoul
            | CraftingActionEnum::QuickInnovation
            | CraftingActionEnum::TrainedPerfection => true,
            _ => false,
        }
    }

    /// Whether the action can be used once in a craft and no more.
    pub fn is_once_per_craft(&self) -> (r: bool)
        ensures
            r == self.once_per_craft(),
    {
        match self {
            CraftingActionEnum::HeartAndSoul
            | CraftingActionEnum::QuickInnovation
            | CraftingActionEnum::TrainedPerfection => true,
            _ => false,
        }
    }

    /// Whether the action is open only while nothing but actions that skip the
    /// buff ticks has been recorded.
    pub open spec fn opener_only(self) -> bool {
        match self {
            CraftingActionEnum::MuscleMemory
            | CraftingActionEnum::Reflect => true,
            _ => false,
        }
    }

    /// Whether the action is open only while nothing but actions that skip the
    /// buff ticks has been recorded.
    pub fn is_opener_only(&self) -> (r: bool)
        ensures
            r == self.opener_only(),
    {
        match self {
            CraftingActionEnum::MuscleMemory
            | CraftingActionEnum::Reflect => true,
            _ => false,
        }
    }

    /// Whether the action cannot be used under Waste Not or Waste Not II.
    pub open spec fn barred_by_waste_not(self) -> bool {
        match self {
            CraftingActionEnum::PrudentSynthesis
            | CraftingActionEnum::PrudentTouch => true,
            _ => false,
        }
    }

    /// Whether the action cannot be used under Waste Not or Waste Not II.
    pub fn is_barred_by_waste_not(&self) -> (r: bool)
        ensures
            r == self.barred_by_waste_not(),
    {
        match self {
            CraftingActionEnum::PrudentSynthesis
            | CraftingActionEnum::PrudentTouch => true,
            _ => false,
        }
    }

    /// Whether the action adds progress by the progress formula.
    pub open spec fn adds_progress(self) -> bool {
        match self {
            CraftingActionEnum::BasicSynthesis
            | CraftingActionEnum::CarefulSynthesis
            | CraftingActionEnum::PrudentSynthesis
            | CraftingActionEnum::RapidSynthesis
            | CraftingActionEnum::Groundwork
            | CraftingActionEnum::MuscleMemory
            | CraftingActionEnum::IntensiveSynthesis
            | CraftingActionEnum::DelicateSynthesis => true,
            _ => false,
        }
    }

    /// Whether the action adds progress by the progress formula.
    pub fn does_add_progress(&self) -> (r: bool)
        ensures
            r == self.adds_progress(),
    {
        match self {
            CraftingActionEnum::BasicSynthesis
            | CraftingActionEnum::CarefulSynthesis
            | CraftingActionEnum::PrudentSynthesis
            | CraftingActionEnum::RapidSynthesis
            | CraftingActionEnum::Groundwork
            | CraftingActionEnum::MuscleMemory
            | CraftingActionEnum::IntensiveSynthesis
            | CraftingActionEnum::DelicateSynthesis => true,
            _ => false,
        }
    }

    /// Whether the action adds quality by the quality formula.
    pub open spec fn adds_quality(self) -> bool {
        match self {
            CraftingActionEnum::BasicTouch
            | CraftingActionEnum::StandardTouch
            | CraftingActionEnum::AdvancedTouch
            | CraftingActionEnum::HastyTouch
            | CraftingActionEnum::ByregotsBlessing
            | CraftingActionEnum::PreciseTouch
            | CraftingActionEnum::PrudentTouch
            | CraftingActionEnum::PreparatoryTouch
            | CraftingActionEnum::Reflect
            | CraftingActionEnum::TrainedFinesse
            | CraftingActionEnum::DaringTouch
            | CraftingActionEnum::RefinedTouch
            | CraftingActionEnum::DelicateSynthesis => true,
            _ => false,
        }
    }

    /// Whether the action adds quality by the quality formula.
    pub fn does_add_quality(&self) -> (r: bool)
        ensures
            r == self.adds_quality(),
    {
        match self {
            CraftingActionEnum::BasicTouch
            | CraftingActionEnum::StandardTouch
            | CraftingActionEnum::AdvancedTouch
            | CraftingActionEnum::HastyTouch
            | CraftingActionEnum::ByregotsBlessing
            | CraftingActionEnum::PreciseTouch
            | CraftingActionEnum::PrudentTouch
            | CraftingActionEnum::PreparatoryTouch
            | CraftingActionEnum::Reflect
            | CraftingActionEnum::TrainedFinesse
            | CraftingActionEnum::DaringTouch
            | CraftingActionEnum::RefinedTouch
            | CraftingActionEnum::DelicateSynthesis => true,
            _ => false,
        }
    }

    /// The discipline and the level that the action requires. Every action of
    /// the catalog is open to all disciplines.
    pub open spec fn level_requirement(self) -> (CraftingJob, u8) {
        (CraftingJob::Any, self.required_level())
    }

    /// The discipline and the level that the action requires.
    pub fn get_level_requirement(&self) -> (r: (CraftingJob, CraftingLevel))
        ensures
            r.0 == self.level_requirement().0,
            r.1@ == self.level_requirement().1,
    {
        let level = self.get_required_level();
        (CraftingJob::Any, CraftingLevel::unchecked_new(level))
    }

    /// The buffs that a buff action clears before it applies its own: that
    /// buff itself, then the one named by `also_overrides`. Empty for an
    /// action that applies no buff.
    pub open spec fn overrides(self) -> Seq<Buff> {
        match (self.applied_buff(), self.also_overrides()) {
            (Some(own), Some(other)) => seq![own, other],
            (Some(own), None) => seq![own],
            (None, _) => Seq::empty(),
        }
    }

    /// The buffs that a buff action clears before it applies its own.
    pub fn get_overrides(&self) -> (r: Vec<Buff>)
        ensures
            r@ == self.overrides(),
    {
        let mut list: Vec<Buff> = Vec::new();
        match self.get_buff() {
            Some(own) => {
                list.push(own);
                match self.get_also_overrides() {
                    Some(other) => {
                        list.push(other);
                    },
                    None => {},
                }
            },
            None => {},
        }
        proof {
            assert(list@ =~= self.overrides());
        }
        list
    }

    /// The factor that the action starts the buff factor of its formula
    /// from, in percent: one hundred for every action of the catalog.
    pub open spec fn base_bonus(self) -> u8 {
        100
    }

    /// The factor that the action starts the buff factor of its formula
    /// from, in percent.
    pub fn get_base_bonus(&self) -> (r: u8)
        ensures
            r == self.base_bonus(),
    {
        100
    }

    /// The factor that the action starts the condition factor of its formula
    /// from, in percent: one hundred for every action of the catalog.
    pub open spec fn base_condition(self) -> u8 {
        100
    }

    /// The factor that the action starts the condition factor of its formula
    /// from, in percent.
    pub fn get_base_condition(&self) -> (r: u8)
        ensures
            r == self.base_condition(),
    {
        100
    }

    /// The stacks that the buff of a buff action starts with.
    pub open spec fn initial_stacks(self) -> u32 {
        0
    }

    /// The stacks that the buff of a buff action starts with.
    pub fn get_initial_stacks(&self) -> (r: u32)
        ensures
            r == self.initial_stacks(),
    {
        0
    }

    /// What the buff of a buff action does when it runs out: nothing, for
    /// every action of the catalog.
    pub open spec fn expire_effect(self) -> Option<BuffEffect> {
        None
    }

    /// What the buff of a buff action does when it runs out.
    pub fn get_on_expire(&self) -> (r: Option<BuffEffect>)
        ensures
            r == self.expire_effect(),
    {
        None
    }

    /// Whether the action may stand at position `current_index` of a rotation
    /// that is being rearranged: an opener may not be moved away from the
    /// front.
    pub open spec fn movable_at(self, current_index: u32) -> bool {
        self.opener_only() ==> current_index > 0
    }

    /// Whether the action may be moved from position `current_index`.
    pub fn can_be_moved(&self, current_index: u32) -> (r: bool)
        ensures
            r == self.movable_at(current_index),
    {
        !self.is_opener_only() || current_index > 0
    }

    /// How many seconds a macro waits after the action: two after a buff and
    /// after Manipulation, three after anything else.
    pub open spec fn wait_duration(self) -> u32 {
        if self.action_type() == ActionType::Buff || self == CraftingActionEnum::Manipulation {
            2
        } else {
            3
        }
    }

    /// How many seconds a macro waits after the action.
    pub fn get_wait_duration(&self) -> (r: u32)
        ensures
            r == self.wait_duration(),
    {
        if self.get_type() == ActionType::Buff || *self == CraftingActionEnum::Manipulation {
            2
        } else {
            3
        }
    }

    /// Whether the action is one of those that need a Good or Excellent
    /// condition, or Heart and Soul in its place, to do anything.
    pub open spec fn condition_gated(self) -> bool {
        self.spec_requires_good() || self == CraftingActionEnum::TricksOfTheTrade
    }

    /// Whether the action needs a Good or Excellent condition to do anything.
    pub fn is_condition_gated(&self) -> (r: bool)
        ensures
            r == self.condition_gated(),
    {
        self.requires_good() || *self == CraftingActionEnum::TricksOfTheTrade
    }
}

} // verus!
