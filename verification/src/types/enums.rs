//! The closed enumerations of the game: conditions, actions, buffs, jobs and
//! the reasons a step or a craft can fail.

use vstd::prelude::*;

verus! {

/// The condition of a step. `Failure` stands for "this step is forced to fail"
/// in a scripted list; the condition process never produces it.
#[derive(Clone, Copy, Debug, PartialEq, Eq, Hash, Structural)]
pub enum StepState {
    Failure,
    Normal,
    Good,
    Excellent,
    Poor,
    Centered,
    Sturdy,
    Pliant,
    Malleable,
    Primed,
    GoodOmen,
}

impl StepState {
    /// The position of the condition in the enumeration, starting at zero.
    pub open spec fn ordinal(self) -> nat {
        match self {
            StepState::Failure => 0,
            StepState::Normal => 1,
            StepState::Good => 2,
            StepState::Excellent => 3,
            StepState::Poor => 4,
            StepState::Centered => 5,
            StepState::Sturdy => 6,
            StepState::Pliant => 7,
            StepState::Malleable => 8,
            StepState::Primed => 9,
            StepState::GoodOmen => 10,
        }
    }

    /// The condition at a position of the enumeration, if there is one.
    pub open spec fn at_ordinal(n: nat) -> Option<StepState> {
        if n == 0 {
            Some(StepState::Failure)
        } else if n == 1 {
            Some(StepState::Normal)
        } else if n == 2 {
            Some(StepState::Good)
        } else if n == 3 {
            Some(StepState::Excellent)
        } else if n == 4 {
            Some(StepState::Poor)
        } else if n == 5 {
            Some(StepState::Centered)
        } else if n == 6 {
            Some(StepState::Sturdy)
        } else if n == 7 {
            Some(StepState::Pliant)
        } else if n == 8 {
            Some(StepState::Malleable)
        } else if n == 9 {
            Some(StepState::Primed)
        } else if n == 10 {
            Some(StepState::GoodOmen)
        } else {
            None
        }
    }

    /// The condition whose position in the enumeration is `n`; `None` of the
    /// option when `n` is past the last condition.
    pub fn from_usize(n: usize) -> (r: Option<StepState>)
        ensures
            r == Self::at_ordinal(n as nat),
            r matches Some(s) ==> s.ordinal() == n,
            r is Some <==> n <= 10,
    {
        match n {
            0 => Some(StepState::Failure),
            1 => Some(StepState::Normal),
            2 => Some(StepState::Good),
            3 => Some(StepState::Excellent),
            4 => Some(StepState::Poor),
            5 => Some(StepState::Centered),
            6 => Some(StepState::Sturdy),
            7 => Some(StepState::Pliant),
            8 => Some(StepState::Malleable),
            9 => Some(StepState::Primed),
            10 => Some(StepState::GoodOmen),
            _ => None,
        }
    }

    /// Whether the condition is Good or Excellent, the two that the
    /// condition-gated actions wait for.
    pub open spec fn is_good_or_excellent(self) -> bool {
        self == StepState::Good || self == StepState::Excellent
    }
}

/// What an action is for. It decides how long a macro waits after the action
/// and nothing else.
#[derive(Clone, Copy, Debug, PartialEq, Eq, Structural)]
pub enum ActionType {
    Progression,
    Quality,
    CPRecovery,
    Buff,
    Specialty,
    Repair,
    Other,
}

/// Every action a crafter can take.
#[derive(Clone, Copy, Debug, PartialEq, Eq, Structural)]
pub enum CraftingActionEnum {
    // Progress actions
    BasicSynthesis,
    CarefulSynthesis,
    PrudentSynthesis,
    RapidSynthesis,
    Groundwork,
    MuscleMemory,
    IntensiveSynthesis,
    // Quality actions
    BasicTouch,
    StandardTouch,
    AdvancedTouch,
    HastyTouch,
    ByregotsBlessing,
    PreciseTouch,
    PrudentTouch,
    TrainedEye,
    PreparatoryTouch,
    Reflect,
    TrainedFinesse,
    DaringTouch,
    RefinedTouch,
    // CP recovery
    TricksOfTheTrade,
    // Repair
    MastersMend,
    Manipulation,
    ImmaculateMend,
    // Buffs
    WasteNot,
    WasteNotII,
    GreatStrides,
    Innovation,
    Veneration,
    FinalAppraisal,
    QuickInnovation,
    TrainedPerfection,
    // Other
    Observe,
    HeartAndSoul,
    CarefulObservation,
    DelicateSynthesis,
    RemoveFinalAppraisal,
}

/// The kinds of temporary effect a session can carry.
#[derive(Clone, Copy, Debug, PartialEq, Eq, Structural)]
pub enum Buff {
    InnerQuiet,
    WasteNot,
    WasteNotII,
    Manipulation,
    GreatStrides,
    Innovation,
    Veneration,
    MakersMark,
    MuscleMemory,
    FinalAppraisal,
    HeartAndSoul,
    TrainedPerfection,
}

/// A crafting discipline, or `Any` where a requirement names none.
#[derive(Clone, Copy, Debug, PartialEq, Eq, Structural)]
pub enum CraftingJob {
    Any,
    Carpenter,
    Blacksmith,
    Armorer,
    Goldsmith,
    Leatherworker,
    Weaver,
    Alchemist,
    Culinarian,
}

/// Why a step was not carried out, or why the craft as a whole failed.
#[derive(Clone, Copy, Debug, PartialEq, Eq, Structural)]
pub enum FailCause {
    UnsafeAction,
    DurabilityReachedZero,
    NotEnoughCP,
    MissingLevelRequirement,
    MissingStatsRequirement,
    NotSpecialist,
    NoInnerQuiet,
    QualityTooLow,
}

} // verus!
