//! The actions that add quality.

use vstd::prelude::*;
use super::super::enums::{CraftingActionEnum};
use super::super::traits::{CraftingAction, GeneralAction, QualityAction};

verus! {

/// Adds quality.
#[derive(Clone, Copy, Debug, PartialEq, Eq, Structural)]
pub struct BasicTouch;

impl CraftingAction for BasicTouch {
    open spec fn as_enum(&self) -> CraftingActionEnum {
        CraftingActionEnum::BasicTouch
    }

    fn get_enum(&self) -> (r: CraftingActionEnum) {
        CraftingActionEnum::BasicTouch
    }
}

impl GeneralAction for BasicTouch {
}

impl QualityAction for BasicTouch {
    proof fn adds_quality(&self) {
    }
}

/// Adds more quality than Basic Touch; cheaper right after it.
#[derive(Clone, Copy, Debug, PartialEq, Eq, Structural)]
pub struct StandardTouch;

impl CraftingAction for StandardTouch {
    open spec fn as_enum(&self) -> CraftingActionEnum {
        CraftingActionEnum::StandardTouch
    }

    fn get_enum(&self) -> (r: CraftingActionEnum) {
        CraftingActionEnum::StandardTouch
    }
}

impl GeneralAction for StandardTouch {
}

impl QualityAction for StandardTouch {
    proof fn adds_quality(&self) {
    }
}

/// Adds more quality than Standard Touch; cheaper right after a combo of it, or after Observe.
#[derive(Clone, Copy, Debug, PartialEq, Eq, Structural)]
pub struct AdvancedTouch;

impl CraftingAction for AdvancedTouch {
    open spec fn as_enum(&self) -> CraftingActionEnum {
        CraftingActionEnum::AdvancedTouch
    }

    fn get_enum(&self) -> (r: CraftingActionEnum) {
        CraftingActionEnum::AdvancedTouch
    }
}

impl GeneralAction for AdvancedTouch {
}

impl QualityAction for AdvancedTouch {
    proof fn adds_quality(&self) {
    }
}

/// Adds quality at no cost in CP, but fails four times in ten.
#[derive(Clone, Copy, Debug, PartialEq, Eq, Structural)]
pub struct HastyTouch;

impl CraftingAction for HastyTouch {
    open spec fn as_enum(&self) -> CraftingActionEnum {
        CraftingActionEnum::HastyTouch
    }

    fn get_enum(&self) -> (r: CraftingActionEnum) {
        CraftingActionEnum::HastyTouch
    }
}

impl GeneralAction for HastyTouch {
}

impl QualityAction for HastyTouch {
    proof fn adds_quality(&self) {
    }
}

/// Adds quality by the stacks of Inner Quiet and uses them up.
#[derive(Clone, Copy, Debug, PartialEq, Eq, Structural)]
pub struct ByregotsBlessing;

impl CraftingAction for ByregotsBlessing {
    open spec fn as_enum(&self) -> CraftingActionEnum {
        CraftingActionEnum::ByregotsBlessing
    }

    fn get_enum(&self) -> (r: CraftingActionEnum) {
        CraftingActionEnum::ByregotsBlessing
    }
}

impl GeneralAction for ByregotsBlessing {
}

impl QualityAction for ByregotsBlessing {
    proof fn adds_quality(&self) {
    }
}

/// Adds quality and a second stack of Inner Quiet; waits for a Good or Excellent condition.
#[derive(Clone, Copy, Debug, PartialEq, Eq, Structural)]
pub struct PreciseTouch;

impl CraftingAction for PreciseTouch {
    open spec fn as_enum(&self) -> CraftingActionEnum {
        CraftingActionEnum::PreciseTouch
    }

    fn get_enum(&self) -> (r: CraftingActionEnum) {
        CraftingActionEnum::PreciseTouch
    }
}

impl GeneralAction for PreciseTouch {
}

impl QualityAction for PreciseTouch {
    proof fn adds_quality(&self) {
    }
}

/// Adds quality at half the usual cost in durability; not under Waste Not.
#[derive(Clone, Copy, Debug, PartialEq, Eq, Structural)]
pub struct PrudentTouch;

impl CraftingAction for PrudentTouch {
    open spec fn as_enum(&self) -> CraftingActionEnum {
        CraftingActionEnum::PrudentTouch
    }

    fn get_enum(&self) -> (r: CraftingActionEnum) {
        CraftingActionEnum::PrudentTouch
    }
}

impl GeneralAction for PrudentTouch {
}

impl QualityAction for PrudentTouch {
    proof fn adds_quality(&self) {
    }
}

/// Fills the quality at once, on a recipe far below the crafter and as the first step.
#[derive(Clone, Copy, Debug, PartialEq, Eq, Structural)]
pub struct TrainedEye;

impl CraftingAction for TrainedEye {
    open spec fn as_enum(&self) -> CraftingActionEnum {
        CraftingActionEnum::TrainedEye
    }

    fn get_enum(&self) -> (r: CraftingActionEnum) {
        CraftingActionEnum::TrainedEye
    }
}

/// Adds much quality and a second stack of Inner Quiet, at twice the usual cost in durability.
#[derive(Clone, Copy, Debug, PartialEq, Eq, Structural)]
pub struct PreparatoryTouch;

impl CraftingAction for PreparatoryTouch {
    open spec fn as_enum(&self) -> CraftingActionEnum {
        CraftingActionEnum::PreparatoryTouch
    }

    fn get_enum(&self) -> (r: CraftingActionEnum) {
        CraftingActionEnum::PreparatoryTouch
    }
}

impl GeneralAction for PreparatoryTouch {
}

impl QualityAction for PreparatoryTouch {
    proof fn adds_quality(&self) {
    }
}

/// An opener that adds quality and a second stack of Inner Quiet.
#[derive(Clone, Copy, Debug, PartialEq, Eq, Structural)]
pub struct Reflect;

impl CraftingAction for Reflect {
    open spec fn as_enum(&self) -> CraftingActionEnum {
        CraftingActionEnum::Reflect
    }

    fn get_enum(&self) -> (r: CraftingActionEnum) {
        CraftingActionEnum::Reflect
    }
}

impl GeneralAction for Reflect {
}

impl QualityAction for Reflect {
    proof fn adds_quality(&self) {
    }
}

/// Adds quality at no cost in durability; needs ten stacks of Inner Quiet.
#[derive(Clone, Copy, Debug, PartialEq, Eq, Structural)]
pub struct TrainedFinesse;

impl CraftingAction for TrainedFinesse {
    open spec fn as_enum(&self) -> CraftingActionEnum {
        CraftingActionEnum::TrainedFinesse
    }

    fn get_enum(&self) -> (r: CraftingActionEnum) {
        CraftingActionEnum::TrainedFinesse
    }
}

impl GeneralAction for TrainedFinesse {
}

impl QualityAction for TrainedFinesse {
    proof fn adds_quality(&self) {
    }
}

/// Adds quality at no cost in CP; only right after a successful Hasty Touch.
#[derive(Clone, Copy, Debug, PartialEq, Eq, Structural)]
pub struct DaringTouch;

impl CraftingAction for DaringTouch {
    open spec fn as_enum(&self) -> CraftingActionEnum {
        CraftingActionEnum::DaringTouch
    }

    fn get_enum(&self) -> (r: CraftingActionEnum) {
        CraftingActionEnum::DaringTouch
    }
}

impl GeneralAction for DaringTouch {
}

impl QualityAction for DaringTouch {
    proof fn adds_quality(&self) {
    }
}

/// Adds quality, and a second stack of Inner Quiet right after Basic Touch.
#[derive(Clone, Copy, Debug, PartialEq, Eq, Structural)]
pub struct RefinedTouch;

impl CraftingAction for RefinedTouch {
    open spec fn as_enum(&self) -> CraftingActionEnum {
        CraftingActionEnum::RefinedTouch
    }

    fn get_enum(&self) -> (r: CraftingActionEnum) {
        CraftingActionEnum::RefinedTouch
    }
}

impl GeneralAction for RefinedTouch {
}

impl QualityAction for RefinedTouch {
    proof fn adds_quality(&self) {
    }
}

} // verus!
