//! The actions that add progress.

use vstd::prelude::*;
use super::super::enums::{CraftingActionEnum};
use super::super::traits::{CraftingAction, GeneralAction, ProgressAction};

verus! {

/// Adds progress at no cost in CP.
#[derive(Clone, Copy, Debug, PartialEq, Eq, Structural)]
pub struct BasicSynthesis;

impl CraftingAction for BasicSynthesis {
    open spec fn as_enum(&self) -> CraftingActionEnum {
        CraftingActionEnum::BasicSynthesis
    }

    fn get_enum(&self) -> (r: CraftingActionEnum) {
        CraftingActionEnum::BasicSynthesis
    }
}

impl GeneralAction for BasicSynthesis {
}

impl ProgressAction for BasicSynthesis {
    proof fn adds_progress(&self) {
    }
}

/// Adds more progress than Basic Synthesis, for a little CP.
#[derive(Clone, Copy, Debug, PartialEq, Eq, Structural)]
pub struct CarefulSynthesis;

impl CraftingAction for CarefulSynthesis {
    open spec fn as_enum(&self) -> CraftingActionEnum {
        CraftingActionEnum::CarefulSynthesis
    }

    fn get_enum(&self) -> (r: CraftingActionEnum) {
        CraftingActionEnum::CarefulSynthesis
    }
}

impl GeneralAction for CarefulSynthesis {
}

impl ProgressAction for CarefulSynthesis {
    proof fn adds_progress(&self) {
    }
}

/// Adds progress at half the usual cost in durability; not under Waste Not.
#[derive(Clone, Copy, Debug, PartialEq, Eq, Structural)]
pub struct PrudentSynthesis;

impl CraftingAction for PrudentSynthesis {
    open spec fn as_enum(&self) -> CraftingActionEnum {
        CraftingActionEnum::PrudentSynthesis
    }

    fn get_enum(&self) -> (r: CraftingActionEnum) {
        CraftingActionEnum::PrudentSynthesis
    }
}

impl GeneralAction for PrudentSynthesis {
}

impl ProgressAction for PrudentSynthesis {
    proof fn adds_progress(&self) {
    }
}

/// Adds much progress at no cost in CP, but fails half the time.
#[derive(Clone, Copy, Debug, PartialEq, Eq, Structural)]
pub struct RapidSynthesis;

impl CraftingAction for RapidSynthesis {
    open spec fn as_enum(&self) -> CraftingActionEnum {
        CraftingActionEnum::RapidSynthesis
    }

    fn get_enum(&self) -> (r: CraftingActionEnum) {
        CraftingActionEnum::RapidSynthesis
    }
}

impl GeneralAction for RapidSynthesis {
}

impl ProgressAction for RapidSynthesis {
    proof fn adds_progress(&self) {
    }
}

/// Adds much progress; half as much where the durability left does not cover its cost.
#[derive(Clone, Copy, Debug, PartialEq, Eq, Structural)]
pub struct Groundwork;

impl CraftingAction for Groundwork {
    open spec fn as_enum(&self) -> CraftingActionEnum {
        CraftingActionEnum::Groundwork
    }

    fn get_enum(&self) -> (r: CraftingActionEnum) {
        CraftingActionEnum::Groundwork
    }
}

impl GeneralAction for Groundwork {
}

impl ProgressAction for Groundwork {
    proof fn adds_progress(&self) {
    }
}

/// An opener that adds progress and makes the next progress action stronger.
#[derive(Clone, Copy, Debug, PartialEq, Eq, Structural)]
pub struct MuscleMemory;

impl CraftingAction for MuscleMemory {
    open spec fn as_enum(&self) -> CraftingActionEnum {
        CraftingActionEnum::MuscleMemory
    }

    fn get_enum(&self) -> (r: CraftingActionEnum) {
        CraftingActionEnum::MuscleMemory
    }
}

impl GeneralAction for MuscleMemory {
}

impl ProgressAction for MuscleMemory {
    proof fn adds_progress(&self) {
    }
}

/// Adds much progress; waits for a Good or Excellent condition.
#[derive(Clone, Copy, Debug, PartialEq, Eq, Structural)]
pub struct IntensiveSynthesis;

impl CraftingAction for IntensiveSynthesis {
    open spec fn as_enum(&self) -> CraftingActionEnum {
        CraftingActionEnum::IntensiveSynthesis
    }

    fn get_enum(&self) -> (r: CraftingActionEnum) {
        CraftingActionEnum::IntensiveSynthesis
    }
}

impl GeneralAction for IntensiveSynthesis {
}

impl ProgressAction for IntensiveSynthesis {
    proof fn adds_progress(&self) {
    }
}

} // verus!
