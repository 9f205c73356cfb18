//! The actions that repair, recover CP, observe, or do two things at once.

use vstd::prelude::*;
use super::super::enums::{CraftingActionEnum};
use super::super::traits::{CraftingAction, GeneralAction};

verus! {

/// Gives 20 CP back on a Good or Excellent condition.
#[derive(Clone, Copy, Debug, PartialEq, Eq, Structural)]
pub struct TricksOfTheTrade;

impl CraftingAction for TricksOfTheTrade {
    open spec fn as_enum(&self) -> CraftingActionEnum {
        CraftingActionEnum::TricksOfTheTrade
    }

    fn get_enum(&self) -> (r: CraftingActionEnum) {
        CraftingActionEnum::TricksOfTheTrade
    }
}

/// Restores 30 durability.
#[derive(Clone, Copy, Debug, PartialEq, Eq, Structural)]
pub struct MastersMend;

impl CraftingAction for MastersMend {
    open spec fn as_enum(&self) -> CraftingActionEnum {
        CraftingActionEnum::MastersMend
    }

    fn get_enum(&self) -> (r: CraftingActionEnum) {
        CraftingActionEnum::MastersMend
    }
}

/// Restores all durability.
#[derive(Clone, Copy, Debug, PartialEq, Eq, Structural)]
pub struct ImmaculateMend;

impl CraftingAction for ImmaculateMend {
    open spec fn as_enum(&self) -> CraftingActionEnum {
        CraftingActionEnum::ImmaculateMend
    }

    fn get_enum(&self) -> (r: CraftingActionEnum) {
        CraftingActionEnum::ImmaculateMend
    }
}

/// Does nothing but let a step pass.
#[derive(Clone, Copy, Debug, PartialEq, Eq, Structural)]
pub struct Observe;

impl CraftingAction for Observe {
    open spec fn as_enum(&self) -> CraftingActionEnum {
        CraftingActionEnum::Observe
    }

    fn get_enum(&self) -> (r: CraftingActionEnum) {
        CraftingActionEnum::Observe
    }
}

/// A specialist action that lets the condition change without a step passing.
#[derive(Clone, Copy, Debug, PartialEq, Eq, Structural)]
pub struct CarefulObservation;

impl CraftingAction for CarefulObservation {
    open spec fn as_enum(&self) -> CraftingActionEnum {
        CraftingActionEnum::CarefulObservation
    }

    fn get_enum(&self) -> (r: CraftingActionEnum) {
        CraftingActionEnum::CarefulObservation
    }
}

/// Adds progress and quality at once.
#[derive(Clone, Copy, Debug, PartialEq, Eq, Structural)]
pub struct DelicateSynthesis;

impl CraftingAction for DelicateSynthesis {
    open spec fn as_enum(&self) -> CraftingActionEnum {
        CraftingActionEnum::DelicateSynthesis
    }

    fn get_enum(&self) -> (r: CraftingActionEnum) {
        CraftingActionEnum::DelicateSynthesis
    }
}

impl GeneralAction for DelicateSynthesis {
}

/// Takes Final Appraisal away.
#[derive(Clone, Copy, Debug, PartialEq, Eq, Structural)]
pub struct RemoveFinalAppraisal;

impl CraftingAction for RemoveFinalAppraisal {
    open spec fn as_enum(&self) -> CraftingActionEnum {
        CraftingActionEnum::RemoveFinalAppraisal
    }

    fn get_enum(&self) -> (r: CraftingActionEnum) {
        CraftingActionEnum::RemoveFinalAppraisal
    }
}

} // verus!
