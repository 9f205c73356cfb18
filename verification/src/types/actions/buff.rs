//! The actions that apply a buff.

use vstd::prelude::*;
use super::super::enums::{Buff, CraftingActionEnum};
use super::super::traits::{BuffAction, CraftingAction};

verus! {

/// Halves the cost in durability for four steps.
#[derive(Clone, Copy, Debug, PartialEq, Eq, Structural)]
pub struct WasteNot;

impl CraftingAction for WasteNot {
    open spec fn as_enum(&self) -> CraftingActionEnum {
        CraftingActionEnum::WasteNot
    }

    fn get_enum(&self) -> (r: CraftingActionEnum) {
        CraftingActionEnum::WasteNot
    }
}

impl BuffAction for WasteNot {
    open spec fn kind(&self) -> Buff {
        Buff::WasteNot
    }

    proof fn applies_kind(&self) {
    }

    fn get_buff(&self) -> (r: Buff) {
        Buff::WasteNot
    }
}

/// Halves the cost in durability for eight steps.
#[derive(Clone, Copy, Debug, PartialEq, Eq, Structural)]
pub struct WasteNotII;

impl CraftingAction for WasteNotII {
    open spec fn as_enum(&self) -> CraftingActionEnum {
        CraftingActionEnum::WasteNotII
    }

    fn get_enum(&self) -> (r: CraftingActionEnum) {
        CraftingActionEnum::WasteNotII
    }
}

impl BuffAction for WasteNotII {
    open spec fn kind(&self) -> Buff {
        Buff::WasteNotII
    }

    proof fn applies_kind(&self) {
    }

    fn get_buff(&self) -> (r: Buff) {
        Buff::WasteNotII
    }
}

/// Doubles the quality of the next quality action within three steps.
#[derive(Clone, Copy, Debug, PartialEq, Eq, Structural)]
pub struct GreatStrides;

impl CraftingAction for GreatStrides {
    open spec fn as_enum(&self) -> CraftingActionEnum {
        CraftingActionEnum::GreatStrides
    }

    fn get_enum(&self) -> (r: CraftingActionEnum) {
        CraftingActionEnum::GreatStrides
    }
}

impl BuffAction for GreatStrides {
    open spec fn kind(&self) -> Buff {
        Buff::GreatStrides
    }

    proof fn applies_kind(&self) {
    }

    fn get_buff(&self) -> (r: Buff) {
        Buff::GreatStrides
    }
}

/// Adds half to the quality of quality actions for four steps.
#[derive(Clone, Copy, Debug, PartialEq, Eq, Structural)]
pub struct Innovation;

impl CraftingAction for Innovation {
    open spec fn as_enum(&self) -> CraftingActionEnum {
        CraftingActionEnum::Innovation
    }

    fn get_enum(&self) -> (r: CraftingActionEnum) {
        CraftingActionEnum::Innovation
    }
}

impl BuffAction for Innovation {
    open spec fn kind(&self) -> Buff {
        Buff::Innovation
    }

    proof fn applies_kind(&self) {
    }

    fn get_buff(&self) -> (r: Buff) {
        Buff::Innovation
    }
}

/// Adds half to the progress of progress actions for four steps.
#[derive(Clone, Copy, Debug, PartialEq, Eq, Structural)]
pub struct Veneration;

impl CraftingAction for Veneration {
    open spec fn as_enum(&self) -> CraftingActionEnum {
        CraftingActionEnum::Veneration
    }

    fn get_enum(&self) -> (r: CraftingActionEnum) {
        CraftingActionEnum::Veneration
    }
}

impl BuffAction for Veneration {
    open spec fn kind(&self) -> Buff {
        Buff::Veneration
    }

    proof fn applies_kind(&self) {
    }

    fn get_buff(&self) -> (r: Buff) {
        Buff::Veneration
    }
}

/// Keeps the next progress action that would finish the craft one short of it.
#[derive(Clone, Copy, Debug, PartialEq, Eq, Structural)]
pub struct FinalAppraisal;

impl CraftingAction for FinalAppraisal {
    open spec fn as_enum(&self) -> CraftingActionEnum {
        CraftingActionEnum::FinalAppraisal
    }

    fn get_enum(&self) -> (r: CraftingActionEnum) {
        CraftingActionEnum::FinalAppraisal
    }
}

impl BuffAction for FinalAppraisal {
    open spec fn kind(&self) -> Buff {
        Buff::FinalAppraisal
    }

    proof fn applies_kind(&self) {
    }

    fn get_buff(&self) -> (r: Buff) {
        Buff::FinalAppraisal
    }
}

/// A specialist action that grants Innovation for one step, once in a craft.
#[derive(Clone, Copy, Debug, PartialEq, Eq, Structural)]
pub struct QuickInnovation;

impl CraftingAction for QuickInnovation {
    open spec fn as_enum(&self) -> CraftingActionEnum {
        CraftingActionEnum::QuickInnovation
    }

    fn get_enum(&self) -> (r: CraftingActionEnum) {
        CraftingActionEnum::QuickInnovation
    }
}

impl BuffAction for QuickInnovation {
    open spec fn kind(&self) -> Buff {
        Buff::Innovation
    }

    proof fn applies_kind(&self) {
    }

    fn get_buff(&self) -> (r: Buff) {
        Buff::Innovation
    }
}

/// Makes the next action with a cost in durability free of it, once in a craft.
#[derive(Clone, Copy, Debug, PartialEq, Eq, Structural)]
pub struct TrainedPerfection;

impl CraftingAction for TrainedPerfection {
    open spec fn as_enum(&self) -> CraftingActionEnum {
        CraftingActionEnum::TrainedPerfection
    }

    fn get_enum(&self) -> (r: CraftingActionEnum) {
        CraftingActionEnum::TrainedPerfection
    }
}

impl BuffAction for TrainedPerfection {
    open spec fn kind(&self) -> Buff {
        Buff::TrainedPerfection
    }

    proof fn applies_kind(&self) {
    }

    fn get_buff(&self) -> (r: Buff) {
        Buff::TrainedPerfection
    }
}

/// Restores five durability on each of eight steps.
#[derive(Clone, Copy, Debug, PartialEq, Eq, Structural)]
pub struct Manipulation;

impl CraftingAction for Manipulation {
    open spec fn as_enum(&self) -> CraftingActionEnum {
        CraftingActionEnum::Manipulation
    }

    fn get_enum(&self) -> (r: CraftingActionEnum) {
        CraftingActionEnum::Manipulation
    }
}

impl BuffAction for Manipulation {
    open spec fn kind(&self) -> Buff {
        Buff::Manipulation
    }

    proof fn applies_kind(&self) {
    }

    fn get_buff(&self) -> (r: Buff) {
        Buff::Manipulation
    }
}

/// A specialist action that stands in for a Good condition once.
#[derive(Clone, Copy, Debug, PartialEq, Eq, Structural)]
pub struct HeartAndSoul;

impl CraftingAction for HeartAndSoul {
    open spec fn as_enum(&self) -> CraftingActionEnum {
        CraftingActionEnum::HeartAndSoul
    }

    fn get_enum(&self) -> (r: CraftingActionEnum) {
        CraftingActionEnum::HeartAndSoul
    }
}

impl BuffAction for HeartAndSoul {
    open spec fn kind(&self) -> Buff {
        Buff::HeartAndSoul
    }

    proof fn applies_kind(&self) {
    }

    fn get_buff(&self) -> (r: Buff) {
        Buff::HeartAndSoul
    }
}

} // verus!
