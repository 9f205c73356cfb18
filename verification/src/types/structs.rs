//! The plain data of a craft: levels, crafter stats, recipes, buffs in effect
//! and the record that each step leaves behind.

use vstd::prelude::*;
use vstd::std_specs::convert::FromSpecImpl;
use super::enums::{Buff, CraftingActionEnum, CraftingJob, FailCause, StepState};

verus! {

/// The highest crafting level.
pub const MAX_LEVEL: u8 = 100;

/// A crafting level. A value of this type is always between 0 and
/// `MAX_LEVEL`.
#[derive(Clone, Copy, Debug, Default, PartialEq, Eq, PartialOrd)]
pub struct CraftingLevel {
    val: u8,
}

impl CraftingLevel {
    #[verifier::type_invariant]
    spec fn in_range(self) -> bool {
        self.val <= MAX_LEVEL
    }

    /// The level as a number.
    pub closed spec fn view(self) -> u8 {
        self.val
    }

    /// The level `val`, or nothing when `val` is above `MAX_LEVEL`.
    pub fn new(val: u8) -> (r: Option<CraftingLevel>)
        ensures
            r is Some <==> val <= MAX_LEVEL,
            r matches Some(l) ==> l@ == val,
    {
        if val <= MAX_LEVEL {
            Some(CraftingLevel { val })
        } else {
            None
        }
    }

    /// The level `val`, for a caller who knows that it is in range.
    pub fn unchecked_new(val: u8) -> (r: CraftingLevel)
        requires
            val <= MAX_LEVEL,
        ensures
            r@ == val,
    {
        CraftingLevel { val }
    }

    /// The highest level.
    pub fn max() -> (r: CraftingLevel)
        ensures
            r@ == MAX_LEVEL,
    {
        Self::unchecked_new(MAX_LEVEL)
    }

    /// The level as a number, which is never above `MAX_LEVEL`.
    pub fn value(&self) -> (r: u8)
        ensures
            r == self@,
            r <= MAX_LEVEL,
    {
        proof {
            use_type_invariant(self);
        }
        self.val
    }
}

impl From<CraftingLevel> for u8 {
    fn from(value: CraftingLevel) -> (r: u8) {
        value.value()
    }
}

impl FromSpecImpl<CraftingLevel> for u8 {
    open spec fn obeys_from_spec() -> bool {
        true
    }

    open spec fn from_spec(value: CraftingLevel) -> u8 {
        value@
    }
}

/// The level of a crafter in each of the eight disciplines.
#[derive(Clone, Copy, Debug, Default)]
pub struct CrafterLevels {
    pub crp: CraftingLevel,
    pub bsm: CraftingLevel,
    pub arm: CraftingLevel,
    pub gsm: CraftingLevel,
    pub ltw: CraftingLevel,
    pub wvr: CraftingLevel,
    pub alc: CraftingLevel,
    pub cul: CraftingLevel,
}

impl CrafterLevels {
    /// The level held in the discipline `job`; nothing for `Any`, which names
    /// no discipline.
    pub open spec fn level_of(self, job: CraftingJob) -> Option<CraftingLevel> {
        match job {
            CraftingJob::Any => None,
            CraftingJob::Carpenter => Some(self.crp),
            CraftingJob::Blacksmith => Some(self.bsm),
            CraftingJob::Armorer => Some(self.arm),
            CraftingJob::Goldsmith => Some(self.gsm),
            CraftingJob::Leatherworker => Some(self.ltw),
            CraftingJob::Weaver => Some(self.wvr),
            CraftingJob::Alchemist => Some(self.alc),
            CraftingJob::Culinarian => Some(self.cul),
        }
    }

    /// The highest level in every discipline.
    pub fn max() -> (r: CrafterLevels)
        ensures
            forall|job: CraftingJob|
                job != CraftingJob::Any ==> (#[trigger] r.level_of(job)).unwrap()@ == MAX_LEVEL,
    {
        CrafterLevels {
            crp: CraftingLevel::max(),
            bsm: CraftingLevel::max(),
            arm: CraftingLevel::max(),
            gsm: CraftingLevel::max(),
            ltw: CraftingLevel::max(),
            wvr: CraftingLevel::max(),
            alc: CraftingLevel::max(),
            cul: CraftingLevel::max(),
        }
    }

    /// The eight levels in the order carpenter, blacksmith, armorer,
    /// goldsmith, leatherworker, weaver, alchemist, culinarian.
    pub fn from_levels(value: [CraftingLevel; 8]) -> (r: CrafterLevels)
        ensures
            r.crp == value[0],
            r.bsm == value[1],
            r.arm == value[2],
            r.gsm == value[3],
            r.ltw == value[4],
            r.wvr == value[5],
            r.alc == value[6],
            r.cul == value[7],
    {
        CrafterLevels {
            crp: value[0],
            bsm: value[1],
            arm: value[2],
            gsm: value[3],
            ltw: value[4],
            wvr: value[5],
            alc: value[6],
            cul: value[7],
        }
    }

    /// The eight levels from plain numbers, in the same order; nothing when
    /// one of them is above `MAX_LEVEL`.
    pub fn try_from_numbers(value: [u8; 8]) -> (r: Option<CrafterLevels>)
        ensures
            r is Some <==> forall|i: int| 0 <= i < 8 ==> value[i] <= MAX_LEVEL,
            r matches Some(l) ==> {
                &&& l.crp@ == value[0]
                &&& l.bsm@ == value[1]
                &&& l.arm@ == value[2]
                &&& l.gsm@ == value[3]
                &&& l.ltw@ == value[4]
                &&& l.wvr@ == value[5]
                &&& l.alc@ == value[6]
                &&& l.cul@ == value[7]
            },
    {
        let mut i: usize = 0;
        while i < 8
            invariant
                i <= 8,
                forall|j: int| 0 <= j < i ==> value[j] <= MAX_LEVEL,
            decreases 8 - i,
        {
            if value[i] > MAX_LEVEL {
                return None;
            }
            i += 1;
        }
        Some(
            CrafterLevels {
                crp: CraftingLevel::unchecked_new(value[0]),
                bsm: CraftingLevel::unchecked_new(value[1]),
                arm: CraftingLevel::unchecked_new(value[2]),
                gsm: CraftingLevel::unchecked_new(value[3]),
                ltw: CraftingLevel::unchecked_new(value[4]),
                wvr: CraftingLevel::unchecked_new(value[5]),
                alc: CraftingLevel::unchecked_new(value[6]),
                cul: CraftingLevel::unchecked_new(value[7]),
            },
        )
    }

    /// The level held in a discipline.
    pub fn get(&self, job: CraftingJob) -> (r: Option<CraftingLevel>)
        ensures
            r == self.level_of(job),
    {
        match job {
            CraftingJob::Any => None,
            CraftingJob::Carpenter => Some(self.crp),
            CraftingJob::Blacksmith => Some(self.bsm),
            CraftingJob::Armorer => Some(self.arm),
            CraftingJob::Goldsmith => Some(self.gsm),
            CraftingJob::Leatherworker => Some(self.ltw),
            CraftingJob::Weaver => Some(self.wvr),
            CraftingJob::Alchemist => Some(self.alc),
            CraftingJob::Culinarian => Some(self.cul),
        }
    }

    /// Sets the level held in a discipline; `Any` names none and changes
    /// nothing.
    pub fn set(&mut self, job: CraftingJob, level: CraftingLevel)
        ensures
            job == CraftingJob::Any ==> *final(self) == *old(self),
            job != CraftingJob::Any ==> final(self).level_of(job) == Some(level),
            forall|other: CraftingJob|
                other != job ==> final(self).level_of(other) == old(self).level_of(other),
    {
        match job {
            CraftingJob::Any => {},
            CraftingJob::Carpenter => {
                self.crp = level;
            },
            CraftingJob::Blacksmith => {
                self.bsm = level;
            },
            CraftingJob::Armorer => {
                self.arm = level;
            },
            CraftingJob::Goldsmith => {
                self.gsm = level;
            },
            CraftingJob::Leatherworker => {
                self.ltw = level;
            },
            CraftingJob::Weaver => {
                self.wvr = level;
            },
            CraftingJob::Alchemist => {
                self.alc = level;
            },
            CraftingJob::Culinarian => {
                self.cul = level;
            },
        }
    }
}

impl From<[CraftingLevel; 8]> for CrafterLevels {
    fn from(value: [CraftingLevel; 8]) -> (r: CrafterLevels) {
        CrafterLevels::from_levels(value)
    }
}

impl FromSpecImpl<[CraftingLevel; 8]> for CrafterLevels {
    open spec fn obeys_from_spec() -> bool {
        true
    }

    open spec fn from_spec(value: [CraftingLevel; 8]) -> CrafterLevels {
        CrafterLevels {
            crp: value[0],
            bsm: value[1],
            arm: value[2],
            gsm: value[3],
            ltw: value[4],
            wvr: value[5],
            alc: value[6],
            cul: value[7],
        }
    }
}

/// The acting crafter.
#[derive(Clone, Copy, Debug, Default)]
pub struct CrafterStats {
    pub job_id: u32,
    pub craftsmanship: u32,
    pub control: u32,
    /// The size of the CP pool.
    pub cp: u32,
    pub specialist: bool,
    /// Whether the crafter holds a splendorous tool.
    pub splendorous: bool,
    /// The overall crafting level.
    pub level: CraftingLevel,
    pub levels: CrafterLevels,
}

/// One ingredient of a recipe, or one high-quality ingredient handed to a
/// session.
#[derive(Clone, Debug, Default)]
pub struct Ingredient {
    pub id: String,
    pub amount: u32,
    pub quality: Option<u32>,
    pub step_id: Option<String>,
    pub part: Option<String>,
    pub phase: Option<u32>,
    pub custom: Option<bool>,
}

/// A recipe: what is to be crafted and how hard it is.
#[derive(Clone, Debug, Default)]
pub struct Craft {
    pub id: String,
    pub job: u32,
    /// The internal level of the recipe.
    pub rlvl: u32,
    pub durability: u32,
    /// The quality at which the high-quality chance is 100 percent.
    pub quality: u32,
    /// The progress at which the craft is complete.
    pub progress: u32,
    pub lvl: CraftingLevel,
    pub suggested_craftsmanship: Option<u32>,
    pub suggested_control: Option<u32>,
    pub stars: Option<u32>,
    pub hq: Option<bool>,
    pub quick_synth: Option<bool>,
    /// The control below which no action can be used on this recipe.
    pub control_req: Option<u32>,
    /// The craftsmanship below which no action can be used on this recipe.
    pub craftsmanship_req: Option<u32>,
    pub unlock_id: Option<u32>,
    pub ingredients: Vec<Ingredient>,
    pub yield_amount: Option<u32>,
    pub expert: Option<bool>,
    /// The legal conditions of the recipe, one bit each.
    pub conditions_flag: u32,
    pub progress_divider: u32,
    pub quality_divider: u32,
    /// In whole percent; applied only to a crafter whose internal level is
    /// not above the recipe's.
    pub progress_modifier: Option<u32>,
    /// In whole percent; applied like `progress_modifier`.
    pub quality_modifier: Option<u32>,
    /// The quality that the craft must exceed to count as a success.
    pub required_quality: Option<u32>,
}

/// What a buff does to the session when it ticks or when it runs out.
#[derive(Clone, Copy, Debug, PartialEq, Eq, Structural)]
pub enum BuffEffect {
    /// Restores this much durability, up to the recipe's.
    Repair(u32),
    /// Takes this buff away when a condition-gated action was used while the
    /// condition was neither Good nor Excellent.
    ClearOnOffCondition(Buff),
}

/// A buff in effect.
#[derive(Clone, Copy, Debug)]
pub struct EffectiveBuff {
    /// The steps that the buff has left.
    pub duration: i32,
    pub stacks: u32,
    pub buff: Buff,
    /// The number of steps recorded when the buff was applied.
    pub applied_step: u32,
    /// What happens each time the buff ticks.
    pub tick: Option<BuffEffect>,
    /// What happens when the buff runs out.
    pub on_expire: Option<BuffEffect>,
}

/// What a buff tick pass added to a step.
#[derive(Clone, Copy, Debug)]
pub struct BuffTickResult {
    pub added_progression: u32,
    pub added_quality: u32,
    pub cp_difference: i32,
    pub solidity_difference: i32,
}

/// The record of one step.
#[derive(Clone, Copy, Debug)]
pub struct ActionResult {
    pub action: CraftingActionEnum,
    /// Whether the action succeeded; nothing when the step was skipped.
    pub success: Option<bool>,
    pub fail_cause: Option<FailCause>,
    pub added_progression: u32,
    pub added_quality: u32,
    pub cp_difference: i32,
    /// The change in durability.
    pub solidity_difference: i32,
    /// Whether the action was not attempted at all.
    pub skipped: bool,
    /// Whether the action's combo applied; nothing when the step was skipped.
    pub combo: Option<bool>,
    /// The condition under which the step took place.
    pub state: StepState,
    /// What the buff tick pass of this step added, when there was one.
    pub after_buff_tick: Option<BuffTickResult>,
}

} // verus!
