//! The craft session: the state of one craft, the queries that actions make
//! of it, and the changes that actions and buffs make to it.

use vstd::prelude::*;
use super::catalog::UNLIMITED;
use super::conditions::{compute_odds, ConditionOdds};
use super::enums::{Buff, CraftingActionEnum, StepState};
use super::model::{
    advanced_touch_ready_within,
    followed_within,
    holds,
    only_free_actions,
    position,
    position_from,
    recorded,
    step_count,
    SimulationView,
};
use super::numeric::compute_base_value;
use super::structs::{ActionResult, Craft, CrafterStats, EffectiveBuff};
use super::tables::{hq_percent, level_to_ilevel};

verus! {

/// A craft session.
pub struct Simulation {
    pub recipe: Craft,
    pub crafter_stats: CrafterStats,
    /// The actions of the rotation, in their order.
    pub actions: Vec<CraftingActionEnum>,
    /// The condition that each step is scripted to start on, as far as the
    /// script goes.
    pub step_states: Vec<StepState>,
    /// The steps that are scripted to fail.
    pub fails: Vec<usize>,
    pub progression: u32,
    /// The quality that high-quality ingredients brought in.
    pub starting_quality: u32,
    pub quality: u32,
    /// Signed, so that an overshoot below zero can be seen.
    pub durability: i32,
    /// The condition of the step at hand.
    pub state: StepState,
    pub max_cp: u32,
    pub available_cp: u32,
    pub buffs: Vec<EffectiveBuff>,
    /// Nothing while the craft is undecided.
    pub success: Option<bool>,
    /// The history, one record for each step.
    pub steps: Vec<ActionResult>,
    pub safe: bool,
    /// The conditions that the recipe allows.
    pub possible_conditions: Vec<StepState>,
}

impl View for Simulation {
    type V = SimulationView;

    open spec fn view(&self) -> SimulationView {
        SimulationView {
            recipe: self.recipe,
            crafter_stats: self.crafter_stats,
            actions: self.actions@,
            step_states: self.step_states@,
            fails: self.fails@,
            progression: self.progression,
            starting_quality: self.starting_quality,
            quality: self.quality,
            durability: self.durability,
            state: self.state,
            max_cp: self.max_cp,
            available_cp: self.available_cp,
            buffs: self.buffs@,
            success: self.success,
            steps: self.steps@,
            safe: self.safe,
            possible_conditions: self.possible_conditions@,
        }
    }
}

/// The first position of the list that holds a buff of the kind, or the
/// length of the list.
pub fn find_buff(buffs: &Vec<EffectiveBuff>, kind: Buff) -> (r: usize)
    ensures
        r == position(buffs@, kind),
        r <= buffs.len(),
        r < buffs.len() ==> buffs@[r as int].buff == kind,
{
    let mut i: usize = 0;
    while i < buffs.len()
        invariant
            i <= buffs.len(),
            position(buffs@, kind) == position_from(buffs@, kind, i as int),
        decreases buffs.len() - i,
    {
        if buffs[i].buff == kind {
            return i;
        }
        i += 1;
    }
    i
}

/// A length as a `u32`, cut off at the largest one.
pub fn count_steps(steps: &Vec<ActionResult>) -> (r: u32)
    ensures
        r == step_count(steps@),
{
    if steps.len() > u32::MAX as usize {
        u32::MAX
    } else {
        steps.len() as u32
    }
}

/// The recipe's durability as an `i32`, cut off at the largest one.
pub fn full_durability(recipe: &Craft) -> (r: i32)
    ensures
        r == super::numeric::clamp_i32(recipe.durability as int),
{
    if recipe.durability > i32::MAX as u32 {
        i32::MAX
    } else {
        recipe.durability as i32
    }
}

/// Copies a list of buffs.
pub fn copy_buffs(list: &Vec<EffectiveBuff>) -> (r: Vec<EffectiveBuff>)
    ensures
        r@ == list@,
{
    let mut copy: Vec<EffectiveBuff> = Vec::new();
    let mut i: usize = 0;
    while i < list.len()
        invariant
            i <= list.len(),
            copy@ == list@.take(i as int),
        decreases list.len() - i,
    {
        copy.push(list[i]);
        proof {
            assert(list@.take(i + 1) == list@.take(i as int).push(list@[i as int]));
        }
        i += 1;
    }
    proof {
        assert(list@.take(list.len() as int) == list@);
    }
    copy
}

/// Copies a history.
pub fn copy_steps(list: &Vec<ActionResult>) -> (r: Vec<ActionResult>)
    ensures
        r@ == list@,
{
    let mut copy: Vec<ActionResult> = Vec::new();
    let mut i: usize = 0;
    while i < list.len()
        invariant
            i <= list.len(),
            copy@ == list@.take(i as int),
        decreases list.len() - i,
    {
        copy.push(list[i]);
        proof {
            assert(list@.take(i + 1) == list@.take(i as int).push(list@[i as int]));
        }
        i += 1;
    }
    proof {
        assert(list@.take(list.len() as int) == list@);
    }
    copy
}

impl Simulation {
    /// The condition of the step at hand.
    pub fn state(&self) -> (r: StepState)
        ensures
            r == self@.state,
    {
        self.state
    }

    /// Sets the condition of the step at hand.
    pub fn override_state(&mut self, new_state: StepState)
        ensures
            final(self)@ == (SimulationView { state: new_state, ..old(self)@ }),
    {
        self.state = new_state;
    }

    /// The conditions that the recipe allows.
    pub fn possible_conditions(&self) -> (r: &Vec<StepState>)
        ensures
            r@ == self@.possible_conditions,
    {
        &self.possible_conditions
    }

    /// Whether a buff of the kind is active.
    pub fn has_buff(&self, buff: Buff) -> (r: bool)
        ensures
            r == self@.has_buff(buff),
    {
        find_buff(&self.buffs, buff) < self.buffs.len()
    }

    /// The active buff of the kind.
    pub fn get_buff(&self, buff: Buff) -> (r: Option<&EffectiveBuff>)
        ensures
            r is Some <==> self@.has_buff(buff),
            r matches Some(found) ==> self@.get_buff(buff) == Some(*found),
    {
        let at = find_buff(&self.buffs, buff);
        if at < self.buffs.len() {
            Some(&self.buffs[at])
        } else {
            None
        }
    }

    /// The active buff of the kind, to be changed in place. What the caller
    /// leaves there takes the place of the buff in the list.
    pub fn get_mut_buff(&mut self, buff: Buff) -> (r: Option<&mut EffectiveBuff>)
        ensures
            r is Some <==> old(self)@.has_buff(buff),
            r matches Some(found) ==> old(self)@.get_buff(buff) == Some(*found) && final(self)@ == (
            SimulationView {
                buffs: old(self)@.buffs.update(position(old(self)@.buffs, buff), *final(found)),
                ..old(self)@
            }),
            r is None ==> final(self)@ == old(self)@,
    {
        let at = find_buff(&self.buffs, buff);
        if at < self.buffs.len() {
            Some(&mut self.buffs[at])
        } else {
            None
        }
    }

    /// The stacks of Inner Quiet; zero while it is not active.
    pub fn inner_quiet_stacks(&self) -> (r: u32)
        ensures
            r == self@.inner_quiet(),
    {
        let at = find_buff(&self.buffs, Buff::InnerQuiet);
        if at < self.buffs.len() {
            self.buffs[at].stacks
        } else {
            0
        }
    }

    /// Adds a buff at the end of the list. The buffs stay of distinct kinds
    /// only where none of the kind was active.
    pub fn add_buff(&mut self, buff: EffectiveBuff)
        ensures
            final(self)@ == old(self)@.with_buff(buff),
    {
        self.buffs.push(buff);
    }

    /// Takes the first buff of the kind away, if there is one.
    pub fn remove_buff(&mut self, buff: Buff)
        ensures
            final(self)@ == old(self)@.without_buff(buff),
    {
        let at = find_buff(&self.buffs, buff);
        if at < self.buffs.len() {
            self.buffs.swap_remove(at);
        }
    }

    /// Restores durability, up to the durability of the recipe.
    pub fn repair(&mut self, amt: u32)
        ensures
            final(self)@ == old(self)@.repair(amt),
    {
        let full = full_durability(&self.recipe);
        let raised: i64 = self.durability as i64 + amt as i64;
        if raised < full as i64 {
            self.durability = raised as i32;
        } else {
            self.durability = full;
        }
    }

    /// Adds stacks of Inner Quiet, up to ten, and makes Inner Quiet active
    /// where it was not.
    pub fn add_inner_quiet_stacks(&mut self, stacks: u32)
        ensures
            final(self)@ == old(self)@.add_inner_quiet_stacks(stacks),
    {
        let at = find_buff(&self.buffs, Buff::InnerQuiet);
        if at < self.buffs.len() {
            let held = self.buffs[at];
            let grown: u32 = if held.stacks as u64 + (stacks as u64) < 10 {
                held.stacks + stacks
            } else {
                10
            };
            self.buffs[at] = EffectiveBuff { stacks: grown, ..held };
        } else {
            let applied_step = count_steps(&self.steps);
            self.buffs.push(
                EffectiveBuff {
                    duration: UNLIMITED,
                    stacks: if stacks < 10 {
                        stacks
                    } else {
                        10
                    },
                    buff: Buff::InnerQuiet,
                    applied_step,
                    tick: None,
                    on_expire: None,
                },
            );
        }
    }

    /// Whether the most recent step that was not skipped is a successful use
    /// of `action`.
    pub fn has_combo_available(&self, action: &CraftingActionEnum) -> (r: bool)
        ensures
            r == self@.combo_available(*action),
    {
        let mut n: usize = self.steps.len();
        while n > 0
            invariant
                n <= self.steps.len(),
                followed_within(self.steps@, *action, self.steps.len() as int) == followed_within(
                    self.steps@,
                    *action,
                    n as int,
                ),
            decreases n,
        {
            let step = &self.steps[n - 1];
            if step.action == *action && is_true(step.success) {
                return true;
            }
            if !step.skipped {
                return false;
            }
            n -= 1;
        }
        false
    }

    /// Whether the most recent step that was not skipped opens the combo of
    /// Advanced Touch.
    pub fn advanced_touch_ready(&self) -> (r: bool)
        ensures
            r == advanced_touch_ready_within(self.steps@, self.steps.len() as int),
    {
        let mut n: usize = self.steps.len();
        while n > 0
            invariant
                n <= self.steps.len(),
                advanced_touch_ready_within(self.steps@, self.steps.len() as int)
                    == advanced_touch_ready_within(self.steps@, n as int),
            decreases n,
        {
            let step = &self.steps[n - 1];
            if is_true(step.success) && (step.action == CraftingActionEnum::Observe || (step.action
                == CraftingActionEnum::StandardTouch && is_true(step.combo))) {
                return true;
            }
            if !step.skipped {
                return false;
            }
            n -= 1;
        }
        false
    }

    /// Whether some recorded step names the action.
    pub fn has_recorded(&self, action: CraftingActionEnum) -> (r: bool)
        ensures
            r == recorded(self.steps@, action),
    {
        let mut i: usize = 0;
        while i < self.steps.len()
            invariant
                i <= self.steps.len(),
                forall|j: int| 0 <= j < i ==> self.steps@[j].action != action,
            decreases self.steps.len() - i,
        {
            if self.steps[i].action == action {
                return true;
            }
            i += 1;
        }
        false
    }

    /// Whether every recorded step names an action that skips the buff ticks.
    pub fn has_only_free_actions(&self) -> (r: bool)
        ensures
            r == only_free_actions(self.steps@),
    {
        let mut i: usize = 0;
        while i < self.steps.len()
            invariant
                i <= self.steps.len(),
                forall|j: int|
                    0 <= j < i ==> (#[trigger] self.steps@[j]).action.spec_skips_buff_ticks(),
            decreases self.steps.len() - i,
        {
            if !self.steps[i].action.skips_buff_ticks() {
                return false;
            }
            i += 1;
        }
        true
    }

    /// The chance of a high-quality result in percent.
    pub fn get_hq_percent(&self) -> (r: u32)
        ensures
            r == self@.hq_percent(),
    {
        let percent: u32 = if self.recipe.quality == 0 {
            if self.quality > 0 {
                100
            } else {
                0
            }
        } else {
            let ratio: u64 = (self.quality as u64 * 100) / (self.recipe.quality as u64);
            if ratio > 100 {
                100
            } else {
                ratio as u32
            }
        };
        hq_percent(percent)
    }

    /// The base value of progress.
    pub fn get_base_progression(&self) -> (r: u32)
        ensures
            r == self@.base_progression(),
    {
        let scaled = level_to_ilevel(self.crafter_stats.level) <= self.recipe.rlvl;
        let modifier: u32 = match self.recipe.progress_modifier {
            Some(percent) => percent,
            None => 100,
        };
        compute_base_value(
            self.crafter_stats.craftsmanship,
            self.recipe.progress_divider,
            2,
            scaled,
            modifier,
        )
    }

    /// The base value of quality.
    pub fn get_base_quality(&self) -> (r: u32)
        ensures
            r == self@.base_quality(),
    {
        let scaled = level_to_ilevel(self.crafter_stats.level) <= self.recipe.rlvl;
        let modifier: u32 = match self.recipe.quality_modifier {
            Some(percent) => percent,
            None => 100,
        };
        compute_base_value(
            self.crafter_stats.control,
            self.recipe.quality_divider,
            35,
            scaled,
            modifier,
        )
    }

    /// The weights of the conditions in this session.
    pub fn get_odds(&self) -> (r: ConditionOdds)
        ensures
            r == self@.odds(),
    {
        let expert = match self.recipe.expert {
            Some(flag) => flag,
            None => false,
        };
        compute_odds(&self.possible_conditions, self.crafter_stats.level.value(), expert)
    }
}

/// Whether an optional flag is there and set.
pub fn is_true(flag: Option<bool>) -> (r: bool)
    ensures
        r == (flag == Some(true)),
{
    match flag {
        Some(set) => set,
        None => false,
    }
}

} // verus!
