//! What holds of every session: how costs are rounded, when a combo is
//! there, which buff displaces which, where the condition process has no
//! choice, and when a craft cannot be a success.

use vstd::prelude::*;
use super::conditions::{next_condition, ConditionOdds};
use super::enums::{Buff, CraftingActionEnum, StepState};
use super::invariants::lemma_apply_buff;
use super::model::{
    advanced_touch_ready_within,
    consistent_history,
    distinct_kinds,
    followed_within,
    lemma_without,
    opens_advanced_touch,
    without,
    SimulationView,
};
use super::numeric::{
    ceil_div,
    clamp_u32,
    gained,
    lemma_quality_shapes_agree,
    quality_gain_additive,
};
use super::structs::ActionResult;
use super::transitions::{skipped_step, RunMode, StepRolls};

verus! {

/// Waste Not and a Sturdy condition together quarter the durability cost of
/// an action, and the quotient is rounded up once: the cost is the least
/// number whose fourfold covers the base cost.
pub proof fn lemma_waste_not_and_sturdy_quarter(s: SimulationView, action: CraftingActionEnum)
    requires
        s.wastes_not(),
        s.state == StepState::Sturdy,
    ensures
        s.durability_cost(action) == ceil_div(action.base_durability_cost() as int, 4),
        4 * s.durability_cost(action) >= action.base_durability_cost(),
        4 * s.durability_cost(action) < action.base_durability_cost() + 4,
{
}

/// Either of Waste Not and a Sturdy condition alone halves the durability
/// cost of an action, rounded up; without both the cost is the base cost.
pub proof fn lemma_durability_cost_halves(s: SimulationView, action: CraftingActionEnum)
    ensures
        s.wastes_not() != (s.state == StepState::Sturdy) ==> s.durability_cost(action) == ceil_div(
            action.base_durability_cost() as int,
            2,
        ),
        !s.wastes_not() && s.state != StepState::Sturdy ==> s.durability_cost(action)
            == action.base_durability_cost(),
{
}

/// A Pliant condition halves the CP cost of an action and rounds up: the
/// cost is the least number whose double covers the base cost. No other
/// condition changes the cost.
pub proof fn lemma_pliant_halves_cp(s: SimulationView, action: CraftingActionEnum)
    ensures
        s.state == StepState::Pliant ==> 2 * s.cp_cost(action) >= s.base_cp_cost(action) && 2
            * s.cp_cost(action) <= s.base_cp_cost(action) + 1,
        s.state != StepState::Pliant ==> s.cp_cost(action) == s.base_cp_cost(action),
{
}

/// The position of the most recent step that was not skipped, among the first
/// `n` steps; -1 where all of them were skipped.
pub open spec fn last_unskipped(steps: Seq<ActionResult>, n: int) -> int
    decreases n,
{
    if n <= 0 || n > steps.len() {
        -1
    } else if !steps[n - 1].skipped {
        n - 1
    } else {
        last_unskipped(steps, n - 1)
    }
}

/// `last_unskipped` is the position of a step that was not skipped, with none
/// but skipped steps after it.
pub proof fn lemma_last_unskipped(steps: Seq<ActionResult>, n: int)
    requires
        0 <= n <= steps.len(),
    ensures
        -1 <= last_unskipped(steps, n) < n,
        last_unskipped(steps, n) >= 0 ==> !steps[last_unskipped(steps, n)].skipped,
        forall|j: int| last_unskipped(steps, n) < j < n ==> steps[j].skipped,
    decreases n,
{
    if n > 0 && steps[n - 1].skipped {
        lemma_last_unskipped(steps, n - 1);
    }
}

/// In a consistent history, a combo after `wanted` is there exactly when the
/// most recent step that was not skipped is a successful use of `wanted`,
/// however many skipped steps have come since.
pub proof fn lemma_combo_follows_last_unskipped(
    steps: Seq<ActionResult>,
    wanted: CraftingActionEnum,
    n: int,
)
    requires
        consistent_history(steps),
        0 <= n <= steps.len(),
    ensures
        followed_within(steps, wanted, n) <==> (last_unskipped(steps, n) >= 0 && steps[last_unskipped(
            steps,
            n,
        )].action == wanted && steps[last_unskipped(steps, n)].success == Some(true)),
    decreases n,
{
    if n > 0 {
        assert(super::model::consistent_step(steps[n - 1]));
        if steps[n - 1].skipped {
            lemma_combo_follows_last_unskipped(steps, wanted, n - 1);
        }
    }
}

/// In a consistent history, the combo of Advanced Touch is there exactly
/// when the most recent step that was not skipped opens it.
pub proof fn lemma_advanced_touch_follows_last_unskipped(steps: Seq<ActionResult>, n: int)
    requires
        consistent_history(steps),
        0 <= n <= steps.len(),
    ensures
        advanced_touch_ready_within(steps, n) <==> (last_unskipped(steps, n) >= 0
            && opens_advanced_touch(steps[last_unskipped(steps, n)])),
    decreases n,
{
    if n > 0 {
        assert(super::model::consistent_step(steps[n - 1]));
        if steps[n - 1].skipped {
            lemma_advanced_touch_follows_last_unskipped(steps, n - 1);
        }
    }
}

/// In a session with a consistent history, an action is a combo only where
/// the most recent step that was not skipped succeeded and was a use of the
/// action's predecessor (for Advanced Touch: of Observe, or of a Standard
/// Touch that was a combo itself). A step in between that was not skipped
/// breaks the combo; skipped steps in between do not.
pub proof fn lemma_has_combo(s: SimulationView, action: CraftingActionEnum)
    requires
        consistent_history(s.steps),
    ensures
        s.has_combo(action) ==> {
            let last = last_unskipped(s.steps, s.steps.len() as int);
            &&& 0 <= last < s.steps.len()
            &&& !s.steps[last].skipped
            &&& s.steps[last].success == Some(true)
            &&& forall|j: int| last < j < s.steps.len() ==> s.steps[j].skipped
            &&& action == CraftingActionEnum::AdvancedTouch ==> opens_advanced_touch(s.steps[last])
            &&& action != CraftingActionEnum::AdvancedTouch ==> Some(s.steps[last].action)
                == action.combo_predecessor()
        },
        forall|wanted: CraftingActionEnum|
            s.combo_available(wanted) <==> {
                let last = last_unskipped(s.steps, s.steps.len() as int);
                last >= 0 && s.steps[last].action == wanted && s.steps[last].success == Some(true)
            },
{
    let n = s.steps.len() as int;
    lemma_last_unskipped(s.steps, n);
    lemma_advanced_touch_follows_last_unskipped(s.steps, n);
    assert forall|wanted: CraftingActionEnum|
        s.combo_available(wanted) <==> {
            let last = last_unskipped(s.steps, s.steps.len() as int);
            last >= 0 && s.steps[last].action == wanted && s.steps[last].success == Some(true)
        } by {
        lemma_combo_follows_last_unskipped(s.steps, wanted, n);
    }
    match action.combo_predecessor() {
        Some(wanted) => {
            lemma_combo_follows_last_unskipped(s.steps, wanted, n);
        },
        None => {},
    }
}

/// The forced transitions are absolute: whatever the weights and whatever
/// the roll, Poor follows Excellent and Good follows Good Omen.
pub proof fn lemma_forced_transitions(odds: ConditionOdds, roll: u32)
    ensures
        next_condition(StepState::Excellent, odds, roll) == StepState::Poor,
        next_condition(StepState::GoodOmen, odds, roll) == StepState::Good,
{
}

/// The condition process never produces the forced failure, and produces
/// Poor only after Excellent.
pub proof fn lemma_condition_process_range(current: StepState, odds: ConditionOdds, roll: u32)
    ensures
        next_condition(current, odds, roll) != StepState::Failure,
        next_condition(current, odds, roll) == StepState::Poor ==> current == StepState::Excellent,
{
}

/// A craft whose recipe requires a quality is no success while the quality
/// does not exceed it, whatever the progress.
pub proof fn lemma_required_quality_unmet_fails(s: SimulationView, required: u32)
    requires
        s.recipe.required_quality == Some(required),
        s.quality <= required,
    ensures
        !s.succeeded(),
        s.final_cause() is Some,
{
}

/// Waste Not and Waste Not II displace each other: after either is cast with
/// success, it is active as it was applied and the other is not, whichever
/// of the two was active before.
pub proof fn lemma_waste_not_overrides(s: SimulationView, roll: u32, safe: bool)
    requires
        distinct_kinds(s.buffs),
        roll <= 100,
    ensures
        ({
            let after = s.after_action(CraftingActionEnum::WasteNot, roll, safe);
            &&& after.has_buff(Buff::WasteNot)
            &&& !after.has_buff(Buff::WasteNotII)
            &&& after.get_buff(Buff::WasteNot) == Some(
                s.applied_by(CraftingActionEnum::WasteNot, Buff::WasteNot),
            )
        }),
        ({
            let after = s.after_action(CraftingActionEnum::WasteNotII, roll, safe);
            &&& after.has_buff(Buff::WasteNotII)
            &&& !after.has_buff(Buff::WasteNot)
            &&& after.get_buff(Buff::WasteNotII) == Some(
                s.applied_by(CraftingActionEnum::WasteNotII, Buff::WasteNotII),
            )
        }),
{
    lemma_apply_buff(s, CraftingActionEnum::WasteNot, Buff::WasteNot);
    lemma_apply_buff(s, CraftingActionEnum::WasteNotII, Buff::WasteNotII);
}

/// A buff action that is carried out leaves its buff active and the buff
/// that it overrides inactive.
pub proof fn lemma_buff_action_overrides(s: SimulationView, action: CraftingActionEnum, kind: Buff)
    requires
        distinct_kinds(s.buffs),
        action.applied_buff() == Some(kind),
    ensures
        s.execute(action, false).has_buff(kind),
        s.execute(action, false).get_buff(kind) == Some(s.applied_by(action, kind)),
        forall|other: Buff|
            action.also_overrides() == Some(other) ==> !(#[trigger] s.execute(
                action,
                false,
            ).has_buff(other)),
        distinct_kinds(s.execute(action, false).buffs),
{
    lemma_apply_buff(s, action, kind);
}

/// What progress takes from the buffs does not change what a quality action
/// adds: the quality formula reads the same session before and after.
pub proof fn lemma_progress_keeps_quality_formula(
    s: SimulationView,
    progress: CraftingActionEnum,
    action: CraftingActionEnum,
)
    requires
        distinct_kinds(s.buffs),
    ensures
        s.add_progress(progress).quality_increase(action) == s.quality_increase(action),
{
    lemma_without(s.buffs, Buff::MuscleMemory);
    lemma_without(without(s.buffs, Buff::MuscleMemory), Buff::FinalAppraisal);
}

/// The quality that a successful quality action adds is the value of the
/// quality formula in the session just before the action: the base quality
/// times the condition factor, the potency, the buff factor and one tenth
/// more for each stack of Inner Quiet, over one hundred, floored. (Where the
/// sum would not fit a `u32`, what is added is what fits.)
pub proof fn lemma_quality_delta(s: SimulationView, action: CraftingActionEnum, roll: u32, safe: bool)
    requires
        distinct_kinds(s.buffs),
        action.adds_quality(),
        s.succeeds(action, roll, safe),
    ensures
        s.action_record(action, roll, safe).added_quality == gained(
            clamp_u32(s.quality + s.quality_increase(action)),
            s.quality,
        ),
        s.quality + s.quality_increase(action) <= u32::MAX ==> s.action_record(
            action,
            roll,
            safe,
        ).added_quality == s.quality_increase(action),
        s.action_record(action, roll, safe).success == Some(true),
{
    lemma_progress_keeps_quality_formula(s, action, action);
}

/// The progress that a successful progress action adds is the value of the
/// progress formula in the session just before the action: the base progress
/// times the condition factor, the potency and the buff factor, over one
/// hundred, floored; unless Final Appraisal holds the progress one short of
/// the recipe's. (Where the sum would not fit a `u32`, what is added is what
/// fits.)
pub proof fn lemma_progress_delta(s: SimulationView, action: CraftingActionEnum, roll: u32, safe: bool)
    requires
        action.adds_progress(),
        s.succeeds(action, roll, safe),
    ensures
        !(s.has_buff(Buff::FinalAppraisal) && s.progression + s.progress_increase(action)
            >= s.recipe.progress) ==> s.action_record(action, roll, safe).added_progression
            == gained(clamp_u32(s.progression + s.progress_increase(action)), s.progression),
        s.has_buff(Buff::FinalAppraisal) && s.progression + s.progress_increase(action)
            >= s.recipe.progress && s.recipe.progress > 0 ==> s.after_action(
            action,
            roll,
            safe,
        ).progression == s.recipe.progress - 1,
        s.action_record(action, roll, safe).success == Some(true),
{
}

/// The quality formula of every action of the catalog gives what its earlier
/// shape gives, in which the stacks of Inner Quiet add to the base bonus: no
/// action has a base bonus other than one.
pub proof fn lemma_quality_formula_shapes_agree(s: SimulationView, action: CraftingActionEnum)
    ensures
        s.quality_increase(action) == quality_gain_additive(
            s.base_quality(),
            s.quality_factors(action),
            s.potency(action),
            s.inner_quiet(),
        ),
{
    lemma_quality_shapes_agree(
        s.base_quality(),
        s.quality_factors(action),
        s.potency(action),
        s.inner_quiet(),
    );
}

/// An action without a formula for it adds no progress, and one without a
/// formula for quality adds no quality, Trained Eye aside; and an action
/// that fails adds neither.
pub proof fn lemma_no_formula_no_delta(s: SimulationView, action: CraftingActionEnum, roll: u32, safe: bool)
    ensures
        !action.adds_progress() ==> s.action_record(action, roll, safe).added_progression == 0,
        !action.adds_quality() && action != CraftingActionEnum::TrainedEye ==> s.action_record(
            action,
            roll,
            safe,
        ).added_quality == 0,
        !s.succeeds(action, roll, safe) ==> s.action_record(action, roll, safe).added_progression
            == 0 && s.action_record(action, roll, safe).added_quality == 0,
{
}

/// In linear mode a step throws no dice: its outcome is the same on all
/// rolls.
pub proof fn lemma_linear_step_ignores_rolls(
    s: SimulationView,
    index: usize,
    mode: RunMode,
    rolls: StepRolls,
    others: StepRolls,
)
    requires
        mode.linear,
    ensures
        s.step(index, mode, rolls) == s.step(index, mode, others),
{
    reveal(SimulationView::step);
}

/// In linear mode, the record that a step leaves is the record of an attempt
/// that succeeds unless the script says otherwise, made in the session as
/// the step found it, on the scripted condition; or the record of a skipped
/// step where the action is not carried out. So each recorded progress and
/// quality is the value of its formula just before the step.
pub proof fn lemma_linear_step_record(s: SimulationView, index: usize, mode: RunMode, rolls: StepRolls)
    requires
        mode.linear,
        index < s.actions.len(),
    ensures
        ({
            let action = s.actions[index as int];
            let start = SimulationView { state: s.scripted_condition(index as int), ..s };
            let roll: u32 = if s.fails.contains(index) {
                999
            } else {
                0
            };
            let attempt = start.action_record(action, roll, mode.safe);
            let record = s.step(index, mode, rolls).steps.last();
            &&& s.step(index, mode, rolls).steps == s.steps.push(record)
            &&& start.carries_out(action, mode) ==> record == (ActionResult {
                after_buff_tick: record.after_buff_tick,
                ..attempt
            })
            &&& !start.carries_out(action, mode) ==> record == skipped_step(
                action,
                start.refusal(action, mode),
                start.state,
            )
        }),
{
    reveal(SimulationView::step);
    let action = s.actions[index as int];
    let start = SimulationView { state: s.scripted_condition(index as int), ..s };
    let roll = start.effective_roll(index, mode.linear, rolls.success);
    super::invariants::lemma_after_action_keeps_script(start, action, roll, mode.safe);
    let acted = if start.carries_out(action, mode) {
        start.after_action(action, roll, mode.safe)
    } else {
        start
    };
    super::invariants::lemma_tick_buffs_keeps(acted, action);
}

/// Once the craft is decided, a step changes nothing but the history and,
/// outside linear mode, the condition: no progress, quality, durability, CP
/// or buff moves, and the step is recorded as skipped.
pub proof fn lemma_decided_step_is_skipped(
    s: SimulationView,
    index: usize,
    mode: RunMode,
    rolls: StepRolls,
)
    requires
        s.success is Some,
    ensures
        ({
            let after = s.step(index, mode, rolls);
            &&& after.progression == s.progression
            &&& after.quality == s.quality
            &&& after.durability == s.durability
            &&& after.available_cp == s.available_cp
            &&& after.buffs == s.buffs
            &&& after.success == s.success
            &&& after.steps.len() == s.steps.len() + 1
            &&& after.steps.last().skipped
            &&& after.steps.last().success is None
        }),
{
    reveal(SimulationView::step);
}

/// An attempt that leaves the craft undecided leaves it with progress short
/// of the recipe's and with durability left; one that decides it a failure
/// ran out of durability first, and one that decides it a success reached the
/// progress of the recipe.
pub proof fn lemma_outcome_of_attempt(s: SimulationView, action: CraftingActionEnum, roll: u32, safe: bool)
    requires
        s.success is None,
    ensures
        ({
            let after = s.after_action(action, roll, safe);
            &&& after.success is None <==> after.progression < after.recipe.progress
                && after.durability > 0
            &&& after.success == Some(true) <==> after.progression >= after.recipe.progress
            &&& after.success == Some(false) <==> after.progression < after.recipe.progress
                && after.durability <= 0
        }),
{
    super::invariants::lemma_execute_keeps_script(s, action, false);
}

/// In linear mode a run throws no dice: its outcome is the same on all
/// rolls.
pub proof fn lemma_linear_run_ignores_rolls(
    s: SimulationView,
    mode: RunMode,
    rolls: Seq<StepRolls>,
    others: Seq<StepRolls>,
    n: int,
)
    requires
        mode.linear,
        0 <= n <= rolls.len(),
        rolls.len() == others.len(),
    ensures
        s.run_steps(mode, rolls, n) == s.run_steps(mode, others, n),
    decreases n,
{
    if n > 0 && n <= usize::MAX {
        lemma_linear_run_ignores_rolls(s, mode, rolls, others, n - 1);
        lemma_linear_step_ignores_rolls(
            s.run_steps(mode, rolls, n - 1),
            (n - 1) as usize,
            mode,
            rolls[n - 1],
            others[n - 1],
        );
    }
}

} // verus!
