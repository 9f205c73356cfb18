//! What no action, tick or step changes: the script of a session, and what a
//! buff tick pass leaves alone.

use vstd::prelude::*;
use super::enums::{Buff, CraftingActionEnum};
use super::model::{
    consistent_step,
    distinct_kinds,
    lemma_live_holds,
    holds,
    lemma_position,
    lemma_push,
    lemma_update,
    lemma_without,
    position,
    without,
    SimulationView,
};
use super::structs::{BuffEffect, EffectiveBuff};
use super::transitions::{RunMode, StepRolls};

verus! {

/// Two sessions have the same script: recipe, crafter, rotation, scripted
/// conditions and failures, starting quality, CP pool and legal conditions.
pub open spec fn same_script(a: SimulationView, b: SimulationView) -> bool {
    &&& a.recipe == b.recipe
    &&& a.crafter_stats == b.crafter_stats
    &&& a.actions == b.actions
    &&& a.step_states == b.step_states
    &&& a.fails == b.fails
    &&& a.starting_quality == b.starting_quality
    &&& a.max_cp == b.max_cp
    &&& a.possible_conditions == b.possible_conditions
}

/// Two sessions differ in buffs and durability at most.
pub open spec fn same_but_buffs_and_durability(a: SimulationView, b: SimulationView) -> bool {
    &&& same_script(a, b)
    &&& a.progression == b.progression
    &&& a.quality == b.quality
    &&& a.state == b.state
    &&& a.available_cp == b.available_cp
    &&& a.success == b.success
    &&& a.steps == b.steps
    &&& a.safe == b.safe
}

/// An action that is carried out leaves the script, the history, the
/// condition and the outcome of the craft as they are.
pub proof fn lemma_execute_keeps_script(
    s: SimulationView,
    action: CraftingActionEnum,
    skip_stack_addition: bool,
)
    ensures
        same_script(s.execute(action, skip_stack_addition), s),
        s.execute(action, skip_stack_addition).steps == s.steps,
        s.execute(action, skip_stack_addition).state == s.state,
        s.execute(action, skip_stack_addition).success == s.success,
        s.execute(action, skip_stack_addition).safe == s.safe,
{
}

/// The ticks of a buff tick pass change buffs and durability at most.
pub proof fn lemma_tick_pass_keeps(
    s: SimulationView,
    snapshot: Seq<EffectiveBuff>,
    action: CraftingActionEnum,
    n: int,
)
    ensures
        same_but_buffs_and_durability(s.tick_pass(snapshot, action, n), s),
    decreases n,
{
    if 0 < n <= snapshot.len() {
        lemma_tick_pass_keeps(s, snapshot, action, n - 1);
    }
}

/// The expiry effects of a buff tick pass change buffs and durability at
/// most.
pub proof fn lemma_expire_pass_keeps(
    s: SimulationView,
    snapshot: Seq<EffectiveBuff>,
    action: CraftingActionEnum,
    n: int,
)
    ensures
        same_but_buffs_and_durability(s.expire_pass(snapshot, action, n), s),
    decreases n,
{
    if 0 < n <= snapshot.len() {
        lemma_expire_pass_keeps(s, snapshot, action, n - 1);
    }
}

/// A buff tick pass changes buffs and durability at most.
pub proof fn lemma_tick_buffs_keeps(s: SimulationView, action: CraftingActionEnum)
    ensures
        same_but_buffs_and_durability(s.tick_buffs(action), s),
{
    let ticked = s.tick_pass(s.buffs, action, s.buffs.len() as int);
    lemma_tick_pass_keeps(s, s.buffs, action, s.buffs.len() as int);
    lemma_expire_pass_keeps(ticked, ticked.buffs, action, ticked.buffs.len() as int);
}

/// An attempt at an action leaves the script, the history and the condition
/// as they are.
pub proof fn lemma_after_action_keeps_script(
    s: SimulationView,
    action: CraftingActionEnum,
    roll: u32,
    safe: bool,
)
    ensures
        same_script(s.after_action(action, roll, safe), s),
        s.after_action(action, roll, safe).steps == s.steps,
        s.after_action(action, roll, safe).state == s.state,
{
    lemma_execute_keeps_script(s, action, false);
}

/// A step of a run leaves the script as it is and adds one record to the
/// history.
pub proof fn lemma_step_keeps_script(
    s: SimulationView,
    index: usize,
    mode: RunMode,
    rolls: StepRolls,
)
    ensures
        same_script(s.step(index, mode, rolls), s),
        s.step(index, mode, rolls).steps.len() == s.steps.len() + 1,
        s.step(index, mode, rolls).steps.take(s.steps.len() as int) == s.steps,
{
    reveal(SimulationView::step);
    let action = s.actions[index as int];
    let start = SimulationView { state: s.scripted_condition(index as int), ..s };
    let roll = start.effective_roll(index, mode.linear, rolls.success);
    lemma_after_action_keeps_script(start, action, roll, mode.safe);
    let acted = if start.carries_out(action, mode) {
        start.after_action(action, roll, mode.safe)
    } else {
        start
    };
    lemma_tick_buffs_keeps(acted, action);
    assert(s.step(index, mode, rolls).steps.take(s.steps.len() as int) =~= s.steps);
}

/// The first `n` steps of a run leave the script as it is and add `n`
/// records to the history.
pub proof fn lemma_run_steps_keeps_script(
    s: SimulationView,
    mode: RunMode,
    rolls: Seq<StepRolls>,
    n: int,
)
    requires
        0 <= n <= rolls.len(),
        n <= usize::MAX,
    ensures
        same_script(s.run_steps(mode, rolls, n), s),
        s.run_steps(mode, rolls, n).steps.len() == s.steps.len() + n,
    decreases n,
{
    if n > 0 {
        lemma_run_steps_keeps_script(s, mode, rolls, n - 1);
        lemma_step_keeps_script(
            s.run_steps(mode, rolls, n - 1),
            (n - 1) as usize,
            mode,
            rolls[n - 1],
        );
    }
}

/// The first `n` steps of a run depend on the first `n` pairs of rolls only.
pub proof fn lemma_run_steps_reads_prefix(
    s: SimulationView,
    mode: RunMode,
    rolls: Seq<StepRolls>,
    more: Seq<StepRolls>,
    n: int,
)
    requires
        0 <= n <= rolls.len(),
        rolls.len() <= more.len(),
        forall|i: int| 0 <= i < n ==> rolls[i] == more[i],
    ensures
        s.run_steps(mode, rolls, n) == s.run_steps(mode, more, n),
    decreases n,
{
    if n > 0 && n <= usize::MAX {
        lemma_run_steps_reads_prefix(s, mode, rolls, more, n - 1);
    }
}

/// Taking a buff away keeps the kinds of the buffs distinct. Where they are
/// distinct, the buff that was taken away is active no more.
pub proof fn lemma_without_buff(s: SimulationView, kind: Buff)
    ensures
        distinct_kinds(s.buffs) ==> distinct_kinds(s.without_buff(kind).buffs),
        distinct_kinds(s.buffs) ==> !s.without_buff(kind).has_buff(kind),
        forall|other: Buff|
            other != kind ==> (#[trigger] holds(s.without_buff(kind).buffs, other) <==> holds(
                s.buffs,
                other,
            )),
{
    lemma_without(s.buffs, kind);
}

/// Adding stacks of Inner Quiet keeps the kinds of the buffs distinct and
/// touches no other kind.
pub proof fn lemma_add_inner_quiet_stacks(s: SimulationView, stacks: u32)
    ensures
        distinct_kinds(s.buffs) ==> distinct_kinds(s.add_inner_quiet_stacks(stacks).buffs),
        s.add_inner_quiet_stacks(stacks).has_buff(Buff::InnerQuiet),
        forall|other: Buff|
            other != Buff::InnerQuiet ==> (#[trigger] holds(
                s.add_inner_quiet_stacks(stacks).buffs,
                other,
            ) <==> holds(s.buffs, other)),
{
    lemma_position(s.buffs, Buff::InnerQuiet);
    let after = s.add_inner_quiet_stacks(stacks);
    if s.has_buff(Buff::InnerQuiet) {
        let at = position(s.buffs, Buff::InnerQuiet);
        lemma_update(s.buffs, at, after.buffs[at]);
        assert(after.buffs =~= s.buffs.update(at, after.buffs[at]));
    } else {
        let added = after.buffs[s.buffs.len() as int];
        assert(after.buffs =~= s.buffs.push(added));
        lemma_push(s.buffs, added);
    }
}

/// Adding progress keeps the kinds of the buffs distinct, and leaves no
/// Muscle Memory behind where they are distinct.
pub proof fn lemma_add_progress(s: SimulationView, action: CraftingActionEnum)
    ensures
        distinct_kinds(s.buffs) ==> distinct_kinds(s.add_progress(action).buffs),
        distinct_kinds(s.buffs) ==> !s.add_progress(action).has_buff(Buff::MuscleMemory),
{
    lemma_without(s.buffs, Buff::MuscleMemory);
    lemma_without(without(s.buffs, Buff::MuscleMemory), Buff::FinalAppraisal);
}

/// Adding quality keeps the kinds of the buffs distinct.
pub proof fn lemma_add_quality(s: SimulationView, action: CraftingActionEnum)
    ensures
        distinct_kinds(s.buffs) ==> distinct_kinds(s.add_quality(action).buffs),
        s.add_quality(action).has_buff(Buff::MuscleMemory) <==> s.has_buff(Buff::MuscleMemory),
{
    lemma_without(s.buffs, Buff::GreatStrides);
}

/// A buff action leaves its own buff active, leaves the other buff that it
/// overrides inactive, touches no third kind, and keeps the kinds of the
/// buffs distinct.
pub proof fn lemma_apply_buff(s: SimulationView, action: CraftingActionEnum, kind: Buff)
    requires
        distinct_kinds(s.buffs),
    ensures
        distinct_kinds(s.apply_buff(action, kind).buffs),
        s.apply_buff(action, kind).has_buff(kind),
        s.apply_buff(action, kind).get_buff(kind) == Some(s.applied_by(action, kind)),
        forall|other: Buff|
            action.also_overrides() == Some(other) && other != kind ==> !(#[trigger] holds(
                s.apply_buff(action, kind).buffs,
                other,
            )),
        forall|other: Buff|
            other != kind && action.also_overrides() != Some(other) ==> (#[trigger] holds(
                s.apply_buff(action, kind).buffs,
                other,
            ) <==> holds(s.buffs, other)),
{
    let first = without(s.buffs, kind);
    lemma_without(s.buffs, kind);
    let cleared = match action.also_overrides() {
        Some(other) => without(first, other),
        None => first,
    };
    match action.also_overrides() {
        Some(other) => {
            lemma_without(first, other);
        },
        None => {},
    }
    let applied = s.applied_by(action, kind);
    lemma_push(cleared, applied);
    let after = s.apply_buff(action, kind);
    assert(after.buffs == cleared.push(applied));
    lemma_position(after.buffs, kind);
    lemma_position(cleared, kind);
    let at = position(after.buffs, kind);
    if at < cleared.len() {
        assert(cleared[at].buff == kind);
    }
}

/// An action that is carried out keeps the kinds of the buffs distinct.
pub proof fn lemma_execute_keeps_distinct(
    s: SimulationView,
    action: CraftingActionEnum,
    skip_stack_addition: bool,
)
    requires
        distinct_kinds(s.buffs),
    ensures
        distinct_kinds(s.execute(action, skip_stack_addition).buffs),
{
    if action.adds_progress() || action.adds_quality() {
        let earned = s.stacks_earned(action, skip_stack_addition);
        lemma_add_progress(s, action);
        let after = if action.adds_progress() {
            s.add_progress(action)
        } else {
            s
        };
        lemma_add_quality(after, action);
        lemma_add_inner_quiet_stacks(after.add_quality(action), earned);
        let after = if action.adds_quality() {
            after.add_quality(action).earn_stacks(earned)
        } else {
            after
        };
        lemma_push(after.buffs, s.muscle_memory_buff());
        lemma_without_buff(after, Buff::InnerQuiet);
    } else {
        match action.applied_buff() {
            Some(kind) => {
                lemma_apply_buff(s, action, kind);
            },
            None => {
                lemma_without_buff(s, Buff::FinalAppraisal);
            },
        }
    }
}

/// The effect of a buff keeps the kinds of the buffs distinct.
pub proof fn lemma_apply_effect_keeps_distinct(
    s: SimulationView,
    effect: Option<BuffEffect>,
    action: CraftingActionEnum,
)
    requires
        distinct_kinds(s.buffs),
    ensures
        distinct_kinds(s.apply_effect(effect, action).buffs),
{
    match effect {
        Some(BuffEffect::ClearOnOffCondition(kind)) => {
            lemma_without_buff(s, kind);
        },
        _ => {},
    }
}

/// A buff that loses a step keeps its kind and its place.
pub proof fn lemma_decrement_keeps_distinct(s: SimulationView, kind: Buff)
    requires
        distinct_kinds(s.buffs),
    ensures
        distinct_kinds(s.decrement(kind).buffs),
{
    lemma_position(s.buffs, kind);
    if s.has_buff(kind) {
        let at = position(s.buffs, kind);
        lemma_update(s.buffs, at, s.decrement(kind).buffs[at]);
        assert(s.decrement(kind).buffs =~= s.buffs.update(at, s.decrement(kind).buffs[at]));
    }
}

/// The ticks of a buff tick pass keep the kinds of the buffs distinct.
pub proof fn lemma_tick_pass_keeps_distinct(
    s: SimulationView,
    snapshot: Seq<EffectiveBuff>,
    action: CraftingActionEnum,
    n: int,
)
    requires
        distinct_kinds(s.buffs),
    ensures
        distinct_kinds(s.tick_pass(snapshot, action, n).buffs),
    decreases n,
{
    if 0 < n <= snapshot.len() {
        lemma_tick_pass_keeps_distinct(s, snapshot, action, n - 1);
        let before = s.tick_pass(snapshot, action, n - 1);
        let buff = snapshot[n - 1];
        lemma_apply_effect_keeps_distinct(before, buff.tick, action);
        lemma_decrement_keeps_distinct(before.apply_effect(buff.tick, action), buff.buff);
    }
}

/// The expiry effects of a buff tick pass keep the kinds of the buffs
/// distinct.
pub proof fn lemma_expire_pass_keeps_distinct(
    s: SimulationView,
    snapshot: Seq<EffectiveBuff>,
    action: CraftingActionEnum,
    n: int,
)
    requires
        distinct_kinds(s.buffs),
    ensures
        distinct_kinds(s.expire_pass(snapshot, action, n).buffs),
    decreases n,
{
    if 0 < n <= snapshot.len() {
        lemma_expire_pass_keeps_distinct(s, snapshot, action, n - 1);
        let before = s.expire_pass(snapshot, action, n - 1);
        lemma_apply_effect_keeps_distinct(before, snapshot[n - 1].on_expire, action);
    }
}

/// A buff tick pass keeps the kinds of the buffs distinct, and leaves no
/// buff behind that has run out.
pub proof fn lemma_tick_buffs_keeps_distinct(s: SimulationView, action: CraftingActionEnum)
    requires
        distinct_kinds(s.buffs),
    ensures
        distinct_kinds(s.tick_buffs(action).buffs),
        forall|i: int|
            0 <= i < s.tick_buffs(action).buffs.len() ==> (#[trigger] s.tick_buffs(
                action,
            ).buffs[i]).duration > 0,
{
    let ticked = s.tick_pass(s.buffs, action, s.buffs.len() as int);
    lemma_tick_pass_keeps_distinct(s, s.buffs, action, s.buffs.len() as int);
    let expired = ticked.expire_pass(ticked.buffs, action, ticked.buffs.len() as int);
    lemma_expire_pass_keeps_distinct(ticked, ticked.buffs, action, ticked.buffs.len() as int);
    lemma_live_holds(expired.buffs, Buff::InnerQuiet);
    super::model::lemma_live_prefix(expired.buffs, expired.buffs.len() as int);
}

/// An attempt at an action keeps the kinds of the buffs distinct.
pub proof fn lemma_after_action_keeps_distinct(
    s: SimulationView,
    action: CraftingActionEnum,
    roll: u32,
    safe: bool,
)
    requires
        distinct_kinds(s.buffs),
    ensures
        distinct_kinds(s.after_action(action, roll, safe).buffs),
{
    lemma_execute_keeps_distinct(s, action, false);
    lemma_without_buff(s.attempt(action, roll, safe), Buff::TrainedPerfection);
}

/// A step of a run keeps the invariant of the session: the kinds of the
/// buffs stay distinct and the history stays consistent.
pub proof fn lemma_step_keeps_wf(s: SimulationView, index: usize, mode: RunMode, rolls: StepRolls)
    requires
        s.wf(),
    ensures
        s.step(index, mode, rolls).wf(),
{
    reveal(SimulationView::step);
    let action = s.actions[index as int];
    let start = SimulationView { state: s.scripted_condition(index as int), ..s };
    let roll = start.effective_roll(index, mode.linear, rolls.success);
    lemma_after_action_keeps_distinct(start, action, roll, mode.safe);
    lemma_after_action_keeps_script(start, action, roll, mode.safe);
    let acted = if start.carries_out(action, mode) {
        start.after_action(action, roll, mode.safe)
    } else {
        start
    };
    lemma_tick_buffs_keeps_distinct(acted, action);
    lemma_tick_buffs_keeps(acted, action);
    let after = s.step(index, mode, rolls);
    assert forall|i: int| 0 <= i < after.steps.len() implies consistent_step(
        #[trigger] after.steps[i],
    ) by {
        if i < s.steps.len() {
            assert(after.steps[i] == s.steps[i]);
        }
    }
}

/// The first `n` steps of a run keep the invariant of the session.
pub proof fn lemma_run_steps_keeps_wf(
    s: SimulationView,
    mode: RunMode,
    rolls: Seq<StepRolls>,
    n: int,
)
    requires
        s.wf(),
    ensures
        s.run_steps(mode, rolls, n).wf(),
    decreases n,
{
    if 0 < n <= rolls.len() && n <= usize::MAX {
        lemma_run_steps_keeps_wf(s, mode, rolls, n - 1);
        lemma_step_keeps_wf(s.run_steps(mode, rolls, n - 1), (n - 1) as usize, mode, rolls[n - 1]);
    }
}

} // verus!
