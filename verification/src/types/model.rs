//! The mathematical model of a craft session: the session as a value, the
//! list of buffs as a sequence, and what each action requires and costs in a
//! given session. The contracts of the executable code speak of these
//! functions.

use vstd::prelude::*;
use super::enums::{Buff, CraftingActionEnum, FailCause, StepState};
use super::numeric::{base_value, clamp_u32, halved_cost, reduced_durability_cost};
use super::structs::{ActionResult, Craft, CrafterStats, EffectiveBuff};
use super::tables::ilevel_of;

verus! {

/// A craft session as a mathematical value.
pub struct SimulationView {
    pub recipe: Craft,
    pub crafter_stats: CrafterStats,
    pub actions: Seq<CraftingActionEnum>,
    pub step_states: Seq<StepState>,
    pub fails: Seq<usize>,
    pub progression: u32,
    pub starting_quality: u32,
    pub quality: u32,
    pub durability: i32,
    pub state: StepState,
    pub max_cp: u32,
    pub available_cp: u32,
    pub buffs: Seq<EffectiveBuff>,
    pub success: Option<bool>,
    pub steps: Seq<ActionResult>,
    pub safe: bool,
    pub possible_conditions: Seq<StepState>,
}

/// The first position at or after `from` that holds a buff of the kind, or the
/// length of the list when there is none.
pub open spec fn position_from(buffs: Seq<EffectiveBuff>, kind: Buff, from: int) -> int
    decreases buffs.len() - from,
{
    if from < 0 || from >= buffs.len() {
        buffs.len() as int
    } else if buffs[from].buff == kind {
        from
    } else {
        position_from(buffs, kind, from + 1)
    }
}

/// The first position that holds a buff of the kind, or the length of the list
/// when there is none.
pub open spec fn position(buffs: Seq<EffectiveBuff>, kind: Buff) -> int {
    position_from(buffs, kind, 0)
}

/// Whether the list holds a buff of the kind.
pub open spec fn holds(buffs: Seq<EffectiveBuff>, kind: Buff) -> bool {
    position(buffs, kind) < buffs.len()
}

/// The stacks of the first buff of the kind; zero when there is none.
pub open spec fn stacks_of(buffs: Seq<EffectiveBuff>, kind: Buff) -> u32 {
    if holds(buffs, kind) {
        buffs[position(buffs, kind)].stacks
    } else {
        0
    }
}

/// The list without its first buff of the kind: the last buff takes the
/// place of the one that leaves.
pub open spec fn without(buffs: Seq<EffectiveBuff>, kind: Buff) -> Seq<EffectiveBuff> {
    if holds(buffs, kind) {
        buffs.update(position(buffs, kind), buffs.last()).drop_last()
    } else {
        buffs
    }
}

/// No kind of buff occurs twice in the list.
pub open spec fn distinct_kinds(buffs: Seq<EffectiveBuff>) -> bool {
    forall|i: int, j: int| 0 <= i < j < buffs.len() ==> buffs[i].buff != buffs[j].buff
}

/// The first `n` buffs of the list that have time left, in their order.
pub open spec fn live_prefix(buffs: Seq<EffectiveBuff>, n: int) -> Seq<EffectiveBuff>
    decreases n,
{
    if n <= 0 || n > buffs.len() {
        Seq::empty()
    } else if buffs[n - 1].duration > 0 {
        live_prefix(buffs, n - 1).push(buffs[n - 1])
    } else {
        live_prefix(buffs, n - 1)
    }
}

/// The buffs of the list that have time left, in their order.
pub open spec fn live(buffs: Seq<EffectiveBuff>) -> Seq<EffectiveBuff> {
    live_prefix(buffs, buffs.len() as int)
}

/// What `position_from` finds: a position in the list at or after `from`
/// that holds the kind and has none of the kind between `from` and itself, or
/// the length of the list when nothing at or after `from` holds the kind.
pub proof fn lemma_position_from(buffs: Seq<EffectiveBuff>, kind: Buff, from: int)
    requires
        0 <= from <= buffs.len(),
    ensures
        from <= position_from(buffs, kind, from) <= buffs.len(),
        position_from(buffs, kind, from) < buffs.len() ==> buffs[position_from(
            buffs,
            kind,
            from,
        )].buff == kind,
        forall|j: int| from <= j < position_from(buffs, kind, from) ==> buffs[j].buff != kind,
    decreases buffs.len() - from,
{
    if from < buffs.len() && buffs[from].buff != kind {
        lemma_position_from(buffs, kind, from + 1);
    }
}

/// What `position` finds: the first position that holds the kind, or the
/// length of the list when nothing holds it.
pub proof fn lemma_position(buffs: Seq<EffectiveBuff>, kind: Buff)
    ensures
        0 <= position(buffs, kind) <= buffs.len(),
        holds(buffs, kind) ==> buffs[position(buffs, kind)].buff == kind,
        forall|j: int| 0 <= j < position(buffs, kind) ==> buffs[j].buff != kind,
        holds(buffs, kind) <==> exists|j: int| 0 <= j < buffs.len() && buffs[j].buff == kind,
{
    lemma_position_from(buffs, kind, 0);
    if holds(buffs, kind) {
        assert(buffs[position(buffs, kind)].buff == kind);
    }
}

/// Every buff of `without(buffs, kind)` is a buff of `buffs`, and where the
/// kinds of `buffs` are distinct, so are those of the result, which then
/// holds the kind no more and every other kind as before.
pub proof fn lemma_without(buffs: Seq<EffectiveBuff>, kind: Buff)
    ensures
        forall|j: int|
            0 <= j < without(buffs, kind).len() ==> exists|k: int|
                0 <= k < buffs.len() && buffs[k] == #[trigger] without(buffs, kind)[j],
        !holds(buffs, kind) ==> without(buffs, kind) == buffs,
        distinct_kinds(buffs) ==> distinct_kinds(without(buffs, kind)),
        distinct_kinds(buffs) ==> !holds(without(buffs, kind), kind),
        forall|other: Buff|
            other != kind ==> (#[trigger] holds(without(buffs, kind), other) <==> holds(
                buffs,
                other,
            )),
        forall|other: Buff|
            other != kind && distinct_kinds(buffs) ==> #[trigger] stacks_of(
                without(buffs, kind),
                other,
            ) == stacks_of(buffs, other),
{
    lemma_position(buffs, kind);
    let rest = without(buffs, kind);
    let p = position(buffs, kind);
    if holds(buffs, kind) {
        let last = buffs.len() - 1;
        assert forall|j: int| 0 <= j < rest.len() implies exists|k: int|
            0 <= k < buffs.len() && buffs[k] == #[trigger] rest[j] by {
            if j == p {
                assert(buffs[last] == rest[j]);
            } else {
                assert(buffs[j] == rest[j]);
            }
        }
        if distinct_kinds(buffs) {
            assert forall|i: int, j: int| 0 <= i < j < rest.len() implies rest[i].buff
                != rest[j].buff by {
                let oi = if i == p {
                    last
                } else {
                    i
                };
                let oj = if j == p {
                    last
                } else {
                    j
                };
                assert(rest[i] == buffs[oi]);
                assert(rest[j] == buffs[oj]);
                assert(oi != oj);
                if oi < oj {
                    assert(buffs[oi].buff != buffs[oj].buff);
                } else {
                    assert(buffs[oj].buff != buffs[oi].buff);
                }
            }
            lemma_position(rest, kind);
            if holds(rest, kind) {
                let q = position(rest, kind);
                let oq = if q == p {
                    last
                } else {
                    q
                };
                assert(rest[q] == buffs[oq]);
                assert(oq != p);
                if oq < p {
                    assert(buffs[oq].buff != buffs[p].buff);
                } else {
                    assert(buffs[p].buff != buffs[oq].buff);
                }
            }
        }
        assert forall|other: Buff| other != kind implies (#[trigger] holds(rest, other) <==> holds(
            buffs,
            other,
        )) by {
            lemma_position(rest, other);
            lemma_position(buffs, other);
            if holds(rest, other) {
                let q = position(rest, other);
                let oq = if q == p {
                    last
                } else {
                    q
                };
                assert(buffs[oq].buff == other);
            }
            if holds(buffs, other) {
                let q = position(buffs, other);
                assert(q != p);
                if q == last {
                    assert(rest[p].buff == other);
                } else {
                    assert(rest[q].buff == other);
                }
            }
        }
        assert forall|other: Buff| other != kind && distinct_kinds(buffs) implies #[trigger] stacks_of(
            rest,
            other,
        ) == stacks_of(buffs, other) by {
            lemma_position(rest, other);
            lemma_position(buffs, other);
            if holds(rest, other) {
                let q = position(rest, other);
                let oq = if q == p {
                    last
                } else {
                    q
                };
                assert(rest[q] == buffs[oq]);
                let b = position(buffs, other);
                assert(buffs[b].buff == other);
                if b < oq {
                    assert(buffs[b].buff != buffs[oq].buff);
                } else if oq < b {
                    assert(buffs[oq].buff != buffs[b].buff);
                }
            }
        }
    }
}

/// Every live buff is a buff of the list with time left; where the kinds of
/// the list are distinct, so are those of its live buffs.
pub proof fn lemma_live_prefix(buffs: Seq<EffectiveBuff>, n: int)
    requires
        0 <= n <= buffs.len(),
    ensures
        live_prefix(buffs, n).len() <= n,
        forall|j: int|
            0 <= j < live_prefix(buffs, n).len() ==> (#[trigger] live_prefix(buffs, n)[j]).duration
                > 0,
        forall|j: int|
            0 <= j < live_prefix(buffs, n).len() ==> exists|k: int|
                0 <= k < n && buffs[k] == #[trigger] live_prefix(buffs, n)[j],
        distinct_kinds(buffs) ==> distinct_kinds(live_prefix(buffs, n)),
    decreases n,
{
    if n > 0 {
        lemma_live_prefix(buffs, n - 1);
        let before = live_prefix(buffs, n - 1);
        let now = live_prefix(buffs, n);
        assert forall|j: int| 0 <= j < now.len() implies exists|k: int|
            0 <= k < n && buffs[k] == #[trigger] now[j] by {
            if j < before.len() {
                let k = choose|k: int| 0 <= k < n - 1 && buffs[k] == before[j];
                assert(buffs[k] == now[j]);
            } else {
                assert(buffs[n - 1] == now[j]);
            }
        }
        if distinct_kinds(buffs) && buffs[n - 1].duration > 0 {
            assert forall|i: int, j: int| 0 <= i < j < now.len() implies now[i].buff
                != now[j].buff by {
                if j == before.len() {
                    let k = choose|k: int| 0 <= k < n - 1 && buffs[k] == before[i];
                    assert(buffs[k].buff != buffs[n - 1].buff);
                }
            }
        }
    }
}

/// A buff of a kind that the list does not hold can join a list of distinct
/// kinds: the kinds stay distinct, the list then holds the kind, and it holds
/// every other kind as before.
pub proof fn lemma_push(buffs: Seq<EffectiveBuff>, buff: EffectiveBuff)
    ensures
        holds(buffs.push(buff), buff.buff),
        distinct_kinds(buffs) && !holds(buffs, buff.buff) ==> distinct_kinds(buffs.push(buff)),
        forall|other: Buff|
            other != buff.buff ==> (#[trigger] holds(buffs.push(buff), other) <==> holds(
                buffs,
                other,
            )),
        forall|other: Buff|
            holds(buffs, other) ==> #[trigger] position(buffs.push(buff), other) == position(
                buffs,
                other,
            ),
{
    let longer = buffs.push(buff);
    lemma_position(buffs, buff.buff);
    lemma_position(longer, buff.buff);
    assert(longer[buffs.len() as int].buff == buff.buff);
    if distinct_kinds(buffs) && !holds(buffs, buff.buff) {
        assert forall|i: int, j: int| 0 <= i < j < longer.len() implies longer[i].buff
            != longer[j].buff by {
            if j == buffs.len() {
                assert(buffs[i].buff != buff.buff);
            } else {
                assert(buffs[i].buff != buffs[j].buff);
            }
        }
    }
    assert forall|other: Buff| other != buff.buff implies (#[trigger] holds(longer, other)
        <==> holds(buffs, other)) by {
        lemma_position(buffs, other);
        lemma_position(longer, other);
        if holds(longer, other) {
            let q = position(longer, other);
            assert(q < buffs.len());
            assert(buffs[q].buff == other);
        }
        if holds(buffs, other) {
            let q = position(buffs, other);
            assert(longer[q].buff == other);
        }
    }
    assert forall|other: Buff| holds(buffs, other) implies #[trigger] position(longer, other)
        == position(buffs, other) by {
        lemma_position(buffs, other);
        lemma_position(longer, other);
        let q = position(buffs, other);
        let r = position(longer, other);
        assert(longer[q].buff == other);
        if r < q {
            assert(buffs[r].buff == other);
        }
    }
}

/// A buff that changes in place and keeps its kind leaves every kind where it
/// was: the list holds the same kinds at the same positions, and distinct
/// kinds stay distinct.
pub proof fn lemma_update(buffs: Seq<EffectiveBuff>, at: int, buff: EffectiveBuff)
    requires
        0 <= at < buffs.len(),
        buff.buff == buffs[at].buff,
    ensures
        forall|kind: Buff| #[trigger] position(buffs.update(at, buff), kind) == position(buffs, kind),
        forall|kind: Buff| #[trigger] holds(buffs.update(at, buff), kind) == holds(buffs, kind),
        distinct_kinds(buffs) ==> distinct_kinds(buffs.update(at, buff)),
{
    let changed = buffs.update(at, buff);
    assert forall|kind: Buff| #[trigger] position(changed, kind) == position(buffs, kind) by {
        lemma_position(buffs, kind);
        lemma_position(changed, kind);
        let q = position(buffs, kind);
        let r = position(changed, kind);
        if q < buffs.len() {
            assert(changed[q].buff == kind);
        }
        if r < buffs.len() {
            assert(buffs[r].buff == kind);
        }
        if r < q {
            assert(buffs[r].buff != kind);
        }
        if q < r {
            assert(changed[q].buff != kind);
        }
    }
    if distinct_kinds(buffs) {
        assert forall|i: int, j: int| 0 <= i < j < changed.len() implies changed[i].buff
            != changed[j].buff by {
            assert(buffs[i].buff != buffs[j].buff);
        }
    }
}

/// The live buffs of a list hold a kind only where the list holds it.
pub proof fn lemma_live_holds(buffs: Seq<EffectiveBuff>, kind: Buff)
    ensures
        holds(live(buffs), kind) ==> holds(buffs, kind),
        distinct_kinds(buffs) ==> distinct_kinds(live(buffs)),
{
    lemma_live_prefix(buffs, buffs.len() as int);
    lemma_position(live(buffs), kind);
    lemma_position(buffs, kind);
    if holds(live(buffs), kind) {
        let q = position(live(buffs), kind);
        let k = choose|k: int| 0 <= k < buffs.len() && buffs[k] == live(buffs)[q];
        assert(buffs[k].buff == kind);
    }
}

/// Whether the most recent step that was not skipped is a successful use of
/// `wanted`, looking at the first `n` steps only.
pub open spec fn followed_within(steps: Seq<ActionResult>, wanted: CraftingActionEnum, n: int) -> bool
    decreases n,
{
    if n <= 0 || n > steps.len() {
        false
    } else if steps[n - 1].action == wanted && steps[n - 1].success == Some(true) {
        true
    } else if !steps[n - 1].skipped {
        false
    } else {
        followed_within(steps, wanted, n - 1)
    }
}

/// Whether a step opens the combo of Advanced Touch: a successful Observe, or
/// a successful Standard Touch that was a combo itself.
pub open spec fn opens_advanced_touch(step: ActionResult) -> bool {
    step.success == Some(true) && (step.action == CraftingActionEnum::Observe || (step.action
        == CraftingActionEnum::StandardTouch && step.combo == Some(true)))
}

/// Whether the most recent step that was not skipped opens the combo of
/// Advanced Touch, looking at the first `n` steps only.
pub open spec fn advanced_touch_ready_within(steps: Seq<ActionResult>, n: int) -> bool
    decreases n,
{
    if n <= 0 || n > steps.len() {
        false
    } else if opens_advanced_touch(steps[n - 1]) {
        true
    } else if !steps[n - 1].skipped {
        false
    } else {
        advanced_touch_ready_within(steps, n - 1)
    }
}

/// Whether some recorded step, skipped or not, names the action.
pub open spec fn recorded(steps: Seq<ActionResult>, action: CraftingActionEnum) -> bool {
    exists|i: int| 0 <= i < steps.len() && steps[i].action == action
}

/// Whether every recorded step names an action that skips the buff ticks.
pub open spec fn only_free_actions(steps: Seq<ActionResult>) -> bool {
    forall|i: int| 0 <= i < steps.len() ==> (#[trigger] steps[i]).action.spec_skips_buff_ticks()
}

/// A step record is consistent: it is skipped exactly when it has no outcome,
/// and a skipped step added nothing.
pub open spec fn consistent_step(step: ActionResult) -> bool {
    &&& step.skipped <==> step.success is None
    &&& step.skipped ==> step.combo is None && step.added_progression == 0 && step.added_quality
        == 0 && step.cp_difference == 0 && step.solidity_difference == 0
        && step.after_buff_tick is None
    &&& !step.skipped ==> step.combo is Some
}

/// Every step of the history is consistent.
pub open spec fn consistent_history(steps: Seq<ActionResult>) -> bool {
    forall|i: int| 0 <= i < steps.len() ==> consistent_step(#[trigger] steps[i])
}

/// A length as a `u32`, cut off at the largest one.
pub open spec fn step_count(steps: Seq<ActionResult>) -> u32 {
    clamp_u32(steps.len() as int)
}

impl SimulationView {
    /// The invariant of a session: no kind of buff is active twice, and the
    /// history is consistent.
    pub open spec fn wf(self) -> bool {
        distinct_kinds(self.buffs) && consistent_history(self.steps)
    }

    /// Whether a buff of the kind is active.
    pub open spec fn has_buff(self, kind: Buff) -> bool {
        holds(self.buffs, kind)
    }

    /// The active buff of the kind.
    pub open spec fn get_buff(self, kind: Buff) -> Option<EffectiveBuff> {
        if holds(self.buffs, kind) {
            Some(self.buffs[position(self.buffs, kind)])
        } else {
            None
        }
    }

    /// The stacks of Inner Quiet; zero while it is not active.
    pub open spec fn inner_quiet(self) -> u32 {
        stacks_of(self.buffs, Buff::InnerQuiet)
    }

    /// Whether Waste Not or Waste Not II is active.
    pub open spec fn wastes_not(self) -> bool {
        self.has_buff(Buff::WasteNot) || self.has_buff(Buff::WasteNotII)
    }

    /// Whether the most recent step that was not skipped is a successful use
    /// of `wanted`.
    pub open spec fn combo_available(self, wanted: CraftingActionEnum) -> bool {
        followed_within(self.steps, wanted, self.steps.len() as int)
    }

    /// Whether the action would be a combo now.
    pub open spec fn has_combo(self, action: CraftingActionEnum) -> bool {
        if action == CraftingActionEnum::AdvancedTouch {
            advanced_touch_ready_within(self.steps, self.steps.len() as int)
        } else {
            match action.combo_predecessor() {
                Some(wanted) => self.combo_available(wanted),
                None => false,
            }
        }
    }

    /// What the action costs in CP before the condition is counted: its combo
    /// price where it is a combo, its plain price otherwise.
    pub open spec fn base_cp_cost(self, action: CraftingActionEnum) -> u32 {
        if self.has_combo(action) {
            action.combo_cp_cost()
        } else {
            action.plain_cp_cost()
        }
    }

    /// What the action costs in CP: half its base cost, rounded up, while the
    /// condition is Pliant, its base cost otherwise.
    pub open spec fn cp_cost(self, action: CraftingActionEnum) -> u32 {
        if self.state == StepState::Pliant {
            halved_cost(self.base_cp_cost(action))
        } else {
            self.base_cp_cost(action)
        }
    }

    /// What the action costs in durability: its base cost, halved under Waste
    /// Not or Waste Not II, halved again while the condition is Sturdy, and
    /// rounded up once.
    pub open spec fn durability_cost(self, action: CraftingActionEnum) -> u32 {
        reduced_durability_cost(
            action.base_durability_cost(),
            self.wastes_not(),
            self.state == StepState::Sturdy,
        )
    }

    /// The chance of success in percent: the action's own, and 25 more while
    /// the condition is Centered.
    pub open spec fn success_rate(self, action: CraftingActionEnum) -> u32 {
        if self.state == StepState::Centered {
            (action.base_success_rate() + 25) as u32
        } else {
            action.base_success_rate()
        }
    }

    /// The potency of the action in percent; zero for an action that adds
    /// neither progress nor quality by a formula.
    pub open spec fn potency(self, action: CraftingActionEnum) -> u32 {
        let level = self.crafter_stats.level@;
        match action {
            CraftingActionEnum::BasicSynthesis => if level >= 31 {
                120
            } else {
                100
            },
            CraftingActionEnum::CarefulSynthesis => if level >= 82 {
                180
            } else {
                150
            },
            CraftingActionEnum::PrudentSynthesis => 180,
            CraftingActionEnum::RapidSynthesis => if level >= 63 {
                500
            } else {
                250
            },
            CraftingActionEnum::Groundwork => {
                let full: u32 = if level >= 86 {
                    360
                } else {
                    300
                };
                if self.has_buff(Buff::TrainedPerfection) || self.durability
                    >= self.durability_cost(action) {
                    full
                } else {
                    (full / 2) as u32
                }
            },
            CraftingActionEnum::MuscleMemory => 300,
            CraftingActionEnum::IntensiveSynthesis => 400,
            CraftingActionEnum::BasicTouch => 100,
            CraftingActionEnum::StandardTouch => 125,
            CraftingActionEnum::AdvancedTouch => 150,
            CraftingActionEnum::HastyTouch => 100,
            CraftingActionEnum::ByregotsBlessing => {
                let grown = self.inner_quiet() * 20 + 100;
                if grown < 300 {
                    grown as u32
                } else {
                    300
                }
            },
            CraftingActionEnum::PreciseTouch => 150,
            CraftingActionEnum::PrudentTouch => 100,
            CraftingActionEnum::PreparatoryTouch => 200,
            CraftingActionEnum::Reflect => 300,
            CraftingActionEnum::TrainedFinesse => 100,
            CraftingActionEnum::DaringTouch => 150,
            CraftingActionEnum::RefinedTouch => 100,
            CraftingActionEnum::DelicateSynthesis => 100,
            _ => 0,
        }
    }

    /// Whether the crafter has the level that the action requires: in the
    /// discipline that the requirement names, or overall where it names none.
    pub open spec fn has_level(self, action: CraftingActionEnum) -> bool {
        let (job, level) = action.level_requirement();
        match self.crafter_stats.levels.level_of(job) {
            Some(held) => held@ >= level,
            None => self.crafter_stats.level@ >= level,
        }
    }

    /// Whether the crafter has the craftsmanship and the control that the
    /// recipe demands.
    pub open spec fn has_stats(self) -> bool {
        &&& match self.recipe.craftsmanship_req {
            Some(least) => self.crafter_stats.craftsmanship >= least,
            None => true,
        }
        &&& match self.recipe.control_req {
            Some(least) => self.crafter_stats.control >= least,
            None => true,
        }
    }

    /// Whether the condition, or Heart and Soul in its place, opens the
    /// condition-gated actions. In linear mode they are always open; a session
    /// marked safe relies on no condition.
    pub open spec fn gate_open(self, linear: bool) -> bool {
        linear || self.has_buff(Buff::HeartAndSoul) || (!self.safe
            && self.state.is_good_or_excellent())
    }

    /// What the action itself asks of the session, beyond level and stats.
    pub open spec fn usable(self, action: CraftingActionEnum, linear: bool) -> bool {
        &&& action.opener_only() ==> only_free_actions(self.steps)
        &&& action.barred_by_waste_not() ==> !self.wastes_not()
        &&& action.specialist_only() ==> self.crafter_stats.specialist
        &&& action.once_per_craft() ==> !recorded(self.steps, action)
        &&& action.condition_gated() ==> self.gate_open(linear)
        &&& match action.applied_buff() {
            Some(kind) => action.spec_can_be_clipped() || !self.has_buff(kind),
            None => true,
        }
        &&& match action {
            CraftingActionEnum::ByregotsBlessing => self.inner_quiet() > 0,
            CraftingActionEnum::TrainedFinesse => self.inner_quiet() == 10,
            CraftingActionEnum::TrainedEye => self.recipe.expert == Some(false)
                && self.crafter_stats.level@ >= self.recipe.lvl@ + 10 && self.steps.len() == 0,
            CraftingActionEnum::DaringTouch => self.combo_available(
                CraftingActionEnum::HastyTouch,
            ),
            CraftingActionEnum::RemoveFinalAppraisal => self.has_buff(Buff::FinalAppraisal),
            _ => true,
        }
    }

    /// Whether the action can be used now: level first, then stats, then what
    /// the action itself asks.
    pub open spec fn can_be_used(self, action: CraftingActionEnum, linear: bool) -> bool {
        self.has_level(action) && self.has_stats() && self.usable(action, linear)
    }

    /// Why the action cannot be used, in the order of precedence: a safe run
    /// that meets a chance below one hundred, the level, the stats, then the
    /// action's own cause. Nothing when none of these holds.
    pub open spec fn fail_cause(self, action: CraftingActionEnum, safe: bool) -> Option<
        FailCause,
    > {
        if safe && self.success_rate(action) < 100 {
            Some(FailCause::UnsafeAction)
        } else if !self.has_level(action) {
            Some(FailCause::MissingLevelRequirement)
        } else if !self.has_stats() {
            Some(FailCause::MissingStatsRequirement)
        } else if action.specialist_only() && !self.crafter_stats.specialist {
            Some(FailCause::NotSpecialist)
        } else if action == CraftingActionEnum::ByregotsBlessing && self.success == Some(false)
            && !self.has_buff(Buff::InnerQuiet) {
            Some(FailCause::NoInnerQuiet)
        } else {
            None
        }
    }

    /// Whether the recipe's modifiers apply: the crafter's internal level is
    /// not above the recipe's.
    pub open spec fn modifiers_apply(self) -> bool {
        ilevel_of(self.crafter_stats.level@) <= self.recipe.rlvl
    }

    /// The base value of progress: `craftsmanship * 10 / progress_divider + 2`,
    /// scaled by the progress modifier where the modifiers apply, floored.
    pub open spec fn base_progression(self) -> u32 {
        base_value(
            self.crafter_stats.craftsmanship,
            self.recipe.progress_divider,
            2,
            self.modifiers_apply(),
            match self.recipe.progress_modifier {
                Some(percent) => percent,
                None => 100,
            },
        )
    }

    /// The base value of quality: `control * 10 / quality_divider + 35`,
    /// scaled by the quality modifier where the modifiers apply, floored.
    pub open spec fn base_quality(self) -> u32 {
        base_value(
            self.crafter_stats.control,
            self.recipe.quality_divider,
            35,
            self.modifiers_apply(),
            match self.recipe.quality_modifier {
                Some(percent) => percent,
                None => 100,
            },
        )
    }
}

} // verus!
