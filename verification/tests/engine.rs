use std::collections::HashSet;

use byregox::types::actions;
use byregox::types::conditions::{compute_odds, parse_conditions};
use byregox::types::enums::{Buff, CraftingActionEnum, CraftingJob, FailCause, StepState};
use byregox::types::numeric::{
    compute_base_value, compute_halved_cost, compute_progress_gain, compute_quality_gain,
    compute_reduced_durability_cost, compute_signed_difference, ProgressFactors, QualityFactors,
};
use byregox::types::structs::{
    BuffEffect, Craft, CrafterLevels, CrafterStats, CraftingLevel, EffectiveBuff, Ingredient,
};
use byregox::types::tables::{hq_percent, level_to_ilevel};
use byregox::types::traits::{BuffAction, CraftingAction, GeneralAction};
use byregox::types::transitions::{RunMode, StepRolls};
use byregox::types::Simulation;

fn plain_recipe(durability: u32, progress: u32, quality: u32) -> Craft {
    Craft {
        id: "1".to_string(),
        job: 14,
        lvl: CraftingLevel::unchecked_new(1),
        rlvl: 1,
        durability,
        progress,
        quality,
        progress_divider: 50,
        quality_divider: 30,
        conditions_flag: 15,
        ..Default::default()
    }
}

fn crafter(level: u8, craftsmanship: u32, control: u32, cp: u32) -> CrafterStats {
    CrafterStats {
        job_id: 14,
        craftsmanship,
        control,
        cp,
        specialist: false,
        splendorous: false,
        level: CraftingLevel::unchecked_new(level),
        levels: CrafterLevels::from([CraftingLevel::unchecked_new(level); 8]),
    }
}

fn veteran() -> CrafterStats {
    crafter(90, 4041, 3987, 616)
}

fn session(
    recipe: Craft,
    stats: CrafterStats,
    actions: Vec<CraftingActionEnum>,
) -> Simulation {
    Simulation::builder()
        .recipe(recipe)
        .crafter_stats(stats)
        .actions(actions)
        .build()
}

#[test]
fn base_value_is_floored_after_the_offset() {
    assert_eq!(compute_base_value(3289, 130, 2, false, 100), 255);
    assert_eq!(compute_base_value(698, 30, 35, false, 100), 267);
    assert_eq!(compute_base_value(1208, 50, 2, false, 100), 243);
    assert_eq!(compute_base_value(4041, 50, 2, false, 100), 810);
}

#[test]
fn base_value_scales_through_the_single_precision_hundredth() {
    // 255 * 80 / 100 is 204 exactly; the hundredth is a little short of 0.01
    assert_eq!(compute_base_value(3289, 130, 2, true, 80), 203);
    assert_eq!(compute_base_value(3289, 130, 2, true, 100), 254);
    assert_eq!(compute_base_value(3338, 115, 35, true, 15), 48);
    assert_eq!(compute_base_value(3289, 130, 2, true, 0), 0);
}

#[test]
fn base_value_with_a_divider_of_zero_is_unbounded() {
    assert_eq!(compute_base_value(5, 0, 2, false, 100), u32::MAX);
    assert_eq!(compute_base_value(0, 0, 2, false, 100), 0);
    assert_eq!(compute_base_value(5, 0, 2, true, 0), 0);
    assert_eq!(compute_base_value(5, 0, 2, true, 80), u32::MAX);
}

#[test]
fn base_value_is_cut_off_at_the_largest_u32() {
    assert_eq!(compute_base_value(u32::MAX, 1, 35, false, 100), u32::MAX);
    assert_eq!(compute_base_value(u32::MAX, 1, 35, true, u32::MAX), u32::MAX);
}

fn plain_progress() -> ProgressFactors {
    ProgressFactors {
        base_condition: 100,
        malleable: false,
        base_bonus: 100,
        muscle_memory: false,
        veneration: false,
    }
}

fn plain_quality() -> QualityFactors {
    QualityFactors {
        base_condition: 100,
        condition: StepState::Normal,
        splendorous: false,
        base_bonus: 100,
        great_strides: false,
        innovation: false,
    }
}

#[test]
fn progress_gain_is_floored_once() {
    assert_eq!(compute_progress_gain(203, plain_progress(), 300), 609);
    assert_eq!(compute_progress_gain(243, plain_progress(), 120), 291);
    // 457 * 1.5 = 685.5
    assert_eq!(compute_progress_gain(457, plain_progress(), 150), 685);
    // malleable and veneration: 810 * 1.5 * 1.0 * 1.5 = 1822.5
    let both = ProgressFactors { malleable: true, veneration: true, ..plain_progress() };
    assert_eq!(compute_progress_gain(810, both, 100), 1822);
    // muscle memory and veneration: 810 * 1.2 * 2.5
    let buffed = ProgressFactors { muscle_memory: true, veneration: true, ..plain_progress() };
    assert_eq!(compute_progress_gain(810, buffed, 120), 2430);
    // a base bonus of 1.1 and a base condition of 0.9: 1000 * 0.9 * 1.0 * 1.1
    let hooked = ProgressFactors { base_bonus: 110, base_condition: 90, ..plain_progress() };
    assert_eq!(compute_progress_gain(1000, hooked, 100), 990);
    let most = ProgressFactors {
        base_condition: 255,
        malleable: true,
        base_bonus: 255,
        muscle_memory: true,
        veneration: true,
    };
    assert_eq!(compute_progress_gain(u32::MAX, most, u32::MAX), u32::MAX);
    assert_eq!(compute_progress_gain(0, most, u32::MAX), 0);
}

#[test]
fn quality_gain_is_floored_once() {
    assert_eq!(compute_quality_gain(267, plain_quality(), 100, 0), 267);
    assert_eq!(compute_quality_gain(267, plain_quality(), 100, 1), 293);
    // 817 * 1.6 * 1.3 = 1699.36
    assert_eq!(compute_quality_gain(817, plain_quality(), 160, 3), 1699);
    // poor halves: 1364 * 0.5 * 1.25 = 852.5
    let poor = QualityFactors { condition: StepState::Poor, ..plain_quality() };
    assert_eq!(compute_quality_gain(1364, poor, 125, 0), 852);
    let good = QualityFactors { condition: StepState::Good, ..plain_quality() };
    assert_eq!(compute_quality_gain(1364, good, 100, 0), 2046);
    let splendid = QualityFactors { splendorous: true, ..good };
    assert_eq!(compute_quality_gain(1364, splendid, 100, 0), 2387);
    // excellent, great strides and innovation: 100 * 4 * 2.5 = 1000
    let best = QualityFactors {
        condition: StepState::Excellent,
        great_strides: true,
        innovation: true,
        ..plain_quality()
    };
    assert_eq!(compute_quality_gain(100, best, 100, 0), 1000);
    // a base bonus of 1.5 multiplies what the stacks give: 1000 * 1.5 * 2.0
    let hooked = QualityFactors { base_bonus: 150, ..plain_quality() };
    assert_eq!(compute_quality_gain(1000, hooked, 100, 10), 3000);
    let most = QualityFactors {
        base_condition: 255,
        condition: StepState::Excellent,
        splendorous: true,
        base_bonus: 255,
        great_strides: true,
        innovation: true,
    };
    assert_eq!(compute_quality_gain(u32::MAX, most, u32::MAX, u32::MAX), u32::MAX);
    assert_eq!(compute_quality_gain(u32::MAX, most, 0, u32::MAX), 0);
}

#[test]
fn pliant_halves_and_rounds_up() {
    assert_eq!(compute_halved_cost(56), 28);
    assert_eq!(compute_halved_cost(25), 13);
    assert_eq!(compute_halved_cost(7), 4);
    assert_eq!(compute_halved_cost(1), 1);
    assert_eq!(compute_halved_cost(0), 0);
    assert_eq!(compute_halved_cost(u32::MAX), 2147483648);
}

#[test]
fn durability_cost_is_rounded_up_once() {
    assert_eq!(compute_reduced_durability_cost(10, false, false), 10);
    assert_eq!(compute_reduced_durability_cost(10, true, false), 5);
    assert_eq!(compute_reduced_durability_cost(10, false, true), 5);
    // a quarter of ten is two and a half
    assert_eq!(compute_reduced_durability_cost(10, true, true), 3);
    assert_eq!(compute_reduced_durability_cost(5, true, true), 2);
    assert_eq!(compute_reduced_durability_cost(20, true, true), 5);
    assert_eq!(compute_reduced_durability_cost(5, false, true), 3);
    assert_eq!(compute_reduced_durability_cost(0, true, true), 0);
    assert_eq!(compute_reduced_durability_cost(u32::MAX, false, false), u32::MAX);
}

#[test]
fn signed_difference_is_cut_off() {
    assert_eq!(compute_signed_difference(5, 10), -5);
    assert_eq!(compute_signed_difference(10, 5), 5);
    assert_eq!(compute_signed_difference(u32::MAX, 0), i32::MAX);
    assert_eq!(compute_signed_difference(0, u32::MAX), i32::MIN);
}

#[test]
fn tables_hold_their_ends() {
    assert_eq!(hq_percent(0), 1);
    assert_eq!(hq_percent(1), 1);
    assert_eq!(hq_percent(50), 15);
    assert_eq!(hq_percent(99), 98);
    assert_eq!(hq_percent(100), 100);
    assert_eq!(hq_percent(4000), 100);
    assert_eq!(level_to_ilevel(CraftingLevel::unchecked_new(0)), 0);
    assert_eq!(level_to_ilevel(CraftingLevel::unchecked_new(50)), 50);
    assert_eq!(level_to_ilevel(CraftingLevel::unchecked_new(51)), 120);
    assert_eq!(level_to_ilevel(CraftingLevel::unchecked_new(80)), 420);
    assert_eq!(level_to_ilevel(CraftingLevel::unchecked_new(90)), 560);
    assert_eq!(level_to_ilevel(CraftingLevel::max()), 690);
}

#[test]
fn crafting_level_is_only_made_in_range() {
    assert!(CraftingLevel::new(0).is_some());
    assert!(CraftingLevel::new(100).is_some());
    assert!(CraftingLevel::new(101).is_none());
    assert!(CraftingLevel::new(255).is_none());
    assert_eq!(CraftingLevel::new(42).unwrap().value(), 42);
    assert_eq!(u8::from(CraftingLevel::max()), 100);
}

#[test]
fn crafter_levels_by_discipline() {
    let mut levels = CrafterLevels::max();
    assert_eq!(levels.get(CraftingJob::Weaver).unwrap().value(), 100);
    assert!(levels.get(CraftingJob::Any).is_none());
    levels.set(CraftingJob::Weaver, CraftingLevel::unchecked_new(7));
    assert_eq!(levels.get(CraftingJob::Weaver).unwrap().value(), 7);
    assert_eq!(levels.get(CraftingJob::Alchemist).unwrap().value(), 100);
    let numbered = CrafterLevels::try_from_numbers([1, 2, 3, 4, 5, 6, 7, 8]).unwrap();
    assert_eq!(numbered.get(CraftingJob::Carpenter).unwrap().value(), 1);
    assert_eq!(numbered.get(CraftingJob::Culinarian).unwrap().value(), 8);
    assert!(CrafterLevels::try_from_numbers([1, 2, 3, 4, 5, 6, 7, 101]).is_none());
}

#[test]
fn step_state_by_ordinal() {
    assert_eq!(StepState::from_usize(0), Some(StepState::Failure));
    assert_eq!(StepState::from_usize(1), Some(StepState::Normal));
    assert_eq!(StepState::from_usize(4), Some(StepState::Poor));
    assert_eq!(StepState::from_usize(10), Some(StepState::GoodOmen));
    assert_eq!(StepState::from_usize(11), None);
}

#[test]
fn legal_conditions_follow_the_bits() {
    assert_eq!(
        parse_conditions(15),
        vec![StepState::Normal, StepState::Good, StepState::Excellent, StepState::Poor]
    );
    assert_eq!(
        parse_conditions(483),
        vec![
            StepState::Normal,
            StepState::Good,
            StepState::Sturdy,
            StepState::Pliant,
            StepState::Malleable,
            StepState::Primed
        ]
    );
    // Normal is legal whatever the flag says, and bits past the last condition name nothing
    assert_eq!(parse_conditions(0), vec![StepState::Normal]);
    assert_eq!(parse_conditions(1 << 10), vec![StepState::Normal]);
    assert_eq!(parse_conditions(1 << 9), vec![StepState::Normal, StepState::GoodOmen]);
    assert_eq!(parse_conditions(u32::MAX).len(), 10);
}

#[test]
fn condition_weights_and_picks() {
    let legal = parse_conditions(483);
    let odds = compute_odds(&legal, 80, true);
    assert_eq!(odds.good, 12);
    assert_eq!(odds.excellent, 0);
    assert_eq!(odds.sturdy, 15);
    assert_eq!(odds.get_total(), 100);
    assert_eq!(odds.get_pick(0), StepState::Good);
    assert_eq!(odds.get_pick(11), StepState::Good);
    assert_eq!(odds.get_pick(12), StepState::Sturdy);
    assert_eq!(odds.get_pick(26), StepState::Sturdy);
    assert_eq!(odds.get_pick(27), StepState::Pliant);
    assert_eq!(odds.get_pick(39), StepState::Malleable);
    assert_eq!(odds.get_pick(51), StepState::Primed);
    assert_eq!(odds.get_pick(62), StepState::Primed);
    assert_eq!(odds.get_pick(63), StepState::Normal);
    assert_eq!(odds.get_pick(99), StepState::Normal);

    let plain = compute_odds(&parse_conditions(15), 62, false);
    assert_eq!((plain.good, plain.excellent), (20, 4));
    let assured = compute_odds(&parse_conditions(15), 63, false);
    assert_eq!((assured.good, assured.excellent), (25, 4));
    assert_eq!(assured.get_pick(24), StepState::Good);
    assert_eq!(assured.get_pick(25), StepState::Excellent);
    assert_eq!(assured.get_pick(29), StepState::Normal);

    // every condition at once weighs more than one hundred: Normal gets nothing
    let all = compute_odds(&parse_conditions(u32::MAX), 90, false);
    assert_eq!(all.get_total(), 105);
    assert_eq!(all.get_pick(104), StepState::GoodOmen);
}

#[test]
fn tick_state_with_a_given_roll() {
    let mut sim = session(plain_recipe(80, 1000, 1000), veteran(), vec![]);
    sim.tick_state_with(0);
    assert_eq!(sim.state(), StepState::Good);
    sim.tick_state_with(99);
    assert_eq!(sim.state(), StepState::Normal);
    sim.tick_state_with(26);
    assert_eq!(sim.state(), StepState::Excellent);
    for roll in [0, 26, 99] {
        sim.override_state(StepState::Excellent);
        sim.tick_state_with(roll);
        assert_eq!(sim.state(), StepState::Poor);
        sim.override_state(StepState::GoodOmen);
        sim.tick_state_with(roll);
        assert_eq!(sim.state(), StepState::Good);
    }
}

#[test]
fn forced_transitions_have_no_variance() {
    let mut sim = session(plain_recipe(80, 1000, 1000), veteran(), vec![]);
    for _ in 0..2000 {
        sim.override_state(StepState::Excellent);
        sim.tick_state();
        assert_eq!(sim.state(), StepState::Poor);
        sim.override_state(StepState::GoodOmen);
        sim.tick_state();
        assert_eq!(sim.state(), StepState::Good);
    }
}

#[test]
fn the_dice_stay_in_their_range() {
    // only legal conditions come up, and among them more than one
    let mut sim = session(plain_recipe(80, 1000, 1000), veteran(), vec![]);
    let legal: HashSet<StepState> = sim.possible_conditions().iter().copied().collect();
    let mut seen = HashSet::new();
    for _ in 0..5000 {
        sim.override_state(StepState::Normal);
        sim.tick_state();
        assert!(legal.contains(&sim.state()));
        assert_ne!(sim.state(), StepState::Poor);
        seen.insert(sim.state());
    }
    assert!(seen.contains(&StepState::Normal));
    assert!(seen.contains(&StepState::Good));
    assert!(seen.contains(&StepState::Excellent));

    // an action that succeeds half the time does both in two hundred tries
    let mut successes = 0;
    let mut failures = 0;
    for _ in 0..200 {
        let sim = session(
            plain_recipe(80, 100000, 1000),
            veteran(),
            vec![actions::RapidSynthesis.into()],
        );
        let result = sim.start().run();
        if result.steps[0].success == Some(true) {
            successes += 1;
        } else {
            failures += 1;
        }
    }
    assert!(successes > 0);
    assert!(failures > 0);
}

#[test]
fn fixed_rotation_matches_the_formulas() {
    let recipe = Craft {
        id: "1".to_string(),
        lvl: CraftingLevel::unchecked_new(15),
        rlvl: 15,
        durability: 70,
        progress: 55,
        quality: 360,
        progress_divider: 50,
        quality_divider: 30,
        conditions_flag: 15,
        ..Default::default()
    };
    let sim = session(
        recipe,
        crafter(90, 1208, 698, 187),
        vec![
            actions::BasicTouch.into(),
            actions::BasicTouch.into(),
            actions::BasicSynthesis.into(),
        ],
    );
    let result = sim.start().linear(true).run();
    assert_eq!(result.steps[0].added_quality, 267);
    assert_eq!(result.steps[1].added_quality, 293);
    assert_eq!(result.steps[2].added_quality, 0);
    assert_eq!(result.steps[0].added_progression, 0);
    assert_eq!(result.steps[1].added_progression, 0);
    assert_eq!(result.steps[2].added_progression, 291);
    assert!(result.success);
    assert_eq!(result.fail_cause, None);
    assert_eq!(result.simulation.success, Some(true));
    assert_eq!(result.simulation.quality, 560);
    assert_eq!(result.simulation.durability, 40);
    assert_eq!(result.simulation.available_cp, 187 - 36);
    assert_eq!(result.hq_percent, 100);
    assert_eq!(result.steps.len(), 3);
}

#[test]
fn waste_not_and_sturdy_quarter_the_cost() {
    let sim = session(
        plain_recipe(80, 100000, 100000),
        veteran(),
        vec![actions::WasteNot.into(), actions::BasicTouch.into(), actions::Groundwork.into()],
    );
    let sim = Simulation::builder()
        .recipe(sim.recipe.clone())
        .crafter_stats(sim.crafter_stats)
        .actions(sim.actions.clone())
        .step_states(vec![StepState::Normal, StepState::Sturdy, StepState::Sturdy])
        .build();
    let result = sim.start().linear(true).run();
    assert_eq!(result.steps[1].solidity_difference, -3);
    assert_eq!(result.steps[2].solidity_difference, -5);
    assert_eq!(result.simulation.durability, 72);

    let mut probe = session(plain_recipe(80, 100000, 100000), veteran(), vec![]);
    assert_eq!(actions::BasicTouch.get_durability_cost(&probe), 10);
    probe.override_state(StepState::Sturdy);
    assert_eq!(actions::BasicTouch.get_durability_cost(&probe), 5);
    actions::WasteNotII.execute(&mut probe);
    assert_eq!(actions::BasicTouch.get_durability_cost(&probe), 3);
    assert_eq!(actions::PrudentTouch.get_durability_cost(&probe), 2);
    assert_eq!(actions::Groundwork.get_durability_cost(&probe), 5);
    assert_eq!(actions::Observe.get_durability_cost(&probe), 0);
    probe.override_state(StepState::Normal);
    assert_eq!(actions::BasicTouch.get_durability_cost(&probe), 5);
}

#[test]
fn pliant_halves_the_cp_cost() {
    let mut probe = session(plain_recipe(80, 100000, 100000), veteran(), vec![]);
    assert_eq!(actions::WasteNot.get_cp_cost(&probe), 56);
    assert_eq!(actions::PrudentTouch.get_cp_cost(&probe), 25);
    probe.override_state(StepState::Pliant);
    assert_eq!(actions::WasteNot.get_cp_cost(&probe), 28);
    assert_eq!(actions::PrudentTouch.get_cp_cost(&probe), 13);
    assert_eq!(actions::CarefulSynthesis.get_cp_cost(&probe), 4);
    assert_eq!(actions::BasicSynthesis.get_cp_cost(&probe), 0);
    assert_eq!(actions::PrudentTouch.get_base_cp_cost(&probe), 25);
}

#[test]
fn combo_survives_skipped_steps_only() {
    // Trained Finesse cannot be used without ten stacks: the step is skipped
    let sim = session(
        plain_recipe(80, 100000, 100000),
        veteran(),
        vec![
            actions::BasicTouch.into(),
            actions::TrainedFinesse.into(),
            actions::TrainedFinesse.into(),
            actions::StandardTouch.into(),
        ],
    );
    let result = sim.start().linear(true).run();
    assert!(result.steps[1].skipped);
    assert!(result.steps[2].skipped);
    assert_eq!(result.steps[3].combo, Some(true));
    assert_eq!(result.steps[3].cp_difference, -18);

    // a step in between that was carried out breaks the combo
    let sim = session(
        plain_recipe(80, 100000, 100000),
        veteran(),
        vec![
            actions::BasicTouch.into(),
            actions::Veneration.into(),
            actions::StandardTouch.into(),
        ],
    );
    let result = sim.start().linear(true).run();
    assert_eq!(result.steps[2].combo, Some(false));
    assert_eq!(result.steps[2].cp_difference, -32);

    // a predecessor that failed opens no combo
    let sim = Simulation::builder()
        .recipe(plain_recipe(80, 100000, 100000))
        .crafter_stats(veteran())
        .actions(vec![actions::BasicTouch.into(), actions::StandardTouch.into()])
        .fails(vec![0])
        .build();
    let result = sim.start().linear(true).run();
    assert_eq!(result.steps[0].success, Some(false));
    assert_eq!(result.steps[1].combo, Some(false));
    assert_eq!(result.steps[1].cp_difference, -32);

    // with no history there is no combo
    let probe = session(plain_recipe(80, 100000, 100000), veteran(), vec![]);
    assert!(!probe.has_combo_available(&CraftingActionEnum::BasicTouch));
    assert!(!actions::StandardTouch.has_combo(&probe));
    assert!(!actions::AdvancedTouch.has_combo(&probe));
    assert!(!actions::BasicTouch.has_combo(&probe));
}

#[test]
fn advanced_touch_needs_a_combined_standard_touch() {
    let sim = session(
        plain_recipe(80, 100000, 100000),
        veteran(),
        vec![
            actions::BasicTouch.into(),
            actions::StandardTouch.into(),
            actions::AdvancedTouch.into(),
            actions::AdvancedTouch.into(),
        ],
    );
    let result = sim.start().linear(true).run();
    assert_eq!(result.steps[2].combo, Some(true));
    assert_eq!(result.steps[2].cp_difference, -18);
    assert_eq!(result.steps[3].combo, Some(false));
    assert_eq!(result.steps[3].cp_difference, -46);
}

#[test]
fn waste_not_and_waste_not_two_displace_each_other() {
    let mut sim = session(plain_recipe(80, 100000, 100000), veteran(), vec![]);
    actions::WasteNotII.execute(&mut sim);
    assert!(sim.has_buff(Buff::WasteNotII));
    assert_eq!(sim.get_buff(Buff::WasteNotII).unwrap().duration, 8);
    actions::WasteNot.execute(&mut sim);
    assert!(sim.has_buff(Buff::WasteNot));
    assert!(!sim.has_buff(Buff::WasteNotII));
    assert_eq!(sim.get_buff(Buff::WasteNot).unwrap().duration, 4);
    assert_eq!(sim.buffs.len(), 1);
    actions::WasteNotII.execute(&mut sim);
    assert!(!sim.has_buff(Buff::WasteNot));
    assert!(sim.has_buff(Buff::WasteNotII));
    assert_eq!(sim.buffs.len(), 1);

    let sim = session(
        plain_recipe(80, 100000, 100000),
        veteran(),
        vec![actions::WasteNotII.into(), actions::WasteNot.into()],
    );
    let result = sim.start().linear(true).run();
    assert!(result.simulation.has_buff(Buff::WasteNot));
    assert!(!result.simulation.has_buff(Buff::WasteNotII));
}

#[test]
fn recasting_a_buff_refreshes_it() {
    let sim = session(
        plain_recipe(80, 100000, 100000),
        veteran(),
        vec![
            actions::Innovation.into(),
            actions::Observe.into(),
            actions::Observe.into(),
            actions::Innovation.into(),
        ],
    );
    let result = sim.start().linear(true).run();
    let innovation = result.simulation.get_buff(Buff::Innovation).unwrap();
    assert_eq!(innovation.duration, 4);
    assert_eq!(innovation.applied_step, 3);
    assert_eq!(result.simulation.buffs.len(), 1);
}

#[test]
fn buffs_run_out() {
    let sim = session(
        plain_recipe(80, 100000, 100000),
        veteran(),
        vec![
            actions::GreatStrides.into(),
            actions::Observe.into(),
            actions::Observe.into(),
            actions::Observe.into(),
        ],
    );
    let result = sim.start().linear(true).run();
    assert!(!result.simulation.has_buff(Buff::GreatStrides));
    assert!(result.simulation.buffs.is_empty());

    let sim = session(
        plain_recipe(80, 100000, 100000),
        veteran(),
        vec![actions::GreatStrides.into(), actions::Observe.into(), actions::Observe.into()],
    );
    let result = sim.start().linear(true).run();
    assert_eq!(result.simulation.get_buff(Buff::GreatStrides).unwrap().duration, 1);
}

#[test]
fn primed_lengthens_a_buff_by_two() {
    let sim = Simulation::builder()
        .recipe(plain_recipe(80, 100000, 100000))
        .crafter_stats(crafter(100, 4041, 3987, 616))
        .actions(vec![
            actions::WasteNot.into(),
            actions::MuscleMemory.into(),
            actions::TrainedPerfection.into(),
        ])
        .step_states(vec![StepState::Primed, StepState::Primed, StepState::Primed])
        .build();
    let result = sim.start().linear(true).run();
    // applied with 6; the skipped step does not tick, the step after it does
    assert_eq!(result.simulation.get_buff(Buff::WasteNot).unwrap().duration, 5);
    assert!(result.steps[1].skipped);
    assert_eq!(result.simulation.get_buff(Buff::TrainedPerfection).unwrap().duration, i32::MAX);

    let mut probe = session(plain_recipe(80, 100000, 100000), veteran(), vec![]);
    probe.override_state(StepState::Primed);
    assert_eq!(actions::Manipulation.get_applied_buff(&probe).duration, 10);
    assert_eq!(actions::HeartAndSoul.get_applied_buff(&probe).duration, i32::MAX);
    actions::MuscleMemory.execute(&mut probe);
    assert_eq!(probe.get_buff(Buff::MuscleMemory).unwrap().duration, 7);
    probe.override_state(StepState::Normal);
    assert_eq!(actions::Manipulation.get_applied_buff(&probe).duration, 8);
}

#[test]
fn manipulation_repairs_on_each_tick() {
    let sim = session(
        plain_recipe(80, 100000, 100000),
        veteran(),
        vec![
            actions::Manipulation.into(),
            actions::BasicTouch.into(),
            actions::BasicTouch.into(),
            actions::Observe.into(),
        ],
    );
    let result = sim.start().linear(true).run();
    assert_eq!(result.steps[0].after_buff_tick.unwrap().solidity_difference, 0);
    assert_eq!(result.steps[1].solidity_difference, -10);
    assert_eq!(result.steps[1].after_buff_tick.unwrap().solidity_difference, 5);
    assert_eq!(result.steps[2].after_buff_tick.unwrap().solidity_difference, 5);
    assert_eq!(result.steps[3].after_buff_tick.unwrap().solidity_difference, 5);
    assert_eq!(result.simulation.durability, 75);
    assert_eq!(result.simulation.get_buff(Buff::Manipulation).unwrap().duration, 5);

    // no repair goes above the durability of the recipe
    let sim = session(
        plain_recipe(80, 100000, 100000),
        veteran(),
        vec![actions::Manipulation.into(), actions::Observe.into()],
    );
    let result = sim.start().linear(true).run();
    assert_eq!(result.simulation.durability, 80);
    assert_eq!(result.steps[1].after_buff_tick.unwrap().solidity_difference, 0);
}

#[test]
fn repairs_stop_at_the_durability_of_the_recipe() {
    let sim = session(
        plain_recipe(80, 100000, 100000),
        veteran(),
        vec![
            actions::BasicTouch.into(),
            actions::MastersMend.into(),
            actions::Groundwork.into(),
            actions::Groundwork.into(),
            actions::MastersMend.into(),
        ],
    );
    let result = sim.start().linear(true).run();
    assert_eq!(result.steps[1].solidity_difference, 10);
    assert_eq!(result.steps[4].solidity_difference, 30);
    assert_eq!(result.simulation.durability, 70);

    let mut probe = session(plain_recipe(80, 100000, 100000), veteran(), vec![]);
    probe.durability = -5;
    probe.repair(30);
    assert_eq!(probe.durability, 25);
    probe.repair(u32::MAX);
    assert_eq!(probe.durability, 80);
    probe.durability = 3;
    actions::ImmaculateMend.execute(&mut probe);
    assert_eq!(probe.durability, 80);
}

#[test]
fn final_appraisal_holds_the_progress_one_short() {
    let crafter_100 = crafter(100, 4041, 3987, 616);
    let sim = session(
        plain_recipe(80, 1000, 100000),
        crafter_100,
        vec![
            actions::FinalAppraisal.into(),
            actions::CarefulSynthesis.into(),
            actions::BasicSynthesis.into(),
        ],
    );
    let result = sim.start().linear(true).run();
    // 810 * 1.8 = 1458, held at 999
    assert_eq!(result.steps[1].added_progression, 999);
    assert_eq!(result.steps[2].added_progression, 972);
    assert!(!result.simulation.has_buff(Buff::FinalAppraisal));
    assert!(result.success);

    // short of the recipe's progress Final Appraisal stays
    let sim = session(
        plain_recipe(80, 100000, 100000),
        crafter_100,
        vec![actions::FinalAppraisal.into(), actions::CarefulSynthesis.into()],
    );
    let result = sim.start().linear(true).run();
    assert_eq!(result.simulation.progression, 1458);
    assert_eq!(result.simulation.get_buff(Buff::FinalAppraisal).unwrap().duration, 4);

    // a recipe that asks no progress is not driven below zero
    let mut probe = session(plain_recipe(80, 0, 100000), crafter_100, vec![]);
    actions::FinalAppraisal.execute(&mut probe);
    actions::BasicSynthesis.execute(&mut probe);
    assert_eq!(probe.progression, 0);
    assert!(!probe.has_buff(Buff::FinalAppraisal));
}

#[test]
fn muscle_memory_and_veneration_add_up() {
    let sim = session(
        plain_recipe(80, 100000, 100000),
        veteran(),
        vec![
            actions::MuscleMemory.into(),
            actions::Veneration.into(),
            actions::BasicSynthesis.into(),
            actions::BasicSynthesis.into(),
        ],
    );
    let result = sim.start().linear(true).run();
    assert_eq!(result.steps[0].added_progression, 2430);
    // 810 * 1.2 * 2.5 and then 810 * 1.2 * 1.5
    assert_eq!(result.steps[2].added_progression, 2430);
    assert_eq!(result.steps[3].added_progression, 1458);
    assert!(!result.simulation.has_buff(Buff::MuscleMemory));
}

#[test]
fn malleable_adds_half_to_progress() {
    let sim = Simulation::builder()
        .recipe(plain_recipe(80, 100000, 100000))
        .crafter_stats(veteran())
        .actions(vec![actions::BasicSynthesis.into(), actions::BasicTouch.into()])
        .step_states(vec![StepState::Malleable, StepState::Malleable])
        .build();
    let result = sim.start().linear(true).run();
    assert_eq!(result.steps[0].added_progression, 1458);
    assert_eq!(result.steps[1].added_quality, 1364);
}

#[test]
fn conditions_scale_quality() {
    let quality_on = |state: StepState| {
        let sim = Simulation::builder()
            .recipe(plain_recipe(80, 100000, 100000))
            .crafter_stats(veteran())
            .actions(vec![actions::BasicTouch.into()])
            .step_states(vec![state])
            .build();
        sim.start().linear(true).run().simulation.quality
    };
    assert_eq!(quality_on(StepState::Normal), 1364);
    assert_eq!(quality_on(StepState::Good), 2046);
    assert_eq!(quality_on(StepState::Excellent), 5456);
    assert_eq!(quality_on(StepState::Poor), 682);
    assert_eq!(quality_on(StepState::Centered), 1364);
    assert_eq!(quality_on(StepState::Failure), 1364);
}

#[test]
fn great_strides_and_innovation_add_up() {
    let sim = session(
        plain_recipe(80, 100000, 100000),
        veteran(),
        vec![
            actions::Innovation.into(),
            actions::GreatStrides.into(),
            actions::BasicTouch.into(),
            actions::BasicTouch.into(),
        ],
    );
    let result = sim.start().linear(true).run();
    assert_eq!(result.steps[2].added_quality, 3410);
    // one stack of Inner Quiet, Innovation still there, Great Strides used up
    assert_eq!(result.steps[3].added_quality, 2250);
    assert!(!result.simulation.has_buff(Buff::GreatStrides));
}

#[test]
fn byregots_blessing_grows_with_the_stacks_and_uses_them_up() {
    let mut probe = session(plain_recipe(80, 100000, 100000), veteran(), vec![]);
    assert!(!actions::ByregotsBlessing.can_be_used(&probe));
    assert_eq!(actions::ByregotsBlessing.get_potency(&probe), 100);
    probe.add_inner_quiet_stacks(4);
    assert!(actions::ByregotsBlessing.can_be_used(&probe));
    assert_eq!(actions::ByregotsBlessing.get_potency(&probe), 180);
    probe.add_inner_quiet_stacks(20);
    assert_eq!(probe.inner_quiet_stacks(), 10);
    assert_eq!(actions::ByregotsBlessing.get_potency(&probe), 300);
    actions::ByregotsBlessing.execute(&mut probe);
    // 1364 * 3.0 * 2.0
    assert_eq!(probe.quality, 8184);
    assert!(!probe.has_buff(Buff::InnerQuiet));
}

#[test]
fn inner_quiet_stacks() {
    let sim = session(
        plain_recipe(80, 100000, 100000),
        crafter(100, 4041, 3987, 616),
        vec![
            actions::Reflect.into(),
            actions::PreparatoryTouch.into(),
            actions::BasicTouch.into(),
            actions::RefinedTouch.into(),
            actions::RefinedTouch.into(),
        ],
    );
    let result = sim.start().linear(true).run();
    // 2, 4, 5, 7 (a combo after Basic Touch), 8
    assert_eq!(result.simulation.get_buff(Buff::InnerQuiet).unwrap().stacks, 8);
    assert_eq!(result.simulation.get_buff(Buff::InnerQuiet).unwrap().duration, i32::MAX - 4);

    let mut probe = session(plain_recipe(80, 100000, 100000), veteran(), vec![]);
    actions::BasicTouch.execute_with_flags(&mut probe, false, true);
    assert!(!probe.has_buff(Buff::InnerQuiet));
    actions::PreciseTouch.execute_with_flags(&mut probe, false, true);
    assert_eq!(probe.inner_quiet_stacks(), 1);
    actions::PreciseTouch.execute_with_flags(&mut probe, false, false);
    assert_eq!(probe.inner_quiet_stacks(), 3);
}

#[test]
fn groundwork_is_halved_without_the_durability() {
    let low = session(
        plain_recipe(10, 100000, 100000),
        veteran(),
        vec![actions::Groundwork.into()],
    );
    assert_eq!(actions::Groundwork.get_potency(&low), 180);
    let result = low.start().linear(true).run();
    assert_eq!(result.steps[0].added_progression, 1458);
    assert_eq!(result.simulation.durability, -10);
    assert_eq!(result.simulation.success, Some(false));
    assert_eq!(result.fail_cause, Some(FailCause::DurabilityReachedZero));

    let enough = session(plain_recipe(20, 100000, 100000), veteran(), vec![]);
    assert_eq!(actions::Groundwork.get_potency(&enough), 360);
    assert_eq!(
        actions::Groundwork.get_potency(&session(
            plain_recipe(20, 100000, 100000),
            crafter(80, 4041, 3987, 616),
            vec![]
        )),
        300
    );
}

#[test]
fn delicate_synthesis_adds_both() {
    let sim = session(
        plain_recipe(80, 100000, 100000),
        veteran(),
        vec![actions::DelicateSynthesis.into()],
    );
    let result = sim.start().linear(true).run();
    assert_eq!(result.steps[0].added_progression, 810);
    assert_eq!(result.steps[0].added_quality, 1364);
    assert_eq!(result.steps[0].cp_difference, -32);
    assert_eq!(result.steps[0].solidity_difference, -10);
    assert_eq!(result.simulation.inner_quiet_stacks(), 1);
}

#[test]
fn trained_eye_fills_the_quality() {
    let recipe = Craft { expert: Some(false), ..plain_recipe(80, 100000, 12345) };
    let sim = session(recipe.clone(), veteran(), vec![actions::TrainedEye.into()]);
    let result = sim.start().linear(true).run();
    assert_eq!(result.simulation.quality, 12345);
    assert_eq!(result.steps[0].added_quality, 12345);
    assert_eq!(result.simulation.available_cp, 616 - 250);
    assert_eq!(result.hq_percent, 100);

    // not after another step, not on an expert recipe, not without ten levels in hand
    let sim = session(
        recipe.clone(),
        veteran(),
        vec![actions::Observe.into(), actions::TrainedEye.into()],
    );
    assert!(sim.start().linear(true).run().steps[1].skipped);
    let expert = Craft { expert: Some(true), ..plain_recipe(80, 100000, 12345) };
    assert!(!actions::TrainedEye.can_be_used(&session(expert, veteran(), vec![])));
    let unmarked = plain_recipe(80, 100000, 12345);
    assert!(!actions::TrainedEye.can_be_used(&session(unmarked, veteran(), vec![])));
    let near = Craft { lvl: CraftingLevel::unchecked_new(81), ..recipe.clone() };
    assert!(!actions::TrainedEye.can_be_used(&session(near, veteran(), vec![])));
    let far = Craft { lvl: CraftingLevel::unchecked_new(80), ..recipe };
    assert!(actions::TrainedEye.can_be_used(&session(far, veteran(), vec![])));
}

#[test]
fn tricks_of_the_trade_fills_the_pool_at_most() {
    let sim = Simulation::builder()
        .recipe(plain_recipe(80, 100000, 100000))
        .crafter_stats(veteran())
        .actions(vec![
            actions::Observe.into(),
            actions::TricksOfTheTrade.into(),
            actions::BasicTouch.into(),
            actions::BasicTouch.into(),
            actions::TricksOfTheTrade.into(),
            actions::TricksOfTheTrade.into(),
        ])
        .step_states(vec![
            StepState::Normal,
            StepState::Good,
            StepState::Normal,
            StepState::Normal,
            StepState::Excellent,
            StepState::Normal,
        ])
        .build();
    let result = sim.start().linear(true).run();
    assert_eq!(result.steps[1].cp_difference, 7);
    assert_eq!(result.steps[4].cp_difference, 20);
    assert_eq!(result.steps[5].cp_difference, 0);
    assert_eq!(result.steps[5].success, Some(true));
    assert_eq!(result.simulation.available_cp, 616 - 36 + 20);

    // outside linear mode the action waits for the condition
    let probe = session(plain_recipe(80, 100000, 100000), veteran(), vec![]);
    assert!(!actions::TricksOfTheTrade.can_be_used(&probe));
    assert!(actions::TricksOfTheTrade.can_be_used_linear(&probe, Some(true)));
    assert!(!actions::PreciseTouch.can_be_used(&probe));
    assert!(!actions::IntensiveSynthesis.can_be_used(&probe));
    let mut good = session(plain_recipe(80, 100000, 100000), veteran(), vec![]);
    good.override_state(StepState::Good);
    assert!(actions::TricksOfTheTrade.can_be_used(&good));
    assert!(actions::PreciseTouch.can_be_used(&good));
    good.safe = true;
    assert!(!actions::PreciseTouch.can_be_used(&good));
}

#[test]
fn heart_and_soul_is_used_up_off_condition() {
    let specialist = CrafterStats { specialist: true, ..veteran() };
    let sim = session(
        plain_recipe(80, 100000, 100000),
        specialist,
        vec![actions::HeartAndSoul.into(), actions::PreciseTouch.into()],
    );
    let result = sim.start().run();
    assert_eq!(result.steps[1].success, Some(true));
    assert_eq!(result.steps[1].added_quality, 2046);
    assert!(!result.simulation.has_buff(Buff::HeartAndSoul));

    // on a Good condition it stays
    let sim = Simulation::builder()
        .recipe(plain_recipe(80, 100000, 100000))
        .crafter_stats(specialist)
        .actions(vec![actions::HeartAndSoul.into(), actions::PreciseTouch.into()])
        .step_states(vec![StepState::Normal, StepState::Good])
        .build();
    let result = sim.start().run();
    assert!(result.simulation.has_buff(Buff::HeartAndSoul));

    // once in a craft
    let sim = session(
        plain_recipe(80, 100000, 100000),
        specialist,
        vec![actions::HeartAndSoul.into(), actions::HeartAndSoul.into()],
    );
    let result = sim.start().linear(true).run();
    assert!(!result.steps[0].skipped);
    assert!(result.steps[1].skipped);
    assert_eq!(result.steps[1].fail_cause, None);
}

#[test]
fn quick_innovation_lasts_one_step() {
    let specialist = CrafterStats { specialist: true, ..crafter(100, 4041, 3987, 616) };
    let sim = session(
        plain_recipe(80, 100000, 100000),
        specialist,
        vec![
            actions::QuickInnovation.into(),
            actions::BasicTouch.into(),
            actions::BasicTouch.into(),
            actions::QuickInnovation.into(),
        ],
    );
    let result = sim.start().linear(true).run();
    assert_eq!(result.steps[1].added_quality, 2046);
    // one stack of Inner Quiet, and Innovation gone
    assert_eq!(result.steps[2].added_quality, 1500);
    assert!(result.steps[3].skipped);
}

#[test]
fn trained_perfection_pays_for_one_action() {
    let sim = session(
        plain_recipe(80, 100000, 100000),
        crafter(100, 4041, 3987, 616),
        vec![
            actions::TrainedPerfection.into(),
            actions::Observe.into(),
            actions::Groundwork.into(),
            actions::Groundwork.into(),
            actions::TrainedPerfection.into(),
        ],
    );
    let result = sim.start().linear(true).run();
    assert_eq!(result.steps[1].solidity_difference, 0);
    assert!(result.simulation.steps[1].after_buff_tick.is_some());
    assert_eq!(result.steps[2].solidity_difference, 0);
    assert_eq!(result.steps[3].solidity_difference, -20);
    assert!(result.steps[4].skipped);
    assert!(!result.simulation.has_buff(Buff::TrainedPerfection));
}

#[test]
fn openers_only_open() {
    let sim = session(
        plain_recipe(80, 100000, 100000),
        veteran(),
        vec![
            actions::FinalAppraisal.into(),
            actions::MuscleMemory.into(),
            actions::Reflect.into(),
        ],
    );
    let result = sim.start().linear(true).run();
    assert!(!result.steps[1].skipped);
    assert!(result.steps[2].skipped);
    assert!(actions::MuscleMemory.can_be_moved(1));
    assert!(!actions::MuscleMemory.can_be_moved(0));
    assert!(actions::BasicTouch.can_be_moved(0));
}

#[test]
fn prudent_actions_are_barred_by_waste_not() {
    let sim = session(
        plain_recipe(80, 100000, 100000),
        veteran(),
        vec![
            actions::WasteNot.into(),
            actions::PrudentTouch.into(),
            actions::PrudentSynthesis.into(),
        ],
    );
    let result = sim.start().linear(true).run();
    assert!(result.steps[1].skipped);
    assert!(result.steps[2].skipped);
    assert_eq!(result.steps[1].fail_cause, None);
    assert_eq!(result.simulation.durability, 80);
}

#[test]
fn trained_finesse_needs_ten_stacks() {
    let mut probe = session(plain_recipe(80, 100000, 100000), veteran(), vec![]);
    probe.add_inner_quiet_stacks(9);
    assert!(!actions::TrainedFinesse.can_be_used(&probe));
    probe.add_inner_quiet_stacks(1);
    assert!(actions::TrainedFinesse.can_be_used(&probe));
    assert_eq!(actions::TrainedFinesse.get_durability_cost(&probe), 0);
    actions::TrainedFinesse.execute(&mut probe);
    assert_eq!(probe.quality, 2728);
    assert_eq!(probe.inner_quiet_stacks(), 10);
}

#[test]
fn not_enough_cp_skips_the_step() {
    let sim = session(
        plain_recipe(80, 100000, 100000),
        crafter(90, 4041, 3987, 20),
        vec![actions::BasicTouch.into(), actions::BasicTouch.into()],
    );
    let result = sim.start().linear(true).run();
    assert!(!result.steps[0].skipped);
    assert!(result.steps[1].skipped);
    assert_eq!(result.steps[1].success, None);
    assert_eq!(result.steps[1].combo, None);
    assert_eq!(result.steps[1].fail_cause, Some(FailCause::NotEnoughCP));
    assert_eq!(result.steps[1].after_buff_tick.is_none(), true);
    assert_eq!(result.simulation.available_cp, 2);
    assert_eq!(result.simulation.durability, 70);
    assert_eq!(result.fail_cause, Some(FailCause::NotEnoughCP));
    assert!(!result.success);
}

#[test]
fn pliant_does_not_make_an_action_affordable() {
    // affordability goes by the base cost
    let sim = Simulation::builder()
        .recipe(plain_recipe(80, 100000, 100000))
        .crafter_stats(crafter(90, 4041, 3987, 10))
        .actions(vec![actions::BasicTouch.into()])
        .step_states(vec![StepState::Pliant])
        .build();
    let result = sim.start().linear(true).run();
    assert_eq!(result.steps[0].fail_cause, Some(FailCause::NotEnoughCP));
    assert_eq!(result.simulation.available_cp, 10);
}

#[test]
fn missing_level_skips_the_step() {
    let sim = session(
        plain_recipe(80, 100000, 100000),
        crafter(71, 4041, 3987, 616),
        vec![actions::Groundwork.into(), actions::PreparatoryTouch.into()],
    );
    let result = sim.start().linear(true).run();
    assert!(result.steps[0].skipped);
    assert_eq!(result.steps[0].fail_cause, Some(FailCause::MissingLevelRequirement));
    assert!(!result.steps[1].skipped);
    assert_eq!(result.fail_cause, Some(FailCause::MissingLevelRequirement));
    let probe = session(plain_recipe(80, 1, 1), crafter(71, 1, 1, 1), vec![]);
    assert_eq!(
        actions::Groundwork.get_fail_cause(&probe),
        Some(FailCause::MissingLevelRequirement)
    );
    assert_eq!(actions::PreparatoryTouch.get_fail_cause(&probe), None);
    assert_eq!(actions::Groundwork.get_level_requirement().0, CraftingJob::Any);
    assert_eq!(actions::Groundwork.get_level_requirement().1.value(), 72);
}

#[test]
fn missing_stats_skip_the_step() {
    let demanding = Craft { craftsmanship_req: Some(4042), ..plain_recipe(80, 100000, 100000) };
    let sim = session(demanding, veteran(), vec![actions::BasicTouch.into()]);
    let result = sim.start().linear(true).run();
    assert_eq!(result.steps[0].fail_cause, Some(FailCause::MissingStatsRequirement));
    let demanding = Craft { control_req: Some(3988), ..plain_recipe(80, 100000, 100000) };
    let sim = session(demanding, veteran(), vec![actions::BasicTouch.into()]);
    let result = sim.start().linear(true).run();
    assert_eq!(result.steps[0].fail_cause, Some(FailCause::MissingStatsRequirement));
    let met = Craft {
        craftsmanship_req: Some(4041),
        control_req: Some(3987),
        ..plain_recipe(80, 100000, 100000)
    };
    let sim = session(met, veteran(), vec![actions::BasicTouch.into()]);
    assert!(!sim.start().linear(true).run().steps[0].skipped);
    // the level goes before the stats
    let both = Craft { craftsmanship_req: Some(4042), ..plain_recipe(80, 100000, 100000) };
    let probe = session(both, crafter(1, 1, 1, 1), vec![]);
    assert_eq!(
        actions::BasicTouch.get_fail_cause(&probe),
        Some(FailCause::MissingLevelRequirement)
    );
}

#[test]
fn specialist_actions_need_a_specialist() {
    let sim = session(
        plain_recipe(80, 100000, 100000),
        veteran(),
        vec![actions::HeartAndSoul.into(), actions::CarefulObservation.into()],
    );
    let result = sim.start().linear(true).run();
    assert_eq!(result.steps[0].fail_cause, Some(FailCause::NotSpecialist));
    assert_eq!(result.steps[1].fail_cause, Some(FailCause::NotSpecialist));
    assert_eq!(result.fail_cause, Some(FailCause::NotSpecialist));
}

#[test]
fn byregots_blessing_reports_no_inner_quiet_after_a_failure() {
    let sim = session(
        plain_recipe(10, 100000, 100000),
        veteran(),
        vec![actions::BasicSynthesis.into(), actions::ByregotsBlessing.into()],
    );
    let result = sim.start().linear(true).run();
    assert_eq!(result.steps[0].fail_cause, Some(FailCause::DurabilityReachedZero));
    assert_eq!(result.steps[1].fail_cause, Some(FailCause::NoInnerQuiet));
    assert_eq!(result.fail_cause, Some(FailCause::DurabilityReachedZero));
    assert_eq!(result.simulation.success, Some(false));

    // while the craft is undecided the cause is not given
    let probe = session(plain_recipe(10, 100000, 100000), veteran(), vec![]);
    assert!(!actions::ByregotsBlessing.can_be_used(&probe));
    assert_eq!(actions::ByregotsBlessing.get_fail_cause(&probe), None);
}

#[test]
fn safe_mode_turns_risky_actions_down() {
    let sim = session(
        plain_recipe(80, 100000, 100000),
        veteran(),
        vec![actions::RapidSynthesis.into(), actions::BasicSynthesis.into()],
    );
    let result = sim.start().linear(true).safe(true).run();
    assert_eq!(result.steps[0].success, Some(false));
    assert_eq!(result.steps[0].fail_cause, Some(FailCause::UnsafeAction));
    assert_eq!(result.steps[0].added_progression, 0);
    assert_eq!(result.steps[0].solidity_difference, -10);
    assert_eq!(result.steps[1].success, Some(true));
    assert_eq!(result.fail_cause, Some(FailCause::UnsafeAction));

    // a Centered condition adds 25 to the chance of success, not enough for Rapid Synthesis
    let mut probe = session(plain_recipe(80, 100000, 100000), veteran(), vec![]);
    assert_eq!(actions::RapidSynthesis.get_success_rate(&probe), 50);
    assert_eq!(actions::HastyTouch.get_success_rate(&probe), 60);
    probe.override_state(StepState::Centered);
    assert_eq!(actions::RapidSynthesis.get_success_rate(&probe), 75);
    assert_eq!(actions::HastyTouch.get_success_rate(&probe), 85);
    assert_eq!(actions::BasicTouch.get_success_rate(&probe), 125);
    assert_eq!(actions::RapidSynthesis._get_success_rate(&probe), 50);
    assert_eq!(
        actions::RapidSynthesis.get_fail_cause_with_flags(&probe, None, Some(true)),
        Some(FailCause::UnsafeAction)
    );
    assert_eq!(actions::RapidSynthesis.get_fail_cause_with_flags(&probe, None, Some(false)), None);
}

#[test]
fn a_scripted_failure_still_costs() {
    let sim = Simulation::builder()
        .recipe(plain_recipe(80, 100000, 100000))
        .crafter_stats(veteran())
        .actions(vec![actions::Innovation.into(), actions::BasicTouch.into()])
        .fails(vec![1])
        .build();
    let result = sim.start().linear(true).run();
    assert_eq!(result.steps[1].success, Some(false));
    assert_eq!(result.steps[1].fail_cause, None);
    assert_eq!(result.steps[1].added_quality, 0);
    assert_eq!(result.steps[1].cp_difference, -18);
    assert_eq!(result.steps[1].solidity_difference, -10);
    assert!(!result.simulation.has_buff(Buff::InnerQuiet));
    // a Basic Touch that fails lets the buffs tick
    assert_eq!(result.simulation.get_buff(Buff::Innovation).unwrap().duration, 3);
}

#[test]
fn run_action_with_a_given_roll() {
    let mut sim = session(plain_recipe(80, 100000, 100000), veteran(), vec![]);
    let hit = sim.run_action_with_roll(&CraftingActionEnum::HastyTouch, 60, false);
    assert_eq!(hit.success, Some(true));
    assert_eq!(hit.added_quality, 1364);
    assert!(!hit.skipped);
    assert_eq!(hit.combo, Some(false));
    let miss = sim.run_action_with_roll(&CraftingActionEnum::HastyTouch, 61, false);
    assert_eq!(miss.success, Some(false));
    assert_eq!(miss.added_quality, 0);
    assert_eq!(miss.solidity_difference, -10);
    assert_eq!(sim.durability, 60);
    assert_eq!(sim.success, None);
    // in linear mode the index decides
    sim.fails = vec![3];
    let scripted = sim.run_action_with_flags(&CraftingActionEnum::BasicTouch, true, false, 3);
    assert_eq!(scripted.success, Some(false));
    let free = sim.run_action_linear(&CraftingActionEnum::BasicTouch, true, 4);
    assert_eq!(free.success, Some(true));
    let thrown = sim.run_action(&CraftingActionEnum::BasicTouch, 5);
    assert_eq!(thrown.success, Some(true));
    assert_eq!(sim.roll_for(3, false, 17), 999);
    assert_eq!(sim.roll_for(4, true, 17), 0);
    assert_eq!(sim.roll_for(4, false, 17), 17);
}

#[test]
fn run_step_with_given_rolls() {
    let mut sim = session(
        plain_recipe(80, 100000, 100000),
        veteran(),
        vec![actions::HastyTouch.into(), actions::HastyTouch.into()],
    );
    let mode = RunMode { linear: false, max_steps: usize::MAX, safe: false };
    sim.run_step(0, mode, StepRolls { success: 99, condition: 0 });
    assert_eq!(sim.steps.len(), 1);
    assert_eq!(sim.steps[0].success, Some(false));
    assert_eq!(sim.steps[0].state, StepState::Normal);
    assert_eq!(sim.state(), StepState::Good);
    sim.run_step(1, mode, StepRolls { success: 0, condition: 99 });
    assert_eq!(sim.steps[1].success, Some(true));
    // the step began on the scripted condition, not on the one that was rolled
    assert_eq!(sim.steps[1].state, StepState::Normal);
    assert_eq!(sim.steps[1].added_quality, 1364);
    assert_eq!(sim.state(), StepState::Normal);
    // the rotation has no third step
    sim.run_step(2, mode, StepRolls { success: 0, condition: 0 });
    assert_eq!(sim.steps.len(), 2);
}

#[test]
fn a_decided_craft_skips_what_is_left() {
    let sim = session(
        plain_recipe(80, 100, 100000),
        veteran(),
        vec![
            actions::Manipulation.into(),
            actions::BasicSynthesis.into(),
            actions::BasicTouch.into(),
            actions::Observe.into(),
        ],
    );
    let result = sim.start().linear(true).run();
    assert_eq!(result.simulation.success, Some(true));
    assert!(result.success);
    assert!(result.steps[1].after_buff_tick.is_none());
    assert!(result.steps[2].skipped);
    assert!(result.steps[3].skipped);
    assert_eq!(result.steps[2].fail_cause, None);
    assert_eq!(result.simulation.quality, 0);
    assert_eq!(result.simulation.durability, 70);
    assert_eq!(result.simulation.get_buff(Buff::Manipulation).unwrap().duration, 8);
    assert_eq!(result.steps.len(), 4);
}

#[test]
fn required_quality_must_be_exceeded() {
    let run_with = |required: u32| {
        let recipe = Craft {
            required_quality: Some(required),
            ..plain_recipe(80, 100, 100000)
        };
        session(
            recipe,
            veteran(),
            vec![actions::BasicTouch.into(), actions::BasicSynthesis.into()],
        )
        .start()
        .linear(true)
        .run()
    };
    let short = run_with(1365);
    assert!(!short.success);
    assert_eq!(short.fail_cause, Some(FailCause::QualityTooLow));
    assert_eq!(short.simulation.success, Some(true));
    let equal = run_with(1364);
    assert!(!equal.success);
    assert_eq!(equal.fail_cause, Some(FailCause::QualityTooLow));
    let met = run_with(1363);
    assert!(met.success);
    assert_eq!(met.fail_cause, None);

    // the cause of a step goes before the quality
    let recipe = Craft { required_quality: Some(5000), ..plain_recipe(80, 100, 100000) };
    let sim = session(
        recipe,
        crafter(90, 4041, 3987, 5),
        vec![actions::BasicTouch.into(), actions::BasicSynthesis.into()],
    );
    let result = sim.start().linear(true).run();
    assert!(!result.success);
    assert_eq!(result.fail_cause, Some(FailCause::NotEnoughCP));
}

#[test]
fn high_quality_chance_follows_the_quality() {
    let mut probe = session(plain_recipe(80, 100, 1000), veteran(), vec![]);
    assert_eq!(probe.get_hq_percent(), 1);
    probe.quality = 9;
    assert_eq!(probe.get_hq_percent(), 1);
    probe.quality = 290;
    assert_eq!(probe.get_hq_percent(), 8);
    probe.quality = 999;
    assert_eq!(probe.get_hq_percent(), 98);
    probe.quality = 1000;
    assert_eq!(probe.get_hq_percent(), 100);
    probe.quality = u32::MAX;
    assert_eq!(probe.get_hq_percent(), 100);
    let mut none = session(plain_recipe(80, 100, 0), veteran(), vec![]);
    assert_eq!(none.get_hq_percent(), 1);
    none.quality = 1;
    assert_eq!(none.get_hq_percent(), 100);
}

#[test]
fn high_quality_ingredients_bring_quality() {
    let ingredient = |id: &str, amount: u32, quality: Option<u32>| Ingredient {
        id: id.to_string(),
        amount,
        quality,
        ..Default::default()
    };
    let recipe = Craft {
        ingredients: vec![
            ingredient("ore", 3, Some(100)),
            ingredient("ash", 2, None),
            ingredient("oil", 1, Some(7)),
            ingredient("ore", 1, Some(5000)),
        ],
        ..plain_recipe(80, 100, 100000)
    };
    let mut sim = Simulation::builder()
        .recipe(recipe.clone())
        .crafter_stats(veteran())
        .hq_ingredients(vec![
            ingredient("ore", 2, None),
            ingredient("ash", 2, None),
            ingredient("oil", 3, None),
            ingredient("gum", 9, Some(9)),
        ])
        .build();
    assert_eq!(sim.starting_quality, 221);
    assert_eq!(sim.quality, 221);
    actions::BasicTouch.execute(&mut sim);
    assert_eq!(sim.quality, 221 + 1364);
    sim.reset();
    assert_eq!(sim.quality, 221);

    let none = Simulation::new(recipe.clone(), veteran(), None, None, None, None);
    assert_eq!(none.quality, 0);
    let much = Simulation::new(
        recipe,
        veteran(),
        None,
        Some(vec![ingredient("ore", u32::MAX, None), ingredient("ore", u32::MAX, None)]),
        None,
        None,
    );
    assert_eq!(much.quality, u32::MAX);
}

#[test]
fn a_new_session_starts_clean() {
    let sim = Simulation::new(
        Craft { conditions_flag: 115, ..plain_recipe(70, 100, 1000) },
        veteran(),
        Some(vec![CraftingActionEnum::Observe]),
        None,
        Some(vec![StepState::Good]),
        Some(vec![2]),
    );
    assert_eq!(sim.progression, 0);
    assert_eq!(sim.quality, 0);
    assert_eq!(sim.durability, 70);
    assert_eq!(sim.max_cp, 616);
    assert_eq!(sim.available_cp, 616);
    assert_eq!(sim.state(), StepState::Normal);
    assert_eq!(sim.success, None);
    assert!(sim.buffs.is_empty());
    assert!(sim.steps.is_empty());
    assert!(!sim.safe);
    assert_eq!(sim.actions, vec![CraftingActionEnum::Observe]);
    assert_eq!(sim.step_states, vec![StepState::Good]);
    assert_eq!(sim.fails, vec![2]);
    assert_eq!(
        sim.possible_conditions(),
        &vec![
            StepState::Normal,
            StepState::Good,
            StepState::Centered,
            StepState::Sturdy,
            StepState::Pliant
        ]
    );
    let huge = Simulation::new(
        Craft { durability: u32::MAX, ..plain_recipe(70, 100, 1000) },
        veteran(),
        None,
        None,
        None,
        None,
    );
    assert_eq!(huge.durability, i32::MAX);
}

#[test]
fn reset_keeps_the_script_only() {
    let sim = Simulation::builder()
        .recipe(plain_recipe(80, 100000, 100000))
        .crafter_stats(veteran())
        .actions(vec![actions::Innovation.into(), actions::BasicTouch.into()])
        .step_states(vec![StepState::Good, StepState::Good])
        .build();
    let mut sim = sim.start().linear(true).run().simulation;
    sim.safe = true;
    assert!(sim.quality > 0);
    sim.reset();
    assert_eq!(sim.quality, 0);
    assert_eq!(sim.progression, 0);
    assert_eq!(sim.durability, 80);
    assert_eq!(sim.available_cp, 616);
    assert_eq!(sim.state(), StepState::Normal);
    assert!(sim.buffs.is_empty());
    assert!(sim.steps.is_empty());
    assert_eq!(sim.success, None);
    assert!(!sim.safe);
    assert_eq!(sim.actions.len(), 2);
    assert_eq!(sim.step_states.len(), 2);
    let again = sim.start().linear(true).run();
    assert_eq!(again.simulation.quality, 3069);
}

#[test]
fn buffs_can_be_changed_in_place() {
    let mut sim = session(plain_recipe(80, 100000, 100000), veteran(), vec![]);
    assert!(sim.get_mut_buff(Buff::Veneration).is_none());
    sim.add_buff(EffectiveBuff {
        duration: 3,
        stacks: 0,
        buff: Buff::Veneration,
        applied_step: 0,
        tick: None,
        on_expire: Some(BuffEffect::Repair(7)),
    });
    sim.add_buff(EffectiveBuff {
        duration: 9,
        stacks: 0,
        buff: Buff::MakersMark,
        applied_step: 0,
        tick: Some(BuffEffect::ClearOnOffCondition(Buff::MakersMark)),
        on_expire: None,
    });
    sim.get_mut_buff(Buff::Veneration).unwrap().duration = 1;
    assert_eq!(sim.get_buff(Buff::Veneration).unwrap().duration, 1);
    sim.durability = 50;
    let observed = sim.run_action_with_roll(&CraftingActionEnum::Observe, 0, false);
    sim.steps.push(observed);
    // Observe is not gated by the condition: Maker's Mark stays; Veneration runs out and repairs
    sim.tick_buffs(&CraftingActionEnum::Observe);
    assert!(!sim.has_buff(Buff::Veneration));
    assert_eq!(sim.get_buff(Buff::MakersMark).unwrap().duration, 8);
    assert_eq!(sim.durability, 57);
    sim.tick_buffs(&CraftingActionEnum::TricksOfTheTrade);
    assert!(!sim.has_buff(Buff::MakersMark));
    sim.remove_buff(Buff::MakersMark);
    assert!(sim.buffs.is_empty());
}

#[test]
fn action_types_and_waits() {
    assert_eq!(actions::BasicSynthesis.get_wait_duration(), 3);
    assert_eq!(actions::Innovation.get_wait_duration(), 2);
    assert_eq!(actions::Manipulation.get_wait_duration(), 2);
    assert_eq!(actions::MastersMend.get_wait_duration(), 3);
    assert!(actions::Observe.skip_on_fail());
    assert!(!actions::BasicTouch.skip_on_fail());
    assert!(actions::FinalAppraisal.skips_buff_ticks());
    assert!(!actions::Innovation.skips_buff_ticks());
    assert!(actions::PreciseTouch.requires_good());
    assert!(!actions::TricksOfTheTrade.requires_good());
    assert_eq!(actions::WasteNot.get_overrides(), vec![Buff::WasteNot, Buff::WasteNotII]);
    assert_eq!(actions::Veneration.get_overrides(), vec![Buff::Veneration]);
    assert_eq!(actions::QuickInnovation.get_buff(), Buff::Innovation);
    assert_eq!(actions::Manipulation.get_tick(), Some(BuffEffect::Repair(5)));
    assert_eq!(actions::Manipulation.get_on_expire(), None);
    assert!(actions::Manipulation.can_be_clipped());
    assert!(!actions::TrainedPerfection.can_be_clipped());
    let probe = session(plain_recipe(80, 100000, 100000), veteran(), vec![]);
    assert_eq!(actions::Manipulation.get_duration(&probe), 8);
    assert_eq!(actions::Manipulation.get_initial_stacks(), 0);
    assert_eq!(actions::PreparatoryTouch.get_base_durability_cost(&probe), 20);
    assert_eq!(actions::PreparatoryTouch.get_base_success_rate(&probe), 100);
    assert_eq!(actions::PreparatoryTouch.get_potency(&probe), 200);
    assert_eq!(actions::PreparatoryTouch.get_base_bonus(&probe), 100);
    assert_eq!(actions::PreparatoryTouch.get_base_condition(&probe), 100);
    assert_eq!(actions::BasicTouch.get_base_progression(&probe), 810);
    assert_eq!(actions::BasicTouch.get_base_quality(&probe), 1364);
    assert_eq!(actions::Reflect.get_enum(), CraftingActionEnum::Reflect);
    let converted: CraftingActionEnum = actions::DaringTouch.into();
    assert_eq!(converted, CraftingActionEnum::DaringTouch);
}

#[test]
fn modifiers_apply_up_to_the_internal_level_of_the_recipe() {
    let recipe = |rlvl: u32| Craft {
        rlvl,
        progress_modifier: Some(80),
        quality_modifier: Some(70),
        ..plain_recipe(80, 100000, 100000)
    };
    // level 90 stands for internal level 560
    let above = session(recipe(559), crafter(90, 3289, 3420, 400), vec![]);
    assert_eq!(above.get_base_progression(), 659);
    assert_eq!(above.get_base_quality(), 1175);
    let at = session(recipe(560), crafter(90, 3289, 3420, 400), vec![]);
    assert_eq!(at.get_base_progression(), 527);
    assert_eq!(at.get_base_quality(), 822);
    let unmodified = Craft { rlvl: 560, ..plain_recipe(80, 100000, 100000) };
    // without modifiers the scaling is by one hundred percent, through the same hundredth
    assert_eq!(
        session(unmodified, crafter(90, 3289, 3420, 400), vec![]).get_base_progression(),
        659
    );
}
