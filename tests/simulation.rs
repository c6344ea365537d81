use std::collections::HashSet;

use craft_sim::tables::level_to_ilevel;
use craft_sim::{
    Buff, Craft, CrafterLevels, CrafterStats, CraftingActionEnum as A, CraftingLevel, FailCause,
    SimulationBuilder, SimulationBuilderError, StepState,
};

fn generate_recipe_lvl(
    id: u32,
    lvl: u8,
    durability: u32,
    progress: u32,
    quality: u32,
    progress_divider: u32,
    quality_divider: u32,
) -> Craft {
    generate_recipe_rlvl(
        id,
        lvl,
        level_to_ilevel(CraftingLevel::new(lvl).unwrap()),
        durability,
        progress,
        quality,
        progress_divider,
        quality_divider,
    )
}

fn generate_recipe_rlvl(
    id: u32,
    lvl: u8,
    rlvl: u32,
    durability: u32,
    progress: u32,
    quality: u32,
    progress_divider: u32,
    quality_divider: u32,
) -> Craft {
    Craft {
        id: id.to_string(),
        job: 14,
        lvl: CraftingLevel::new(lvl).unwrap(),
        rlvl,
        durability,
        progress,
        quality,
        progress_divider,
        quality_divider,
        hq: Some(true),
        quick_synth: Some(true),
        conditions_flag: 15,
        ..Default::default()
    }
}

fn generate_recipe_rlvl_conditions(
    id: u32,
    lvl: u8,
    rlvl: u32,
    durability: u32,
    progress: u32,
    quality: u32,
    progress_divider: u32,
    quality_divider: u32,
    conditions_flag: u32,
) -> Craft {
    Craft {
        id: id.to_string(),
        job: 14,
        lvl: CraftingLevel::new(lvl).unwrap(),
        rlvl,
        durability,
        progress,
        quality,
        progress_divider,
        quality_divider,
        hq: Some(true),
        quick_synth: Some(true),
        conditions_flag,
        ..Default::default()
    }
}

fn generate_star_recipe(
    rlvl: u32,
    progress: u32,
    quality: u32,
    progress_divider: u32,
    quality_divider: u32,
    progress_modifier: u32,
    quality_modifier: u32,
) -> Craft {
    Craft {
        id: "33904".to_string(),
        job: 14,
        lvl: CraftingLevel::new(80).unwrap(),
        rlvl,
        durability: 70,
        quality,
        progress,
        hq: Some(true),
        quick_synth: Some(false),
        expert: Some(false),
        conditions_flag: 15,
        progress_divider,
        quality_divider,
        progress_modifier: Some(progress_modifier),
        quality_modifier: Some(quality_modifier),
        ..Default::default()
    }
}

fn generate_stats(level: u8, craftsmanship: u32, control: u32, cp: u32, splendorous: bool) -> CrafterStats {
    generate_stats_specialist(level, craftsmanship, control, cp, false, splendorous)
}

fn generate_stats_specialist(
    level: u8,
    craftsmanship: u32,
    control: u32,
    cp: u32,
    specialist: bool,
    splendorous: bool,
) -> CrafterStats {
    let l = CraftingLevel::new(level).unwrap();
    CrafterStats {
        job_id: 14,
        craftsmanship,
        control,
        cp,
        specialist,
        splendorous,
        level: l,
        levels: CrafterLevels { crp: l, bsm: l, arm: l, gsm: l, ltw: l, wvr: l, alc: l, cul: l },
    }
}

#[test]
fn test_basics() {
    let recipe = generate_recipe_lvl(1035, 15, 70, 55, 360, 50, 30);
    let stats = generate_stats(90, 1208, 698, 187, false);
    let sim = SimulationBuilder::default()
        .recipe(recipe)
        .actions(vec![A::BasicTouch, A::BasicTouch, A::BasicSynthesis])
        .crafter_stats(stats)
        .build()
        .unwrap();
    let result = sim.run_linear(true);
    assert!(result.simulation.success.is_some_and(|x| x));
    assert_eq!(result.simulation.steps[0].added_quality, 267);
    assert_eq!(result.simulation.steps[1].added_quality, 293);
    assert_eq!(result.simulation.steps[2].added_progression, 291);
}

#[test]
fn test_muscle_memory() {
    let recipe = generate_recipe_lvl(1960, 61, 80, 630, 2790, 81, 58);
    let stats = generate_stats(90, 1208, 698, 187, false);
    let sim = SimulationBuilder::default()
        .recipe(recipe)
        .actions(vec![A::MuscleMemory, A::BasicSynthesis])
        .crafter_stats(stats)
        .build()
        .unwrap();
    let result = sim.run_linear(true);
    assert!(result.simulation.success.is_some_and(|x| x));
    assert_eq!(result.simulation.steps[0].added_progression, 453);
    assert_eq!(result.simulation.steps[1].added_progression, 362);
}

#[test]
fn test_careful_synthesis() {
    let recipe = generate_recipe_lvl(3997, 72, 80, 1220, 3800, 102, 82);
    let stats = generate_stats(90, 1208, 698, 187, false);
    let sim = SimulationBuilder::default()
        .recipe(recipe)
        .actions(vec![
            A::MuscleMemory,
            A::CarefulSynthesis,
            A::CarefulSynthesis,
            A::CarefulSynthesis,
        ])
        .crafter_stats(stats)
        .build()
        .unwrap();
    let result = sim.run_linear(true);
    assert!(result.simulation.success.is_some_and(|x| x));
    assert_eq!(result.simulation.steps[0].added_progression, 360);
    assert_eq!(result.simulation.steps[1].added_progression, 432);
    assert_eq!(result.simulation.steps[2].added_progression, 216);
    assert_eq!(result.simulation.steps[3].added_progression, 216);
}

#[test]
fn test_groundwork() {
    let recipe = generate_recipe_lvl(3997, 72, 80, 1220, 3800, 102, 82);
    let stats = generate_stats(90, 1208, 698, 187, false);
    let sim = SimulationBuilder::default()
        .recipe(recipe)
        .actions(vec![
            A::Groundwork,
            A::Groundwork,
            A::CarefulSynthesis,
            A::BasicTouch,
            A::BasicTouch,
            A::Groundwork,
        ])
        .crafter_stats(stats)
        .build()
        .unwrap();
    let result = sim.run_linear(true);
    assert!(result.simulation.success.is_some_and(|x| x));
    assert_eq!(result.simulation.steps[0].added_progression, 432);
    assert_eq!(result.simulation.steps[1].added_progression, 432);
    assert_eq!(result.simulation.steps[5].added_progression, 216);
}

#[test]
fn test_quality_and_buffs() {
    let recipe = generate_recipe_lvl(3997, 72, 80, 1220, 3800, 102, 82);
    let stats = generate_stats(90, 1208, 698, 534, false);
    let sim = SimulationBuilder::default()
        .recipe(recipe)
        .actions(vec![
            A::MuscleMemory,
            A::Manipulation,
            A::Veneration,
            A::CarefulSynthesis,
            A::PrudentTouch,
            A::WasteNot,
            A::AdvancedTouch,
            A::StandardTouch,
            A::PreparatoryTouch,
            A::PreparatoryTouch,
            A::Innovation,
            A::PreparatoryTouch,
            A::PreparatoryTouch,
            A::GreatStrides,
            A::ByregotsBlessing,
            A::CarefulSynthesis,
            A::CarefulSynthesis,
        ])
        .crafter_stats(stats)
        .build()
        .unwrap();
    let result = sim.run_linear(true);
    assert!(result.simulation.success.is_some_and(|x| x));
    assert_eq!(result.simulation.steps[0].added_progression, 360);
    assert_eq!(result.simulation.steps[3].added_progression, 540);
    assert_eq!(result.simulation.steps[15].added_progression, 216);
    assert_eq!(result.simulation.steps[16].added_progression, 216);
    assert_eq!(result.simulation.steps[4].added_quality, 120);
    assert_eq!(result.simulation.steps[6].added_quality, 198);
    assert_eq!(result.simulation.steps[7].added_quality, 180);
    assert_eq!(result.simulation.steps[8].added_quality, 312);
    assert_eq!(result.simulation.steps[9].added_quality, 360);
    assert_eq!(result.simulation.steps[11].added_quality, 612);
    assert_eq!(result.simulation.steps[12].added_quality, 684);
    assert_eq!(result.simulation.steps[14].added_quality, 1800);
}

#[test]
fn test_combos() {
    let recipe = generate_recipe_lvl(3997, 72, 80, 1220, 3800, 102, 82);
    let stats = generate_stats(90, 1208, 698, 534, false);
    let sim = SimulationBuilder::default()
        .recipe(recipe)
        .actions(vec![
            A::MuscleMemory,
            A::Manipulation,
            A::CarefulSynthesis,
            A::CarefulSynthesis,
            A::BasicTouch,
            A::StandardTouch,
            A::AdvancedTouch,
            A::StandardTouch,
            A::AdvancedTouch,
            A::Observe,
            A::FocusedTouch,
            A::Observe,
            A::FocusedSynthesis,
        ])
        .crafter_stats(stats)
        .build()
        .unwrap();
    let result = sim.run_linear(true);
    assert!(result.simulation.success.is_some_and(|x| x));
    assert_eq!(result.simulation.steps[0].added_progression, 360);
    assert_eq!(result.simulation.steps[2].added_progression, 432);
    assert_eq!(result.simulation.steps[3].added_progression, 216);
    assert_eq!(result.simulation.steps[12].added_progression, 240);
    assert_eq!(result.simulation.steps[4].added_quality, 120);
    assert_eq!(result.simulation.steps[5].added_quality, 165);
    assert_eq!(result.simulation.steps[6].added_quality, 216);
    assert_eq!(result.simulation.steps[7].added_quality, 195);
    assert_eq!(result.simulation.steps[8].added_quality, 252);
    assert_eq!(result.simulation.steps[10].added_quality, 270);
}

#[test]
fn test_reflect() {
    let recipe = generate_recipe_lvl(3864, 16, 80, 31, 866, 50, 30);
    let stats = generate_stats(80, 2278, 2348, 532, false);
    let sim = SimulationBuilder::default()
        .recipe(recipe)
        .actions(vec![A::Reflect, A::BasicTouch, A::CarefulSynthesis])
        .crafter_stats(stats)
        .build()
        .unwrap();
    let result = sim.run_linear(true);
    assert_eq!(result.simulation.get_buff(Buff::InnerQuiet).map(|b| b.stacks), Some(3));
}

#[test]
fn test_low_level() {
    let recipe = generate_recipe_lvl(3864, 16, 80, 31, 866, 50, 30);
    let stats = generate_stats(80, 2278, 2348, 532, false);
    let sim = SimulationBuilder::default()
        .recipe(recipe)
        .actions(vec![A::Reflect, A::BasicTouch, A::ByregotsBlessing, A::CarefulSynthesis])
        .crafter_stats(stats)
        .build()
        .unwrap();
    let result = sim.run_linear(true);
    assert!(result.simulation.success.is_some_and(|x| x));
    assert_eq!(result.simulation.steps[3].added_progression, 685);
    assert_eq!(result.simulation.steps[0].added_quality, 817);
    assert_eq!(result.simulation.steps[1].added_quality, 980);
    assert_eq!(result.simulation.steps[2].added_quality, 1699);
}

#[test]
fn test_innovation() {
    let recipe = generate_recipe_rlvl(3864, 80, 517, 80, 2000, 5200, 121, 105);
    let stats = generate_stats(80, 2763, 2780, 545, false);
    let sim = SimulationBuilder::default()
        .recipe(recipe)
        .actions(vec![
            A::Reflect,
            A::DelicateSynthesis,
            A::DelicateSynthesis,
            A::WasteNot,
            A::Groundwork,
            A::Innovation,
            A::PreparatoryTouch,
            A::PreparatoryTouch,
            A::MastersMend,
            A::PreparatoryTouch,
        ])
        .crafter_stats(stats)
        .build()
        .unwrap();
    let result = sim.run_linear(true);
    assert_eq!(result.simulation.steps[0].added_quality, 299);
    assert_eq!(result.simulation.steps[1].added_quality, 358);
    assert_eq!(result.simulation.steps[2].added_quality, 388);
    assert_eq!(result.simulation.steps[6].added_quality, 1255);
    assert_eq!(result.simulation.steps[7].added_quality, 1435);
    assert_eq!(result.simulation.steps[9].added_quality, 1614);
}

#[test]
fn test_flooring() {
    let recipe = generate_recipe_rlvl(3864, 80, 517, 80, 2000, 5200, 121, 105);
    let stats = generate_stats(80, 1645, 1532, 400, false);
    let sim = SimulationBuilder::default()
        .recipe(recipe)
        .actions(vec![A::BasicTouch, A::BasicTouch, A::BasicTouch, A::BasicTouch])
        .crafter_stats(stats)
        .build()
        .unwrap();
    let result = sim.run_linear(true);
    assert_eq!(result.simulation.quality, 828);

    let recipe = generate_star_recipe(580, 3900, 10920, 130, 115, 80, 70);
    let stats = generate_stats(90, 3289, 3420, 400, false);
    let sim = SimulationBuilder::default()
        .recipe(recipe)
        .actions(vec![
            A::MuscleMemory,
            A::Veneration,
            A::Groundwork,
            A::Groundwork,
            A::Observe,
            A::Observe,
            A::CarefulSynthesis,
        ])
        .crafter_stats(stats)
        .build()
        .unwrap();
    let result = sim.run_linear(true);
    assert_eq!(result.simulation.steps[0].added_progression, 609);
    assert_eq!(result.simulation.progression, 3897);
}

#[test]
fn test_advanced_touch_combo() {
    let recipe = generate_recipe_lvl(3864, 81, 80, 1000, 5200, 121, 105);
    let stats = generate_stats(90, 2763, 2780, 545, false);
    let sim = SimulationBuilder::default()
        .recipe(recipe.clone())
        .actions(vec![A::StandardTouch, A::AdvancedTouch])
        .crafter_stats(stats.clone())
        .build()
        .unwrap();
    let result = sim.run_linear(true);
    assert_eq!(result.simulation.steps[1].cp_difference, -46);

    let sim = SimulationBuilder::default()
        .recipe(recipe)
        .actions(vec![A::BasicTouch, A::StandardTouch, A::AdvancedTouch])
        .crafter_stats(stats)
        .build()
        .unwrap();
    let result = sim.run_linear(true);
    assert_eq!(result.simulation.steps[1].cp_difference, -18);
}

#[test]
fn test_level_90_accuracy() {
    let recipe = generate_star_recipe(560, 1000, 5200, 130, 115, 90, 80);
    let stats = generate_stats(90, 2659, 2803, 548, false);
    let sim = SimulationBuilder::default()
        .recipe(recipe)
        .actions(vec![A::Reflect, A::BasicSynthesis, A::BasicTouch])
        .crafter_stats(stats)
        .build()
        .unwrap();
    let result = sim.run_linear(true);
    assert_eq!(result.simulation.steps[0].added_quality, 222);
    assert_eq!(result.simulation.steps[1].added_progression, 222);
    assert_eq!(result.simulation.steps[2].added_quality, 266);
}

#[test]
fn test_innovation_great_strides_interaction() {
    let recipe = generate_recipe_lvl(3864, 16, 80, 31, 866, 50, 30);
    let stats = generate_stats(80, 2278, 2348, 532, false);
    let sim = SimulationBuilder::default()
        .recipe(recipe)
        .actions(vec![A::Reflect, A::Innovation, A::GreatStrides, A::BasicTouch])
        .crafter_stats(stats)
        .build()
        .unwrap();
    let result = sim.run_linear(true);
    assert_eq!(result.simulation.steps[0].added_quality, 817);
    assert_eq!(result.simulation.steps[3].added_quality, 2451);
}

#[test]
fn test_lv80_2star_craft() {
    let recipe = generate_star_recipe(56450, 2050, 9000, 110, 90, 80, 70);
    let stats = generate_stats(80, 2626, 2477, 522, false);
    let sim = SimulationBuilder::default()
        .recipe(recipe)
        .actions(vec![A::BasicSynthesis, A::BasicTouch])
        .crafter_stats(stats)
        .build()
        .unwrap();
    let result = sim.run_linear(true);
    assert_eq!(result.simulation.steps[0].added_progression, 230);
    assert_eq!(result.simulation.steps[1].added_quality, 217);
}

#[test]
fn test_high_byregots_stacks() {
    let recipe = generate_recipe_lvl(3864, 16, 80, 31, 866, 50, 30);
    let stats = generate_stats(80, 2278, 2348, 10000, false);
    let sim = SimulationBuilder::default()
        .recipe(recipe)
        .actions(vec![
            A::Reflect,
            A::BasicTouch,
            A::BasicTouch,
            A::MastersMend,
            A::BasicTouch,
            A::BasicTouch,
            A::BasicTouch,
            A::MastersMend,
            A::BasicTouch,
            A::BasicTouch,
            A::BasicTouch,
            A::ByregotsBlessing,
            A::CarefulSynthesis,
        ])
        .crafter_stats(stats)
        .build()
        .unwrap();
    let result = sim.run_linear(true);
    assert!(result.simulation.success.is_some_and(|x| x));
    assert_eq!(result.simulation.steps[11].added_quality, 4902);
}

#[test]
fn test_pliant_step_state_reducing_cp_cost() {
    let mut recipe = generate_star_recipe(480, 4943, 32328, 2480, 2195, 80, 70);
    recipe.expert = Some(true);
    let stats = generate_stats(80, 2800, 2500, 541, false);
    let sim = SimulationBuilder::default()
        .recipe(recipe)
        .actions(vec![A::PrudentTouch])
        .crafter_stats(stats)
        .step_states(vec![StepState::Pliant])
        .build()
        .unwrap();
    let result = sim.run_linear(true);
    assert_eq!(result.simulation.available_cp, 541 - 13);
}

#[test]
fn test_pliant_step_state_reducing_cp_cost_two() {
    let mut recipe = generate_star_recipe(480, 4943, 32328, 2480, 2195, 80, 70);
    recipe.expert = Some(true);
    let stats = generate_stats(80, 2800, 2500, 541, false);
    let sim = SimulationBuilder::default()
        .recipe(recipe)
        .actions(vec![A::MuscleMemory, A::WasteNot])
        .crafter_stats(stats)
        .step_states(vec![StepState::Normal, StepState::Pliant])
        .build()
        .unwrap();
    let result = sim.run_linear(true);
    assert_eq!(result.simulation.available_cp, 541 - 6 - (56f64 / 2f64).floor() as u32);
}

#[test]
fn test_sturdy_step_state_reducing_durability_cost() {
    let mut recipe = generate_star_recipe(480, 4943, 32328, 2480, 2195, 80, 70);
    recipe.expert = Some(true);
    let stats = generate_stats(80, 2800, 2500, 541, false);
    let sim = SimulationBuilder::default()
        .recipe(recipe.clone())
        .actions(vec![A::PrudentTouch])
        .crafter_stats(stats.clone())
        .step_states(vec![StepState::Sturdy])
        .build()
        .unwrap();
    let result = sim.run_linear(true);
    assert_eq!(result.simulation.durability, 70 - 3);

    let sim = SimulationBuilder::default()
        .recipe(recipe)
        .actions(vec![A::WasteNot, A::CarefulSynthesis])
        .crafter_stats(stats)
        .step_states(vec![StepState::Normal, StepState::Sturdy])
        .build()
        .unwrap();
    let result = sim.run_linear(true);
    assert_eq!(result.simulation.durability, 70 - 3);
}

#[test]
fn test_not_tick_buffs_if_buff_set_to_fail() {
    let recipe = generate_recipe_rlvl(3864, 80, 480, 80, 6178, 36208, 110, 90);
    let stats = generate_stats(80, 2800, 2500, 541, false);
    let sim = SimulationBuilder::default()
        .recipe(recipe)
        .actions(vec![A::GreatStrides, A::TricksOfTheTrade])
        .crafter_stats(stats)
        .step_states(vec![StepState::Normal])
        .fails(vec![1])
        .build()
        .unwrap();
    let result = sim.run_linear(true);
    assert_eq!(result.simulation.get_buff(Buff::GreatStrides).map(|b| b.duration), Some(3));
}

#[test]
fn test_not_ticking_buffs_with_certain_abilities() {
    let recipe = generate_recipe_rlvl(3864, 80, 480, 80, 6178, 36208, 110, 90);
    let stats = generate_stats(80, 2486, 2318, 613, false);
    let sim = SimulationBuilder::default()
        .recipe(recipe)
        .actions(vec![
            A::GreatStrides,
            A::FinalAppraisal,
            A::CarefulObservation,
            A::RemoveFinalAppraisal,
        ])
        .crafter_stats(stats)
        .build()
        .unwrap();
    let result = sim.run_linear(true);
    assert_eq!(result.simulation.get_buff(Buff::GreatStrides).map(|b| b.duration), Some(3));
}

#[test]
fn test_5point4_standard_touch_combo_bonus() {
    let recipe = generate_recipe_rlvl(3864, 80, 480, 80, 6178, 36208, 110, 90);
    let stats = generate_stats(80, 2486, 2318, 613, false);
    let sim = SimulationBuilder::default()
        .recipe(recipe)
        .actions(vec![A::BasicTouch, A::StandardTouch])
        .crafter_stats(stats)
        .build()
        .unwrap();
    let result = sim.run_linear(true);
    assert_eq!(result.simulation.steps[1].cp_difference, -18);
}

#[test]
fn test_count_buffs_properly_in_step_by_step_mode() {
    let recipe = generate_recipe_rlvl(3864, 80, 480, 80, 6178, 36208, 110, 90);
    let stats = generate_stats(80, 2745, 2885, 626, false);
    let sim = SimulationBuilder::default()
        .recipe(recipe)
        .actions(vec![
            A::MuscleMemory,
            A::Manipulation,
            A::Observe,
            A::Veneration,
            A::Groundwork,
            A::PrudentTouch,
            A::PrudentTouch,
            A::PrudentTouch,
            A::PrudentTouch,
            A::PrudentTouch,
        ])
        .crafter_stats(stats)
        .build()
        .unwrap();
    let result = sim.run_max_steps(true, 4);
    assert_eq!(result.simulation.get_buff(Buff::Manipulation).map(|b| b.duration), Some(6));
}

#[test]
fn test_conditions_for_normal_recipe() {
    let recipe = generate_recipe_rlvl(3864, 80, 480, 80, 6178, 36208, 110, 90);
    let stats = generate_stats(80, 2745, 2885, 626, false);
    let sim = SimulationBuilder::default().recipe(recipe).crafter_stats(stats).build().unwrap();
    let got: HashSet<StepState> = sim.possible_conditions().iter().cloned().collect();
    assert_eq!(
        got,
        HashSet::from([StepState::Normal, StepState::Good, StepState::Excellent, StepState::Poor])
    );
}

#[test]
fn test_conditions_switch() {
    let recipe = generate_recipe_rlvl(3864, 80, 480, 80, 6178, 36208, 110, 90);
    let stats = generate_stats(80, 2745, 2885, 626, false);
    let actions = vec![A::Observe, A::Observe];
    let mut excellent_test = SimulationBuilder::default()
        .recipe(recipe.clone())
        .crafter_stats(stats.clone())
        .actions(actions.clone())
        .build()
        .unwrap();
    excellent_test.override_state(StepState::Excellent);
    excellent_test.tick_state();
    assert_eq!(excellent_test.state(), StepState::Poor);

    let mut good_omen_test = SimulationBuilder::default()
        .recipe(recipe)
        .crafter_stats(stats)
        .actions(actions)
        .build()
        .unwrap();
    good_omen_test.override_state(StepState::GoodOmen);
    good_omen_test.tick_state();
    assert_eq!(good_omen_test.state(), StepState::Good);
}

#[test]
fn test_expert_one_conditions() {
    let recipe = generate_recipe_rlvl_conditions(3864, 80, 480, 80, 6178, 36208, 110, 90, 115);
    let stats = generate_stats(80, 2745, 2885, 626, false);
    let sim = SimulationBuilder::default().recipe(recipe).crafter_stats(stats).build().unwrap();
    let got: HashSet<StepState> = sim.possible_conditions().iter().cloned().collect();
    assert_eq!(
        got,
        HashSet::from([
            StepState::Normal,
            StepState::Good,
            StepState::Centered,
            StepState::Sturdy,
            StepState::Pliant,
        ])
    );
}

#[test]
fn test_expert_two_conditions() {
    let recipe = generate_recipe_rlvl_conditions(3864, 80, 480, 80, 6178, 36208, 110, 90, 483);
    let stats = generate_stats(80, 2745, 2885, 626, false);
    let sim = SimulationBuilder::default().recipe(recipe).crafter_stats(stats).build().unwrap();
    let got: HashSet<StepState> = sim.possible_conditions().iter().cloned().collect();
    assert_eq!(
        got,
        HashSet::from([
            StepState::Normal,
            StepState::Good,
            StepState::Sturdy,
            StepState::Pliant,
            StepState::Malleable,
            StepState::Primed,
        ])
    );
}

#[test]
fn test_heart_and_soul() {
    let recipe = generate_recipe_rlvl(3864, 80, 480, 80, 900, 36208, 110, 90);
    let stats = generate_stats_specialist(90, 2745, 2885, 500, true, false);
    let sim = SimulationBuilder::default()
        .recipe(recipe.clone())
        .actions(vec![A::Observe, A::HeartAndSoul, A::PreciseTouch])
        .crafter_stats(stats.clone())
        .step_states(vec![StepState::Normal, StepState::Normal, StepState::Normal])
        .build()
        .unwrap();
    let result = sim.run();
    assert!(result.simulation.quality > 0);
}

// ---------------------------------------------------------------- further cases

fn basic_recipe() -> Craft {
    generate_recipe_lvl(1035, 15, 70, 55, 360, 50, 30)
}

fn basic_stats() -> CrafterStats {
    generate_stats(90, 1208, 698, 187, false)
}

#[test]
fn linear_runs_are_identical() {
    let build = || {
        SimulationBuilder::default()
            .recipe(basic_recipe())
            .actions(vec![A::BasicTouch, A::Innovation, A::BasicTouch, A::BasicSynthesis])
            .crafter_stats(basic_stats())
            .build()
            .unwrap()
    };
    let a = build().run_linear(true);
    let b = build().run_linear(true);
    assert_eq!(a.steps, b.steps);
    assert_eq!(a.simulation.quality, b.simulation.quality);
    assert_eq!(a.simulation.progression, b.simulation.progression);
    assert_eq!(a.simulation.durability, b.simulation.durability);
    assert_eq!(a.simulation.available_cp, b.simulation.available_cp);
    assert_eq!(a.success, b.success);
}

#[test]
fn forced_failure_still_pays_costs() {
    let sim = SimulationBuilder::default()
        .recipe(basic_recipe())
        .actions(vec![A::BasicTouch])
        .crafter_stats(basic_stats())
        .fails(vec![0])
        .build()
        .unwrap();
    let result = sim.run_linear(true);
    assert_eq!(result.steps[0].success, Some(false));
    assert_eq!(result.simulation.quality, 0);
    assert_eq!(result.simulation.durability, 60);
    assert_eq!(result.simulation.available_cp, 187 - 18);
    assert_eq!(result.steps[0].solidity_difference, -10);
    assert_eq!(result.steps[0].cp_difference, -18);
}

#[test]
fn inner_quiet_stops_at_ten() {
    let mut actions = vec![A::Reflect];
    for _ in 0..12 {
        actions.push(A::PrudentTouch);
    }
    let recipe = generate_recipe_lvl(3864, 16, 200, 31, 100000, 50, 30);
    let stats = generate_stats(80, 2278, 2348, 10000, false);
    let sim = SimulationBuilder::default()
        .recipe(recipe)
        .actions(actions)
        .crafter_stats(stats)
        .build()
        .unwrap();
    let result = sim.run_linear(true);
    assert_eq!(result.simulation.get_buff(Buff::InnerQuiet).map(|b| b.stacks), Some(10));
}

#[test]
fn great_strides_runs_out_after_its_duration() {
    let build = |n: usize| {
        let mut actions = vec![A::GreatStrides];
        for _ in 0..n {
            actions.push(A::Observe);
        }
        SimulationBuilder::default()
            .recipe(basic_recipe())
            .actions(actions)
            .crafter_stats(basic_stats())
            .build()
            .unwrap()
            .run_linear(true)
    };
    assert_eq!(build(2).simulation.get_buff(Buff::GreatStrides).map(|b| b.duration), Some(1));
    assert!(build(3).simulation.get_buff(Buff::GreatStrides).is_none());
    assert!(build(4).simulation.get_buff(Buff::GreatStrides).is_none());
}

#[test]
fn combo_broken_by_an_attempted_step() {
    let sim = SimulationBuilder::default()
        .recipe(basic_recipe())
        .actions(vec![A::BasicTouch, A::Observe, A::StandardTouch])
        .crafter_stats(basic_stats())
        .build()
        .unwrap();
    let result = sim.run_linear(true);
    assert_eq!(result.steps[2].combo, Some(false));
    assert_eq!(result.steps[2].cp_difference, -32);
}

#[test]
fn combo_survives_a_skipped_step() {
    let sim = SimulationBuilder::default()
        .recipe(basic_recipe())
        .actions(vec![A::BasicTouch, A::HeartAndSoul, A::StandardTouch])
        .crafter_stats(basic_stats())
        .build()
        .unwrap();
    let result = sim.run_linear(true);
    assert!(result.steps[1].skipped);
    assert_eq!(result.steps[1].fail_cause, Some(FailCause::NotSpecialist));
    assert_eq!(result.steps[2].combo, Some(true));
    assert_eq!(result.steps[2].cp_difference, -18);
}

#[test]
fn not_enough_cp_is_reported() {
    let stats = generate_stats(90, 1208, 698, 10, false);
    let sim = SimulationBuilder::default()
        .recipe(basic_recipe())
        .actions(vec![A::BasicTouch])
        .crafter_stats(stats)
        .build()
        .unwrap();
    let result = sim.run_linear(true);
    assert!(result.steps[0].skipped);
    assert_eq!(result.fail_cause, Some(FailCause::NotEnoughCp));
    assert_eq!(FailCause::NotEnoughCp.message(), "Not enough CP");
}

#[test]
fn durability_reaching_zero_fails_the_craft() {
    let recipe = generate_recipe_lvl(1035, 15, 10, 5500, 360, 50, 30);
    let sim = SimulationBuilder::default()
        .recipe(recipe)
        .actions(vec![A::BasicTouch, A::BasicTouch])
        .crafter_stats(basic_stats())
        .build()
        .unwrap();
    let result = sim.run_linear(true);
    assert_eq!(result.simulation.success, Some(false));
    assert_eq!(result.fail_cause, Some(FailCause::DurabilityReachedZero));
    assert!(result.steps[1].skipped);
    assert!(!result.success);
}

#[test]
fn required_quality_not_met() {
    let mut recipe = basic_recipe();
    recipe.required_quality = Some(100000);
    let sim = SimulationBuilder::default()
        .recipe(recipe)
        .actions(vec![A::BasicTouch, A::BasicSynthesis])
        .crafter_stats(basic_stats())
        .build()
        .unwrap();
    let result = sim.run_linear(true);
    assert!(!result.success);
    assert_eq!(result.fail_cause, Some(FailCause::QualityTooLow));
}

#[test]
fn safe_mode_refuses_risky_actions() {
    let sim = SimulationBuilder::default()
        .recipe(basic_recipe())
        .actions(vec![A::HastyTouch])
        .crafter_stats(basic_stats())
        .build()
        .unwrap();
    let result = sim.run_with_flags(false, usize::MAX, true);
    assert_eq!(result.steps[0].fail_cause, Some(FailCause::UnsafeAction));
    assert_eq!(result.simulation.quality, 0);
    assert!(!result.simulation.safe);
}

#[test]
fn builder_reports_missing_fields() {
    let e = SimulationBuilder::default().crafter_stats(basic_stats()).build();
    assert_eq!(e.err(), Some(SimulationBuilderError::MissingRecipe));
    let e = SimulationBuilder::default().recipe(basic_recipe()).build();
    assert_eq!(e.err(), Some(SimulationBuilderError::MissingCrafterStats));
    let mut recipe = basic_recipe();
    recipe.quality_divider = 0;
    let e = SimulationBuilder::default().recipe(recipe).crafter_stats(basic_stats()).build();
    assert_eq!(e.err(), Some(SimulationBuilderError::ZeroDivider));
    let mut recipe = basic_recipe();
    recipe.durability = u32::MAX;
    let e = SimulationBuilder::default().recipe(recipe).crafter_stats(basic_stats()).build();
    assert_eq!(e.err(), Some(SimulationBuilderError::DurabilityTooLarge));
}

#[test]
fn hq_percent_from_the_table() {
    let sim = SimulationBuilder::default()
        .recipe(basic_recipe())
        .actions(vec![A::BasicTouch])
        .crafter_stats(basic_stats())
        .build()
        .unwrap();
    let result = sim.run_linear(true);
    // 267 of 360 is 74 percent
    assert_eq!(result.hq_percent, 42);
    let sim = SimulationBuilder::default()
        .recipe(basic_recipe())
        .crafter_stats(basic_stats())
        .build()
        .unwrap();
    assert_eq!(sim.get_hq_percent(), 1);
}

#[test]
fn item_levels() {
    assert_eq!(level_to_ilevel(CraftingLevel::new(15).unwrap()), 15);
    assert_eq!(level_to_ilevel(CraftingLevel::new(61).unwrap()), 260);
    assert_eq!(level_to_ilevel(CraftingLevel::new(80).unwrap()), 420);
    assert_eq!(level_to_ilevel(CraftingLevel::new(90).unwrap()), 560);
    assert!(CraftingLevel::new(0).is_none());
    assert!(CraftingLevel::new(91).is_none());
}

#[test]
fn random_conditions_stay_eligible() {
    let recipe = generate_recipe_rlvl_conditions(3864, 80, 480, 80, 6178, 36208, 110, 90, 483);
    let stats = generate_stats(80, 2745, 2885, 626, false);
    let mut sim = SimulationBuilder::default().recipe(recipe).crafter_stats(stats).build().unwrap();
    let allowed: HashSet<StepState> = sim.possible_conditions().iter().cloned().collect();
    let mut seen: HashSet<StepState> = HashSet::new();
    for _ in 0..2000 {
        sim.tick_state();
        assert!(allowed.contains(&sim.state()));
        seen.insert(sim.state());
    }
    assert!(seen.len() > 1);
}

#[test]
fn pliant_cost_rounds_up() {
    let sim = SimulationBuilder::default()
        .recipe(basic_recipe())
        .actions(vec![A::Observe])
        .crafter_stats(basic_stats())
        .step_states(vec![StepState::Pliant])
        .build()
        .unwrap();
    let result = sim.run_linear(true);
    assert_eq!(result.simulation.available_cp, 187 - 4);
}

#[test]
fn buffs_can_be_changed_in_place() {
    let mut sim = SimulationBuilder::default()
        .recipe(basic_recipe())
        .actions(vec![A::GreatStrides])
        .crafter_stats(basic_stats())
        .build()
        .unwrap()
        .run_linear(true)
        .simulation;
    if let Some(b) = sim.get_mut_buff(Buff::GreatStrides) {
        b.duration = 7;
    }
    assert_eq!(sim.get_buff(Buff::GreatStrides).map(|b| b.duration), Some(7));
    assert!(sim.get_mut_buff(Buff::Innovation).is_none());
    assert!(sim.has_buff(Buff::GreatStrides));
    sim.remove_buff(Buff::GreatStrides);
    assert!(!sim.has_buff(Buff::GreatStrides));
}

#[test]
fn unset_override_means_normal_and_the_condition_carries_past_the_list() {
    let sim = SimulationBuilder::default()
        .recipe(basic_recipe())
        .actions(vec![A::Observe, A::Observe])
        .crafter_stats(basic_stats())
        .step_states(vec![StepState::Good, StepState::Unset])
        .build()
        .unwrap();
    let result = sim.run_linear(true);
    assert_eq!(result.steps[0].state, StepState::Good);
    assert_eq!(result.steps[1].state, StepState::Normal);

    let sim = SimulationBuilder::default()
        .recipe(basic_recipe())
        .actions(vec![A::Observe, A::Observe])
        .crafter_stats(basic_stats())
        .step_states(vec![StepState::Good])
        .build()
        .unwrap();
    let result = sim.run_linear(true);
    assert_eq!(result.steps[1].state, StepState::Good);
}

#[test]
fn fail_cause_texts() {
    assert_eq!(FailCause::NotEnoughCp.message(), "Not enough CP");
    assert_eq!(FailCause::DurabilityReachedZero.message(), "Durability reached zero");
    assert_eq!(FailCause::UnsafeAction.message(), "Unsafe action");
    assert_eq!(FailCause::QualityTooLow.message(), "Quality too low");
    assert_eq!(FailCause::MissingLevelRequirement.message(), "Missing level requirement");
    assert_eq!(FailCause::NotSpecialist.message(), "Not specialist");
    assert_eq!(FailCause::NoInnerQuiet.message(), "No Inner Quiet");
    assert_eq!(FailCause::Unavailable.message(), "Cannot be used now");
}

#[test]
fn condition_draws_follow_the_weights() {
    // level 90, not expert, mask 15: Normal 71, Good 25, Excellent 4, Poor 0
    let build = || {
        SimulationBuilder::default()
            .recipe(basic_recipe())
            .crafter_stats(basic_stats())
            .build()
            .unwrap()
    };
    let mut sim = build();
    sim.tick_state_with(0);
    assert_eq!(sim.state(), StepState::Normal);
    let mut sim = build();
    sim.tick_state_with(70);
    assert_eq!(sim.state(), StepState::Normal);
    let mut sim = build();
    sim.tick_state_with(71);
    assert_eq!(sim.state(), StepState::Good);
    let mut sim = build();
    sim.tick_state_with(96);
    assert_eq!(sim.state(), StepState::Excellent);
    let mut sim = build();
    sim.override_state(StepState::Excellent);
    sim.tick_state_with(0);
    assert_eq!(sim.state(), StepState::Poor);
}

#[test]
fn rolled_actions_succeed_or_fail_by_the_roll() {
    let build = || {
        SimulationBuilder::default()
            .recipe(basic_recipe())
            .crafter_stats(basic_stats())
            .build()
            .unwrap()
    };
    let mut sim = build();
    let r = sim.run_action_rolled(A::HastyTouch, 0, false, false, 60);
    assert_eq!(r.success, Some(true));
    assert_eq!(r.added_quality, 267);
    let mut sim = build();
    let r = sim.run_action_rolled(A::HastyTouch, 0, false, false, 61);
    assert_eq!(r.success, Some(false));
    assert_eq!(r.added_quality, 0);
    assert_eq!(r.solidity_difference, -10);
    assert_eq!(sim.durability, 60);
    let mut sim = build();
    let r = sim.run_action_rolled(A::HastyTouch, 0, true, false, 99);
    assert_eq!(r.success, Some(true));
}
