use vstd::prelude::*;

use crate::enums::{ActionType, Buff, CraftingActionEnum, CraftingJob};

verus! {

use CraftingActionEnum as CA;

/// The crafter level from which an action can be used.
pub open spec fn level_requirement_of(a: CraftingActionEnum) -> u8 {
    match a {
        CA::BasicSynthesis => 1,
        CA::BasicTouch => 5,
        CA::MastersMend => 7,
        CA::HastyTouch => 9,
        CA::RapidSynthesis => 9,
        CA::Observe => 13,
        CA::TricksOfTheTrade => 13,
        CA::WasteNot => 15,
        CA::Veneration => 15,
        CA::StandardTouch => 18,
        CA::GreatStrides => 21,
        CA::Innovation => 26,
        CA::FinalAppraisal => 42,
        CA::WasteNotII => 47,
        CA::ByregotsBlessing => 50,
        CA::PreciseTouch => 53,
        CA::MuscleMemory => 54,
        CA::CarefulSynthesis => 62,
        CA::Manipulation => 65,
        CA::PrudentTouch => 66,
        CA::FocusedSynthesis => 67,
        CA::FocusedTouch => 68,
        CA::Reflect => 69,
        CA::PreparatoryTouch => 71,
        CA::Groundwork => 72,
        CA::DelicateSynthesis => 76,
        CA::IntensiveSynthesis => 78,
        CA::AdvancedTouch => 84,
        CA::HeartAndSoul => 86,
        CA::PrudentSynthesis => 88,
        CA::TrainedFinesse => 90,
        CA::CarefulObservation => 55,
        CA::RemoveFinalAppraisal => 42,
    }
}

/// The kind of effect of each action.
pub open spec fn type_of(a: CraftingActionEnum) -> ActionType {
    match a {
        CA::BasicSynthesis | CA::RapidSynthesis | CA::MuscleMemory | CA::CarefulSynthesis
        | CA::FocusedSynthesis | CA::Groundwork | CA::DelicateSynthesis
        | CA::IntensiveSynthesis | CA::PrudentSynthesis => ActionType::Progression,
        CA::BasicTouch | CA::HastyTouch | CA::StandardTouch | CA::ByregotsBlessing
        | CA::PreciseTouch | CA::PrudentTouch | CA::FocusedTouch | CA::Reflect
        | CA::PreparatoryTouch | CA::AdvancedTouch | CA::TrainedFinesse => ActionType::Quality,
        CA::TricksOfTheTrade => ActionType::CpRecovery,
        CA::WasteNot | CA::Veneration | CA::GreatStrides | CA::Innovation | CA::FinalAppraisal
        | CA::WasteNotII | CA::Manipulation => ActionType::Buff,
        CA::CarefulObservation => ActionType::Specialty,
        CA::MastersMend => ActionType::Repair,
        CA::Observe | CA::HeartAndSoul | CA::RemoveFinalAppraisal => ActionType::Other,
    }
}

/// The CP an action costs before the condition is applied; `combo` tells whether
/// its combo is available.
pub open spec fn base_cp_cost_of(a: CraftingActionEnum, combo: bool) -> u32 {
    match a {
        CA::BasicSynthesis | CA::HastyTouch | CA::RapidSynthesis | CA::TricksOfTheTrade
        | CA::HeartAndSoul | CA::CarefulObservation | CA::RemoveFinalAppraisal => 0,
        CA::BasicTouch | CA::Veneration | CA::Innovation | CA::PreciseTouch | CA::FocusedTouch
        | CA::Groundwork | CA::PrudentSynthesis => 18,
        CA::MastersMend => 88,
        CA::Observe | CA::CarefulSynthesis => 7,
        CA::WasteNot => 56,
        CA::StandardTouch => if combo { 18 } else { 32 },
        CA::AdvancedTouch => if combo { 18 } else { 46 },
        CA::GreatStrides | CA::DelicateSynthesis | CA::TrainedFinesse => 32,
        CA::FinalAppraisal => 1,
        CA::WasteNotII => 98,
        CA::ByregotsBlessing => 24,
        CA::MuscleMemory | CA::Reflect | CA::IntensiveSynthesis => 6,
        CA::Manipulation => 96,
        CA::PrudentTouch => 25,
        CA::FocusedSynthesis => 5,
        CA::PreparatoryTouch => 40,
    }
}

/// The durability an action costs before buffs and the condition are applied.
pub open spec fn base_durability_cost_of(a: CraftingActionEnum) -> u32 {
    match a {
        CA::PrudentTouch | CA::PrudentSynthesis => 5,
        CA::PreparatoryTouch | CA::Groundwork => 20,
        CA::BasicSynthesis | CA::BasicTouch | CA::HastyTouch | CA::RapidSynthesis
        | CA::StandardTouch | CA::ByregotsBlessing | CA::PreciseTouch | CA::MuscleMemory
        | CA::CarefulSynthesis | CA::FocusedSynthesis | CA::FocusedTouch | CA::Reflect
        | CA::DelicateSynthesis | CA::IntensiveSynthesis | CA::AdvancedTouch => 10,
        _ => 0,
    }
}

/// The chance of success in percent before the condition is applied.
pub open spec fn base_success_rate_of(a: CraftingActionEnum, combo: bool) -> u32 {
    match a {
        CA::FocusedSynthesis | CA::FocusedTouch => if combo { 100 } else { 50 },
        CA::HastyTouch => 60,
        CA::RapidSynthesis => 50,
        _ => 100,
    }
}

/// The progress potency of an action, in percent of the base progress; `level` is the
/// crafter's level and `worn` tells whether durability is below the action's cost.
pub open spec fn progress_potency_of(a: CraftingActionEnum, level: u8, worn: bool) -> u32 {
    match a {
        CA::BasicSynthesis => if level >= 31 { 120 } else { 100 },
        CA::RapidSynthesis => if level >= 63 { 500 } else { 250 },
        CA::MuscleMemory => 300,
        CA::CarefulSynthesis => if level >= 82 { 180 } else { 150 },
        CA::FocusedSynthesis => 200,
        CA::Groundwork => {
            let p: u32 = if level >= 86 { 360 } else { 300 };
            if worn { p / 2 } else { p }
        },
        CA::DelicateSynthesis => 100,
        CA::IntensiveSynthesis => 400,
        CA::PrudentSynthesis => 180,
        _ => 0,
    }
}

/// The quality potency of an action, in percent of the base quality; `stacks` is the
/// current Inner Quiet count.
pub open spec fn quality_potency_of(a: CraftingActionEnum, stacks: u32) -> u32 {
    match a {
        CA::BasicTouch | CA::HastyTouch | CA::PrudentTouch | CA::Reflect | CA::DelicateSynthesis
        | CA::TrainedFinesse => 100,
        CA::StandardTouch => 125,
        CA::AdvancedTouch | CA::FocusedTouch | CA::PreciseTouch => 150,
        CA::PreparatoryTouch => 200,
        CA::ByregotsBlessing => (100 + 20 * stacks) as u32,
        _ => 0,
    }
}

/// How many Inner Quiet stacks a quality action adds.
pub open spec fn inner_quiet_gain_of(a: CraftingActionEnum) -> u32 {
    match a {
        CA::PreparatoryTouch | CA::PreciseTouch | CA::Reflect => 2,
        CA::BasicTouch | CA::HastyTouch | CA::StandardTouch | CA::AdvancedTouch
        | CA::FocusedTouch | CA::PrudentTouch | CA::DelicateSynthesis => 1,
        _ => 0,
    }
}

/// The buff an action applies, with its duration.
pub open spec fn applied_buff_of(a: CraftingActionEnum) -> Option<(Buff, i32)> {
    match a {
        CA::WasteNot => Some((Buff::WasteNot, 4)),
        CA::WasteNotII => Some((Buff::WasteNotII, 8)),
        CA::Veneration => Some((Buff::Veneration, 4)),
        CA::Innovation => Some((Buff::Innovation, 4)),
        CA::GreatStrides => Some((Buff::GreatStrides, 3)),
        CA::Manipulation => Some((Buff::Manipulation, 8)),
        CA::FinalAppraisal => Some((Buff::FinalAppraisal, 5)),
        CA::HeartAndSoul => Some((Buff::HeartAndSoul, i32::MAX)),
        CA::MuscleMemory => Some((Buff::MuscleMemory, 5)),
        _ => None,
    }
}

/// A buff that applying `b` replaces besides `b` itself.
pub open spec fn overridden_by(b: Buff) -> Option<Buff> {
    match b {
        Buff::WasteNot => Some(Buff::WasteNotII),
        Buff::WasteNotII => Some(Buff::WasteNot),
        _ => None,
    }
}

/// Whether a failed roll of the action leaves the buffs unticked.
pub open spec fn skip_on_fail_of(a: CraftingActionEnum) -> bool {
    type_of(a) == ActionType::Buff || a == CA::TricksOfTheTrade || a == CA::HeartAndSoul
}

/// Whether the action never ticks the buffs.
pub open spec fn skips_buff_ticks_of(a: CraftingActionEnum) -> bool {
    a == CA::FinalAppraisal || a == CA::RemoveFinalAppraisal || a == CA::CarefulObservation
        || a == CA::HeartAndSoul
}

/// Whether the action needs a Good or Excellent condition, or Heart and Soul.
pub open spec fn requires_good_of(a: CraftingActionEnum) -> bool {
    a == CA::TricksOfTheTrade || a == CA::PreciseTouch || a == CA::IntensiveSynthesis
}

/// Whether the action may only open a craft.
pub open spec fn first_step_only(a: CraftingActionEnum) -> bool {
    a == CA::MuscleMemory || a == CA::Reflect
}

impl CraftingActionEnum {
    pub fn level_requirement(&self) -> (r: (CraftingJob, u8))
        ensures
            r == (CraftingJob::Any, level_requirement_of(*self)),
    {
        let l: u8 = match self {
            CA::BasicSynthesis => 1,
            CA::BasicTouch => 5,
            CA::MastersMend => 7,
            CA::HastyTouch => 9,
            CA::RapidSynthesis => 9,
            CA::Observe => 13,
            CA::TricksOfTheTrade => 13,
            CA::WasteNot => 15,
            CA::Veneration => 15,
            CA::StandardTouch => 18,
            CA::GreatStrides => 21,
            CA::Innovation => 26,
            CA::FinalAppraisal => 42,
            CA::WasteNotII => 47,
            CA::ByregotsBlessing => 50,
            CA::PreciseTouch => 53,
            CA::MuscleMemory => 54,
            CA::CarefulSynthesis => 62,
            CA::Manipulation => 65,
            CA::PrudentTouch => 66,
            CA::FocusedSynthesis => 67,
            CA::FocusedTouch => 68,
            CA::Reflect => 69,
            CA::PreparatoryTouch => 71,
            CA::Groundwork => 72,
            CA::DelicateSynthesis => 76,
            CA::IntensiveSynthesis => 78,
            CA::AdvancedTouch => 84,
            CA::HeartAndSoul => 86,
            CA::PrudentSynthesis => 88,
            CA::TrainedFinesse => 90,
            CA::CarefulObservation => 55,
            CA::RemoveFinalAppraisal => 42,
        };
        (CraftingJob::Any, l)
    }

    pub fn get_type(&self) -> (r: ActionType)
        ensures
            r == type_of(*self),
    {
        match self {
            CA::BasicSynthesis | CA::RapidSynthesis | CA::MuscleMemory | CA::CarefulSynthesis
            | CA::FocusedSynthesis | CA::Groundwork | CA::DelicateSynthesis
            | CA::IntensiveSynthesis | CA::PrudentSynthesis => ActionType::Progression,
            CA::BasicTouch | CA::HastyTouch | CA::StandardTouch | CA::ByregotsBlessing
            | CA::PreciseTouch | CA::PrudentTouch | CA::FocusedTouch | CA::Reflect
            | CA::PreparatoryTouch | CA::AdvancedTouch | CA::TrainedFinesse => ActionType::Quality,
            CA::TricksOfTheTrade => ActionType::CpRecovery,
            CA::WasteNot | CA::Veneration | CA::GreatStrides | CA::Innovation
            | CA::FinalAppraisal | CA::WasteNotII | CA::Manipulation => ActionType::Buff,
            CA::CarefulObservation => ActionType::Specialty,
            CA::MastersMend => ActionType::Repair,
            CA::Observe | CA::HeartAndSoul | CA::RemoveFinalAppraisal => ActionType::Other,
        }
    }

    pub fn base_cp_cost_with(&self, combo: bool) -> (r: u32)
        ensures
            r == base_cp_cost_of(*self, combo),
    {
        match self {
            CA::BasicSynthesis | CA::HastyTouch | CA::RapidSynthesis | CA::TricksOfTheTrade
            | CA::HeartAndSoul | CA::CarefulObservation | CA::RemoveFinalAppraisal => 0,
            CA::BasicTouch | CA::Veneration | CA::Innovation | CA::PreciseTouch
            | CA::FocusedTouch | CA::Groundwork | CA::PrudentSynthesis => 18,
            CA::MastersMend => 88,
            CA::Observe | CA::CarefulSynthesis => 7,
            CA::WasteNot => 56,
            CA::StandardTouch => if combo { 18 } else { 32 },
            CA::AdvancedTouch => if combo { 18 } else { 46 },
            CA::GreatStrides | CA::DelicateSynthesis | CA::TrainedFinesse => 32,
            CA::FinalAppraisal => 1,
            CA::WasteNotII => 98,
            CA::ByregotsBlessing => 24,
            CA::MuscleMemory | CA::Reflect | CA::IntensiveSynthesis => 6,
            CA::Manipulation => 96,
            CA::PrudentTouch => PrudentTouch.base_cp_cost(),
            CA::FocusedSynthesis => 5,
            CA::PreparatoryTouch => 40,
        }
    }

    pub fn base_durability_cost(&self) -> (r: u32)
        ensures
            r == base_durability_cost_of(*self),
    {
        match self {
            CA::PrudentTouch => PrudentTouch.base_durability_cost(),
            CA::PrudentSynthesis => 5,
            CA::PreparatoryTouch | CA::Groundwork => 20,
            CA::BasicSynthesis | CA::BasicTouch | CA::HastyTouch | CA::RapidSynthesis
            | CA::StandardTouch | CA::ByregotsBlessing | CA::PreciseTouch | CA::MuscleMemory
            | CA::CarefulSynthesis | CA::FocusedSynthesis | CA::FocusedTouch | CA::Reflect
            | CA::DelicateSynthesis | CA::IntensiveSynthesis | CA::AdvancedTouch => 10,
            _ => 0,
        }
    }

    pub fn base_success_rate(&self, combo: bool) -> (r: u32)
        ensures
            r == base_success_rate_of(*self, combo),
    {
        match self {
            CA::FocusedSynthesis | CA::FocusedTouch => if combo { 100 } else { 50 },
            CA::HastyTouch => 60,
            CA::RapidSynthesis => 50,
            _ => 100,
        }
    }

    pub fn progress_potency(&self, level: u8, worn: bool) -> (r: u32)
        ensures
            r == progress_potency_of(*self, level, worn),
    {
        match self {
            CA::BasicSynthesis => if level >= 31 { 120 } else { 100 },
            CA::RapidSynthesis => if level >= 63 { 500 } else { 250 },
            CA::MuscleMemory => 300,
            CA::CarefulSynthesis => if level >= 82 { 180 } else { 150 },
            CA::FocusedSynthesis => 200,
            CA::Groundwork => {
                let p: u32 = if level >= 86 { 360 } else { 300 };
                if worn { p / 2 } else { p }
            },
            CA::DelicateSynthesis => 100,
            CA::IntensiveSynthesis => 400,
            CA::PrudentSynthesis => 180,
            _ => 0,
        }
    }

    pub fn quality_potency(&self, stacks: u32) -> (r: u32)
        requires
            stacks <= 10,
        ensures
            r == quality_potency_of(*self, stacks),
    {
        match self {
            CA::PrudentTouch => PrudentTouch.potency(),
            CA::BasicTouch | CA::HastyTouch | CA::Reflect | CA::DelicateSynthesis
            | CA::TrainedFinesse => 100,
            CA::StandardTouch => 125,
            CA::AdvancedTouch | CA::FocusedTouch | CA::PreciseTouch => 150,
            CA::PreparatoryTouch => 200,
            CA::ByregotsBlessing => 100 + 20 * stacks,
            _ => 0,
        }
    }

    pub fn inner_quiet_gain(&self) -> (r: u32)
        ensures
            r == inner_quiet_gain_of(*self),
    {
        match self {
            CA::PreparatoryTouch | CA::PreciseTouch | CA::Reflect => 2,
            CA::BasicTouch | CA::HastyTouch | CA::StandardTouch | CA::AdvancedTouch
            | CA::FocusedTouch | CA::PrudentTouch | CA::DelicateSynthesis => 1,
            _ => 0,
        }
    }

    pub fn applied_buff(&self) -> (r: Option<(Buff, i32)>)
        ensures
            r == applied_buff_of(*self),
    {
        match self {
            CA::WasteNot => Some((Buff::WasteNot, 4)),
            CA::WasteNotII => Some((Buff::WasteNotII, 8)),
            CA::Veneration => Some((Buff::Veneration, 4)),
            CA::Innovation => Some((Buff::Innovation, 4)),
            CA::GreatStrides => Some((Buff::GreatStrides, 3)),
            CA::Manipulation => Some((Buff::Manipulation, 8)),
            CA::FinalAppraisal => Some((Buff::FinalAppraisal, 5)),
            CA::HeartAndSoul => Some((HeartAndSoul.buff(), HeartAndSoul.duration())),
            CA::MuscleMemory => Some((Buff::MuscleMemory, 5)),
            _ => None,
        }
    }

    pub fn skip_on_fail(&self) -> (r: bool)
        ensures
            r == skip_on_fail_of(*self),
    {
        match self {
            CA::WasteNot | CA::Veneration | CA::GreatStrides | CA::Innovation
            | CA::FinalAppraisal | CA::WasteNotII | CA::Manipulation | CA::TricksOfTheTrade => true,
            CA::HeartAndSoul => HeartAndSoul.skip_on_fail(),
            _ => false,
        }
    }

    pub fn skips_buff_ticks(&self) -> (r: bool)
        ensures
            r == skips_buff_ticks_of(*self),
    {
        match self {
            CA::FinalAppraisal | CA::RemoveFinalAppraisal | CA::CarefulObservation => true,
            CA::HeartAndSoul => HeartAndSoul.skips_buff_ticks(),
            _ => false,
        }
    }

    pub fn requires_good(&self) -> (r: bool)
        ensures
            r == requires_good_of(*self),
    {
        match self {
            CA::TricksOfTheTrade | CA::PreciseTouch | CA::IntensiveSynthesis => true,
            _ => false,
        }
    }
}

pub fn overrides(b: Buff) -> (r: Option<Buff>)
    ensures
        r == overridden_by(b),
{
    match b {
        Buff::WasteNot => Some(Buff::WasteNotII),
        Buff::WasteNotII => Some(Buff::WasteNot),
        _ => None,
    }
}

/// Heart and Soul: once per craft, a specialist may use one action that needs a Good
/// or Excellent condition without it.
#[derive(Clone, Copy, Debug)]
pub struct HeartAndSoul;

impl HeartAndSoul {
    /// Lasts until consumed.
    pub fn duration(&self) -> (r: i32)
        ensures
            r == i32::MAX,
    {
        i32::MAX
    }

    pub fn buff(&self) -> (r: Buff)
        ensures
            r == Buff::HeartAndSoul,
    {
        Buff::HeartAndSoul
    }

    pub fn skip_on_fail(&self) -> (r: bool)
        ensures
            r,
    {
        true
    }

    pub fn skips_buff_ticks(&self) -> (r: bool)
        ensures
            r,
    {
        true
    }

    /// Whether the action performed this step, on this condition, consumes the buff.
    pub fn consumes(&self, state: crate::enums::StepState, action: CraftingActionEnum) -> (r: bool)
        ensures
            r == heart_and_soul_consumed(state, action),
    {
        let on_good = state == crate::enums::StepState::Good || state
            == crate::enums::StepState::Excellent;
        !on_good && (action == CA::PreciseTouch || action == CA::IntensiveSynthesis || action
            == CA::TricksOfTheTrade)
    }
}

/// Heart and Soul is used up by an action that needs a Good or Excellent condition,
/// taken on another condition.
pub open spec fn heart_and_soul_consumed(
    state: crate::enums::StepState,
    action: CraftingActionEnum,
) -> bool {
    state != crate::enums::StepState::Good && state != crate::enums::StepState::Excellent && (
    action == CA::PreciseTouch || action == CA::IntensiveSynthesis || action
        == CA::TricksOfTheTrade)
}

/// Prudent Touch: a cheap touch that cannot be used under Waste Not.
#[derive(Clone, Copy, Debug)]
pub struct PrudentTouch;

impl PrudentTouch {
    pub fn base_cp_cost(&self) -> (r: u32)
        ensures
            r == 25,
    {
        25
    }

    pub fn base_durability_cost(&self) -> (r: u32)
        ensures
            r == 5,
    {
        5
    }

    pub fn potency(&self) -> (r: u32)
        ensures
            r == 100,
    {
        100
    }

    /// Usable only while neither Waste Not buff is active.
    pub fn can_be_used(&self, waste_not: bool, waste_not_ii: bool) -> (r: bool)
        ensures
            r == (!waste_not && !waste_not_ii),
    {
        !waste_not && !waste_not_ii
    }
}

} // verus!
