use vstd::prelude::*;

use crate::enums::{Buff, CraftingActionEnum, FailCause, StepState};

verus! {

/// The highest level a crafter can reach.
pub const MAX_LEVEL: u8 = 90;

/// A crafter or recipe level, between 1 and the level cap.
#[derive(Clone, Copy, Debug, PartialEq, Eq, Hash, Structural)]
pub struct CraftingLevel {
    value: u8,
}

impl CraftingLevel {
    pub closed spec fn spec_value(&self) -> u8 {
        self.value
    }

    /// The level `value`, if it lies between 1 and the level cap.
    pub fn new(value: u8) -> (r: Option<CraftingLevel>)
        ensures
            r.is_some() <==> 1 <= value <= MAX_LEVEL,
            r matches Some(l) ==> l.spec_value() == value,
    {
        if 1 <= value && value <= MAX_LEVEL {
            Some(CraftingLevel { value })
        } else {
            None
        }
    }

    pub fn value(&self) -> (r: u8)
        ensures
            r == self.spec_value(),
    {
        self.value
    }
}

/// The level of a crafter in each crafting job.
#[derive(Clone, Copy, Debug, PartialEq, Eq)]
pub struct CrafterLevels {
    pub crp: CraftingLevel,
    pub bsm: CraftingLevel,
    pub arm: CraftingLevel,
    pub gsm: CraftingLevel,
    pub ltw: CraftingLevel,
    pub wvr: CraftingLevel,
    pub alc: CraftingLevel,
    pub cul: CraftingLevel,
}

/// The crafter's attributes, fixed for a run.
#[derive(Clone, Copy, Debug, PartialEq, Eq)]
pub struct CrafterStats {
    pub job_id: u32,
    pub craftsmanship: u32,
    pub control: u32,
    pub cp: u32,
    pub specialist: bool,
    pub splendorous: bool,
    pub level: CraftingLevel,
    pub levels: CrafterLevels,
}

/// A recipe; percentages stand where a recipe scales its progress or quality.
#[derive(Clone, Debug)]
pub struct Craft {
    pub id: String,
    pub job: u32,
    pub lvl: CraftingLevel,
    pub rlvl: u32,
    pub durability: u32,
    pub progress: u32,
    pub quality: u32,
    pub progress_divider: u32,
    pub quality_divider: u32,
    pub progress_modifier: Option<u32>,
    pub quality_modifier: Option<u32>,
    pub required_quality: Option<u32>,
    pub expert: Option<bool>,
    pub conditions_flag: u32,
    pub hq: Option<bool>,
    pub quick_synth: Option<bool>,
}

impl Default for Craft {
    fn default() -> (r: Craft)
        ensures
            r.id@.len() == 0,
            r.lvl.spec_value() == 1,
            r.rlvl == 0 && r.durability == 0 && r.progress == 0 && r.quality == 0,
            r.progress_divider == 0 && r.quality_divider == 0 && r.conditions_flag == 0,
            r.progress_modifier.is_none() && r.quality_modifier.is_none(),
            r.required_quality.is_none() && r.expert.is_none(),
    {
        Craft {
            id: String::new(),
            job: 0,
            lvl: CraftingLevel { value: 1 },
            rlvl: 0,
            durability: 0,
            progress: 0,
            quality: 0,
            progress_divider: 0,
            quality_divider: 0,
            progress_modifier: None,
            quality_modifier: None,
            required_quality: None,
            expert: None,
            conditions_flag: 0,
            hq: None,
            quick_synth: None,
        }
    }
}

/// An active instance of a buff.
#[derive(Clone, Copy, Debug, PartialEq, Eq, Structural)]
pub struct EffectiveBuff {
    pub duration: i32,
    pub stacks: u32,
    pub buff: Buff,
    pub applied_step: u32,
}

/// What ticking the buffs added after an action resolved.
#[derive(Clone, Copy, Debug, PartialEq, Eq, Structural)]
pub struct BuffTickResult {
    pub added_progression: u32,
    pub added_quality: u32,
    pub cp_difference: i32,
    pub solidity_difference: i32,
}

/// The record of one attempted step.
#[derive(Clone, Copy, Debug, PartialEq, Eq, Structural)]
pub struct ActionResult {
    pub action: CraftingActionEnum,
    pub success: Option<bool>,
    pub fail_cause: Option<FailCause>,
    pub added_progression: u32,
    pub added_quality: u32,
    pub cp_difference: i32,
    pub solidity_difference: i32,
    pub skipped: bool,
    pub combo: Option<bool>,
    pub state: StepState,
    pub after_buff_tick: Option<BuffTickResult>,
}

} // verus!
