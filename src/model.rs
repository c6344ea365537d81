use vstd::prelude::*;

use crate::actions::{
    applied_buff_of, base_cp_cost_of, base_durability_cost_of, base_success_rate_of,
    heart_and_soul_consumed, inner_quiet_gain_of, level_requirement_of, overridden_by,
    progress_potency_of, quality_potency_of, requires_good_of, skip_on_fail_of,
    skips_buff_ticks_of,
};
use crate::enums::{Buff, CraftingActionEnum, FailCause, StepState};
use crate::structs::{ActionResult, BuffTickResult, Craft, CrafterStats, EffectiveBuff};
use crate::single::{scale, single_scaled};
use crate::tables::ilevel_of;

verus! {

use CraftingActionEnum as CA;

/// The mathematical state of a simulation: what the engine reads and changes.
pub struct SimState {
    pub recipe: Craft,
    pub stats: CrafterStats,
    pub actions: Seq<CraftingActionEnum>,
    pub step_states: Seq<StepState>,
    pub fails: Seq<usize>,
    pub possible_conditions: Seq<StepState>,
    pub progression: u32,
    pub quality: u32,
    pub starting_quality: u32,
    pub durability: i32,
    pub state: StepState,
    pub available_cp: u32,
    pub max_cp: u32,
    pub buffs: Seq<EffectiveBuff>,
    pub success: Option<bool>,
    pub steps: Seq<ActionResult>,
    pub safe: bool,
}

// ---------------------------------------------------------------- buffs

pub open spec fn has_kind(bs: Seq<EffectiveBuff>, k: Buff) -> bool {
    exists|i: int| 0 <= i < bs.len() && #[trigger] bs[i].buff == k
}

pub open spec fn kind_index(bs: Seq<EffectiveBuff>, k: Buff) -> int {
    choose|i: int| 0 <= i < bs.len() && #[trigger] bs[i].buff == k
}

/// At most one buff of each kind.
pub open spec fn kinds_unique(bs: Seq<EffectiveBuff>) -> bool {
    forall|i: int, j: int|
        0 <= i < bs.len() && 0 <= j < bs.len() && i != j ==> #[trigger] bs[i].buff
            != #[trigger] bs[j].buff
}

/// Buffs in the middle of a tick: one per kind, of at most 10 stacks, none below zero.
pub open spec fn buffs_ok(bs: Seq<EffectiveBuff>) -> bool {
    &&& kinds_unique(bs)
    &&& forall|i: int| 0 <= i < bs.len() ==> (#[trigger] bs[i]).duration >= 0 && bs[i].stacks <= 10
}

/// Active buffs: one per kind, of at most 10 stacks, each positive in duration.
pub open spec fn buffs_wf(bs: Seq<EffectiveBuff>) -> bool {
    &&& kinds_unique(bs)
    &&& forall|i: int| 0 <= i < bs.len() ==> (#[trigger] bs[i]).duration > 0 && bs[i].stacks <= 10
}

pub open spec fn without_kind(bs: Seq<EffectiveBuff>, k: Buff) -> Seq<EffectiveBuff> {
    if has_kind(bs, k) {
        bs.remove(kind_index(bs, k))
    } else {
        bs
    }
}

pub open spec fn stacks_of(bs: Seq<EffectiveBuff>, k: Buff) -> u32 {
    if has_kind(bs, k) {
        bs[kind_index(bs, k)].stacks
    } else {
        0
    }
}

/// The buffs that stay once those whose duration ran out are dropped, in order.
pub open spec fn keep_active(bs: Seq<EffectiveBuff>) -> Seq<EffectiveBuff>
    decreases bs.len(),
{
    if bs.len() == 0 {
        bs
    } else {
        let r = keep_active(bs.drop_last());
        if bs.last().duration > 0 {
            r.push(bs.last())
        } else {
            r
        }
    }
}

// ---------------------------------------------------------------- state

impl SimState {
    pub open spec fn has(self, k: Buff) -> bool {
        has_kind(self.buffs, k)
    }

    pub open spec fn inner_quiet(self) -> u32 {
        stacks_of(self.buffs, Buff::InnerQuiet)
    }

    pub open spec fn expert(self) -> bool {
        self.recipe.expert == Some(true)
    }

    /// What holds at every point of a run, also inside a step.
    pub open spec fn wf_core(self) -> bool {
        &&& self.recipe.progress_divider > 0
        &&& self.recipe.quality_divider > 0
        &&& self.recipe.durability <= i32::MAX
        &&& -20 <= self.durability <= self.recipe.durability
        &&& self.available_cp <= self.max_cp
        &&& buffs_wf(self.buffs)
        &&& self.steps.len() < u32::MAX
    }

    /// The invariant of a run between steps: an undecided craft has durability left and
    /// progress short of the target.
    pub open spec fn wf(self) -> bool {
        &&& self.wf_core()
        &&& self.success.is_none() ==> self.durability >= 0 && (self.progression
            < self.recipe.progress || self.recipe.progress == 0)
    }
}

// ---------------------------------------------------------------- formulas

pub open spec fn capped_add(a: u32, g: nat) -> u32 {
    if a + g > u32::MAX {
        u32::MAX
    } else {
        (a + g) as u32
    }
}

/// Whether the recipe's modifiers apply: the crafter's item level does not exceed the recipe's.
pub open spec fn modifier_applies(s: SimState) -> bool {
    ilevel_of(s.stats.level.spec_value()) <= s.recipe.rlvl
}

/// A base value from its exact numerator over `d`, as the game's single-precision
/// arithmetic gives it: the value `num / d` is rounded to single precision; where the
/// recipe's modifier applies, that value over 100 is rounded again and multiplied by the
/// modifier percentage (100 when the recipe has none); the result is floored.
pub open spec fn single_base(num: nat, d: nat, modifier: Option<u32>, applies: bool) -> nat {
    let b = single_scaled(num, d);
    if applies {
        let m: nat = match modifier {
            Some(m) => m as nat,
            None => 100,
        };
        single_scaled(b, 100 * scale()) * m / scale()
    } else {
        b / scale()
    }
}

/// `floor((craftsmanship * 10 / divider + 2) * modifier / 100)`, in single precision.
pub open spec fn base_progression(s: SimState) -> nat {
    let d = s.recipe.progress_divider as nat;
    single_base(
        s.stats.craftsmanship as nat * 10 + 2 * d,
        d,
        s.recipe.progress_modifier,
        modifier_applies(s),
    )
}

/// `floor((control * 10 / divider + 35) * modifier / 100)`, in single precision.
pub open spec fn base_quality(s: SimState) -> nat {
    let d = s.recipe.quality_divider as nat;
    single_base(
        s.stats.control as nat * 10 + 35 * d,
        d,
        s.recipe.quality_modifier,
        modifier_applies(s),
    )
}

/// The condition's quality factor, in quarters.
pub open spec fn quality_condition(s: SimState) -> nat {
    match s.state {
        StepState::Excellent => 16,
        StepState::Poor => 2,
        StepState::Good => if s.stats.splendorous { 7 } else { 6 },
        _ => 4,
    }
}

/// The buff factor on quality, in halves: Great Strides adds a whole, Innovation a half.
pub open spec fn quality_buff_factor(bs: Seq<EffectiveBuff>) -> nat {
    2 + (if has_kind(bs, Buff::GreatStrides) { 2nat } else { 0 }) + (if has_kind(
        bs,
        Buff::Innovation,
    ) { 1nat } else { 0 })
}

/// The condition's progress factor, in halves.
pub open spec fn progress_condition(s: SimState) -> nat {
    if s.state == StepState::Malleable {
        3
    } else {
        2
    }
}

/// The buff factor on progress, in halves: Muscle Memory adds a whole, Veneration a half.
pub open spec fn progress_buff_factor(bs: Seq<EffectiveBuff>) -> nat {
    2 + (if has_kind(bs, Buff::MuscleMemory) { 2nat } else { 0 }) + (if has_kind(
        bs,
        Buff::Veneration,
    ) { 1nat } else { 0 })
}

/// `floor(base * condition * potency * (1 + stacks / 10) * buffs / 100)`.
pub open spec fn quality_gain(s: SimState, potency: nat) -> nat {
    base_quality(s) * quality_condition(s) * potency * (10 + s.inner_quiet() as nat)
        * quality_buff_factor(s.buffs) / 8000
}

/// `floor(base * condition * potency * buffs / 100)`.
pub open spec fn progress_gain(s: SimState, potency: nat) -> nat {
    base_progression(s) * progress_condition(s) * potency * progress_buff_factor(s.buffs) / 400
}

// ---------------------------------------------------------------- effects

pub open spec fn add_inner_quiet(s: SimState, n: u32) -> SimState {
    if s.has(Buff::InnerQuiet) {
        let i = kind_index(s.buffs, Buff::InnerQuiet);
        let b = s.buffs[i];
        let st: u32 = if b.stacks + n >= 10 {
            10
        } else {
            (b.stacks + n) as u32
        };
        SimState { buffs: s.buffs.update(i, EffectiveBuff { stacks: st, ..b }), ..s }
    } else {
        let st: u32 = if n >= 10 {
            10
        } else {
            n
        };
        SimState {
            buffs: s.buffs.push(
                EffectiveBuff {
                    duration: i32::MAX,
                    stacks: st,
                    buff: Buff::InnerQuiet,
                    applied_step: s.steps.len() as u32,
                },
            ),
            ..s
        }
    }
}

/// Quality grows by the gain; Great Strides is used up; Inner Quiet grows by `stacks`.
pub open spec fn quality_effect(s: SimState, potency: nat, stacks: u32) -> SimState {
    let s1 = SimState {
        quality: capped_add(s.quality, quality_gain(s, potency)),
        buffs: without_kind(s.buffs, Buff::GreatStrides),
        ..s
    };
    if stacks > 0 {
        add_inner_quiet(s1, stacks)
    } else {
        s1
    }
}

/// Progress grows by the gain; Muscle Memory is used up; under Final Appraisal progress
/// stops one short of the target, and the buff is used up.
pub open spec fn progress_effect(s: SimState, potency: nat) -> SimState {
    let p = capped_add(s.progression, progress_gain(s, potency));
    let bs = without_kind(s.buffs, Buff::MuscleMemory);
    if has_kind(bs, Buff::FinalAppraisal) && p >= s.recipe.progress && s.recipe.progress > 0 {
        SimState {
            progression: (s.recipe.progress - 1) as u32,
            buffs: without_kind(bs, Buff::FinalAppraisal),
            ..s
        }
    } else {
        SimState { progression: p, buffs: bs, ..s }
    }
}

/// The buff `k` is (re)applied, replacing what it overrides; Primed lengthens it by two.
pub open spec fn apply_buff(s: SimState, k: Buff, duration: i32) -> SimState {
    let d: i32 = if s.state == StepState::Primed {
        if duration <= i32::MAX - 2 {
            (duration + 2) as i32
        } else {
            i32::MAX
        }
    } else {
        duration
    };
    let bs0 = match overridden_by(k) {
        Some(o) => without_kind(s.buffs, o),
        None => s.buffs,
    };
    SimState {
        buffs: without_kind(bs0, k).push(
            EffectiveBuff { duration: d, stacks: 0, buff: k, applied_step: s.steps.len() as u32 },
        ),
        ..s
    }
}

pub open spec fn repair(s: SimState, amount: u32) -> SimState {
    let d = s.durability + amount;
    SimState {
        durability: if d > s.recipe.durability {
            s.recipe.durability as i32
        } else {
            d as i32
        },
        ..s
    }
}

pub open spec fn restore_cp(s: SimState, amount: u32) -> SimState {
    let c = s.available_cp + amount;
    SimState {
        available_cp: if c > s.max_cp {
            s.max_cp
        } else {
            c as u32
        },
        ..s
    }
}

/// Whether durability is below what the action costs now.
pub open spec fn worn(s: SimState, a: CraftingActionEnum) -> bool {
    s.durability < durability_cost(s, a)
}

/// What a successful action does.
pub open spec fn execute(s: SimState, a: CraftingActionEnum) -> SimState {
    match a {
        CA::MuscleMemory => apply_buff(
            progress_effect(s, progress_potency_of(a, s.stats.level.spec_value(), false) as nat),
            Buff::MuscleMemory,
            5,
        ),
        CA::DelicateSynthesis => {
            let s1 = progress_effect(
                s,
                progress_potency_of(a, s.stats.level.spec_value(), false) as nat,
            );
            quality_effect(s1, quality_potency_of(a, s1.inner_quiet()) as nat, 1)
        },
        CA::BasicSynthesis | CA::RapidSynthesis | CA::CarefulSynthesis | CA::FocusedSynthesis
        | CA::Groundwork | CA::IntensiveSynthesis | CA::PrudentSynthesis => progress_effect(
            s,
            progress_potency_of(a, s.stats.level.spec_value(), worn(s, a)) as nat,
        ),
        CA::ByregotsBlessing => {
            let s1 = quality_effect(s, quality_potency_of(a, s.inner_quiet()) as nat, 0);
            SimState { buffs: without_kind(s1.buffs, Buff::InnerQuiet), ..s1 }
        },
        CA::BasicTouch | CA::HastyTouch | CA::StandardTouch | CA::PreciseTouch | CA::PrudentTouch
        | CA::FocusedTouch | CA::Reflect | CA::PreparatoryTouch | CA::AdvancedTouch
        | CA::TrainedFinesse => quality_effect(
            s,
            quality_potency_of(a, s.inner_quiet()) as nat,
            inner_quiet_gain_of(a),
        ),
        CA::WasteNot | CA::WasteNotII | CA::Veneration | CA::Innovation | CA::GreatStrides
        | CA::Manipulation | CA::FinalAppraisal | CA::HeartAndSoul => {
            let (k, d) = applied_buff_of(a).unwrap();
            apply_buff(s, k, d)
        },
        CA::MastersMend => repair(s, 30),
        CA::TricksOfTheTrade => restore_cp(s, 20),
        CA::RemoveFinalAppraisal => SimState {
            buffs: without_kind(s.buffs, Buff::FinalAppraisal),
            ..s
        },
        CA::Observe | CA::CarefulObservation => s,
    }
}

// ---------------------------------------------------------------- combos, costs, rates

/// Scanning back over skipped steps, the latest attempted step was a success of `target`
/// (which itself combined, when `need_combo`).
pub open spec fn combo_available(
    steps: Seq<ActionResult>,
    target: CraftingActionEnum,
    need_combo: bool,
) -> bool
    decreases steps.len(),
{
    if steps.len() == 0 {
        false
    } else {
        let last = steps.last();
        if last.action == target && last.success == Some(true) && (!need_combo || last.combo
            == Some(true)) {
            true
        } else if !last.skipped {
            false
        } else {
            combo_available(steps.drop_last(), target, need_combo)
        }
    }
}

/// Whether the action combines with what came before it.
pub open spec fn has_combo(steps: Seq<ActionResult>, a: CraftingActionEnum) -> bool {
    match a {
        CA::StandardTouch => combo_available(steps, CA::BasicTouch, false),
        CA::AdvancedTouch => combo_available(steps, CA::StandardTouch, true),
        CA::FocusedSynthesis | CA::FocusedTouch => combo_available(steps, CA::Observe, false),
        _ => false,
    }
}

pub open spec fn base_cp_cost(s: SimState, a: CraftingActionEnum) -> u32 {
    base_cp_cost_of(a, has_combo(s.steps, a))
}

/// The CP paid: halved, rounding up, on a Pliant step.
pub open spec fn cp_cost(s: SimState, a: CraftingActionEnum) -> u32 {
    let b = base_cp_cost(s, a);
    if s.state == StepState::Pliant {
        ((b + 1) / 2) as u32
    } else {
        b
    }
}

/// The durability paid: halved under Waste Not and again on a Sturdy step, rounding up.
pub open spec fn durability_cost(s: SimState, a: CraftingActionEnum) -> u32 {
    let b = base_durability_cost_of(a);
    let div: int = (if s.has(Buff::WasteNot) || s.has(Buff::WasteNotII) {
        2int
    } else {
        1
    }) * (if s.state == StepState::Sturdy {
        2int
    } else {
        1
    });
    ((b + div - 1) / div) as u32
}

/// The chance of success in percent: 25 more on a Centered step, at most 100.
pub open spec fn success_rate(s: SimState, a: CraftingActionEnum) -> u32 {
    let r = base_success_rate_of(a, has_combo(s.steps, a)) + if s.state == StepState::Centered {
        25u32
    } else {
        0
    };
    if r > 100 {
        100
    } else {
        r as u32
    }
}

// ---------------------------------------------------------------- usability

pub open spec fn level_ok(s: SimState, a: CraftingActionEnum) -> bool {
    s.stats.level.spec_value() >= level_requirement_of(a)
}

pub open spec fn used_before(steps: Seq<ActionResult>, a: CraftingActionEnum) -> bool {
    exists|i: int| 0 <= i < steps.len() && #[trigger] steps[i].action == a
}

/// What the action itself asks of the state, beyond the level.
pub open spec fn own_usable(s: SimState, a: CraftingActionEnum, linear: bool) -> bool {
    match a {
        CA::MuscleMemory | CA::Reflect => s.steps.len() == 0,
        CA::ByregotsBlessing => s.inner_quiet() > 0,
        CA::TrainedFinesse => s.inner_quiet() == 10,
        CA::PrudentTouch | CA::PrudentSynthesis => !s.has(Buff::WasteNot) && !s.has(
            Buff::WasteNotII,
        ),
        CA::TricksOfTheTrade | CA::PreciseTouch | CA::IntensiveSynthesis => linear || s.state
            == StepState::Good || s.state == StepState::Excellent || s.has(Buff::HeartAndSoul),
        CA::HeartAndSoul => s.stats.specialist && !used_before(s.steps, CA::HeartAndSoul),
        CA::CarefulObservation => s.stats.specialist,
        CA::RemoveFinalAppraisal => s.has(Buff::FinalAppraisal),
        _ => true,
    }
}

pub open spec fn usable(s: SimState, a: CraftingActionEnum, linear: bool) -> bool {
    level_ok(s, a) && own_usable(s, a, linear)
}

/// Why an action that cannot be used cannot.
pub open spec fn unusable_cause(s: SimState, a: CraftingActionEnum) -> FailCause {
    if !level_ok(s, a) {
        FailCause::MissingLevelRequirement
    } else if (a == CA::HeartAndSoul || a == CA::CarefulObservation) && !s.stats.specialist {
        FailCause::NotSpecialist
    } else if (a == CA::ByregotsBlessing || a == CA::TrainedFinesse) && s.inner_quiet() == 0 {
        FailCause::NoInnerQuiet
    } else {
        FailCause::Unavailable
    }
}

// ---------------------------------------------------------------- one action

/// The roll a step is judged by: a sure failure for forced failures, a sure success in
/// linear mode, else the random `roll`.
pub open spec fn roll_for(s: SimState, index: int, linear: bool, roll: u32) -> u32 {
    if s.fails.contains(index as usize) {
        999
    } else if linear {
        0
    } else {
        roll
    }
}

/// In safe mode, an action that may fail or needs a good condition it lacks.
pub open spec fn is_unsafe(s: SimState, a: CraftingActionEnum, safe: bool) -> bool {
    safe && (success_rate(s, a) < 100 || (requires_good_of(a) && !s.has(Buff::HeartAndSoul)))
}

pub open spec fn clamp_i32(x: int) -> i32 {
    if x > i32::MAX {
        i32::MAX
    } else if x < i32::MIN {
        i32::MIN
    } else {
        x as i32
    }
}

pub open spec fn cp_difference(before: u32, after: u32) -> i32 {
    clamp_i32(clamp_i32(after as int) - before)
}

/// The attempt itself: the action's effect on success, nothing on failure.
pub open spec fn attempt(s: SimState, a: CraftingActionEnum, roll: u32, safe: bool) -> SimState {
    if is_unsafe(s, a, safe) {
        SimState { safe: false, ..s }
    } else if success_rate(s, a) >= roll {
        execute(s, a)
    } else {
        s
    }
}

/// Durability and CP are paid whatever the outcome.
pub open spec fn pay(s: SimState, a: CraftingActionEnum) -> SimState {
    SimState {
        durability: (s.durability - durability_cost(s, a)) as i32,
        available_cp: (s.available_cp - cp_cost(s, a)) as u32,
        ..s
    }
}

/// The craft ends in success once progress reaches the target, else in failure once
/// durability runs out.
pub open spec fn settle(s: SimState) -> SimState {
    if s.progression >= s.recipe.progress {
        SimState { success: Some(true), ..s }
    } else if s.durability <= 0 {
        SimState { success: Some(false), ..s }
    } else {
        s
    }
}

/// Running one action at step `index` with the random `roll`.
#[verifier::opaque]
pub open spec fn run_action_spec(
    s: SimState,
    a: CraftingActionEnum,
    index: int,
    linear: bool,
    safe: bool,
    roll: u32,
) -> (SimState, ActionResult) {
    let r = roll_for(s, index, linear, roll);
    let unsafe_action = is_unsafe(s, a, safe);
    let ok = !unsafe_action && success_rate(s, a) >= r;
    let s2 = pay(attempt(s, a, r, safe), a);
    let s3 = settle(s2);
    let fc = if s2.progression < s2.recipe.progress && s2.durability <= 0 {
        Some(FailCause::DurabilityReachedZero)
    } else if unsafe_action {
        Some(FailCause::UnsafeAction)
    } else {
        None
    };
    (
        s3,
        ActionResult {
            action: a,
            success: Some(ok),
            fail_cause: fc,
            added_progression: (s3.progression - s.progression) as u32,
            added_quality: (s3.quality - s.quality) as u32,
            cp_difference: cp_difference(s.available_cp, s3.available_cp),
            solidity_difference: (s3.durability - s.durability) as i32,
            skipped: false,
            combo: Some(has_combo(s.steps, a)),
            state: s.state,
            after_buff_tick: None,
        },
    )
}

// ---------------------------------------------------------------- buff ticks

/// What a buff does when it ticks, given the action of the step.
pub open spec fn tick_hook(s: SimState, k: Buff, a: CraftingActionEnum) -> SimState {
    match k {
        Buff::Manipulation => repair(s, 5),
        Buff::HeartAndSoul => if heart_and_soul_consumed(s.state, a) {
            SimState { buffs: without_kind(s.buffs, Buff::HeartAndSoul), ..s }
        } else {
            s
        },
        _ => s,
    }
}

/// One tick off the buff of kind `k`, if it is still active.
pub open spec fn decrement(s: SimState, k: Buff) -> SimState {
    if s.has(k) {
        let i = kind_index(s.buffs, k);
        let b = s.buffs[i];
        SimState {
            buffs: s.buffs.update(
                i,
                EffectiveBuff {
                    duration: if b.duration > 0 {
                        (b.duration - 1) as i32
                    } else {
                        b.duration
                    },
                    ..b
                },
            ),
            ..s
        }
    } else {
        s
    }
}

/// A buff applied on an earlier step and still active ticks: its hook runs, then its
/// duration drops by one.
pub open spec fn tick_one(s: SimState, b: EffectiveBuff, a: CraftingActionEnum) -> SimState {
    if (b.applied_step as int) < s.steps.len() && s.has(b.buff) {
        decrement(tick_hook(s, b.buff, a), b.buff)
    } else {
        s
    }
}

/// Ticking the first `n` buffs of the list `snap` taken before any tick.
pub open spec fn tick_through(
    s: SimState,
    snap: Seq<EffectiveBuff>,
    a: CraftingActionEnum,
    n: nat,
) -> SimState
    decreases n,
{
    if n == 0 || n > snap.len() {
        s
    } else {
        tick_one(tick_through(s, snap, a, (n - 1) as nat), snap[n - 1], a)
    }
}

/// Every buff ticks, then those that ran out are dropped.
pub open spec fn tick_buffs(s: SimState, a: CraftingActionEnum) -> SimState {
    let t = tick_through(s, s.buffs, a, s.buffs.len());
    SimState { buffs: keep_active(t.buffs), ..t }
}

// ---------------------------------------------------------------- conditions

pub open spec fn state_at(k: int) -> StepState {
    if k == 1 {
        StepState::Normal
    } else if k == 2 {
        StepState::Good
    } else if k == 3 {
        StepState::Excellent
    } else if k == 4 {
        StepState::Poor
    } else if k == 5 {
        StepState::Centered
    } else if k == 6 {
        StepState::Sturdy
    } else if k == 7 {
        StepState::Pliant
    } else if k == 8 {
        StepState::Malleable
    } else if k == 9 {
        StepState::Primed
    } else if k == 10 {
        StepState::GoodOmen
    } else {
        StepState::Unset
    }
}

/// The chance, in percent, that an eligible condition other than Normal is drawn.
pub open spec fn condition_weight(s: SimState, c: StepState) -> int {
    if !s.possible_conditions.contains(c) {
        0
    } else {
        match c {
            StepState::Good => if s.expert() {
                12
            } else if s.stats.level.spec_value() >= 63 {
                25
            } else {
                20
            },
            StepState::Excellent => if s.expert() {
                0
            } else {
                4
            },
            StepState::Centered | StepState::Sturdy => 15,
            StepState::Pliant | StepState::Malleable | StepState::Primed => 12,
            StepState::GoodOmen => 10,
            _ => 0,
        }
    }
}

/// The weights of the conditions of ordinal 2 to `k`.
pub open spec fn weight_sum(s: SimState, k: int) -> int
    decreases k,
{
    if k < 2 {
        0
    } else {
        weight_sum(s, k - 1) + condition_weight(s, state_at(k))
    }
}

/// Normal takes what the other conditions leave of 100.
pub open spec fn weight_at(s: SimState, k: int) -> int {
    if k == 1 {
        100 - weight_sum(s, 10)
    } else {
        condition_weight(s, state_at(k))
    }
}

/// The first condition, in ordinal order from `k`, whose running weight exceeds `draw`.
pub open spec fn pick_condition(s: SimState, draw: int, k: int, acc: int) -> StepState
    decreases 11 - k,
{
    if k > 10 || k < 1 {
        StepState::Normal
    } else {
        let acc2 = acc + weight_at(s, k);
        if acc2 > draw {
            state_at(k)
        } else {
            pick_condition(s, draw, k + 1, acc2)
        }
    }
}

/// The condition of the next step, for a uniform `draw` in [0, 100).
pub open spec fn next_state(s: SimState, draw: u32) -> StepState {
    if s.state == StepState::Excellent {
        StepState::Poor
    } else if s.state == StepState::GoodOmen {
        StepState::Good
    } else {
        pick_condition(s, draw as int, 1, 0)
    }
}

/// Whether bit `k` of the mask is set.
pub open spec fn flag_bit(flag: u32, k: u32) -> bool {
    (flag >> k) & 1u32 == 1u32
}

/// The conditions that a recipe's mask makes eligible.
pub open spec fn eligible(flag: u32, c: StepState) -> bool {
    1 <= crate::enums::state_ordinal(c) <= 10 && flag_bit(
        flag,
        (crate::enums::state_ordinal(c) - 1) as u32,
    )
}

// ---------------------------------------------------------------- steps and runs

/// The condition of step `i`: its override where the list reaches that far, with `Unset`
/// meaning Normal; past the list, the condition carried over (Normal if none was set).
pub open spec fn resolve_state(s: SimState, i: int) -> StepState {
    let st = if 0 <= i < s.step_states.len() {
        s.step_states[i]
    } else {
        s.state
    };
    if st == StepState::Unset {
        StepState::Normal
    } else {
        st
    }
}

pub open spec fn skipped_result(
    a: CraftingActionEnum,
    fc: Option<FailCause>,
    st: StepState,
) -> ActionResult {
    ActionResult {
        action: a,
        success: None,
        fail_cause: fc,
        added_progression: 0,
        added_quality: 0,
        cp_difference: 0,
        solidity_difference: 0,
        skipped: true,
        combo: None,
        state: st,
        after_buff_tick: None,
    }
}

pub open spec fn tick_delta(before: SimState, after: SimState) -> BuffTickResult {
    BuffTickResult {
        added_progression: (after.progression - before.progression) as u32,
        added_quality: (after.quality - before.quality) as u32,
        cp_difference: (after.available_cp - before.available_cp) as i32,
        solidity_difference: (after.durability - before.durability) as i32,
    }
}

/// Whether the buffs tick after the action, given its result.
pub open spec fn ticks_after(s: SimState, a: CraftingActionEnum, res: ActionResult) -> bool {
    s.success.is_none() && !skips_buff_ticks_of(a) && !(res.success != Some(true)
        && skip_on_fail_of(a))
}

/// The fail cause recorded for a step that is not run.
pub open spec fn precheck_cause(s: SimState, a: CraftingActionEnum, linear: bool) -> Option<
    FailCause,
> {
    if base_cp_cost(s, a) > s.available_cp {
        Some(FailCause::NotEnoughCp)
    } else if !usable(s, a, linear) {
        Some(unusable_cause(s, a))
    } else {
        None
    }
}

/// The state a step starts from: its condition resolved.
pub open spec fn step_start(s: SimState, i: int) -> SimState {
    SimState { state: resolve_state(s, i), ..s }
}

/// Whether the step's action is attempted: the craft is undecided, the budget not spent,
/// the CP suffice and the action is usable.
pub open spec fn step_runs(
    s0: SimState,
    a: CraftingActionEnum,
    linear: bool,
    max_steps: usize,
) -> bool {
    s0.success.is_none() && base_cp_cost(s0, a) <= s0.available_cp && s0.steps.len() < max_steps
        && usable(s0, a, linear)
}

/// The action of a step: run, or recorded as skipped.
pub open spec fn step_action(
    s0: SimState,
    a: CraftingActionEnum,
    i: int,
    linear: bool,
    max_steps: usize,
    safe: bool,
    roll: u32,
) -> (SimState, ActionResult) {
    if step_runs(s0, a, linear, max_steps) {
        run_action_spec(s0, a, i, linear, safe, roll)
    } else {
        (s0, skipped_result(a, precheck_cause(s0, a, linear), s0.state))
    }
}

/// The buff tick after the action, while within the budget, recorded in the result.
pub open spec fn step_tick(
    s1: SimState,
    a: CraftingActionEnum,
    res: ActionResult,
    max_steps: usize,
) -> (SimState, ActionResult) {
    if s1.steps.len() < max_steps {
        let s2 = if ticks_after(s1, a, res) {
            tick_buffs(s1, a)
        } else {
            s1
        };
        (s2, ActionResult { after_buff_tick: Some(tick_delta(s1, s2)), ..res })
    } else {
        (s1, res)
    }
}

/// The next condition is drawn unless in linear mode or after Final Appraisal or its removal.
pub open spec fn step_condition(
    s2: SimState,
    a: CraftingActionEnum,
    linear: bool,
    draw: u32,
) -> SimState {
    if !linear && a != CA::FinalAppraisal && a != CA::RemoveFinalAppraisal {
        SimState { state: next_state(s2, draw), ..s2 }
    } else {
        s2
    }
}

/// Step `i` of a run, with action `a`, success roll `roll` and condition draw `draw`.
#[verifier::opaque]
pub open spec fn step_spec(
    s: SimState,
    a: CraftingActionEnum,
    i: int,
    linear: bool,
    max_steps: usize,
    safe: bool,
    roll: u32,
    draw: u32,
) -> SimState {
    let (s1, res) = step_action(step_start(s, i), a, i, linear, max_steps, safe, roll);
    let (s2, res2) = step_tick(s1, a, res, max_steps);
    let s3 = step_condition(s2, a, linear, draw);
    SimState { steps: s3.steps.push(res2), ..s3 }
}

/// The first `n` steps of a run from `s`, with the given rolls and draws.
pub open spec fn run_through(
    s: SimState,
    n: nat,
    linear: bool,
    max_steps: usize,
    safe: bool,
    rolls: Seq<u32>,
    draws: Seq<u32>,
) -> SimState
    decreases n,
{
    if n == 0 || n > s.actions.len() {
        s
    } else {
        let p = run_through(s, (n - 1) as nat, linear, max_steps, safe, rolls, draws);
        step_spec(p, s.actions[n - 1], n - 1, linear, max_steps, safe, rolls[n - 1], draws[n - 1])
    }
}

/// The cause carried by the first step that has one, from step `i` on.
pub open spec fn first_fail_from(steps: Seq<ActionResult>, i: int) -> Option<FailCause>
    decreases steps.len() - i,
{
    if i < 0 || i >= steps.len() {
        None
    } else if steps[i].fail_cause.is_some() {
        steps[i].fail_cause
    } else {
        first_fail_from(steps, i + 1)
    }
}

/// Whether a finished run succeeded: progress reached, and quality above any threshold.
pub open spec fn run_succeeded(s: SimState) -> bool {
    s.progression >= s.recipe.progress && match s.recipe.required_quality {
        Some(q) => s.quality > q,
        None => true,
    }
}

/// The cause given for a finished run.
pub open spec fn run_fail_cause(s: SimState) -> Option<FailCause> {
    match s.recipe.required_quality {
        Some(q) if s.quality <= q => Some(FailCause::QualityTooLow),
        _ => first_fail_from(s.steps, 0),
    }
}

/// The chance of a high-quality result for the quality reached.
pub open spec fn hq_percent(s: SimState) -> u32 {
    let p: nat = if s.recipe.quality == 0 {
        if s.quality == 0 {
            0
        } else {
            100
        }
    } else {
        let q = s.quality as nat * 100 / s.recipe.quality as nat;
        if q > 100 {
            100
        } else {
            q
        }
    };
    if p == 0 {
        1
    } else if p >= 100 {
        100
    } else {
        crate::tables::hq_chance_of(p)
    }
}

} // verus!
