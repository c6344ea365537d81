use vstd::prelude::*;

use crate::enums::{state_ordinal, CraftingActionEnum, StepState};
use crate::model::{eligible, flag_bit, state_at};
use crate::simulation::Simulation;
use crate::structs::{Craft, CrafterStats};

verus! {

/// Why a simulation could not be built.
#[derive(Clone, Copy, Debug, PartialEq, Eq, Structural)]
pub enum SimulationBuilderError {
    /// No recipe was given.
    MissingRecipe,
    /// No crafter stats were given.
    MissingCrafterStats,
    /// A progress or quality divider of zero.
    ZeroDivider,
    /// A durability that does not fit the signed durability counter.
    DurabilityTooLarge,
}

/// Gathers what a simulation needs, then checks it and builds the starting state.
pub struct SimulationBuilder {
    pub recipe: Option<Craft>,
    pub actions: Vec<CraftingActionEnum>,
    pub crafter_stats: Option<CrafterStats>,
    pub step_states: Vec<StepState>,
    pub fails: Vec<usize>,
}

impl Default for SimulationBuilder {
    fn default() -> (r: SimulationBuilder)
        ensures
            r.recipe.is_none() && r.crafter_stats.is_none(),
            r.actions@.len() == 0 && r.step_states@.len() == 0 && r.fails@.len() == 0,
    {
        SimulationBuilder {
            recipe: None,
            actions: Vec::new(),
            crafter_stats: None,
            step_states: Vec::new(),
            fails: Vec::new(),
        }
    }
}

/// Whether a recipe can be run: non-zero dividers and a durability that fits.
pub open spec fn recipe_ok(r: Craft) -> bool {
    r.progress_divider > 0 && r.quality_divider > 0 && r.durability <= i32::MAX
}

/// Each condition but `Unset` is the one at its own ordinal.
pub proof fn lemma_state_at_ordinal(d: StepState)
    requires
        d != StepState::Unset,
    ensures
        state_at(state_ordinal(d) as int) == d,
        1 <= state_ordinal(d) <= 10,
{
}

/// The conditions of ordinals 1 to `k` whose bit is set in the mask, in ordinal order.
pub open spec fn conditions_upto(flag: u32, k: nat) -> Seq<StepState>
    decreases k,
{
    if k == 0 {
        Seq::empty()
    } else {
        let p = conditions_upto(flag, (k - 1) as nat);
        if flag_bit(flag, (k - 1) as u32) {
            p.push(state_at(k as int))
        } else {
            p
        }
    }
}

fn conditions_from_flag(flag: u32) -> (r: Vec<StepState>)
    ensures
        r@ == conditions_upto(flag, 10),
        forall|c: StepState| r@.contains(c) <==> eligible(flag, c),
        r@.no_duplicates(),
{
    let mut v: Vec<StepState> = Vec::new();
    let mut k: usize = 1;
    while k <= 10
        invariant
            1 <= k <= 11,
            forall|j: int|
                1 <= j < k ==> (v@.contains(#[trigger] state_at(j)) <==> flag_bit(
                    flag,
                    (j - 1) as u32,
                )),
            forall|c: StepState| v@.contains(c) ==> 1 <= state_ordinal(c) < k,
            v@.no_duplicates(),
            v@ == conditions_upto(flag, (k - 1) as nat),
        decreases 11 - k,
    {
        let set = (flag >> ((k - 1) as u32)) & 1u32 == 1u32;
        let c = crate::simulation::state_at_ordinal(k);
        assert(state_ordinal(c) == k);
        let ghost old_v = v@;
        if set {
            assert(!old_v.contains(c));
            v.push(c);
            assert forall|x: int, y: int|
                0 <= x < v@.len() && 0 <= y < v@.len() && x != y implies v@[x] != v@[y] by {
                if x < old_v.len() && y < old_v.len() {
                    assert(v@[x] == old_v[x] && v@[y] == old_v[y]);
                } else if x < old_v.len() {
                    assert(old_v.contains(v@[x]));
                } else {
                    assert(old_v.contains(v@[y]));
                }
            }
            assert(v@[v@.len() - 1] == c);
            assert forall|d: StepState| v@.contains(d) implies old_v.contains(d) || d == c by {
                let j = choose|j: int| 0 <= j < v@.len() && v@[j] == d;
                if j < old_v.len() {
                    assert(old_v[j] == d);
                }
            }
            assert forall|d: StepState| old_v.contains(d) implies v@.contains(d) by {
                let j = choose|j: int| 0 <= j < old_v.len() && old_v[j] == d;
                assert(v@[j] == d);
            }
            assert forall|d: StepState| v@.contains(d) implies 1 <= state_ordinal(d) < k + 1 by {
                if d != c {
                    assert(old_v.contains(d));
                }
            }
        }
        assert forall|j: int| 1 <= j < k + 1 implies (v@.contains(#[trigger] state_at(j))
            <==> flag_bit(flag, (j - 1) as u32)) by {
            if j < k {
                assert(state_ordinal(state_at(j)) == j);
            }
        }
        k += 1;
    }
    assert forall|c: StepState| v@.contains(c) <==> eligible(flag, c) by {
        if c != StepState::Unset {
            lemma_state_at_ordinal(c);
        }
    }
    v
}

impl SimulationBuilder {
    pub fn recipe(self, recipe: Craft) -> (r: SimulationBuilder)
        ensures
            r.recipe == Some(recipe),
            r.crafter_stats == self.crafter_stats,
            r.actions@ == self.actions@ && r.step_states@ == self.step_states@ && r.fails@
                == self.fails@,
    {
        SimulationBuilder { recipe: Some(recipe), ..self }
    }

    pub fn actions(self, actions: Vec<CraftingActionEnum>) -> (r: SimulationBuilder)
        ensures
            r.actions@ == actions@,
            r.recipe == self.recipe && r.crafter_stats == self.crafter_stats,
            r.step_states@ == self.step_states@ && r.fails@ == self.fails@,
    {
        SimulationBuilder { actions, ..self }
    }

    pub fn crafter_stats(self, stats: CrafterStats) -> (r: SimulationBuilder)
        ensures
            r.crafter_stats == Some(stats),
            r.recipe == self.recipe,
            r.actions@ == self.actions@ && r.step_states@ == self.step_states@ && r.fails@
                == self.fails@,
    {
        SimulationBuilder { crafter_stats: Some(stats), ..self }
    }

    /// Conditions forced on the steps, by index; `Unset` forces Normal. Steps past the end
    /// of the list keep the condition carried over from the step before.
    pub fn step_states(self, step_states: Vec<StepState>) -> (r: SimulationBuilder)
        ensures
            r.step_states@ == step_states@,
            r.recipe == self.recipe && r.crafter_stats == self.crafter_stats,
            r.actions@ == self.actions@ && r.fails@ == self.fails@,
    {
        SimulationBuilder { step_states, ..self }
    }

    /// The indices of the steps that are to fail.
    pub fn fails(self, fails: Vec<usize>) -> (r: SimulationBuilder)
        ensures
            r.fails@ == fails@,
            r.recipe == self.recipe && r.crafter_stats == self.crafter_stats,
            r.actions@ == self.actions@ && r.step_states@ == self.step_states@,
    {
        SimulationBuilder { fails, ..self }
    }

    /// The starting simulation: full durability and CP, Normal condition, no buffs, no
    /// steps, and the conditions the recipe's mask makes eligible.
    pub fn build(self) -> (r: Result<Simulation, SimulationBuilderError>)
        ensures
            self.recipe.is_none() ==> r == Err::<Simulation, _>(
                SimulationBuilderError::MissingRecipe,
            ),
            self.recipe.is_some() && self.crafter_stats.is_none() ==> r == Err::<Simulation, _>(
                SimulationBuilderError::MissingCrafterStats,
            ),
            self.recipe.is_some() && self.crafter_stats.is_some() ==> (r.is_ok() <==> recipe_ok(
                self.recipe.unwrap(),
            )),
            self.recipe matches Some(rc) && self.crafter_stats.is_some() && (rc.progress_divider
                == 0 || rc.quality_divider == 0) ==> r == Err::<Simulation, _>(
                SimulationBuilderError::ZeroDivider,
            ),
            r matches Ok(sim) ==> {
                &&& sim@.wf()
                &&& Some(sim.recipe) == self.recipe
                &&& Some(sim.crafter_stats) == self.crafter_stats
                &&& sim.actions@ == self.actions@
                &&& sim.step_states@ == self.step_states@
                &&& sim.fails@ == self.fails@
                &&& sim.progression == 0 && sim.quality == 0 && sim.starting_quality == 0
                &&& sim.durability == sim.recipe.durability
                &&& sim.available_cp == sim.crafter_stats.cp && sim.max_cp
                    == sim.crafter_stats.cp
                &&& sim.state == StepState::Normal
                &&& sim.buffs@.len() == 0 && sim.steps@.len() == 0
                &&& sim.success.is_none() && !sim.safe
                &&& sim.possible_conditions@.no_duplicates()
                &&& sim.possible_conditions@ == conditions_upto(sim.recipe.conditions_flag, 10)
                &&& forall|c: StepState|
                    sim.possible_conditions@.contains(c) <==> eligible(
                        sim.recipe.conditions_flag,
                        c,
                    )
            },
    {
        let recipe = match self.recipe {
            Some(r) => r,
            None => return Err(SimulationBuilderError::MissingRecipe),
        };
        let stats = match self.crafter_stats {
            Some(s) => s,
            None => return Err(SimulationBuilderError::MissingCrafterStats),
        };
        if recipe.progress_divider == 0 || recipe.quality_divider == 0 {
            return Err(SimulationBuilderError::ZeroDivider);
        }
        if recipe.durability > i32::MAX as u32 {
            return Err(SimulationBuilderError::DurabilityTooLarge);
        }
        let possible_conditions = conditions_from_flag(recipe.conditions_flag);
        let durability = recipe.durability as i32;
        Ok(
            Simulation {
                recipe,
                actions: self.actions,
                crafter_stats: stats,
                step_states: self.step_states,
                fails: self.fails,
                progression: 0,
                quality: 0,
                starting_quality: 0,
                durability,
                state: StepState::Normal,
                available_cp: stats.cp,
                max_cp: stats.cp,
                buffs: Vec::new(),
                success: None,
                steps: Vec::new(),
                safe: false,
                possible_conditions,
            },
        )
    }
}

} // verus!
