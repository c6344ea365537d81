use vstd::prelude::*;

use crate::actions::{HeartAndSoul, PrudentTouch};
use crate::enums::{Buff, CraftingActionEnum, FailCause, StepState};
use crate::model::{
    add_inner_quiet, buffs_ok, buffs_wf, has_kind, kind_index, kinds_unique, repair, restore_cp,
    stacks_of, without_kind, SimState,
};
use crate::single::round_single;
use crate::structs::{ActionResult, Craft, CrafterStats, EffectiveBuff};

verus! {

/// A crafting run: the recipe, the crafter, the actions, and the state they lead to.
pub struct Simulation {
    pub recipe: Craft,
    pub actions: Vec<CraftingActionEnum>,
    pub crafter_stats: CrafterStats,
    pub step_states: Vec<StepState>,
    pub fails: Vec<usize>,
    pub progression: u32,
    pub quality: u32,
    pub starting_quality: u32,
    pub durability: i32,
    pub state: StepState,
    pub available_cp: u32,
    pub max_cp: u32,
    pub buffs: Vec<EffectiveBuff>,
    pub success: Option<bool>,
    pub steps: Vec<ActionResult>,
    pub safe: bool,
    pub possible_conditions: Vec<StepState>,
}

impl View for Simulation {
    type V = SimState;

    open spec fn view(&self) -> SimState {
        SimState {
            recipe: self.recipe,
            stats: self.crafter_stats,
            actions: self.actions@,
            step_states: self.step_states@,
            fails: self.fails@,
            possible_conditions: self.possible_conditions@,
            progression: self.progression,
            quality: self.quality,
            starting_quality: self.starting_quality,
            durability: self.durability,
            state: self.state,
            available_cp: self.available_cp,
            max_cp: self.max_cp,
            buffs: self.buffs@,
            success: self.success,
            steps: self.steps@,
            safe: self.safe,
        }
    }
}

// ---------------------------------------------------------------- lemmas on buff lists

pub proof fn lemma_kind_index(bs: Seq<EffectiveBuff>, k: Buff, i: int)
    requires
        kinds_unique(bs),
        0 <= i < bs.len(),
        bs[i].buff == k,
    ensures
        has_kind(bs, k),
        kind_index(bs, k) == i,
{
    assert(has_kind(bs, k));
    let j = kind_index(bs, k);
    assert(bs[j].buff == k);
}

pub proof fn lemma_remove_wf(bs: Seq<EffectiveBuff>, i: int)
    requires
        kinds_unique(bs),
        0 <= i < bs.len(),
    ensures
        kinds_unique(bs.remove(i)),
        buffs_wf(bs) ==> buffs_wf(bs.remove(i)),
        buffs_ok(bs) ==> buffs_ok(bs.remove(i)),
        forall|k: Buff| has_kind(bs.remove(i), k) <==> (has_kind(bs, k) && k != bs[i].buff),
{
    let r = bs.remove(i);
    assert forall|a: int| 0 <= a < r.len() implies #[trigger] r[a] == (if a < i {
        bs[a]
    } else {
        bs[a + 1]
    }) by {}
    assert forall|a: int, b: int|
        0 <= a < r.len() && 0 <= b < r.len() && a != b implies #[trigger] r[a].buff
        != #[trigger] r[b].buff by {
        let a2 = if a < i {
            a
        } else {
            a + 1
        };
        let b2 = if b < i {
            b
        } else {
            b + 1
        };
        assert(r[a] == bs[a2]);
        assert(r[b] == bs[b2]);
        assert(bs[a2].buff != bs[b2].buff);
    }
    assert forall|k: Buff| has_kind(r, k) <==> (has_kind(bs, k) && k != bs[i].buff) by {
        if has_kind(r, k) {
            let a = choose|a: int| 0 <= a < r.len() && #[trigger] r[a].buff == k;
            let a2 = if a < i {
                a
            } else {
                a + 1
            };
            assert(r[a] == bs[a2]);
            assert(bs[a2].buff == k);
            assert(a2 != i);
        }
        if has_kind(bs, k) && k != bs[i].buff {
            let a = choose|a: int| 0 <= a < bs.len() && #[trigger] bs[a].buff == k;
            assert(a != i);
            if a < i {
                assert(r[a] == bs[a]);
                assert(r[a].buff == k);
            } else {
                assert(r[a - 1] == bs[a]);
                assert(r[a - 1].buff == k);
            }
        }
    }
}

pub proof fn lemma_without_wf(bs: Seq<EffectiveBuff>, k: Buff)
    requires
        kinds_unique(bs),
    ensures
        kinds_unique(without_kind(bs, k)),
        buffs_wf(bs) ==> buffs_wf(without_kind(bs, k)),
        buffs_ok(bs) ==> buffs_ok(without_kind(bs, k)),
        !has_kind(without_kind(bs, k), k),
        forall|k2: Buff| k2 != k ==> (has_kind(without_kind(bs, k), k2) <==> has_kind(bs, k2)),
{
    if has_kind(bs, k) {
        let i = kind_index(bs, k);
        lemma_remove_wf(bs, i);
    }
}

pub proof fn lemma_push_wf(bs: Seq<EffectiveBuff>, b: EffectiveBuff)
    requires
        buffs_wf(bs),
        !has_kind(bs, b.buff),
        b.duration > 0,
        b.stacks <= 10,
    ensures
        buffs_wf(bs.push(b)),
        has_kind(bs.push(b), b.buff),
        kind_index(bs.push(b), b.buff) == bs.len(),
        forall|k: Buff| k != b.buff ==> (has_kind(bs.push(b), k) <==> has_kind(bs, k)),
{
    let r = bs.push(b);
    assert forall|a: int, c: int|
        0 <= a < r.len() && 0 <= c < r.len() && a != c implies #[trigger] r[a].buff
        != #[trigger] r[c].buff by {
        if a < bs.len() && c < bs.len() {
            assert(r[a] == bs[a] && r[c] == bs[c]);
        } else if a < bs.len() {
            assert(r[a] == bs[a]);
        } else {
            assert(r[c] == bs[c]);
        }
    }
    assert forall|a: int| 0 <= a < r.len() implies (#[trigger] r[a]).duration > 0 && r[a].stacks
        <= 10 by {
        if a < bs.len() {
            assert(r[a] == bs[a]);
        }
    }
    lemma_kind_index(r, b.buff, bs.len() as int);
    assert forall|k: Buff| k != b.buff implies (has_kind(r, k) <==> has_kind(bs, k)) by {
        if has_kind(r, k) {
            let a = choose|a: int| 0 <= a < r.len() && #[trigger] r[a].buff == k;
            assert(a < bs.len());
            assert(r[a] == bs[a]);
        }
        if has_kind(bs, k) {
            let a = choose|a: int| 0 <= a < bs.len() && #[trigger] bs[a].buff == k;
            assert(r[a] == bs[a]);
        }
    }
}

pub proof fn lemma_update_wf(bs: Seq<EffectiveBuff>, i: int, b: EffectiveBuff)
    requires
        kinds_unique(bs),
        0 <= i < bs.len(),
        b.buff == bs[i].buff,
        b.stacks <= 10,
    ensures
        kinds_unique(bs.update(i, b)),
        buffs_wf(bs) && b.duration > 0 ==> buffs_wf(bs.update(i, b)),
        buffs_ok(bs) && b.duration >= 0 ==> buffs_ok(bs.update(i, b)),
        forall|k: Buff| has_kind(bs.update(i, b), k) <==> has_kind(bs, k),
{
    let r = bs.update(i, b);
    assert forall|a: int| 0 <= a < r.len() implies #[trigger] r[a] == (if a == i {
        b
    } else {
        bs[a]
    }) by {}
    assert forall|a: int, c: int|
        0 <= a < r.len() && 0 <= c < r.len() && a != c implies #[trigger] r[a].buff
        != #[trigger] r[c].buff by {
        assert(r[a].buff == bs[a].buff);
        assert(r[c].buff == bs[c].buff);
    }
    assert forall|k: Buff| has_kind(r, k) <==> has_kind(bs, k) by {
        if has_kind(r, k) {
            let a = choose|a: int| 0 <= a < r.len() && #[trigger] r[a].buff == k;
            assert(bs[a].buff == k);
        }
        if has_kind(bs, k) {
            let a = choose|a: int| 0 <= a < bs.len() && #[trigger] bs[a].buff == k;
            assert(r[a].buff == k);
        }
    }
}

// ---------------------------------------------------------------- buffs

impl Simulation {
    /// The index of the active buff of kind `k`.
    fn find_buff(&self, k: Buff) -> (r: Option<usize>)
        requires
            kinds_unique(self.buffs@),
        ensures
            r.is_some() == has_kind(self.buffs@, k),
            r matches Some(i) ==> i < self.buffs.len() && i == kind_index(self.buffs@, k),
    {
        let mut i: usize = 0;
        while i < self.buffs.len()
            invariant
                0 <= i <= self.buffs.len(),
                kinds_unique(self.buffs@),
                forall|j: int| 0 <= j < i ==> #[trigger] self.buffs@[j].buff != k,
            decreases self.buffs.len() - i,
        {
            if self.buffs[i].buff == k {
                proof {
                    lemma_kind_index(self.buffs@, k, i as int);
                }
                return Some(i);
            }
            i += 1;
        }
        None
    }

    /// Whether a buff of kind `buff` is active.
    pub fn has_buff(&self, buff: Buff) -> (r: bool)
        requires
            kinds_unique(self.buffs@),
        ensures
            r == has_kind(self.buffs@, buff),
    {
        self.find_buff(buff).is_some()
    }

    /// The active buff of kind `buff`, if any.
    pub fn get_buff(&self, buff: Buff) -> (r: Option<&EffectiveBuff>)
        requires
            kinds_unique(self.buffs@),
        ensures
            r.is_some() == has_kind(self.buffs@, buff),
            r matches Some(b) ==> *b == self.buffs@[kind_index(self.buffs@, buff)],
    {
        match self.find_buff(buff) {
            Some(i) => Some(&self.buffs[i]),
            None => None,
        }
    }

    /// The active buff of kind `buff`, if any, to change in place.
    pub fn get_mut_buff(&mut self, buff: Buff) -> (r: Option<&mut EffectiveBuff>)
        requires
            kinds_unique(old(self).buffs@),
        ensures
            r.is_some() == has_kind(old(self).buffs@, buff),
            r is None ==> *final(self) == *old(self),
            r matches Some(b) ==> *b == old(self).buffs@[kind_index(old(self).buffs@, buff)]
                && final(self)@ == (SimState {
                buffs: old(self).buffs@.update(kind_index(old(self).buffs@, buff), *final(b)),
                ..old(self)@
            }),
    {
        match self.find_buff(buff) {
            Some(i) => Some(&mut self.buffs[i]),
            None => None,
        }
    }

    /// Ends the buff of kind `buff`, if it is active.
    pub fn remove_buff(&mut self, buff: Buff)
        requires
            kinds_unique(old(self).buffs@),
        ensures
            final(self)@ == (SimState { buffs: without_kind(old(self).buffs@, buff), ..old(self)@ }),
            kinds_unique(final(self).buffs@),
            buffs_wf(old(self).buffs@) ==> buffs_wf(final(self).buffs@),
            buffs_ok(old(self).buffs@) ==> buffs_ok(final(self).buffs@),
            !has_kind(final(self).buffs@, buff),
    {
        proof {
            lemma_without_wf(self.buffs@, buff);
        }
        if let Some(i) = self.find_buff(buff) {
            self.buffs.remove(i);
        }
    }

    /// Makes `buff` the active buff of its kind, replacing any before it.
    pub fn add_buff(&mut self, buff: EffectiveBuff)
        requires
            buffs_wf(old(self).buffs@),
            buff.duration > 0,
            buff.stacks <= 10,
        ensures
            final(self)@ == (SimState {
                buffs: without_kind(old(self).buffs@, buff.buff).push(buff),
                ..old(self)@
            }),
            buffs_wf(final(self).buffs@),
    {
        self.remove_buff(buff.buff);
        proof {
            lemma_push_wf(self.buffs@, buff);
        }
        self.buffs.push(buff);
    }

    /// Adds `stacks` Inner Quiet stacks, at most 10 in all, starting the buff if needed.
    pub fn add_inner_quiet_stacks(&mut self, stacks: u32)
        requires
            buffs_wf(old(self).buffs@),
            old(self).steps.len() <= u32::MAX,
        ensures
            final(self)@ == add_inner_quiet(old(self)@, stacks),
            buffs_wf(final(self).buffs@),
            stacks_of(final(self).buffs@, Buff::InnerQuiet) <= 10,
    {
        match self.find_buff(Buff::InnerQuiet) {
            Some(i) => {
                let b = self.buffs[i];
                let st: u32 = if b.stacks as u64 + stacks as u64 >= 10 {
                    10
                } else {
                    b.stacks + stacks
                };
                let nb = EffectiveBuff { stacks: st, ..b };
                proof {
                    lemma_update_wf(self.buffs@, i as int, nb);
                    lemma_kind_index(self.buffs@.update(i as int, nb), Buff::InnerQuiet, i as int);
                }
                self.buffs.set(i, nb);
            },
            None => {
                let st: u32 = if stacks >= 10 {
                    10
                } else {
                    stacks
                };
                let nb = EffectiveBuff {
                    duration: i32::MAX,
                    stacks: st,
                    buff: Buff::InnerQuiet,
                    applied_step: self.steps.len() as u32,
                };
                proof {
                    lemma_push_wf(self.buffs@, nb);
                }
                self.buffs.push(nb);
            },
        }
    }

    /// Restores `amt` durability, up to the recipe's.
    pub fn repair(&mut self, amt: u32)
        requires
            old(self).recipe.durability <= i32::MAX,
            old(self).durability <= old(self).recipe.durability,
        ensures
            final(self)@ == repair(old(self)@, amt),
    {
        let d: i64 = self.durability as i64 + amt as i64;
        if d > self.recipe.durability as i64 {
            self.durability = self.recipe.durability as i32;
        } else {
            self.durability = d as i32;
        }
    }

    fn restore_cp(&mut self, amt: u32)
        ensures
            final(self)@ == restore_cp(old(self)@, amt),
    {
        let c: u64 = self.available_cp as u64 + amt as u64;
        if c > self.max_cp as u64 {
            self.available_cp = self.max_cp;
        } else {
            self.available_cp = c as u32;
        }
    }
}

} // verus!

verus! {

use CraftingActionEnum as CA;

pub proof fn lemma_mul_le(a: int, b: int, x: int, y: int)
    requires
        0 <= a <= x,
        0 <= b <= y,
    ensures
        a * b <= x * y,
{
    assert(a * b <= x * y) by (nonlinear_arith)
        requires
            0 <= a <= x,
            0 <= b <= y,
    ;
}

/// The bound below which every base value stays: 2^70.
pub const BASE_BOUND: u128 = 1180591620717411303424;

fn capped_add(a: u32, g: u128) -> (r: u32)
    ensures
        r == crate::model::capped_add(a, g as nat),
{
    if g > (u32::MAX - a) as u128 {
        u32::MAX
    } else {
        a + g as u32
    }
}

/// The base value of numerator `num` over `d` in single precision; see `single_base`.
fn scaled_base(num: u128, d: u32, modifier: Option<u32>, applies: bool) -> (r: u128)
    requires
        d > 0,
        2 * d <= num,
        num < 549755813888,
    ensures
        r == crate::model::single_base(num as nat, d as nat, modifier, applies),
        r <= BASE_BOUND,
{
    let (m1, p1) = round_single(num, d as u128);
    let ghost dn = d as nat;
    assert(p1 <= dn * p1) by (nonlinear_arith)
        requires
            dn >= 1,
            p1 >= 1,
    ;
    assert(p1 < 72057594037927936) by (nonlinear_arith)
        requires
            8388608 * (dn * p1) <= num * 1099511627776,
            num < 549755813888,
            p1 <= dn * p1,
    ;
    assert(p1 > 131072) by (nonlinear_arith)
        requires
            num * 1099511627776 < 16777216 * (dn * p1),
            2 * dn <= num,
            dn >= 1,
    ;
    assert(m1 * p1 < 1208925819614629174706176) by (nonlinear_arith)
        requires
            m1 <= 16777216,
            p1 < 72057594037927936,
    ;
    assert(m1 * p1 >= 838860800) by (nonlinear_arith)
        requires
            m1 >= 8388608,
            p1 > 131072,
    ;
    let b = m1 * p1;
    if applies {
        let m: u128 = match modifier {
            Some(m) => m as u128,
            None => 100,
        };
        let den2: u128 = 100 * 1099511627776;
        let (m2, p2) = round_single(b, den2);
        assert(p2 < 2251799813685248) by (nonlinear_arith)
            requires
                8388608 * (den2 * p2) <= b * 1099511627776,
                b < 1208925819614629174706176,
                den2 == 109951162777600,
        ;
        assert(m2 * p2 < 37778931862957161709568) by (nonlinear_arith)
            requires
                m2 <= 16777216,
                p2 < 2251799813685248,
        ;
        assert(m2 * p2 * m < 162259276829213363391578010288128) by (nonlinear_arith)
            requires
                m2 <= 16777216,
                p2 < 2251799813685248,
                m < 0x1_0000_0000,
        ;
        let r = m2 * p2 * m / 1099511627776;
        assert(r <= BASE_BOUND);
        r
    } else {
        b / 1099511627776
    }
}

impl Simulation {
    fn combo_scan(&self, target: CraftingActionEnum, need_combo: bool) -> (r: bool)
        ensures
            r == crate::model::combo_available(self.steps@, target, need_combo),
    {
        let mut i = self.steps.len();
        assert(self.steps@.subrange(0, i as int) =~= self.steps@);
        while i > 0
            invariant
                i <= self.steps.len(),
                crate::model::combo_available(self.steps@, target, need_combo)
                    == crate::model::combo_available(
                    self.steps@.subrange(0, i as int),
                    target,
                    need_combo,
                ),
            decreases i,
        {
            let step = self.steps[i - 1];
            proof {
                let pre = self.steps@.subrange(0, i as int);
                assert(pre.last() == step);
                assert(pre.drop_last() =~= self.steps@.subrange(0, i - 1));
            }
            let succeeded = match step.success {
                Some(b) => b,
                None => false,
            };
            let comboed = match step.combo {
                Some(b) => b,
                None => false,
            };
            if step.action == target && succeeded && (!need_combo || comboed) {
                return true;
            }
            if !step.skipped {
                return false;
            }
            i -= 1;
        }
        false
    }

    /// Whether `action` succeeded on the latest step that was not skipped.
    pub fn has_combo_available(&self, action: CraftingActionEnum) -> (r: bool)
        ensures
            r == crate::model::combo_available(self.steps@, action, false),
    {
        self.combo_scan(action, false)
    }

    /// Whether `a` combines with the steps before it.
    pub fn has_combo(&self, a: CraftingActionEnum) -> (r: bool)
        ensures
            r == crate::model::has_combo(self.steps@, a),
    {
        match a {
            CA::StandardTouch => self.combo_scan(CA::BasicTouch, false),
            CA::AdvancedTouch => self.combo_scan(CA::StandardTouch, true),
            CA::FocusedSynthesis | CA::FocusedTouch => self.combo_scan(CA::Observe, false),
            _ => false,
        }
    }

    /// The CP `a` costs before the condition applies.
    pub fn base_cp_cost(&self, a: CraftingActionEnum) -> (r: u32)
        ensures
            r == crate::model::base_cp_cost(self@, a),
    {
        let combo = self.has_combo(a);
        a.base_cp_cost_with(combo)
    }

    /// The CP `a` costs now.
    pub fn cp_cost(&self, a: CraftingActionEnum) -> (r: u32)
        ensures
            r == crate::model::cp_cost(self@, a),
            r <= crate::model::base_cp_cost(self@, a),
    {
        let b = self.base_cp_cost(a);
        if self.state == StepState::Pliant {
            (b as u64 + 1) as u32 / 2
        } else {
            b
        }
    }

    /// The durability `a` costs now.
    pub fn durability_cost(&self, a: CraftingActionEnum) -> (r: u32)
        requires
            buffs_wf(self.buffs@),
        ensures
            r == crate::model::durability_cost(self@, a),
            r <= 20,
    {
        let b = a.base_durability_cost();
        let w: u32 = if self.has_buff(Buff::WasteNot) || self.has_buff(Buff::WasteNotII) {
            2
        } else {
            1
        };
        let div: u32 = w * if self.state == StepState::Sturdy {
            2
        } else {
            1
        };
        assert((b + div - 1) as int / div as int <= b as int) by (nonlinear_arith)
            requires
                1 <= div,
        ;
        (b + div - 1) / div
    }

    /// The chance, in percent, that `a` succeeds now.
    pub fn success_rate(&self, a: CraftingActionEnum) -> (r: u32)
        ensures
            r == crate::model::success_rate(self@, a),
            r <= 100,
    {
        let combo = self.has_combo(a);
        let r = a.base_success_rate(combo) + if self.state == StepState::Centered {
            25
        } else {
            0
        };
        if r > 100 {
            100
        } else {
            r
        }
    }

    fn inner_quiet(&self) -> (r: u32)
        requires
            buffs_wf(self.buffs@),
        ensures
            r == stacks_of(self.buffs@, Buff::InnerQuiet),
            r <= 10,
    {
        match self.find_buff(Buff::InnerQuiet) {
            Some(i) => self.buffs[i].stacks,
            None => 0,
        }
    }

    fn modifier_applies(&self) -> (r: bool)
        ensures
            r == crate::model::modifier_applies(self@),
    {
        crate::tables::level_to_ilevel(self.crafter_stats.level) <= self.recipe.rlvl
    }

    /// The progress of a potency of 100 before buffs and the condition.
    pub fn base_progression(&self) -> (r: u128)
        requires
            self.recipe.progress_divider > 0,
        ensures
            r == crate::model::base_progression(self@),
            r <= BASE_BOUND,
    {
        let d = self.recipe.progress_divider;
        let num: u128 = self.crafter_stats.craftsmanship as u128 * 10 + 2 * d as u128;
        scaled_base(num, d, self.recipe.progress_modifier, self.modifier_applies())
    }

    /// The quality of a potency of 100 before buffs and the condition.
    pub fn base_quality(&self) -> (r: u128)
        requires
            self.recipe.quality_divider > 0,
        ensures
            r == crate::model::base_quality(self@),
            r <= BASE_BOUND,
    {
        let d = self.recipe.quality_divider;
        let num: u128 = self.crafter_stats.control as u128 * 10 + 35 * d as u128;
        scaled_base(num, d, self.recipe.quality_modifier, self.modifier_applies())
    }

    fn quality_gain(&self, potency: u32) -> (r: u128)
        requires
            self@.wf_core(),
            potency <= 1000,
        ensures
            r == crate::model::quality_gain(self@, potency as nat),
    {
        let base = self.base_quality();
        let cond: u128 = match self.state {
            StepState::Excellent => 16,
            StepState::Poor => 2,
            StepState::Good => if self.crafter_stats.splendorous {
                7
            } else {
                6
            },
            _ => 4,
        };
        let iq = self.inner_quiet() as u128;
        let gs: u128 = if self.has_buff(Buff::GreatStrides) {
            2
        } else {
            0
        };
        let inn: u128 = if self.has_buff(Buff::Innovation) {
            1
        } else {
            0
        };
        let mult: u128 = 2 + gs + inn;
        proof {
            lemma_mul_le(base as int, cond as int, BASE_BOUND as int, 16);
            lemma_mul_le((base * cond) as int, potency as int, BASE_BOUND * 16, 1000);
            lemma_mul_le(
                (base * cond * potency as u128) as int,
                (10 + iq) as int,
                BASE_BOUND * 16 * 1000,
                20,
            );
            lemma_mul_le(
                (base * cond * potency as u128 * (10 + iq)) as int,
                mult as int,
                BASE_BOUND * 16 * 1000 * 20,
                5,
            );
        }
        base * cond * (potency as u128) * (10 + iq) * mult / 8000
    }

    fn progress_gain(&self, potency: u32) -> (r: u128)
        requires
            self@.wf_core(),
            potency <= 1000,
        ensures
            r == crate::model::progress_gain(self@, potency as nat),
    {
        let base = self.base_progression();
        let cond: u128 = if self.state == StepState::Malleable {
            3
        } else {
            2
        };
        let mm: u128 = if self.has_buff(Buff::MuscleMemory) {
            2
        } else {
            0
        };
        let ven: u128 = if self.has_buff(Buff::Veneration) {
            1
        } else {
            0
        };
        let mult: u128 = 2 + mm + ven;
        proof {
            lemma_mul_le(base as int, cond as int, BASE_BOUND as int, 3);
            lemma_mul_le((base * cond) as int, potency as int, BASE_BOUND * 3, 1000);
            lemma_mul_le(
                (base * cond * potency as u128) as int,
                mult as int,
                BASE_BOUND * 3 * 1000,
                5,
            );
        }
        base * cond * (potency as u128) * mult / 400
    }

    fn quality_effect(&mut self, potency: u32, stacks: u32)
        requires
            old(self)@.wf_core(),
            potency <= 1000,
        ensures
            final(self)@ == crate::model::quality_effect(old(self)@, potency as nat, stacks),
            final(self)@.wf_core(),
    {
        let g = self.quality_gain(potency);
        self.quality = capped_add(self.quality, g);
        self.remove_buff(Buff::GreatStrides);
        if stacks > 0 {
            self.add_inner_quiet_stacks(stacks);
        }
    }

    fn progress_effect(&mut self, potency: u32)
        requires
            old(self)@.wf_core(),
            potency <= 1000,
        ensures
            final(self)@ == crate::model::progress_effect(old(self)@, potency as nat),
            final(self)@.wf_core(),
    {
        let g = self.progress_gain(potency);
        let p = capped_add(self.progression, g);
        self.remove_buff(Buff::MuscleMemory);
        if self.has_buff(Buff::FinalAppraisal) && p >= self.recipe.progress && self.recipe.progress
            > 0 {
            self.progression = self.recipe.progress - 1;
            self.remove_buff(Buff::FinalAppraisal);
        } else {
            self.progression = p;
        }
    }

    fn apply_buff(&mut self, k: Buff, duration: i32)
        requires
            old(self)@.wf_core(),
            duration > 0,
        ensures
            final(self)@ == crate::model::apply_buff(old(self)@, k, duration),
            final(self)@.wf_core(),
    {
        let d: i32 = if self.state == StepState::Primed {
            if duration <= i32::MAX - 2 {
                duration + 2
            } else {
                i32::MAX
            }
        } else {
            duration
        };
        match crate::actions::overrides(k) {
            Some(o) => self.remove_buff(o),
            None => {},
        }
        let b = EffectiveBuff {
            duration: d,
            stacks: 0,
            buff: k,
            applied_step: self.steps.len() as u32,
        };
        self.add_buff(b);
    }

    /// What `a` does when it succeeds.
    fn execute(&mut self, a: CraftingActionEnum)
        requires
            old(self)@.wf_core(),
        ensures
            final(self)@ == crate::model::execute(old(self)@, a),
            final(self)@.wf_core(),
    {
        let level = self.crafter_stats.level.value();
        match a {
            CA::MuscleMemory => {
                let p = a.progress_potency(level, false);
                self.progress_effect(p);
                self.apply_buff(Buff::MuscleMemory, 5);
            },
            CA::DelicateSynthesis => {
                let p = a.progress_potency(level, false);
                self.progress_effect(p);
                let q = a.quality_potency(self.inner_quiet());
                self.quality_effect(q, 1);
            },
            CA::BasicSynthesis | CA::RapidSynthesis | CA::CarefulSynthesis
            | CA::FocusedSynthesis | CA::Groundwork | CA::IntensiveSynthesis
            | CA::PrudentSynthesis => {
                let worn = (self.durability as i64) < (self.durability_cost(a) as i64);
                let p = a.progress_potency(level, worn);
                self.progress_effect(p);
            },
            CA::ByregotsBlessing => {
                let q = a.quality_potency(self.inner_quiet());
                self.quality_effect(q, 0);
                self.remove_buff(Buff::InnerQuiet);
            },
            CA::BasicTouch | CA::HastyTouch | CA::StandardTouch | CA::PreciseTouch
            | CA::PrudentTouch | CA::FocusedTouch | CA::Reflect | CA::PreparatoryTouch
            | CA::AdvancedTouch | CA::TrainedFinesse => {
                let q = a.quality_potency(self.inner_quiet());
                let n = a.inner_quiet_gain();
                self.quality_effect(q, n);
            },
            CA::WasteNot | CA::WasteNotII | CA::Veneration | CA::Innovation | CA::GreatStrides
            | CA::Manipulation | CA::FinalAppraisal | CA::HeartAndSoul => {
                match a.applied_buff() {
                    Some((k, d)) => self.apply_buff(k, d),
                    None => {},
                }
            },
            CA::MastersMend => self.repair(30),
            CA::TricksOfTheTrade => self.restore_cp(20),
            CA::RemoveFinalAppraisal => self.remove_buff(Buff::FinalAppraisal),
            CA::Observe | CA::CarefulObservation => {},
        }
    }
}

} // verus!

verus! {

use crate::model::{
    keep_active, next_state, pick_condition, run_action_spec, state_at, tick_through,
    weight_sum,
};

/// What an action's effect leaves alone, and in which direction it moves the rest.
pub proof fn lemma_execute_frame(s: SimState, a: CraftingActionEnum)
    requires
        s.wf_core(),
    ensures
        ({
            let r = crate::model::execute(s, a);
            &&& r.recipe == s.recipe && r.stats == s.stats && r.actions == s.actions
            &&& r.step_states == s.step_states && r.fails == s.fails
            &&& r.possible_conditions == s.possible_conditions
            &&& r.steps == s.steps && r.state == s.state && r.success == s.success
            &&& r.max_cp == s.max_cp && r.safe == s.safe
            &&& r.starting_quality == s.starting_quality
            &&& r.durability >= s.durability
            &&& r.available_cp >= s.available_cp
            &&& r.quality >= s.quality
            &&& (s.progression < s.recipe.progress || s.recipe.progress == 0) ==> r.progression
                >= s.progression
        }),
{
}

/// The buffs kept after a tick are active and one per kind, and were there before.
pub proof fn lemma_keep_active(bs: Seq<EffectiveBuff>)
    requires
        buffs_ok(bs),
    ensures
        buffs_wf(keep_active(bs)),
        forall|k: Buff| has_kind(keep_active(bs), k) ==> has_kind(bs, k),
    decreases bs.len(),
{
    if bs.len() > 0 {
        let init = bs.drop_last();
        assert forall|i: int| 0 <= i < init.len() implies #[trigger] init[i] == bs[i] by {}
        assert(buffs_ok(init));
        lemma_keep_active(init);
        let r = keep_active(init);
        if bs.last().duration > 0 {
            let l = bs.last();
            if has_kind(init, l.buff) {
                let j = choose|j: int| 0 <= j < init.len() && #[trigger] init[j].buff == l.buff;
                assert(bs[j].buff == bs[bs.len() - 1].buff);
            }
            assert(!has_kind(r, l.buff));
            lemma_push_wf(r, l);
            assert forall|k: Buff| has_kind(r.push(l), k) implies has_kind(bs, k) by {
                if k != l.buff {
                    assert(has_kind(r, k));
                    assert(has_kind(init, k));
                    let j = choose|j: int| 0 <= j < init.len() && #[trigger] init[j].buff == k;
                    assert(init[j] == bs[j]);
                    assert(bs[j].buff == k);
                } else {
                    assert(bs[bs.len() - 1].buff == k);
                }
            }
        } else {
            assert forall|k: Buff| has_kind(r, k) implies has_kind(bs, k) by {
                assert(has_kind(init, k));
                let j = choose|j: int| 0 <= j < init.len() && #[trigger] init[j].buff == k;
                assert(init[j] == bs[j]);
                assert(bs[j].buff == k);
            }
        }
    }
}

pub(crate) fn state_at_ordinal(k: usize) -> (r: StepState)
    ensures
        r == state_at(k as int),
{
    if k == 1 {
        StepState::Normal
    } else if k == 2 {
        StepState::Good
    } else if k == 3 {
        StepState::Excellent
    } else if k == 4 {
        StepState::Poor
    } else if k == 5 {
        StepState::Centered
    } else if k == 6 {
        StepState::Sturdy
    } else if k == 7 {
        StepState::Pliant
    } else if k == 8 {
        StepState::Malleable
    } else if k == 9 {
        StepState::Primed
    } else if k == 10 {
        StepState::GoodOmen
    } else {
        StepState::Unset
    }
}

impl Simulation {
    fn used_before(&self, a: CraftingActionEnum) -> (r: bool)
        ensures
            r == crate::model::used_before(self.steps@, a),
    {
        let mut i: usize = 0;
        while i < self.steps.len()
            invariant
                i <= self.steps.len(),
                forall|j: int| 0 <= j < i ==> #[trigger] self.steps@[j].action != a,
            decreases self.steps.len() - i,
        {
            if self.steps[i].action == a {
                return true;
            }
            i += 1;
        }
        false
    }

    /// Whether `a` may be used now, by level and by what it asks of the state.
    pub fn can_be_used(&self, a: CraftingActionEnum, linear: bool) -> (r: bool)
        requires
            kinds_unique(self.buffs@),
        ensures
            r == crate::model::usable(self@, a, linear),
    {
        let (_, lvl) = a.level_requirement();
        if self.crafter_stats.level.value() < lvl {
            return false;
        }
        match a {
            CA::MuscleMemory | CA::Reflect => self.steps.len() == 0,
            CA::ByregotsBlessing => self.inner_quiet_loose() > 0,
            CA::TrainedFinesse => self.inner_quiet_loose() == 10,
            CA::PrudentTouch => PrudentTouch.can_be_used(
                self.has_buff(Buff::WasteNot),
                self.has_buff(Buff::WasteNotII),
            ),
            CA::PrudentSynthesis => !self.has_buff(Buff::WasteNot) && !self.has_buff(
                Buff::WasteNotII,
            ),
            CA::TricksOfTheTrade | CA::PreciseTouch | CA::IntensiveSynthesis => linear
                || self.state == StepState::Good || self.state == StepState::Excellent
                || self.has_buff(Buff::HeartAndSoul),
            CA::HeartAndSoul => self.crafter_stats.specialist && !self.used_before(
                CA::HeartAndSoul,
            ),
            CA::CarefulObservation => self.crafter_stats.specialist,
            CA::RemoveFinalAppraisal => self.has_buff(Buff::FinalAppraisal),
            _ => true,
        }
    }

    fn inner_quiet_loose(&self) -> (r: u32)
        requires
            kinds_unique(self.buffs@),
        ensures
            r == stacks_of(self.buffs@, Buff::InnerQuiet),
    {
        match self.find_buff(Buff::InnerQuiet) {
            Some(i) => self.buffs[i].stacks,
            None => 0,
        }
    }

    /// Why `a` cannot be used now.
    pub fn fail_cause(&self, a: CraftingActionEnum) -> (r: FailCause)
        requires
            kinds_unique(self.buffs@),
        ensures
            r == crate::model::unusable_cause(self@, a),
    {
        let (_, lvl) = a.level_requirement();
        if self.crafter_stats.level.value() < lvl {
            FailCause::MissingLevelRequirement
        } else if (a == CA::HeartAndSoul || a == CA::CarefulObservation)
            && !self.crafter_stats.specialist {
            FailCause::NotSpecialist
        } else if (a == CA::ByregotsBlessing || a == CA::TrainedFinesse)
            && self.inner_quiet_loose() == 0 {
            FailCause::NoInnerQuiet
        } else {
            FailCause::Unavailable
        }
    }

    fn forced_failure(&self, index: usize) -> (r: bool)
        ensures
            r == self.fails@.contains(index),
    {
        let mut i: usize = 0;
        while i < self.fails.len()
            invariant
                i <= self.fails.len(),
                forall|j: int| 0 <= j < i ==> #[trigger] self.fails@[j] != index,
            decreases self.fails.len() - i,
        {
            if self.fails[i] == index {
                return true;
            }
            i += 1;
        }
        false
    }

    /// The attempt: the effect of `a` on success, nothing on failure; whether it succeeded.
    fn attempt(&mut self, a: CraftingActionEnum, roll: u32, safe: bool) -> (r: bool)
        requires
            old(self)@.wf(),
            old(self).success.is_none(),
        ensures
            final(self)@ == crate::model::attempt(old(self)@, a, roll, safe),
            r == (!crate::model::is_unsafe(old(self)@, a, safe) && crate::model::success_rate(
                old(self)@,
                a,
            ) >= roll),
            final(self)@.wf_core(),
            final(self).steps@ == old(self).steps@,
            final(self).state == old(self).state,
            final(self).success.is_none(),
            final(self).durability >= old(self).durability,
            final(self).available_cp >= old(self).available_cp,
            final(self).quality >= old(self).quality,
            final(self).progression >= old(self).progression,
            final(self).possible_conditions@ == old(self).possible_conditions@,
    {
        proof {
            lemma_execute_frame(self@, a);
        }
        let rate = self.success_rate(a);
        let unsafe_action = safe && (rate < 100 || (a.requires_good() && !self.has_buff(
            Buff::HeartAndSoul,
        )));
        if unsafe_action {
            self.safe = false;
            false
        } else if rate >= roll {
            self.execute(a);
            true
        } else {
            false
        }
    }

    /// Durability and CP are paid, whatever the outcome.
    fn pay(&mut self, a: CraftingActionEnum)
        requires
            old(self)@.wf_core(),
            old(self).durability >= 0,
            crate::model::cp_cost(old(self)@, a) <= old(self).available_cp,
        ensures
            final(self)@ == crate::model::pay(old(self)@, a),
            final(self)@.wf_core(),
            old(self).durability - 20 <= final(self).durability <= old(self).durability,
    {
        let dc = self.durability_cost(a);
        let cc = self.cp_cost(a);
        self.durability = self.durability - dc as i32;
        self.available_cp = self.available_cp - cc;
    }

    /// Runs action `a` as step `index`, judged by `roll` where the roll is random.
    /// The craft must be undecided: once it is decided, the step loop records later steps
    /// as skipped, with nothing paid, and never runs their action.
    #[verifier::rlimit(100)]
    pub fn run_action_rolled(
        &mut self,
        a: CraftingActionEnum,
        index: usize,
        linear: bool,
        safe: bool,
        roll: u32,
    ) -> (r: ActionResult)
        requires
            old(self)@.wf(),
            old(self).success.is_none(),
            crate::model::cp_cost(old(self)@, a) <= old(self).available_cp,
        ensures
            (final(self)@, r) == run_action_spec(old(self)@, a, index as int, linear, safe, roll),
            final(self)@.wf(),
            final(self).steps@ == old(self).steps@,
            final(self).actions@ == old(self).actions@,
            final(self).possible_conditions@ == old(self).possible_conditions@,
    {
        let ghost s0 = self@;
        let forced = self.forced_failure(index);
        let roll_value: u32 = if forced {
            999
        } else if linear {
            0
        } else {
            roll
        };
        let quality_before = self.quality;
        let progression_before = self.progression;
        let durability_before = self.durability;
        let cp_before = self.available_cp;
        let combo = self.has_combo(a);
        let rate = self.success_rate(a);
        let unsafe_action = safe && (rate < 100 || (a.requires_good() && !self.has_buff(
            Buff::HeartAndSoul,
        )));
        assert(roll_value == crate::model::roll_for(s0, index as int, linear, roll));
        let success = self.attempt(a, roll_value, safe);
        let ghost s1 = self@;
        assert(crate::model::cp_cost(s1, a) == crate::model::cp_cost(s0, a));
        self.pay(a);
        let ghost s2 = self@;
        let mut fail_cause: Option<FailCause> = if unsafe_action {
            Some(FailCause::UnsafeAction)
        } else {
            None
        };
        if self.progression >= self.recipe.progress {
            self.success = Some(true);
        } else if self.durability <= 0 {
            fail_cause = Some(FailCause::DurabilityReachedZero);
            self.success = Some(false);
        }
        let after_cp: i64 = if self.available_cp as i64 > i32::MAX as i64 {
            i32::MAX as i64
        } else {
            self.available_cp as i64
        };
        let cp_d: i64 = after_cp - cp_before as i64;
        let cp_difference: i32 = if cp_d < i32::MIN as i64 {
            i32::MIN
        } else {
            cp_d as i32
        };
        let res = ActionResult {
            action: a,
            success: Some(success),
            fail_cause,
            added_progression: self.progression - progression_before,
            added_quality: self.quality - quality_before,
            cp_difference,
            solidity_difference: self.durability - durability_before,
            skipped: false,
            combo: Some(combo),
            state: self.state,
            after_buff_tick: None,
        };
        proof {
            reveal(run_action_spec);
            let sp = run_action_spec(s0, a, index as int, linear, safe, roll);
            assert(s2 == crate::model::pay(crate::model::attempt(s0, a, roll_value, safe), a));
            assert(self@ == crate::model::settle(s2));
            assert(sp.0 == self@);
            assert(sp.1 == res);
        }
        res
    }

    fn tick_hook(&mut self, k: Buff, a: CraftingActionEnum)
        requires
            kinds_unique(old(self).buffs@),
            old(self).recipe.durability <= i32::MAX,
            old(self).durability <= old(self).recipe.durability,
        ensures
            final(self)@ == crate::model::tick_hook(old(self)@, k, a),
            kinds_unique(final(self).buffs@),
            buffs_ok(old(self).buffs@) ==> buffs_ok(final(self).buffs@),
            old(self).durability <= final(self).durability <= final(self).recipe.durability,
    {
        match k {
            Buff::Manipulation => self.repair(5),
            Buff::HeartAndSoul => {
                if HeartAndSoul.consumes(self.state, a) {
                    self.remove_buff(Buff::HeartAndSoul);
                }
            },
            _ => {},
        }
    }

    fn decrement(&mut self, k: Buff)
        requires
            buffs_ok(old(self).buffs@),
        ensures
            final(self)@ == crate::model::decrement(old(self)@, k),
            buffs_ok(final(self).buffs@),
    {
        if let Some(i) = self.find_buff(k) {
            let b = self.buffs[i];
            let nb = EffectiveBuff {
                duration: if b.duration > 0 {
                    b.duration - 1
                } else {
                    b.duration
                },
                ..b
            };
            proof {
                lemma_update_wf(self.buffs@, i as int, nb);
            }
            self.buffs.set(i, nb);
        }
    }

    /// Ticks every buff applied before this step, then drops those that ran out.
    fn tick_buffs(&mut self, a: CraftingActionEnum)
        requires
            old(self)@.wf_core(),
        ensures
            final(self)@ == crate::model::tick_buffs(old(self)@, a),
            final(self)@.wf_core(),
            final(self).progression == old(self).progression,
            final(self).quality == old(self).quality,
            final(self).available_cp == old(self).available_cp,
            final(self).success == old(self).success,
            final(self).durability >= old(self).durability,
            final(self).steps@ == old(self).steps@,
            final(self).actions@ == old(self).actions@,
            final(self).state == old(self).state,
            final(self).recipe == old(self).recipe,
            final(self).possible_conditions@ == old(self).possible_conditions@,
    {
        let ghost s0 = self@;
        let n = self.buffs.len();
        let mut snap: Vec<EffectiveBuff> = Vec::new();
        let mut j: usize = 0;
        while j < n
            invariant
                j <= n,
                n == self.buffs.len(),
                snap@ =~= self.buffs@.subrange(0, j as int),
            decreases n - j,
        {
            snap.push(self.buffs[j]);
            j += 1;
        }
        assert(snap@ =~= s0.buffs);
        let mut i: usize = 0;
        while i < n
            invariant
                i <= n,
                n == snap.len(),
                snap@ == s0.buffs,
                s0.wf_core(),
                self@ == tick_through(s0, snap@, a, i as nat),
                buffs_ok(self.buffs@),
                self.recipe == s0.recipe,
                s0.durability <= self.durability <= self.recipe.durability,
                self.progression == s0.progression,
                self.quality == s0.quality,
                self.available_cp == s0.available_cp,
                self.max_cp == s0.max_cp,
                self.success == s0.success,
                self.steps@ == s0.steps,
                self.actions@ == s0.actions,
                self.state == s0.state,
                self.possible_conditions@ == s0.possible_conditions,
            decreases n - i,
        {
            let b = snap[i];
            if (b.applied_step as usize) < self.steps.len() && self.has_buff(b.buff) {
                self.tick_hook(b.buff, a);
                self.decrement(b.buff);
            }
            i += 1;
        }
        let ghost t = self@;
        proof {
            lemma_keep_active(t.buffs);
        }
        let mut kept: Vec<EffectiveBuff> = Vec::new();
        let mut m: usize = 0;
        while m < self.buffs.len()
            invariant
                m <= self.buffs.len(),
                self@ == t,
                kept@ == keep_active(self.buffs@.subrange(0, m as int)),
            decreases self.buffs.len() - m,
        {
            let b = self.buffs[m];
            proof {
                let pre = self.buffs@.subrange(0, m as int + 1);
                assert(pre.drop_last() =~= self.buffs@.subrange(0, m as int));
                assert(pre.last() == b);
            }
            if b.duration > 0 {
                kept.push(b);
            }
            m += 1;
        }
        assert(self.buffs@.subrange(0, self.buffs.len() as int) =~= self.buffs@);
        self.buffs = kept;
    }

    fn contains_condition(&self, c: StepState) -> (r: bool)
        ensures
            r == self.possible_conditions@.contains(c),
    {
        let mut i: usize = 0;
        while i < self.possible_conditions.len()
            invariant
                i <= self.possible_conditions.len(),
                forall|j: int| 0 <= j < i ==> #[trigger] self.possible_conditions@[j] != c,
            decreases self.possible_conditions.len() - i,
        {
            if self.possible_conditions[i] == c {
                return true;
            }
            i += 1;
        }
        false
    }

    fn condition_weight(&self, c: StepState) -> (r: i64)
        ensures
            r == crate::model::condition_weight(self@, c),
            0 <= r <= 25,
    {
        if !self.contains_condition(c) {
            return 0;
        }
        let expert = match self.recipe.expert {
            Some(b) => b,
            None => false,
        };
        match c {
            StepState::Good => if expert {
                12
            } else if self.crafter_stats.level.value() >= 63 {
                25
            } else {
                20
            },
            StepState::Excellent => if expert {
                0
            } else {
                4
            },
            StepState::Centered | StepState::Sturdy => 15,
            StepState::Pliant | StepState::Malleable | StepState::Primed => 12,
            StepState::GoodOmen => 10,
            _ => 0,
        }
    }

    /// Moves to the next step's condition for the uniform `draw` in [0, 100).
    pub fn tick_state_with(&mut self, draw: u32)
        ensures
            final(self)@ == (SimState { state: next_state(old(self)@, draw), ..old(self)@ }),
    {
        if self.state == StepState::Excellent {
            self.state = StepState::Poor;
            return;
        } else if self.state == StepState::GoodOmen {
            self.state = StepState::Good;
            return;
        }
        let ghost s0 = self@;
        let mut sum: i64 = 0;
        let mut k: usize = 2;
        while k <= 10
            invariant
                2 <= k <= 11,
                self@ == s0,
                sum == weight_sum(s0, k - 1),
                0 <= sum <= 25 * (k - 2),
            decreases 11 - k,
        {
            sum = sum + self.condition_weight(state_at_ordinal(k));
            k += 1;
        }
        let mut acc: i64 = 0;
        let mut k: usize = 1;
        while k <= 10
            invariant
                1 <= k <= 11,
                self@ == s0,
                s0 == old(self)@,
                s0.state != StepState::Excellent && s0.state != StepState::GoodOmen,
                sum == weight_sum(s0, 10),
                0 <= sum <= 225,
                -125 <= acc <= 100 + 25 * (k - 1),
                k == 1 ==> acc == 0,
                pick_condition(s0, draw as int, 1, 0) == pick_condition(
                    s0,
                    draw as int,
                    k as int,
                    acc as int,
                ),
            decreases 11 - k,
        {
            let w: i64 = if k == 1 {
                100 - sum
            } else {
                self.condition_weight(state_at_ordinal(k))
            };
            assert(w == crate::model::weight_at(s0, k as int));
            assert(pick_condition(s0, draw as int, k as int, acc as int) == if acc + w > draw {
                state_at(k as int)
            } else {
                pick_condition(s0, draw as int, k + 1, acc + w)
            });
            acc = acc + w;
            if acc > draw as i64 {
                let st = state_at_ordinal(k);
                assert(st == next_state(s0, draw));
                self.state = st;
                return;
            }
            k += 1;
        }
        self.state = StepState::Normal;
    }
}

} // verus!

verus! {

use crate::model::{run_through, step_spec};
use crate::structs::BuffTickResult;

/// The outcome of a run.
pub struct SimulationResult {
    pub steps: Vec<ActionResult>,
    pub hq_percent: u32,
    pub success: bool,
    pub simulation: Simulation,
    pub fail_cause: Option<FailCause>,
}

/// A sequence of `n` zeros.
pub open spec fn zeros(n: nat) -> Seq<u32> {
    Seq::new(n, |i: int| 0u32)
}

/// Later rolls and draws do not change the steps already run.
pub proof fn lemma_run_through_extend(
    s: SimState,
    n: nat,
    linear: bool,
    max_steps: usize,
    safe: bool,
    rolls: Seq<u32>,
    draws: Seq<u32>,
    x: u32,
    y: u32,
)
    requires
        n <= rolls.len(),
        n <= draws.len(),
    ensures
        run_through(s, n, linear, max_steps, safe, rolls, draws) == run_through(
            s,
            n,
            linear,
            max_steps,
            safe,
            rolls.push(x),
            draws.push(y),
        ),
    decreases n,
{
    if n > 0 {
        lemma_run_through_extend(s, (n - 1) as nat, linear, max_steps, safe, rolls, draws, x, y);
        assert(rolls.push(x)[n - 1] == rolls[n - 1]);
        assert(draws.push(y)[n - 1] == draws[n - 1]);
    }
}

/// A step is its stages in order.
pub proof fn lemma_step_spec_unfold(
    s: SimState,
    a: CraftingActionEnum,
    i: int,
    linear: bool,
    max_steps: usize,
    safe: bool,
    roll: u32,
    draw: u32,
    g0: SimState,
    g1: SimState,
    res: ActionResult,
    g2: SimState,
    res2: ActionResult,
    g3: SimState,
)
    requires
        g0 == crate::model::step_start(s, i),
        (g1, res) == crate::model::step_action(g0, a, i, linear, max_steps, safe, roll),
        (g2, res2) == crate::model::step_tick(g1, a, res, max_steps),
        g3 == crate::model::step_condition(g2, a, linear, draw),
    ensures
        step_spec(s, a, i, linear, max_steps, safe, roll, draw) == (SimState {
            steps: g3.steps.push(res2),
            ..g3
        }),
{
    reveal(step_spec);
}

/// The cause carried by the first step that has one.
fn first_fail_cause(steps: &Vec<ActionResult>) -> (r: Option<FailCause>)
    ensures
        r == crate::model::first_fail_from(steps@, 0),
{
    let mut j: usize = 0;
    while j < steps.len()
        invariant
            j <= steps.len(),
            crate::model::first_fail_from(steps@, 0) == crate::model::first_fail_from(
                steps@,
                j as int,
            ),
        decreases steps.len() - j,
    {
        if steps[j].fail_cause.is_some() {
            return steps[j].fail_cause;
        }
        j += 1;
    }
    None
}

impl Simulation {
    /// The condition this step is on.
    pub fn state(&self) -> (r: StepState)
        ensures
            r == self.state,
    {
        self.state
    }

    /// Forces the current condition.
    pub fn override_state(&mut self, new_state: StepState)
        ensures
            final(self)@ == (SimState { state: new_state, ..old(self)@ }),
    {
        self.state = new_state;
    }

    /// The conditions this recipe can be on.
    pub fn possible_conditions(&self) -> (r: &Vec<StepState>)
        ensures
            r@ == self.possible_conditions@,
    {
        &self.possible_conditions
    }

    /// Moves to the next step's condition: Poor after Excellent, Good after Good Omen, else
    /// a weighted random draw among the eligible conditions.
    pub fn tick_state(&mut self)
        ensures
            exists|d: u32|
                d < 100 && final(self)@ == (SimState {
                    state: #[trigger] next_state(old(self)@, d),
                    ..old(self)@
                }),
            old(self).state == StepState::Excellent ==> final(self).state == StepState::Poor,
            old(self).state == StepState::GoodOmen ==> final(self).state == StepState::Good,
    {
        let d = crate::random::random_percent();
        self.tick_state_with(d);
    }

    /// The chance of a high-quality result for the quality reached.
    pub fn get_hq_percent(&self) -> (r: u32)
        ensures
            r == crate::model::hq_percent(self@),
    {
        let p: u64 = if self.recipe.quality == 0 {
            if self.quality == 0 {
                0
            } else {
                100
            }
        } else {
            let q = self.quality as u64 * 100 / self.recipe.quality as u64;
            if q > 100 {
                100
            } else {
                q
            }
        };
        if p == 0 {
            1
        } else if p >= 100 {
            100
        } else {
            crate::tables::hq_chance(p as u32)
        }
    }

    /// The action of step `i`: run if it can be, else recorded as skipped with its cause.
    fn step_action(
        &mut self,
        a: CraftingActionEnum,
        i: usize,
        linear: bool,
        max_steps: usize,
        safe: bool,
        roll: u32,
    ) -> (r: ActionResult)
        requires
            old(self)@.wf(),
        ensures
            (final(self)@, r) == crate::model::step_action(
                old(self)@,
                a,
                i as int,
                linear,
                max_steps,
                safe,
                roll,
            ),
            final(self)@.wf(),
            final(self).steps@ == old(self).steps@,
            final(self).actions@ == old(self).actions@,
            final(self).possible_conditions@ == old(self).possible_conditions@,
    {
        let usable = self.can_be_used(a, linear);
        let base = self.base_cp_cost(a);
        let cp_ok = base <= self.available_cp;
        let fc: Option<FailCause> = if !cp_ok {
            Some(FailCause::NotEnoughCp)
        } else if !usable {
            Some(self.fail_cause(a))
        } else {
            None
        };
        let runs = self.success.is_none() && cp_ok && self.steps.len() < max_steps && usable;
        proof {
            assert(crate::model::cp_cost(self@, a) <= crate::model::base_cp_cost(self@, a));
        }
        if runs {
            self.run_action_rolled(a, i, linear, safe, roll)
        } else {
            ActionResult {
                action: a,
                success: None,
                fail_cause: fc,
                added_progression: 0,
                added_quality: 0,
                cp_difference: 0,
                solidity_difference: 0,
                skipped: true,
                combo: None,
                state: self.state,
                after_buff_tick: None,
            }
        }
    }

    /// The buff tick after the action of a step within the budget, recorded in its result.
    fn step_tick(&mut self, a: CraftingActionEnum, res: ActionResult, max_steps: usize) -> (r:
        ActionResult)
        requires
            old(self)@.wf(),
        ensures
            (final(self)@, r) == crate::model::step_tick(old(self)@, a, res, max_steps),
            final(self)@.wf(),
            final(self).steps@ == old(self).steps@,
            final(self).actions@ == old(self).actions@,
            final(self).possible_conditions@ == old(self).possible_conditions@,
    {
        let mut result = res;
        if self.steps.len() < max_steps {
            let q0 = self.quality;
            let p0 = self.progression;
            let d0 = self.durability;
            let c0 = self.available_cp;
            let succeeded = match result.success {
                Some(b) => b,
                None => false,
            };
            if self.success.is_none() && !a.skips_buff_ticks() && !(!succeeded
                && a.skip_on_fail()) {
                self.tick_buffs(a);
            }
            result.after_buff_tick = Some(
                BuffTickResult {
                    added_progression: self.progression - p0,
                    added_quality: self.quality - q0,
                    cp_difference: (self.available_cp - c0) as i32,
                    solidity_difference: self.durability - d0,
                },
            );
        }
        result
    }

    /// Runs step `i` with action `a`, success roll `roll` and condition draw `draw`.
    #[verifier::rlimit(100)]
    fn run_step(
        &mut self,
        a: CraftingActionEnum,
        i: usize,
        linear: bool,
        max_steps: usize,
        safe: bool,
        roll: u32,
        draw: u32,
    )
        requires
            old(self)@.wf(),
            old(self).steps.len() + 1 < u32::MAX,
        ensures
            final(self)@ == step_spec(old(self)@, a, i as int, linear, max_steps, safe, roll, draw),
            final(self)@.wf(),
            final(self).steps.len() == old(self).steps.len() + 1,
            final(self).actions@ == old(self).actions@,
            final(self).possible_conditions@ == old(self).possible_conditions@,
    {
        let st = if i < self.step_states.len() {
            self.step_states[i]
        } else {
            self.state
        };
        self.state = if st == StepState::Unset {
            StepState::Normal
        } else {
            st
        };
        let ghost g0 = self@;
        let res = self.step_action(a, i, linear, max_steps, safe, roll);
        let ghost g1 = self@;
        let res2 = self.step_tick(a, res, max_steps);
        let ghost g2 = self@;
        if !linear && a != CraftingActionEnum::FinalAppraisal && a
            != CraftingActionEnum::RemoveFinalAppraisal {
            self.tick_state_with(draw);
        }
        let ghost g3 = self@;
        self.steps.push(res2);
        proof {
            assert(g0 == crate::model::step_start(old(self)@, i as int));
            assert(g3 == crate::model::step_condition(g2, a, linear, draw));
            lemma_step_spec_unfold(
                old(self)@,
                a,
                i as int,
                linear,
                max_steps,
                safe,
                roll,
                draw,
                g0,
                g1,
                res,
                g2,
                res2,
                g3,
            );
        }
    }

    /// Runs the actions in order, at most `max_steps` of them; in linear mode every roll
    /// succeeds but forced failures, and the condition stays as the overrides set it; in safe
    /// mode risky actions are refused.
    pub fn run_with_flags(self, linear: bool, max_steps: usize, safe: bool) -> (r: SimulationResult)
        requires
            self@.wf(),
            self.steps.len() + self.actions.len() + 1 < u32::MAX,
        ensures
            exists|rolls: Seq<u32>, draws: Seq<u32>|
                rolls.len() == self.actions.len() && draws.len() == self.actions.len() && (forall|
                    k: int,
                | 0 <= k < rolls.len() ==> #[trigger] rolls[k] < 100 && draws[k] < 100)
                    && r.simulation@ == run_through(
                    self@,
                    self.actions.len() as nat,
                    linear,
                    max_steps,
                    safe,
                    rolls,
                    draws,
                ),
            linear ==> r.simulation@ == run_through(
                self@,
                self.actions.len() as nat,
                linear,
                max_steps,
                safe,
                zeros(self.actions.len() as nat),
                zeros(self.actions.len() as nat),
            ),
            r.simulation@.wf(),
            r.simulation.steps.len() == self.steps.len() + self.actions.len(),
            r.simulation.possible_conditions@ == self.possible_conditions@,
            r.steps@ == r.simulation.steps@,
            r.success == crate::model::run_succeeded(r.simulation@),
            r.fail_cause == crate::model::run_fail_cause(r.simulation@),
            r.hq_percent == crate::model::hq_percent(r.simulation@),
    {
        let ghost s_init = self@;
        let mut sim = self;
        let n = sim.actions.len();
        let ghost mut rolls: Seq<u32> = Seq::empty();
        let ghost mut draws: Seq<u32> = Seq::empty();
        let mut i: usize = 0;
        while i < n
            invariant
                i <= n,
                n == s_init.actions.len(),
                sim.actions@ == s_init.actions,
                sim.possible_conditions@ == s_init.possible_conditions,
                sim@.wf(),
                sim.steps.len() == s_init.steps.len() + i,
                s_init.steps.len() + n + 1 < u32::MAX,
                rolls.len() == i && draws.len() == i,
                forall|k: int| 0 <= k < rolls.len() ==> #[trigger] rolls[k] < 100 && draws[k] < 100,
                linear ==> rolls == zeros(i as nat) && draws == zeros(i as nat),
                sim@ == run_through(s_init, i as nat, linear, max_steps, safe, rolls, draws),
            decreases n - i,
        {
            let a = sim.actions[i];
            let roll: u32 = if linear {
                0
            } else {
                crate::random::random_percent()
            };
            let draw: u32 = if linear || a == CraftingActionEnum::FinalAppraisal || a
                == CraftingActionEnum::RemoveFinalAppraisal {
                0
            } else {
                crate::random::random_percent()
            };
            proof {
                lemma_run_through_extend(
                    s_init,
                    i as nat,
                    linear,
                    max_steps,
                    safe,
                    rolls,
                    draws,
                    roll,
                    draw,
                );
            }
            sim.run_step(a, i, linear, max_steps, safe, roll, draw);
            proof {
                let old_rolls = rolls;
                let old_draws = draws;
                rolls = rolls.push(roll);
                draws = draws.push(draw);
                assert forall|k: int| 0 <= k < rolls.len() implies #[trigger] rolls[k] < 100
                    && draws[k] < 100 by {
                    if k < i {
                        assert(rolls[k] == old_rolls[k]);
                        assert(draws[k] == old_draws[k]);
                    }
                }
                if linear {
                    assert(rolls =~= zeros((i + 1) as nat));
                    assert(draws =~= zeros((i + 1) as nat));
                }
            }
            i += 1;
        }
        let mut fail_cause: Option<FailCause> = match sim.recipe.required_quality {
            Some(q) => if sim.quality <= q {
                Some(FailCause::QualityTooLow)
            } else {
                None
            },
            None => None,
        };
        if fail_cause.is_none() {
            fail_cause = first_fail_cause(&sim.steps);
        }
        let success = sim.progression >= sim.recipe.progress && match sim.recipe.required_quality {
            Some(q) => sim.quality > q,
            None => true,
        };
        let hq = sim.get_hq_percent();
        let mut steps: Vec<ActionResult> = Vec::new();
        let mut j: usize = 0;
        while j < sim.steps.len()
            invariant
                j <= sim.steps.len(),
                steps@ =~= sim.steps@.subrange(0, j as int),
            decreases sim.steps.len() - j,
        {
            steps.push(sim.steps[j]);
            j += 1;
        }
        assert(steps@ =~= sim.steps@);
        SimulationResult { steps, hq_percent: hq, success, simulation: sim, fail_cause }
    }
}

} // verus!

verus! {

impl Simulation {
    /// Runs every action with random rolls and conditions.
    pub fn run(self) -> (r: SimulationResult)
        requires
            self@.wf(),
            self.steps.len() + self.actions.len() + 1 < u32::MAX,
        ensures
            exists|rolls: Seq<u32>, draws: Seq<u32>|
                rolls.len() == self.actions.len() && draws.len() == self.actions.len() && (forall|
                    k: int,
                | 0 <= k < rolls.len() ==> #[trigger] rolls[k] < 100 && draws[k] < 100)
                    && r.simulation@ == run_through(
                    self@,
                    self.actions.len() as nat,
                    false,
                    usize::MAX,
                    false,
                    rolls,
                    draws,
                ),
            r.steps@ == r.simulation.steps@,
            r.success == crate::model::run_succeeded(r.simulation@),
            r.fail_cause == crate::model::run_fail_cause(r.simulation@),
            r.hq_percent == crate::model::hq_percent(r.simulation@),
    {
        self.run_linear(false)
    }

    /// Runs every action; in linear mode every roll succeeds but forced failures.
    pub fn run_linear(self, linear: bool) -> (r: SimulationResult)
        requires
            self@.wf(),
            self.steps.len() + self.actions.len() + 1 < u32::MAX,
        ensures
            exists|rolls: Seq<u32>, draws: Seq<u32>|
                rolls.len() == self.actions.len() && draws.len() == self.actions.len() && (forall|
                    k: int,
                | 0 <= k < rolls.len() ==> #[trigger] rolls[k] < 100 && draws[k] < 100)
                    && r.simulation@ == run_through(
                    self@,
                    self.actions.len() as nat,
                    linear,
                    usize::MAX,
                    false,
                    rolls,
                    draws,
                ),
            linear ==> r.simulation@ == run_through(
                self@,
                self.actions.len() as nat,
                linear,
                usize::MAX,
                false,
                zeros(self.actions.len() as nat),
                zeros(self.actions.len() as nat),
            ),
            r.steps@ == r.simulation.steps@,
            r.success == crate::model::run_succeeded(r.simulation@),
            r.fail_cause == crate::model::run_fail_cause(r.simulation@),
            r.hq_percent == crate::model::hq_percent(r.simulation@),
    {
        self.run_max_steps(linear, usize::MAX)
    }

    /// Runs at most `max_steps` steps; the remaining actions are recorded as skipped.
    pub fn run_max_steps(self, linear: bool, max_steps: usize) -> (r: SimulationResult)
        requires
            self@.wf(),
            self.steps.len() + self.actions.len() + 1 < u32::MAX,
        ensures
            exists|rolls: Seq<u32>, draws: Seq<u32>|
                rolls.len() == self.actions.len() && draws.len() == self.actions.len() && (forall|
                    k: int,
                | 0 <= k < rolls.len() ==> #[trigger] rolls[k] < 100 && draws[k] < 100)
                    && r.simulation@ == run_through(
                    self@,
                    self.actions.len() as nat,
                    linear,
                    max_steps,
                    false,
                    rolls,
                    draws,
                ),
            linear ==> r.simulation@ == run_through(
                self@,
                self.actions.len() as nat,
                linear,
                max_steps,
                false,
                zeros(self.actions.len() as nat),
                zeros(self.actions.len() as nat),
            ),
            r.steps@ == r.simulation.steps@,
            r.success == crate::model::run_succeeded(r.simulation@),
            r.fail_cause == crate::model::run_fail_cause(r.simulation@),
            r.hq_percent == crate::model::hq_percent(r.simulation@),
    {
        self.run_with_flags(linear, max_steps, false)
    }

    /// Runs `action` as step `index`; its roll is random unless in linear mode or forced to fail.
    /// The craft must be undecided: once it is decided, the step loop records later steps
    /// as skipped, with nothing paid, and never runs their action.
    pub fn run_action_with_flags(
        &mut self,
        action: CraftingActionEnum,
        linear: bool,
        safe: bool,
        index: usize,
    ) -> (r: ActionResult)
        requires
            old(self)@.wf(),
            old(self).success.is_none(),
            crate::model::cp_cost(old(self)@, action) <= old(self).available_cp,
        ensures
            exists|roll: u32|
                roll < 100 && (final(self)@, r) == #[trigger] run_action_spec(
                    old(self)@,
                    action,
                    index as int,
                    linear,
                    safe,
                    roll,
                ),
            linear ==> (final(self)@, r) == run_action_spec(
                old(self)@,
                action,
                index as int,
                linear,
                safe,
                0,
            ),
            final(self)@.wf(),
    {
        let roll: u32 = if linear {
            0
        } else {
            crate::random::random_percent()
        };
        self.run_action_rolled(action, index, linear, safe, roll)
    }

    /// Runs `action` as step `index`, in linear mode or with a random roll.
    /// The craft must be undecided: once it is decided, the step loop records later steps
    /// as skipped, with nothing paid, and never runs their action.
    pub fn run_action_linear(&mut self, action: CraftingActionEnum, linear: bool, index: usize) -> (r:
        ActionResult)
        requires
            old(self)@.wf(),
            old(self).success.is_none(),
            crate::model::cp_cost(old(self)@, action) <= old(self).available_cp,
        ensures
            exists|roll: u32|
                roll < 100 && (final(self)@, r) == #[trigger] run_action_spec(
                    old(self)@,
                    action,
                    index as int,
                    linear,
                    false,
                    roll,
                ),
            final(self)@.wf(),
    {
        self.run_action_with_flags(action, linear, false, index)
    }

    /// Runs `action` as step `index` with a random roll.
    /// The craft must be undecided: once it is decided, the step loop records later steps
    /// as skipped, with nothing paid, and never runs their action.
    pub fn run_action(&mut self, action: CraftingActionEnum, index: usize) -> (r: ActionResult)
        requires
            old(self)@.wf(),
            old(self).success.is_none(),
            crate::model::cp_cost(old(self)@, action) <= old(self).available_cp,
        ensures
            exists|roll: u32|
                roll < 100 && (final(self)@, r) == #[trigger] run_action_spec(
                    old(self)@,
                    action,
                    index as int,
                    false,
                    false,
                    roll,
                ),
            final(self)@.wf(),
    {
        self.run_action_linear(action, false, index)
    }
}

} // verus!
