use vstd::prelude::*;

use crate::enums::{CraftingActionEnum, StepState};
use crate::model::{
    combo_available, cp_cost, durability_cost, is_unsafe, next_state, roll_for, run_action_spec,
    run_through, step_spec, success_rate, SimState,
};
use crate::structs::ActionResult;

verus! {

/// In linear mode the roll handed to an action is never read.
pub proof fn lemma_linear_action_ignores_roll(
    s: SimState,
    a: CraftingActionEnum,
    i: int,
    safe: bool,
    roll1: u32,
    roll2: u32,
)
    ensures
        run_action_spec(s, a, i, true, safe, roll1) == run_action_spec(s, a, i, true, safe, roll2),
{
    reveal(run_action_spec);
    assert(roll_for(s, i, true, roll1) == roll_for(s, i, true, roll2));
}

/// In linear mode a step reads neither its roll nor its condition draw.
pub proof fn lemma_linear_step_ignores_randomness(
    s: SimState,
    a: CraftingActionEnum,
    i: int,
    max_steps: usize,
    safe: bool,
    roll1: u32,
    draw1: u32,
    roll2: u32,
    draw2: u32,
)
    ensures
        step_spec(s, a, i, true, max_steps, safe, roll1, draw1) == step_spec(
            s,
            a,
            i,
            true,
            max_steps,
            safe,
            roll2,
            draw2,
        ),
{
    reveal(step_spec);
    lemma_linear_action_ignores_roll(crate::model::step_start(s, i), a, i, safe, roll1, roll2);
}

/// In linear mode the random rolls and condition draws are never read: a run is a function
/// of its starting state, its step budget and its safety flag alone.
pub proof fn lemma_linear_run_ignores_randomness(
    s: SimState,
    n: nat,
    max_steps: usize,
    safe: bool,
    rolls1: Seq<u32>,
    draws1: Seq<u32>,
    rolls2: Seq<u32>,
    draws2: Seq<u32>,
)
    requires
        n <= rolls1.len() && n <= draws1.len() && n <= rolls2.len() && n <= draws2.len(),
    ensures
        run_through(s, n, true, max_steps, safe, rolls1, draws1) == run_through(
            s,
            n,
            true,
            max_steps,
            safe,
            rolls2,
            draws2,
        ),
    decreases n,
{
    if n > 0 && n <= s.actions.len() {
        lemma_linear_run_ignores_randomness(
            s,
            (n - 1) as nat,
            max_steps,
            safe,
            rolls1,
            draws1,
            rolls2,
            draws2,
        );
        let p = run_through(s, (n - 1) as nat, true, max_steps, safe, rolls1, draws1);
        lemma_linear_step_ignores_randomness(
            p,
            s.actions[n - 1],
            n - 1,
            max_steps,
            safe,
            rolls1[n - 1],
            draws1[n - 1],
            rolls2[n - 1],
            draws2[n - 1],
        );
    }
}

/// An action whose roll fails still costs its durability and CP, and changes nothing else
/// of progress or quality.
pub proof fn lemma_failed_roll_still_pays(
    s: SimState,
    a: CraftingActionEnum,
    index: int,
    linear: bool,
    safe: bool,
    roll: u32,
)
    requires
        s.wf_core(),
        cp_cost(s, a) <= s.available_cp,
        !is_unsafe(s, a, safe),
        success_rate(s, a) < roll_for(s, index, linear, roll),
    ensures
        ({
            let (t, r) = run_action_spec(s, a, index, linear, safe, roll);
            &&& r.success == Some(false)
            &&& t.durability == s.durability - durability_cost(s, a)
            &&& t.available_cp == s.available_cp - cp_cost(s, a)
            &&& t.quality == s.quality
            &&& t.progression == s.progression
            &&& t.buffs == s.buffs
        }),
{
    reveal(run_action_spec);
}

/// Excellent is always followed by Poor and Good Omen by Good, whatever the draw.
pub proof fn lemma_forced_condition_successors(s: SimState, draw: u32)
    ensures
        s.state == StepState::Excellent ==> next_state(s, draw) == StepState::Poor,
        s.state == StepState::GoodOmen ==> next_state(s, draw) == StepState::Good,
{
}

/// A combo is available only if some step succeeded with the trigger and every step after
/// it was skipped.
pub proof fn lemma_combo_needs_trigger(
    steps: Seq<ActionResult>,
    target: CraftingActionEnum,
    need_combo: bool,
)
    requires
        combo_available(steps, target, need_combo),
    ensures
        exists|i: int|
            0 <= i < steps.len() && (#[trigger] steps[i]).action == target && steps[i].success
                == Some(true) && forall|j: int| i < j < steps.len() ==> (#[trigger] steps[j]).skipped,
    decreases steps.len(),
{
    let last = steps.last();
    let k = steps.len() - 1;
    if last.action == target && last.success == Some(true) && (!need_combo || last.combo == Some(
        true,
    )) {
        assert(steps[k].action == target);
    } else {
        let init = steps.drop_last();
        lemma_combo_needs_trigger(init, target, need_combo);
        let i = choose|i: int|
            0 <= i < init.len() && (#[trigger] init[i]).action == target && init[i].success
                == Some(true) && forall|j: int| i < j < init.len() ==> (#[trigger] init[j]).skipped;
        assert(steps[i] == init[i]);
        assert forall|j: int| i < j < steps.len() implies (#[trigger] steps[j]).skipped by {
            if j < k {
                assert(steps[j] == init[j]);
            }
        }
    }
}

/// A step that was attempted and was not a success of the trigger breaks the combo.
pub proof fn lemma_combo_broken_by_attempt(
    steps: Seq<ActionResult>,
    target: CraftingActionEnum,
    need_combo: bool,
    step: ActionResult,
)
    requires
        !step.skipped,
        !(step.action == target && step.success == Some(true)),
    ensures
        !combo_available(steps.push(step), target, need_combo),
{
    assert(steps.push(step).last() == step);
}

} // verus!

verus! {

use crate::enums::Buff;
use crate::model::{
    buffs_ok, has_kind, keep_active, kind_index, kinds_unique, tick_buffs, tick_one, tick_through,
    without_kind,
};
use crate::simulation::{lemma_kind_index, lemma_remove_wf, lemma_update_wf, lemma_without_wf};
use crate::structs::EffectiveBuff;

/// The active buff of kind `k`.
pub open spec fn buff_of(bs: Seq<EffectiveBuff>, k: Buff) -> EffectiveBuff {
    bs[kind_index(bs, k)]
}

proof fn lemma_without_other(bs: Seq<EffectiveBuff>, k: Buff, other: Buff)
    requires
        kinds_unique(bs),
        has_kind(bs, k),
        other != k,
    ensures
        has_kind(without_kind(bs, other), k),
        buff_of(without_kind(bs, other), k) == buff_of(bs, k),
{
    lemma_without_wf(bs, other);
    if has_kind(bs, other) {
        let j = kind_index(bs, other);
        let i = kind_index(bs, k);
        let r = bs.remove(j);
        let i2 = if i < j {
            i
        } else {
            i - 1
        };
        assert(r[i2] == bs[i]);
        lemma_kind_index(r, k, i2);
    }
}

proof fn lemma_update_other(bs: Seq<EffectiveBuff>, k: Buff, j: int, b: EffectiveBuff)
    requires
        kinds_unique(bs),
        has_kind(bs, k),
        0 <= j < bs.len(),
        bs[j].buff != k,
        b.buff == bs[j].buff,
        b.stacks <= 10,
    ensures
        has_kind(bs.update(j, b), k),
        buff_of(bs.update(j, b), k) == buff_of(bs, k),
{
    lemma_update_wf(bs, j, b);
    let i = kind_index(bs, k);
    assert(bs.update(j, b)[i] == bs[i]);
    lemma_kind_index(bs.update(j, b), k, i);
}

/// Dropping the buffs that ran out keeps a buff exactly when its duration is positive.
proof fn lemma_keep_active_kind(bs: Seq<EffectiveBuff>, k: Buff)
    requires
        buffs_ok(bs),
        has_kind(bs, k),
    ensures
        has_kind(keep_active(bs), k) <==> buff_of(bs, k).duration > 0,
        buff_of(bs, k).duration > 0 ==> buff_of(keep_active(bs), k) == buff_of(bs, k),
    decreases bs.len(),
{
    crate::simulation::lemma_keep_active(bs);
    let init = bs.drop_last();
    let l = bs.last();
    let n = bs.len() - 1;
    assert forall|i: int| 0 <= i < init.len() implies #[trigger] init[i] == bs[i] by {}
    assert(buffs_ok(init));
    let i = kind_index(bs, k);
    crate::simulation::lemma_keep_active(init);
    if i == n {
        if has_kind(init, k) {
            let j = choose|j: int| 0 <= j < init.len() && #[trigger] init[j].buff == k;
            assert(bs[j].buff == bs[n].buff);
        }
        assert(!has_kind(init, k));
        assert(!has_kind(keep_active(init), k));
        if l.duration > 0 {
            crate::simulation::lemma_push_wf(keep_active(init), l);
        } else {
            assert(!has_kind(keep_active(bs), k));
        }
    } else {
        assert(init[i] == bs[i]);
        lemma_kind_index(init, k, i);
        lemma_keep_active_kind(init, k);
        let r = keep_active(init);
        if l.duration > 0 {
            if has_kind(r, l.buff) {
                assert(has_kind(init, l.buff));
                let j = choose|j: int| 0 <= j < init.len() && #[trigger] init[j].buff == l.buff;
                assert(bs[j].buff == bs[n].buff);
            }
            crate::simulation::lemma_push_wf(r, l);
            if buff_of(bs, k).duration > 0 {
                let m = kind_index(r, k);
                assert(r.push(l)[m] == r[m]);
                lemma_kind_index(r.push(l), k, m);
            }
        }
    }
}

/// Ticking keeps the buff of kind `k`, other than Heart and Soul, and its record unchanged
/// up to its own tick, where its duration drops by one.
proof fn lemma_tick_through_kind(
    s: SimState,
    snap: Seq<EffectiveBuff>,
    a: CraftingActionEnum,
    n: nat,
    k: Buff,
    i: int,
)
    requires
        buffs_ok(s.buffs),
        kinds_unique(snap),
        0 <= i < snap.len(),
        snap[i].buff == k,
        k != Buff::HeartAndSoul,
        has_kind(s.buffs, k),
        buff_of(s.buffs, k).duration > 0,
        (buff_of(s.buffs, k).applied_step as int) < s.steps.len(),
        (snap[i].applied_step as int) < s.steps.len(),
        n <= snap.len(),
    ensures
        ({
            let t = tick_through(s, snap, a, n);
            &&& buffs_ok(t.buffs)
            &&& t.steps == s.steps
            &&& has_kind(t.buffs, k)
            &&& buff_of(t.buffs, k) == (if n > i {
                EffectiveBuff { duration: (buff_of(s.buffs, k).duration - 1) as i32, ..buff_of(s.buffs, k) }
            } else {
                buff_of(s.buffs, k)
            })
        }),
    decreases n,
{
    if n > 0 {
        lemma_tick_through_kind(s, snap, a, (n - 1) as nat, k, i);
        let p = tick_through(s, snap, a, (n - 1) as nat);
        let b = snap[n - 1];
        if (b.applied_step as int) < p.steps.len() && has_kind(p.buffs, b.buff) {
            let h = crate::model::tick_hook(p, b.buff, a);
            if b.buff == Buff::HeartAndSoul {
                lemma_without_wf(p.buffs, Buff::HeartAndSoul);
                lemma_without_other(p.buffs, k, Buff::HeartAndSoul);
            }
            assert(buffs_ok(h.buffs));
            assert(has_kind(h.buffs, k));
            if has_kind(h.buffs, b.buff) {
                let j = kind_index(h.buffs, b.buff);
                let old_b = h.buffs[j];
                let nb = EffectiveBuff {
                    duration: if old_b.duration > 0 {
                        (old_b.duration - 1) as i32
                    } else {
                        old_b.duration
                    },
                    ..old_b
                };
                lemma_update_wf(h.buffs, j, nb);
                if b.buff != k {
                    lemma_update_other(h.buffs, k, j, nb);
                } else {
                    assert(n - 1 == i);
                    lemma_kind_index(h.buffs.update(j, nb), k, j);
                }
            }
            if b.buff != k {
                assert(n - 1 != i);
            }
        } else {
            if b.buff == k {
                assert(n - 1 == i);
            }
            assert(b.buff != k);
        }
    }
}

/// A buff other than Heart and Soul, applied on an earlier step, loses one tick of
/// duration each time the buffs tick, and is gone once its duration reaches zero.
pub proof fn lemma_buff_ticks_down(s: SimState, a: CraftingActionEnum, k: Buff)
    requires
        crate::model::buffs_wf(s.buffs),
        k != Buff::HeartAndSoul,
        has_kind(s.buffs, k),
        (buff_of(s.buffs, k).applied_step as int) < s.steps.len(),
    ensures
        buff_of(s.buffs, k).duration > 1 ==> has_kind(tick_buffs(s, a).buffs, k) && buff_of(
            tick_buffs(s, a).buffs,
            k,
        ).duration == buff_of(s.buffs, k).duration - 1,
        buff_of(s.buffs, k).duration == 1 ==> !has_kind(tick_buffs(s, a).buffs, k),
{
    let i = kind_index(s.buffs, k);
    lemma_tick_through_kind(s, s.buffs, a, s.buffs.len(), k, i);
    let t = tick_through(s, s.buffs, a, s.buffs.len());
    lemma_keep_active_kind(t.buffs, k);
}

} // verus!

verus! {

use crate::model::{add_inner_quiet, buffs_wf, stacks_of};

/// Adding Inner Quiet stacks, however many, never takes the count above 10.
pub proof fn lemma_inner_quiet_capped(s: SimState, n: u32)
    requires
        buffs_wf(s.buffs),
    ensures
        buffs_wf(add_inner_quiet(s, n).buffs),
        stacks_of(add_inner_quiet(s, n).buffs, Buff::InnerQuiet) <= 10,
{
    let t = add_inner_quiet(s, n);
    if has_kind(s.buffs, Buff::InnerQuiet) {
        let i = kind_index(s.buffs, Buff::InnerQuiet);
        lemma_update_wf(s.buffs, i, t.buffs[i]);
        lemma_kind_index(t.buffs, Buff::InnerQuiet, i);
    } else {
        let b = t.buffs[s.buffs.len() as int];
        crate::simulation::lemma_push_wf(s.buffs, b);
    }
}

} // verus!

verus! {

use crate::model::{pick_condition, weight_at};

proof fn lemma_pick_eligible(s: SimState, draw: int, k: int, acc: int)
    requires
        2 <= k,
        acc <= draw,
    ensures
        pick_condition(s, draw, k, acc) == StepState::Normal || s.possible_conditions.contains(
            pick_condition(s, draw, k, acc),
        ),
    decreases 11 - k,
{
    if k <= 10 {
        let acc2 = acc + weight_at(s, k);
        if acc2 <= draw {
            lemma_pick_eligible(s, draw, k + 1, acc2);
        }
    }
}

/// A drawn condition is Normal or one the recipe makes eligible.
pub proof fn lemma_next_state_eligible(s: SimState, draw: u32)
    ensures
        next_state(s, draw) == StepState::Poor || next_state(s, draw) == StepState::Good
            || next_state(s, draw) == StepState::Normal || s.possible_conditions.contains(
            next_state(s, draw),
        ),
{
    if s.state != StepState::Excellent && s.state != StepState::GoodOmen {
        let acc2 = weight_at(s, 1);
        if acc2 <= draw {
            lemma_pick_eligible(s, draw as int, 2, acc2);
        }
    }
}

} // verus!
