//! Crafting tasks: what to craft, how many times and with which macro.
use vstd::prelude::*;
use crate::talan::action::Action;
use crate::talan::macros::Macro;
use crate::talan::recipe::{Recipe, RecipeMaterial};

verus! {

/// How many normal-quality and high-quality units of a material to use.
#[derive(Copy, Clone, PartialEq, Debug, Default)]
pub struct MaterialCount {
    pub nq: u32,
    pub hq: u32,
}

/// Crafting a recipe a given number of times with a given macro.
#[derive(Clone, PartialEq, Debug, Default)]
pub struct Task {
    pub specify_materials: bool,
    pub macro_id: usize,
    pub mat_quality: Vec<MaterialCount>,
    pub quantity: u32,
    pub recipe: Recipe,
    pub estimate: u32,
}

/// The progress of a task while it is crafted.
#[derive(Clone, Debug)]
pub struct Status {
    pub name: String,
    pub finished: u32,
    pub total: u32,
}

/// The total wait of a list of actions, in milliseconds.
pub open spec fn total_wait(actions: Seq<Action>) -> nat
    decreases actions.len(),
{
    if actions.len() == 0 {
        0
    } else {
        total_wait(actions.drop_last()) + actions.last().wait_ms as nat
    }
}

/// How long crafting `quantity` items with a macro of total wait `wait_ms`
/// takes, in milliseconds: the wait, cut to 32 bits, plus five seconds of
/// navigation per item.
pub open spec fn estimate_for(quantity: u32, wait_ms: nat) -> int {
    quantity * ((wait_ms % 0x1_0000_0000) + 5000)
}

/// Whether computing the estimate of `task` with `macros` stays within the
/// integer types it uses.
pub open spec fn estimate_fits(task: Task, macros: Seq<Macro>) -> bool {
    &&& task.macro_id < macros.len()
    &&& total_wait(macros[task.macro_id as int].actions@) <= u64::MAX
    &&& (total_wait(macros[task.macro_id as int].actions@) % 0x1_0000_0000) + 5000 <= u32::MAX
    &&& estimate_for(task.quantity, total_wait(macros[task.macro_id as int].actions@)) <= u32::MAX
}

proof fn lemma_total_wait_monotone(actions: Seq<Action>, i: int)
    requires
        0 <= i <= actions.len(),
    ensures
        total_wait(actions.take(i)) <= total_wait(actions),
    decreases actions.len(),
{
    if i < actions.len() {
        lemma_total_wait_monotone(actions.drop_last(), i);
        assert(actions.drop_last().take(i) == actions.take(i));
    } else {
        assert(actions.take(i) == actions);
    }
}

impl Task {
    /// A task to craft `count` of `recipe` with the first macro, using
    /// normal-quality units of every material.
    pub fn new(recipe: Recipe, count: u32) -> (t: Task)
        ensures
            !t.specify_materials,
            t.macro_id == 0,
            t.quantity == count,
            t.recipe == recipe,
            t.estimate == 0,
            t.mat_quality@.len() == recipe.mats@.len(),
            forall|i: int|
                0 <= i < t.mat_quality@.len() ==> (#[trigger] t.mat_quality@[i]) == (MaterialCount {
                    nq: recipe.mats@[i].count,
                    hq: 0,
                }),
    {
        let mut mat_quality: Vec<MaterialCount> = Vec::new();
        let mut i: usize = 0;
        while i < recipe.mats.len()
            invariant
                i <= recipe.mats@.len(),
                mat_quality@.len() == i,
                forall|j: int|
                    0 <= j < i ==> (#[trigger] mat_quality@[j]) == (MaterialCount {
                        nq: recipe.mats@[j].count,
                        hq: 0,
                    }),
            decreases recipe.mats@.len() - i,
        {
            mat_quality.push(MaterialCount { nq: recipe.mats[i].count, hq: 0 });
            i += 1;
        }
        Task {
            specify_materials: false,
            macro_id: 0,
            quantity: count,
            mat_quality,
            recipe,
            estimate: 0,
        }
    }

    /// Sets the estimated crafting time of the task, in milliseconds, from the
    /// waits of its macro.
    pub fn update_estimate(&mut self, macros: &[Macro])
        requires
            estimate_fits(*old(self), macros@),
        ensures
            final(self).estimate == estimate_for(
                old(self).quantity,
                total_wait(macros@[old(self).macro_id as int].actions@),
            ),
            *final(self) == (Task { estimate: final(self).estimate, ..*old(self) }),
    {
        let actions = &macros[self.macro_id].actions;
        let mut sum: u64 = 0;
        let mut i: usize = 0;
        while i < actions.len()
            invariant
                i <= actions@.len(),
                total_wait(actions@) <= u64::MAX,
                sum == total_wait(actions@.take(i as int)),
            decreases actions@.len() - i,
        {
            assert(actions@.take(i + 1).drop_last() == actions@.take(i as int));
            proof {
                lemma_total_wait_monotone(actions@, i + 1);
            }
            sum = sum + actions[i].wait_ms;
            i += 1;
        }
        assert(actions@.take(actions@.len() as int) == actions@);
        let per_item = ((sum % 4294967296u64) as u32) + 5000;
        self.estimate = self.quantity * per_item;
    }
}

impl Status {
    /// The status of a task that has not started.
    pub fn from(task: &Task) -> (s: Status)
        ensures
            s.name@ == task.recipe.name@,
            s.finished == 0,
            s.total == task.quantity,
    {
        Status { name: task.recipe.name.clone(), finished: 0, total: task.quantity }
    }
}

} // verus!
