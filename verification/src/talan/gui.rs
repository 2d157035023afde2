//! The rules behind the assistant's window: edits of the task list, the
//! values its inputs accept, the checks before crafting, the messages it
//! shows and how it follows the worker. Drawing the window is the
//! platform layer's part.
use vstd::prelude::*;
use crate::talan::config::Options;
use crate::talan::macros::{Macro, get_macro_for_recipe, macro_score};
use crate::talan::recipe::Recipe;
use crate::talan::lists::ListItem;
use crate::talan::rpc::{Request, Response};
use crate::talan::task::{MaterialCount, Status, Task};
use crate::text::{digits_in_base, push_digits, push_str};
use crate::xiv::{JOB_CNT, job_abbreviation, job_name};

verus! {

/// A change of the task list asked for by a button of a task.
#[derive(Copy, Clone, Debug, PartialEq, Eq, Structural)]
pub enum TaskListModification {
    MoveDown(usize),
    MoveUp(usize),
    Delete(usize),
}

/// Whether `m` can be made to a list of `len` tasks: a task moves up from
/// below the first, down from above the last, and only a task that exists
/// is deleted.
pub open spec fn modification_valid(m: TaskListModification, len: nat) -> bool {
    match m {
        TaskListModification::MoveUp(i) => 1 <= i < len,
        TaskListModification::MoveDown(i) => i + 1 < len,
        TaskListModification::Delete(i) => i < len,
    }
}

/// Whether `m` can be made to a list of `len` tasks.
pub fn modification_fits(m: TaskListModification, len: usize) -> (r: bool)
    ensures
        r == modification_valid(m, len as nat),
{
    match m {
        TaskListModification::MoveUp(i) => 1 <= i && i < len,
        TaskListModification::MoveDown(i) => i < len && len - i > 1,
        TaskListModification::Delete(i) => i < len,
    }
}

/// The list `s` after `m`.
pub open spec fn modified<T>(s: Seq<T>, m: TaskListModification) -> Seq<T> {
    match m {
        TaskListModification::MoveUp(i) => s.remove(i as int).insert(i - 1, s[i as int]),
        TaskListModification::MoveDown(i) => s.remove(i as int).insert(i + 1, s[i as int]),
        TaskListModification::Delete(i) => s.remove(i as int),
    }
}

/// Makes `m` to the task list.
pub fn apply_modification(tasks: &mut Vec<Task>, m: TaskListModification)
    requires
        modification_valid(m, old(tasks)@.len()),
    ensures
        final(tasks)@ == modified(old(tasks)@, m),
{
    match m {
        TaskListModification::MoveUp(idx) => {
            let task = tasks.remove(idx);
            tasks.insert(idx - 1, task);
        },
        TaskListModification::MoveDown(idx) => {
            let n = tasks.len();
            assert(idx + 1 < n);
            let task = tasks.remove(idx);
            tasks.insert(idx + 1, task);
        },
        TaskListModification::Delete(idx) => {
            tasks.remove(idx);
        },
    }
}

/// Moving a task down and then up again gives the list back.
pub proof fn lemma_move_down_then_up<T>(s: Seq<T>, i: usize)
    requires
        i + 1 < s.len(),
        i + 1 <= usize::MAX,
    ensures
        modification_valid(TaskListModification::MoveUp((i + 1) as usize), s.len()),
        modified(modified(s, TaskListModification::MoveDown(i)), TaskListModification::MoveUp((i + 1) as usize))
            == s,
{
    let t = modified(s, TaskListModification::MoveDown(i));
    assert(t.len() == s.len());
    assert(t[i + 1] == s[i as int]);
    assert(modified(t, TaskListModification::MoveUp((i + 1) as usize)) =~= s);
}

/// Moving a task up and then down again gives the list back.
pub proof fn lemma_move_up_then_down<T>(s: Seq<T>, i: usize)
    requires
        1 <= i < s.len(),
    ensures
        modification_valid(TaskListModification::MoveDown((i - 1) as usize), s.len()),
        modified(modified(s, TaskListModification::MoveUp(i)), TaskListModification::MoveDown((i - 1) as usize))
            == s,
{
    let t = modified(s, TaskListModification::MoveUp(i));
    assert(t.len() == s.len());
    assert(t[i - 1] == s[i as int]);
    assert(modified(t, TaskListModification::MoveDown((i - 1) as usize)) =~= s);
}

/// A move keeps every task of the list, only their order changes; a delete
/// takes out exactly the task it names.
pub proof fn lemma_modification_keeps_tasks<T>(s: Seq<T>, m: TaskListModification)
    requires
        modification_valid(m, s.len()),
    ensures
        m !is Delete ==> modified(s, m).to_multiset() == s.to_multiset(),
        m matches TaskListModification::Delete(i) ==> modified(s, m).to_multiset() == s.to_multiset().remove(
            s[i as int],
        ),
        m matches TaskListModification::Delete(i) ==> modified(s, m).len() + 1 == s.len(),
        m !is Delete ==> modified(s, m).len() == s.len(),
{
    match m {
        TaskListModification::MoveUp(i) => {
            vstd::seq_lib::to_multiset_remove(s, i as int);
            vstd::seq_lib::to_multiset_insert(s.remove(i as int), i - 1, s[i as int]);
            assert(s.to_multiset().remove(s[i as int]).insert(s[i as int]) =~= s.to_multiset()) by {
                vstd::seq_lib::to_multiset_contains(s, s[i as int]);
                broadcast use vstd::multiset::group_multiset_axioms;
            }
        },
        TaskListModification::MoveDown(i) => {
            vstd::seq_lib::to_multiset_remove(s, i as int);
            vstd::seq_lib::to_multiset_insert(s.remove(i as int), i + 1, s[i as int]);
            assert(s.to_multiset().remove(s[i as int]).insert(s[i as int]) =~= s.to_multiset()) by {
                vstd::seq_lib::to_multiset_contains(s, s[i as int]);
                broadcast use vstd::multiset::group_multiset_axioms;
            }
        },
        TaskListModification::Delete(i) => {
            vstd::seq_lib::to_multiset_remove(s, i as int);
        },
    }
}

/// The first job, in the order of `tasks`, whose gear set is not
/// configured.
pub open spec fn first_unconfigured(options: Options, tasks: Seq<Task>, job: u32) -> bool {
    exists|i: int|
        0 <= i < tasks.len() && tasks[i].recipe.job == job && options.gear@[job as int] == 0 && forall|j: int|
            0 <= j < i ==> options.gear@[#[trigger] tasks[j].recipe.job as int] != 0
}

/// The job of the first task whose job has no gear set configured, or
/// `None` where every task can be crafted.
pub fn unconfigured_gear_job(options: &Options, tasks: &[Task]) -> (r: Option<u32>)
    requires
        forall|i: int| 0 <= i < tasks@.len() ==> (#[trigger] tasks@[i]).recipe.job < JOB_CNT,
    ensures
        match r {
            Some(job) => first_unconfigured(*options, tasks@, job),
            None => forall|i: int|
                0 <= i < tasks@.len() ==> options.gear@[(#[trigger] tasks@[i]).recipe.job as int] != 0,
        },
{
    let mut i: usize = 0;
    while i < tasks.len()
        invariant
            i <= tasks@.len(),
            forall|j: int| 0 <= j < tasks@.len() ==> (#[trigger] tasks@[j]).recipe.job < JOB_CNT,
            forall|j: int| 0 <= j < i ==> options.gear@[(#[trigger] tasks@[j]).recipe.job as int] != 0,
        decreases tasks@.len() - i,
    {
        let job = tasks[i].recipe.job;
        if options.gear[job as usize] == 0 {
            assert(tasks@[i as int].recipe.job == job);
            return Some(job);
        }
        i += 1;
    }
    None
}

/// The message shown where `job` has no gear set.
pub fn gear_message(job: usize) -> (r: String)
    requires
        job < JOB_CNT,
    ensures
        r@ == "Please set a gear set for "@ + job_abbreviation(job as int)@ + " to continue"@,
{
    let mut r = "Please set a gear set for ".to_string();
    push_str(&mut r, job_name(job));
    push_str(&mut r, " to continue");
    r
}

/// The message shown where a search for `item` found nothing for `job`.
pub fn not_found_message(job: usize, item: &str) -> (r: String)
    requires
        job < JOB_CNT,
    ensures
        r@ == "No "@ + job_abbreviation(job as int)@ + " results found on XIVApi for \""@ + item@ + "\""@,
{
    let mut r = "No ".to_string();
    push_str(&mut r, job_name(job));
    push_str(&mut r, " results found on XIVApi for \"");
    push_str(&mut r, item);
    push_str(&mut r, "\"");
    r
}

/// The value an integer input holds as an unsigned 32-bit count: its bits
/// read as unsigned.
pub open spec fn as_unsigned(v: i32) -> int {
    if v >= 0 {
        v as int
    } else {
        v + 0x1_0000_0000
    }
}

fn to_unsigned(v: i32) -> (r: u32)
    ensures
        r == as_unsigned(v),
{
    let r = v as u32;
    assert(v < 0 ==> r == v + 0x1_0000_0000) by (bit_vector)
        requires
            r == v as u32,
    ;
    assert(v >= 0 ==> r == v) by (bit_vector)
        requires
            r == v as u32,
    ;
    r
}

/// The quantity a task takes from its input: the input as an unsigned
/// count, and at least one.
pub fn quantity_from_input(q: i32) -> (r: u32)
    ensures
        r == if as_unsigned(q) < 1 {
            1
        } else {
            as_unsigned(q)
        },
{
    let u = to_unsigned(q);
    if u < 1 {
        1
    } else {
        u
    }
}

/// The units of a material of which `count` are needed, when `hq` high
/// quality ones are asked for: that many as an unsigned count, at most
/// `count`, and normal quality for the rest.
pub fn material_from_input(hq: i32, count: u32) -> (r: MaterialCount)
    ensures
        r.hq == if as_unsigned(hq) < count {
            as_unsigned(hq)
        } else {
            count as int
        },
        r.nq + r.hq == count,
{
    let u = to_unsigned(hq);
    let h = if u < count {
        u
    } else {
        count
    };
    MaterialCount { nq: count - h, hq: h }
}

/// The gear set a job takes from its input: no negative number.
pub fn gear_from_input(g: i32) -> (r: i32)
    ensures
        r == if g < 0 {
            0
        } else {
            g
        },
{
    if g < 0 {
        0
    } else {
        g
    }
}

/// How many of `s` are set.
pub open spec fn count_set(s: Seq<bool>) -> nat
    decreases s.len(),
{
    if s.len() == 0 {
        0
    } else {
        count_set(s.drop_last()) + if s.last() {
            1nat
        } else {
            0
        }
    }
}

/// The largest number of jobs a character can be a specialist of.
pub const SPECIALIST_LIMIT: u32 = 3;

fn count_specialists(s: &[bool; 8]) -> (r: u32)
    ensures
        r == count_set(s@),
{
    let mut n: u32 = 0;
    let mut i: usize = 0;
    while i < 8
        invariant
            i <= 8,
            s@.len() == 8,
            n == count_set(s@.take(i as int)),
            n <= i,
        decreases 8 - i,
    {
        assert(s@.take(i + 1).drop_last() == s@.take(i as int));
        if s[i] {
            n = n + 1;
        }
        i += 1;
    }
    assert(s@.take(8) == s@);
    n
}

/// Marks job `i` as one the character is a specialist of, or not; a fourth
/// specialist job is refused and the job left unmarked. Returns whether the
/// value asked for was kept.
pub fn set_specialist(options: &mut Options, i: usize, value: bool) -> (r: bool)
    requires
        i < JOB_CNT,
    ensures
        r == (count_set(old(options).specialist@.update(i as int, value)) <= SPECIALIST_LIMIT),
        final(options).specialist@ == old(options).specialist@.update(i as int, value && r),
        final(options).gear == old(options).gear,
        final(options).should_clear_window_on_craft == old(options).should_clear_window_on_craft,
        final(options).remove_finished_tasks == old(options).remove_finished_tasks,
        final(options).use_trial_synthesis == old(options).use_trial_synthesis,
{
    options.specialist[i] = value;
    if count_specialists(&options.specialist) > SPECIALIST_LIMIT {
        options.specialist[i] = false;
        assert(options.specialist@ =~= old(options).specialist@.update(i as int, false));
        false
    } else {
        true
    }
}

proof fn lemma_count_set_update(s: Seq<bool>, i: int)
    requires
        0 <= i < s.len(),
    ensures
        count_set(s.update(i, false)) <= count_set(s),
    decreases s.len(),
{
    if i < s.len() - 1 {
        lemma_count_set_update(s.drop_last(), i);
        assert(s.update(i, false).drop_last() == s.drop_last().update(i, false));
    } else {
        assert(s.update(i, false).drop_last() == s.drop_last());
    }
}

/// No setting of a specialist job takes the options past the limit of
/// specialist jobs.
pub proof fn lemma_specialist_limit_kept(before: Options, after: Options, i: usize, value: bool, r: bool)
    requires
        i < JOB_CNT,
        count_set(before.specialist@) <= SPECIALIST_LIMIT,
        r == (count_set(before.specialist@.update(i as int, value)) <= SPECIALIST_LIMIT),
        after.specialist@ == before.specialist@.update(i as int, value && r),
    ensures
        count_set(after.specialist@) <= SPECIALIST_LIMIT,
{
    if !r {
        lemma_count_set_update(before.specialist@, i as int);
        assert(before.specialist@.update(i as int, false) == after.specialist@);
    }
}

/// Whether `macro_id` names the best macro of `macros` for `recipe` (see
/// `get_macro_for_recipe`): the first of the highest score where any macro
/// applies, else the first.
pub open spec fn best_macro(macro_id: usize, macros: Seq<Macro>, recipe: Recipe, specialist: bool) -> bool {
    &&& (exists|i: int| 0 <= i < macros.len() && (#[trigger] macro_score(macros[i], recipe, specialist)) is Some)
        ==> {
        &&& macro_id < macros.len()
        &&& macro_score(macros[macro_id as int], recipe, specialist) is Some
        &&& forall|j: int|
            0 <= j < macros.len() && (#[trigger] macro_score(macros[j], recipe, specialist)) is Some
                ==> macro_score(macros[j], recipe, specialist)->0 <= macro_score(
                macros[macro_id as int],
                recipe,
                specialist,
            )->0
        &&& forall|j: int|
            0 <= j < macro_id && (#[trigger] macro_score(macros[j], recipe, specialist)) is Some
                ==> macro_score(macros[j], recipe, specialist)->0 < macro_score(
                macros[macro_id as int],
                recipe,
                specialist,
            )->0
    }
    &&& (forall|i: int| 0 <= i < macros.len() ==> (#[trigger] macro_score(macros[i], recipe, specialist)) is None)
        ==> macro_id == 0
}

/// Whether `t` is the task made for `recipe`, found for `count` crafts: the
/// new task of the recipe with the best macro for it, considering whether
/// the character is a specialist of its job.
pub open spec fn task_made_for(t: Task, recipe: Recipe, count: u32, macros: Seq<Macro>, options: Options) -> bool {
    &&& t.recipe == recipe
    &&& t.quantity == count
    &&& !t.specify_materials
    &&& t.estimate == 0
    &&& t.mat_quality@.len() == recipe.mats@.len()
    &&& forall|i: int|
        0 <= i < t.mat_quality@.len() ==> (#[trigger] t.mat_quality@[i]) == (MaterialCount {
            nq: recipe.mats@[i].count,
            hq: 0,
        })
    &&& best_macro(t.macro_id, macros, recipe, options.specialist@[recipe.job as int])
}

/// The task made for a recipe the worker found: `count` crafts with the
/// best macro for the recipe, considering whether the character is a
/// specialist of its job.
pub fn task_for_recipe(recipe: Recipe, count: u32, macros: &[Macro], options: &Options) -> (t: Task)
    requires
        recipe.job < JOB_CNT,
    ensures
        task_made_for(t, recipe, count, macros@, *options),
{
    let specialist = options.specialist[recipe.job as usize];
    let id = get_macro_for_recipe(macros, &recipe, specialist);
    let mut task = Task::new(recipe, count);
    task.macro_id = id;
    task
}

/// Where the window stands with the worker.
#[derive(Copy, Clone, Debug, PartialEq, Eq, Structural)]
pub enum WorkerStatus {
    Idle,
    Crafting,
    Stopping,
}

/// The worker's state as the window sees it after `response`: progress
/// means crafting (unless a stop was asked for, which stands until the
/// worker is idle), and the end of the work means idle.
pub fn worker_after(w: WorkerStatus, response: &Response) -> (r: WorkerStatus)
    ensures
        r == match response {
            Response::Craft(_) => if w == WorkerStatus::Stopping {
                WorkerStatus::Stopping
            } else {
                WorkerStatus::Crafting
            },
            Response::Idle => WorkerStatus::Idle,
            _ => w,
        },
{
    match response {
        Response::Craft(_) => {
            if w == WorkerStatus::Stopping {
                WorkerStatus::Stopping
            } else {
                WorkerStatus::Crafting
            }
        },
        Response::Idle => WorkerStatus::Idle,
        _ => w,
    }
}

/// A message to show in a pop-up, and whether one is to be shown.
#[derive(Clone, Debug)]
pub struct ModalText {
    pub has_msg: bool,
    pub title: String,
    pub msg: String,
}

/// What the window keeps between frames.
#[derive(Debug)]
pub struct GuiState {
    pub worker: WorkerStatus,
    pub craft_status: Option<Vec<Status>>,
    pub modal_popup: ModalText,
    /// The item search text.
    pub search_str: String,
    /// The job picked for the search.
    pub search_job: usize,
    pub show_configuration_window: bool,
    pub task_list_modification: Option<TaskListModification>,
    pub should_exit: bool,
}

/// The title of the pop-up for a search that found nothing.
pub open spec fn not_found_title() -> Seq<char> {
    "Item not found"@
}

/// The title of the pop-up for a job with no gear set.
pub open spec fn gear_title() -> Seq<char> {
    "Unconfigured gear sets"@
}

impl GuiState {
    /// The state of a window just opened: the worker idle, nothing to show.
    pub fn new() -> (s: GuiState)
        ensures
            s.worker == WorkerStatus::Idle,
            s.craft_status is None,
            !s.modal_popup.has_msg,
            s.modal_popup.title@.len() == 0,
            s.modal_popup.msg@.len() == 0,
            s.search_str@.len() == 0,
            s.search_job == 0,
            !s.show_configuration_window,
            s.task_list_modification is None,
            !s.should_exit,
    {
        GuiState {
            worker: WorkerStatus::Idle,
            craft_status: None,
            modal_popup: ModalText { has_msg: false, title: String::new(), msg: String::new() },
            search_str: String::new(),
            search_job: 0,
            show_configuration_window: false,
            task_list_modification: None,
            should_exit: false,
        }
    }

    /// Sets the pop-up to show `title` and `msg` on the next frame.
    pub fn set_modal_text(&mut self, title: &str, msg: &str)
        ensures
            final(self).modal_popup.has_msg,
            final(self).modal_popup.title@ == title@,
            final(self).modal_popup.msg@ == msg@,
            *final(self) == (GuiState { modal_popup: final(self).modal_popup, ..*old(self) }),
    {
        self.modal_popup.title = title.to_string();
        self.modal_popup.msg = msg.to_string();
        self.modal_popup.has_msg = true;
    }

    /// Sets the pop-up to say that a feature is not there yet.
    pub fn display_unimplemented(&mut self)
        ensures
            final(self).modal_popup.has_msg,
            final(self).modal_popup.title@ == "Unimplemented"@,
            final(self).modal_popup.msg@ == "This feature is not yet implemented, sorry!"@,
            final(self).worker == old(self).worker,
    {
        self.set_modal_text("Unimplemented", "This feature is not yet implemented, sorry!");
    }

    /// Takes down the pop-up (its `Ok` button).
    pub fn dismiss_modal(&mut self)
        ensures
            !final(self).modal_popup.has_msg,
            final(self).worker == old(self).worker,
            final(self).search_job == old(self).search_job,
    {
        self.modal_popup.has_msg = false;
    }

    /// Asks the worker to stop (its `Stop` button); the window waits for the
    /// work under way to end.
    pub fn stop(&mut self)
        ensures
            final(self).worker == WorkerStatus::Stopping,
            final(self).craft_status == old(self).craft_status,
    {
        self.worker = WorkerStatus::Stopping;
    }

    /// Takes in a reply of the worker: a recipe found becomes a task at the
    /// end of the list, one not found shows a pop-up, progress is kept for
    /// the progress window (and shows crafting, unless a stop was asked
    /// for), and the end of the work makes the worker idle again. An error
    /// changes nothing.
    pub fn receive(&mut self, response: Response, tasks: &mut Vec<Task>, macros: &[Macro], options: &Options)
        requires
            old(self).search_job < JOB_CNT,
            response matches Response::Recipe { recipe: Some(r), .. } ==> r.job < JOB_CNT,
        ensures
            final(self).search_job == old(self).search_job,
            final(self).search_str@ == old(self).search_str@,
            final(self).task_list_modification == old(self).task_list_modification,
            final(self).show_configuration_window == old(self).show_configuration_window,
            final(self).should_exit == old(self).should_exit,
            match response {
                Response::Recipe { recipe: Some(r), count } => {
                    &&& final(tasks)@.len() == old(tasks)@.len() + 1
                    &&& final(tasks)@.take(old(tasks)@.len() as int) == old(tasks)@
                    &&& task_made_for(final(tasks)@.last(), r, count, macros@, *options)
                    &&& final(self).worker == old(self).worker
                    &&& final(self).craft_status == old(self).craft_status
                    &&& final(self).modal_popup == old(self).modal_popup
                },
                Response::Recipe { recipe: None, .. } => {
                    &&& final(tasks)@ == old(tasks)@
                    &&& final(self).modal_popup.has_msg
                    &&& final(self).modal_popup.title@ == not_found_title()
                    &&& final(self).modal_popup.msg@ == "No "@ + job_abbreviation(old(self).search_job as int)@
                        + " results found on XIVApi for \""@ + old(self).search_str@ + "\""@
                    &&& final(self).worker == old(self).worker
                    &&& final(self).craft_status == old(self).craft_status
                },
                Response::Craft(status) => {
                    &&& final(tasks)@ == old(tasks)@
                    &&& final(self).worker == (if old(self).worker == WorkerStatus::Stopping {
                        WorkerStatus::Stopping
                    } else {
                        WorkerStatus::Crafting
                    })
                    &&& final(self).craft_status == Some(status)
                    &&& final(self).modal_popup == old(self).modal_popup
                },
                Response::Idle => {
                    &&& final(tasks)@ == old(tasks)@
                    &&& final(self).worker == WorkerStatus::Idle
                    &&& final(self).craft_status is None
                    &&& final(self).modal_popup == old(self).modal_popup
                },
                Response::Error(_) => {
                    &&& final(tasks)@ == old(tasks)@
                    &&& final(self).worker == old(self).worker
                    &&& final(self).craft_status == old(self).craft_status
                    &&& final(self).modal_popup == old(self).modal_popup
                },
            },
    {
        match response {
            Response::Recipe { recipe, count } => {
                match recipe {
                    Some(r) => {
                        let task = task_for_recipe(r, count, macros, options);
                        let ghost before = tasks@;
                        tasks.push(task);
                        assert(tasks@.take(before.len() as int) == before);
                    },
                    None => {
                        let msg = not_found_message(self.search_job, self.search_str.as_str());
                        self.set_modal_text("Item not found", msg.as_str());
                    },
                }
            },
            Response::Craft(status) => {
                self.worker = if self.worker == WorkerStatus::Stopping {
                    WorkerStatus::Stopping
                } else {
                    WorkerStatus::Crafting
                };
                self.craft_status = Some(status);
            },
            Response::Idle => {
                self.worker = WorkerStatus::Idle;
                self.craft_status = None;
            },
            Response::Error(_) => {},
        }
    }

    /// Makes the change of the task list asked for during the last frame,
    /// if any, and forgets it.
    pub fn apply_task_list_modification(&mut self, tasks: &mut Vec<Task>)
        requires
            old(self).task_list_modification matches Some(m) ==> modification_valid(m, old(tasks)@.len()),
        ensures
            final(self).task_list_modification is None,
            match old(self).task_list_modification {
                Some(m) => final(tasks)@ == modified(old(tasks)@, m),
                None => final(tasks)@ == old(tasks)@,
            },
            final(self).worker == old(self).worker,
            final(self).search_job == old(self).search_job,
    {
        if let Some(m) = self.task_list_modification {
            apply_modification(tasks, m);
        }
        self.task_list_modification = None;
    }

    /// Whether every task's job has a gear set; where one has not, the
    /// pop-up asks for it (the first such job in task order).
    pub fn check_gear_sets(&mut self, options: &Options, tasks: &[Task]) -> (r: bool)
        requires
            forall|i: int| 0 <= i < tasks@.len() ==> (#[trigger] tasks@[i]).recipe.job < JOB_CNT,
        ensures
            r == (forall|i: int|
                0 <= i < tasks@.len() ==> options.gear@[(#[trigger] tasks@[i]).recipe.job as int] != 0),
            r ==> final(self).modal_popup == old(self).modal_popup,
            !r ==> exists|job: u32| {
                &&& first_unconfigured(*options, tasks@, job)
                &&& final(self).modal_popup.has_msg
                &&& final(self).modal_popup.title@ == gear_title()
                &&& final(self).modal_popup.msg@ == "Please set a gear set for "@ + job_abbreviation(job as int)@
                    + " to continue"@
            },
            final(self).worker == old(self).worker,
            final(self).search_job == old(self).search_job,
    {
        match unconfigured_gear_job(options, tasks) {
            None => true,
            Some(job) => {
                proof {
                    let i = choose|i: int|
                        0 <= i < tasks@.len() && tasks@[i].recipe.job == job && options.gear@[job as int] == 0
                            && forall|j: int| 0 <= j < i ==> options.gear@[#[trigger] tasks@[j].recipe.job as int] != 0;
                    assert(job < JOB_CNT);
                    assert(!(options.gear@[tasks@[i].recipe.job as int] != 0));
                }
                let msg = gear_message(job as usize);
                self.set_modal_text("Unconfigured gear sets", msg.as_str());
                false
            },
        }
    }

    /// The search the `Add` button asks the worker for: the item text, for
    /// the job picked (its index cut to 32 bits), once.
    pub fn search_request(&self) -> (r: Request)
        ensures
            r matches Request::Recipe { item, job, count } && item@ == self.search_str@ && job == Some(
                self.search_job as u32,
            ) && count == 1,
    {
        Request::Recipe { item: self.search_str.clone(), job: Some(#[verifier::truncate] (self.search_job as u32)), count: 1 }
    }
}

/// The searches for the items of a list pasted in: each item's recipe for
/// any job, as many times as listed.
pub fn import_requests(items: &[ListItem]) -> (r: Vec<Request>)
    ensures
        r@.len() == items@.len(),
        forall|i: int|
            0 <= i < items@.len() ==> ((#[trigger] r@[i]) matches Request::Recipe { item, job, count }
                && item@ == items@[i].item@ && job is None && count == items@[i].count),
{
    let mut r: Vec<Request> = Vec::new();
    let mut i: usize = 0;
    while i < items.len()
        invariant
            i <= items@.len(),
            r@.len() == i,
            forall|j: int|
                0 <= j < i ==> ((#[trigger] r@[j]) matches Request::Recipe { item, job, count } && item@
                    == items@[j].item@ && job is None && count == items@[j].count),
        decreases items@.len() - i,
    {
        r.push(Request::Recipe { item: items[i].item.clone(), job: None, count: items[i].count });
        i += 1;
    }
    r
}

/// The label of a task's progress bar: `{name} {finished}/{total}`.
pub fn progress_label(s: &Status) -> (r: String)
    ensures
        r@ == s.name@ + " "@ + digits_in_base(s.finished as nat, 10) + "/"@ + digits_in_base(s.total as nat, 10),
{
    let mut r = s.name.clone();
    push_str(&mut r, " ");
    push_digits(&mut r, s.finished as u64, 10);
    push_str(&mut r, "/");
    push_digits(&mut r, s.total as u64, 10);
    r
}

} // verus!
