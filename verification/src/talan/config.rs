//! The assistant's settings.
use vstd::prelude::*;
use crate::talan::task::Task;
use crate::xiv::JOB_CNT;

verus! {

/// The crafting options.
#[derive(Copy, Clone, PartialEq, Debug)]
pub struct Options {
    /// The gear set of each job (0: none configured).
    pub gear: [i32; 8],
    /// Whether the player is a specialist of each job.
    pub specialist: [bool; 8],
    pub should_clear_window_on_craft: bool,
    pub remove_finished_tasks: bool,
    pub use_trial_synthesis: bool,
}

impl Default for Options {
    fn default() -> (o: Self)
        ensures
            forall|i: int| 0 <= i < JOB_CNT ==> o.gear@[i] == 0 && !o.specialist@[i],
            !o.use_trial_synthesis,
            o.should_clear_window_on_craft,
            o.remove_finished_tasks,
    {
        Options {
            gear: [0, 0, 0, 0, 0, 0, 0, 0],
            specialist: [false, false, false, false, false, false, false, false],
            use_trial_synthesis: false,
            should_clear_window_on_craft: true,
            remove_finished_tasks: true,
        }
    }
}

/// A placeholder for macros kept in the settings.
#[derive(Copy, Clone, PartialEq, Debug, Default)]
pub struct Macro {}

/// The settings as saved: options, the task list and macros.
#[derive(Clone, PartialEq, Debug)]
pub struct Config {
    pub version: u32,
    pub options: Options,
    pub tasks: Vec<Task>,
    pub macros: Vec<Macro>,
}

impl Default for Config {
    fn default() -> (c: Self)
        ensures
            c.version == 0,
            forall|i: int| 0 <= i < JOB_CNT ==> c.options.gear@[i] == 0 && !c.options.specialist@[i],
            !c.options.use_trial_synthesis,
            c.options.should_clear_window_on_craft,
            c.options.remove_finished_tasks,
            c.tasks@.len() == 0,
            c.macros@.len() == 0,
    {
        Config { version: 0, options: Options::default(), tasks: Vec::new(), macros: Vec::new() }
    }
}

/// The name of the settings file.
pub const DEFAULT_CONFIG_FILE: &'static str = "config.json";

} // verus!
