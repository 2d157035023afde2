//! The messages between the window and the background worker, and the
//! worker's decisions. The worker's thread receives a request, asks for
//! what the decision names (a recipe search, a run of crafts) and sends the
//! reply.
use vstd::prelude::*;
use crate::talan::config::Options;
use crate::talan::macros::Macro;
use crate::talan::recipe::{Recipe, first_wanted, recipe_from_api, recipe_wanted, factors_fit};
use crate::talan::task::{Status, Task};
use crate::text::push_str;
use crate::xivapi::ApiRecipe;

verus! {

/// A request to the worker.
#[derive(Debug)]
pub enum Request {
    /// Search the recipe of `item`, for `job` where one is given, to craft
    /// `count` times.
    Recipe { item: String, job: Option<u32>, count: u32 },
    /// The macros to craft with from now on.
    Macros(Vec<Macro>),
    /// Craft `tasks` with `options`.
    Craft { options: Options, tasks: Vec<Task> },
    /// Stop the crafting under way.
    StopCrafting,
}

/// A reply of the worker.
#[derive(Debug)]
pub enum Response {
    Error(String),
    /// The recipe found, if any, and the count asked for.
    Recipe { recipe: Option<Recipe>, count: u32 },
    /// The progress of every task after an item is done.
    Craft(Vec<Status>),
    /// The end of the work asked for.
    Idle,
}

/// What the worker does for a request.
#[derive(Debug)]
pub enum WorkerStep {
    /// Search the recipe database for `item` and reply with the recipe.
    Query { item: String, job: Option<u32>, count: u32 },
    /// Craft the tasks, reporting progress, then reply `Idle`.
    Craft { options: Options, tasks: Vec<Task> },
    /// Nothing to reply.
    Nothing,
    /// Reply with this error.
    Reject(String),
}

/// The worker's state: the macros it crafts with.
pub struct Worker {
    pub macros: Vec<Macro>,
}

impl Request {
    /// A short description of the request for logs.
    pub fn describe(&self) -> (r: String)
        ensures
            r@ == match self {
                Request::Recipe { item, .. } => "Request::Recipe("@ + item@ + ")"@,
                Request::Macros(_) => "Request::Macros"@,
                Request::Craft { .. } => "Request::Craft"@,
                Request::StopCrafting => "Request::StopCrafting"@,
            },
    {
        match self {
            Request::Recipe { item, .. } => {
                let mut r = "Request::Recipe(".to_string();
                push_str(&mut r, item.as_str());
                push_str(&mut r, ")");
                r
            },
            Request::Macros(_) => "Request::Macros".to_string(),
            Request::Craft { .. } => "Request::Craft".to_string(),
            Request::StopCrafting => "Request::StopCrafting".to_string(),
        }
    }
}

impl Response {
    /// A short description of the reply for logs.
    pub fn describe(&self) -> (r: String)
        ensures
            r@ == match self {
                Response::Error(s) => "Response::Error(\""@ + s@ + "\")"@,
                Response::Recipe { recipe, .. } => if recipe is Some {
                    "Response::Recipe(true)"@
                } else {
                    "Response::Recipe(false)"@
                },
                Response::Craft(_) => "Response::Craft"@,
                Response::Idle => "Response::Idle"@,
            },
    {
        match self {
            Response::Error(s) => {
                let mut r = "Response::Error(\"".to_string();
                push_str(&mut r, s.as_str());
                push_str(&mut r, "\")");
                r
            },
            Response::Recipe { recipe, .. } => {
                if recipe.is_some() {
                    "Response::Recipe(true)".to_string()
                } else {
                    "Response::Recipe(false)".to_string()
                }
            },
            Response::Craft(_) => "Response::Craft".to_string(),
            Response::Idle => "Response::Idle".to_string(),
        }
    }
}

/// The error a request that the worker does not take outside a run of
/// crafts is answered with.
pub open spec fn unexpected_text() -> Seq<char> {
    "Unexpected RPC received: StopCrafting"@
}

impl Worker {
    /// A worker with no macros yet.
    pub fn new() -> (w: Worker)
        ensures
            w.macros@.len() == 0,
    {
        Worker { macros: Vec::new() }
    }

    /// Decides what to do for `request`: a search for a recipe, a run of
    /// crafts, keeping new macros, or an error for a stop order received
    /// while no craft runs.
    pub fn handle(&mut self, request: Request) -> (r: WorkerStep)
        ensures
            match request {
                Request::Recipe { item, job, count } => r == (WorkerStep::Query { item, job, count })
                    && final(self).macros@ == old(self).macros@,
                Request::Macros(m) => r is Nothing && final(self).macros@ == m@,
                Request::Craft { options, tasks } => r == (WorkerStep::Craft { options, tasks })
                    && final(self).macros@ == old(self).macros@,
                Request::StopCrafting => (match r {
                    WorkerStep::Reject(e) => e@ == unexpected_text(),
                    _ => false,
                }) && final(self).macros@ == old(self).macros@,
            },
    {
        match request {
            Request::Recipe { item, job, count } => WorkerStep::Query { item, job, count },
            Request::Macros(m) => {
                self.macros = m;
                WorkerStep::Nothing
            },
            Request::Craft { options, tasks } => WorkerStep::Craft { options, tasks },
            Request::StopCrafting => WorkerStep::Reject("Unexpected RPC received: StopCrafting".to_string()),
        }
    }
}

/// The reply to a recipe search for `item` (for `job` where one is given)
/// whose query gave `results` (`None` where the query failed): the first
/// recipe that is wanted, or none. `None` where the wanted recipe's amounts
/// do not fit the recipe's integer types.
pub fn recipe_response(results: Option<&[ApiRecipe]>, item: &str, job: Option<u32>, count: u32) -> (r: Option<
    Response,
>)
    ensures
        match results {
            None => r == Some(Response::Recipe { recipe: None, count }),
            Some(res) => match r {
                None => exists|i: int| first_wanted(res@, item@, job, i) && !factors_fit(#[trigger] res@[i]),
                Some(Response::Recipe { recipe: Some(rec), count: c }) => c == count && exists|i: int|
                    first_wanted(res@, item@, job, i) && recipe_from_api(rec, #[trigger] res@[i], i),
                Some(Response::Recipe { recipe: None, count: c }) => c == count && forall|i: int|
                    0 <= i < res@.len() ==> !recipe_wanted(#[trigger] res@[i], item@, job, res@.len()),
                _ => false,
            },
        },
{
    match results {
        None => Some(Response::Recipe { recipe: None, count }),
        Some(res) => match Recipe::try_filter(res, item, job) {
            None => None,
            Some(recipe) => Some(Response::Recipe { recipe, count }),
        },
    }
}

/// Whether a run of crafts goes on, given what was received from the
/// window since the last check: everything but a stop order is passed over.
pub fn continue_crafting(received: &Option<Request>) -> (r: bool)
    ensures
        r == !(received matches Some(Request::StopCrafting)),
{
    match received {
        Some(Request::StopCrafting) => false,
        _ => true,
    }
}

} // verus!
