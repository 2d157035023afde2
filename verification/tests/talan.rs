use xivtools::input::{Input, Key};
use xivtools::talan::action::{lookup_action, Action};
use xivtools::talan::config::{Config, Options};
use xivtools::talan::craft::{
    end_synthesis, finish_task, next_action_delay, queue_action, select_materials, Crafter, GCD_PADDING,
};
use xivtools::talan::gui::{
    import_requests, modification_fits, progress_label, GuiState,
    apply_modification, gear_from_input, gear_message, material_from_input, not_found_message,
    quantity_from_input, set_specialist, task_for_recipe, unconfigured_gear_job, worker_after,
    TaskListModification, WorkerStatus,
};
use xivtools::talan::lists::ListItem;
use xivtools::talan::macros::{
    parse_line as talan_parse_line,
    get_macro_for_recipe, read_macros_from_toml, Macro, MacroFileToml, MacroToml,
};
use xivtools::talan::recipe::{Recipe, RecipeMaterial};
use xivtools::talan::rpc::{continue_crafting, recipe_response, Request, Response, Worker, WorkerStep};
use xivtools::talan::task::{MaterialCount, Status, Task};
use xivtools::xiv::ui::UiPlan;
use xivtools::xivapi::{ApiRecipe, CraftType, GameContentLinks, ItemIngredient, RecipeLevelTable};

fn toml_macro(name: &str, durability: Vec<u32>, actions: &str) -> MacroToml {
    MacroToml {
        name: name.to_string(),
        durability,
        max_rlvl: None,
        min_rlvl: None,
        difficulty: None,
        specialist: None,
        actions: actions.to_string(),
    }
}

fn plain_recipe(durability: u32) -> Recipe {
    Recipe {
        durability,
        difficulty: 0,
        quality: 0,
        result_amount: 1,
        level: 0,
        specialist: false,
        id: 0,
        index: 0,
        job: 0,
        mats: Vec::new(),
        name: "35".to_string(),
    }
}

#[test]
fn multiple_durability() {
    let file = MacroFileToml {
        xiv_macro: vec![
            toml_macro("35 60", vec![35, 60], ""),
            toml_macro("80", vec![80], ""),
            toml_macro("40 70", vec![40, 70], ""),
        ],
    };
    let recipe_35 = plain_recipe(35);
    let mut recipe_40 = recipe_35.clone();
    let mut recipe_60 = recipe_35.clone();
    let mut recipe_70 = recipe_35.clone();
    let mut recipe_80 = recipe_35.clone();
    recipe_40.durability = 40;
    recipe_60.durability = 60;
    recipe_70.durability = 70;
    recipe_80.durability = 80;
    let mut macros = Vec::new();
    assert!(read_macros_from_toml(&file, &mut macros).is_ok());
    assert!(get_macro_for_recipe(&macros, &recipe_35, false) == 0);
    assert!(get_macro_for_recipe(&macros, &recipe_40, false) == 2);
    assert!(get_macro_for_recipe(&macros, &recipe_60, false) == 0);
    assert!(get_macro_for_recipe(&macros, &recipe_70, false) == 2);
    assert!(get_macro_for_recipe(&macros, &recipe_80, false) == 1);
}

#[test]
fn macro_file_keeps_fields_and_actions() {
    let mut m = toml_macro("quick", vec![40], "/ac Innovation\n# note\n/ac \"Great Strides\" <wait.2>");
    m.specialist = Some(true);
    m.max_rlvl = Some(70);
    let file = MacroFileToml { xiv_macro: vec![m] };
    let mut macros = Vec::new();
    assert!(read_macros_from_toml(&file, &mut macros).is_ok());
    assert_eq!(macros.len(), 1);
    assert_eq!(macros[0].name, "quick");
    assert_eq!(macros[0].gui_name, "quick");
    assert!(macros[0].specialist);
    assert_eq!(macros[0].max_rlvl, Some(70));
    assert_eq!(macros[0].actions.len(), 2);
    assert_eq!(macros[0].actions[0].name, "Innovation");
    assert_eq!(macros[0].actions[1].name, "Great Strides");
}

#[test]
fn macro_file_stops_at_a_bad_macro() {
    let file = MacroFileToml {
        xiv_macro: vec![toml_macro("good", vec![40], "/ac Innovation"), toml_macro("bad", vec![40], "/ac Nonsense")],
    };
    let mut macros = Vec::new();
    assert!(read_macros_from_toml(&file, &mut macros).is_err());
    assert_eq!(macros.len(), 1);
}

#[test]
fn macro_best_match_prefers_more_parameters() {
    let mut specific = toml_macro("specific", vec![80], "");
    specific.max_rlvl = Some(90);
    specific.difficulty = Some(5);
    let file = MacroFileToml { xiv_macro: vec![toml_macro("plain", vec![80], ""), specific] };
    let mut macros = Vec::new();
    assert!(read_macros_from_toml(&file, &mut macros).is_ok());
    let mut r = plain_recipe(80);
    r.difficulty = 5;
    r.level = 50;
    assert_eq!(get_macro_for_recipe(&macros, &r, false), 1);
    r.difficulty = 6;
    assert_eq!(get_macro_for_recipe(&macros, &r, false), 0);
    r.durability = 10;
    assert_eq!(get_macro_for_recipe(&macros, &r, false), 0);
}

fn action_macro(actions: Vec<Action>) -> Macro {
    Macro {
        name: "m".to_string(),
        gui_name: "m".to_string(),
        durability: vec![40],
        max_rlvl: None,
        min_rlvl: None,
        difficulty: None,
        specialist: false,
        actions,
    }
}

fn mats_recipe() -> Recipe {
    Recipe {
        durability: 40,
        difficulty: 100,
        quality: 200,
        result_amount: 1,
        level: 10,
        specialist: false,
        id: 7,
        index: 2,
        job: 1,
        mats: vec![
            RecipeMaterial { id: 30, count: 2, name: "Iron Ore".to_string() },
            RecipeMaterial { id: 31, count: 1, name: "Coke".to_string() },
        ],
        name: "Iron Ingot".to_string(),
    }
}

#[test]
fn task_new_and_estimate() {
    let mut t = Task::new(mats_recipe(), 3);
    assert_eq!(t.quantity, 3);
    assert_eq!(t.macro_id, 0);
    assert_eq!(t.mat_quality, vec![MaterialCount { nq: 2, hq: 0 }, MaterialCount { nq: 1, hq: 0 }]);
    let innovation = lookup_action(&"innovation".chars().collect()).unwrap();
    let strides = lookup_action(&"great strides".chars().collect()).unwrap();
    let macros = vec![action_macro(vec![innovation, strides])];
    t.update_estimate(&macros);
    // (1500 + 1500 ms of actions + 5000 ms per item) * 3 items
    assert_eq!(t.estimate, (innovation.wait_ms as u32 + strides.wait_ms as u32 + 5000) * 3);
    let s = Status::from(&t);
    assert_eq!(s.name, "Iron Ingot");
    assert_eq!(s.finished, 0);
    assert_eq!(s.total, 3);
}

fn key(k: Key) -> Vec<Input> {
    vec![Input::KeyDown(k), Input::KeyUp(k), Input::Wait(50)]
}

fn text(s: &str) -> Vec<Input> {
    let mut v = Vec::new();
    for c in s.chars() {
        v.push(Input::Char(c));
        v.push(Input::Wait(50));
    }
    v
}

#[test]
fn hq_materials_walk_up_then_back_down() {
    let mut t = Task::new(mats_recipe(), 1);
    t.specify_materials = true;
    t.mat_quality = vec![MaterialCount { nq: 1, hq: 1 }, MaterialCount { nq: 1, hq: 0 }];
    let mut p = UiPlan::new(false);
    select_materials(&mut p, &t);
    let mut want = Vec::new();
    want.extend(key(Key::Up));
    want.extend(key(Key::Right));
    want.extend(key(Key::Right));
    // bottom material: no HQ, one unit still wanted above, so move up
    want.extend(key(Key::Up));
    // top material: one HQ unit, then back down past both
    want.extend(key(Key::Confirm));
    want.extend(key(Key::Down));
    want.extend(key(Key::Down));
    assert_eq!(p.inputs, want);
}

#[test]
fn no_hq_materials_plan_nothing() {
    let mut t = Task::new(mats_recipe(), 1);
    t.specify_materials = true;
    let mut p = UiPlan::new(false);
    select_materials(&mut p, &t);
    assert!(p.inputs.is_empty());
}

#[test]
fn crafter_runs_tasks_in_steps() {
    let mut options = Options::default();
    options.gear[1] = 4;
    options.should_clear_window_on_craft = false;
    options.use_trial_synthesis = true;
    let tasks = vec![Task::new(mats_recipe(), 2)];
    let strides = lookup_action(&"great strides".chars().collect()).unwrap();
    let macros = vec![action_macro(vec![strides])];
    let mut c = Crafter::new(&options, &macros, &tasks);
    assert_eq!(c.job, 256);
    assert_eq!(c.status.len(), 1);
    let mut p = UiPlan::new(false);
    c.start(&mut p);
    assert!(p.inputs.is_empty());
    c.begin_task(0, &mut p);
    assert_eq!(c.job, 1);
    let mut want = Vec::new();
    want.extend(key(Key::Enter));
    want.extend(text("/gearset change 4"));
    want.push(Input::Wait(500));
    want.extend(key(Key::Enter));
    want.push(Input::Wait(1000));
    want.extend(key(Key::Code(78)));
    want.push(Input::Wait(1000));
    for _ in 0..3 {
        want.extend(key(Key::Backward));
    }
    want.extend(key(Key::Confirm));
    want.push(Input::Wait(1000));
    want.extend(text("Iron Ingot"));
    want.extend(key(Key::Enter));
    want.push(Input::Wait(1000));
    want.extend(key(Key::Down));
    want.extend(key(Key::Down));
    want.extend(key(Key::Confirm));
    assert_eq!(p.inputs, want);

    // Same job again: no gear change.
    let mut p2 = UiPlan::new(false);
    c.begin_task(0, &mut p2);
    assert_eq!(p2.inputs[..3], key(Key::Code(78))[..]);

    let mut p3 = UiPlan::new(false);
    c.begin_synthesis(&mut p3);
    let mut want3 = key(Key::Left);
    want3.extend(key(Key::Left));
    want3.extend(key(Key::Confirm));
    assert_eq!(p3.inputs, want3);

    let actions = c.task_actions(0);
    assert_eq!(actions.len(), 1);
    let mut p4 = UiPlan::new(false);
    queue_action(&mut p4, &actions[0]);
    let mut want4 = key(Key::Enter);
    want4.extend(text("/ac \"Great Strides\""));
    assert_eq!(p4.inputs, want4);
    assert_eq!(next_action_delay(&actions[0]), actions[0].wait_ms + GCD_PADDING);

    let mut p5 = UiPlan::new(false);
    end_synthesis(&mut p5);
    let mut want5 = vec![Input::Wait(3000)];
    want5.extend(key(Key::Confirm));
    assert_eq!(p5.inputs, want5);

    let mut p6 = UiPlan::new(false);
    c.finish_item(0, &mut p6);
    c.finish_item(0, &mut p6);
    assert_eq!(c.status[0].finished, 2);
    assert_eq!(p6.inputs, vec![Input::Wait(2000), Input::Wait(2000)]);

    let mut p7 = UiPlan::new(false);
    finish_task(&mut p7);
    let mut want7 = key(Key::Escape);
    want7.push(Input::Wait(2000));
    assert_eq!(p7.inputs, want7);
}

#[test]
fn crafter_clears_window_first_when_asked() {
    let options = Options::default();
    let tasks: Vec<Task> = Vec::new();
    let macros: Vec<Macro> = Vec::new();
    let c = Crafter::new(&options, &macros, &tasks);
    let mut p = UiPlan::new(false);
    c.start(&mut p);
    // 2 x (32 backspaces + enter) + 4 escapes + 13 cancels, three inputs each
    assert_eq!(p.inputs.len(), 3 * (2 * 33 + 4 + 13));
}

#[test]
fn task_list_moves_and_deletes() {
    let names = ["a", "b", "c"];
    let mut tasks: Vec<Task> = names
        .iter()
        .map(|n| {
            let mut r = mats_recipe();
            r.name = n.to_string();
            Task::new(r, 1)
        })
        .collect();
    let order = |ts: &Vec<Task>| ts.iter().map(|t| t.recipe.name.clone()).collect::<Vec<_>>();
    apply_modification(&mut tasks, TaskListModification::MoveDown(0));
    assert_eq!(order(&tasks), vec!["b", "a", "c"]);
    apply_modification(&mut tasks, TaskListModification::MoveUp(1));
    assert_eq!(order(&tasks), vec!["a", "b", "c"]);
    apply_modification(&mut tasks, TaskListModification::MoveUp(2));
    assert_eq!(order(&tasks), vec!["a", "c", "b"]);
    apply_modification(&mut tasks, TaskListModification::Delete(0));
    assert_eq!(order(&tasks), vec!["c", "b"]);
}

#[test]
fn window_inputs_are_clamped() {
    assert_eq!(quantity_from_input(0), 1);
    assert_eq!(quantity_from_input(5), 5);
    assert_eq!(quantity_from_input(-1), u32::MAX);
    assert_eq!(material_from_input(1, 3), MaterialCount { nq: 2, hq: 1 });
    assert_eq!(material_from_input(9, 3), MaterialCount { nq: 0, hq: 3 });
    assert_eq!(material_from_input(-2, 3), MaterialCount { nq: 0, hq: 3 });
    assert_eq!(gear_from_input(-4), 0);
    assert_eq!(gear_from_input(12), 12);
}

#[test]
fn specialist_limit_of_three() {
    let mut o = Options::default();
    assert!(set_specialist(&mut o, 0, true));
    assert!(set_specialist(&mut o, 1, true));
    assert!(set_specialist(&mut o, 2, true));
    assert!(!set_specialist(&mut o, 3, true));
    assert_eq!(o.specialist, [true, true, true, false, false, false, false, false]);
    assert!(set_specialist(&mut o, 1, false));
    assert!(set_specialist(&mut o, 3, true));
    assert_eq!(o.specialist, [true, false, true, true, false, false, false, false]);
}

#[test]
fn gear_sets_checked_before_crafting() {
    let mut o = Options::default();
    let mut t2 = Task::new(mats_recipe(), 1);
    t2.recipe.job = 5;
    let tasks = vec![Task::new(mats_recipe(), 1), t2];
    assert_eq!(unconfigured_gear_job(&o, &tasks), Some(1));
    o.gear[1] = 2;
    assert_eq!(unconfigured_gear_job(&o, &tasks), Some(5));
    o.gear[5] = 3;
    assert_eq!(unconfigured_gear_job(&o, &tasks), None);
    assert_eq!(gear_message(5), "Please set a gear set for WVR to continue");
    assert_eq!(not_found_message(0, "Pine Lumber"), "No CRP results found on XIVApi for \"Pine Lumber\"");
}

#[test]
fn found_recipe_becomes_a_task_with_its_macro() {
    let file = MacroFileToml {
        xiv_macro: vec![toml_macro("any", vec![70], ""), toml_macro("forty", vec![40], "")],
    };
    let mut macros = Vec::new();
    assert!(read_macros_from_toml(&file, &mut macros).is_ok());
    let t = task_for_recipe(mats_recipe(), 4, &macros, &Options::default());
    assert_eq!(t.quantity, 4);
    assert_eq!(t.macro_id, 1);
}

#[test]
fn worker_status_follows_replies() {
    let progress = Response::Craft(Vec::new());
    assert_eq!(worker_after(WorkerStatus::Idle, &progress), WorkerStatus::Crafting);
    assert_eq!(worker_after(WorkerStatus::Stopping, &progress), WorkerStatus::Stopping);
    assert_eq!(worker_after(WorkerStatus::Stopping, &Response::Idle), WorkerStatus::Idle);
    assert_eq!(worker_after(WorkerStatus::Crafting, &Response::Error("x".to_string())), WorkerStatus::Crafting);
}

#[test]
fn worker_decides_per_request() {
    let mut w = Worker::new();
    match w.handle(Request::Recipe { item: "Cloud Pearl".to_string(), job: Some(5), count: 3 }) {
        WorkerStep::Query { item, job, count } => {
            assert_eq!(item, "Cloud Pearl");
            assert_eq!(job, Some(5));
            assert_eq!(count, 3);
        }
        _ => panic!("unexpected step"),
    }
    assert!(matches!(w.handle(Request::Macros(vec![action_macro(Vec::new())])), WorkerStep::Nothing));
    assert_eq!(w.macros.len(), 1);
    match w.handle(Request::StopCrafting) {
        WorkerStep::Reject(e) => assert_eq!(e, "Unexpected RPC received: StopCrafting"),
        _ => panic!("unexpected step"),
    }
    assert!(!continue_crafting(&Some(Request::StopCrafting)));
    assert!(continue_crafting(&Some(Request::Macros(Vec::new()))));
    assert!(continue_crafting(&None));
    assert_eq!(Request::StopCrafting.describe(), "Request::StopCrafting");
    assert_eq!(
        Request::Recipe { item: "Loquat".to_string(), job: None, count: 1 }.describe(),
        "Request::Recipe(Loquat)"
    );
    assert_eq!(Response::Error("oops".to_string()).describe(), "Response::Error(\"oops\")");
    assert_eq!(Response::Recipe { recipe: None, count: 1 }.describe(), "Response::Recipe(false)");
}

fn api_recipe(id: u32, name: &str, job: u32) -> ApiRecipe {
    ApiRecipe {
        ID: id,
        Name: name.to_string(),
        CraftType: CraftType { ID: job },
        RecipeLevelTable: RecipeLevelTable {
            ClassJobLevel: 50,
            Difficulty: 200,
            Durability: 80,
            ID: 1,
            Quality: 1000,
            Stars: 0,
            SuggestedControl: 0,
            SuggestedCraftsmanship: 0,
        },
        AmountIngredient0: 3,
        AmountIngredient1: 0,
        AmountIngredient2: 0,
        AmountIngredient3: 0,
        AmountIngredient4: 0,
        AmountIngredient5: 0,
        AmountResult: 1,
        DifficultyFactor: 50,
        DurabilityFactor: 50,
        QualityFactor: 80,
        IsSpecializationRequired: 0,
        ItemIngredient0: Some(ItemIngredient { Name: "Cotton Boll".to_string(), ID: 5343 }),
        ItemIngredient1: None,
        ItemIngredient2: None,
        ItemIngredient3: None,
        ItemIngredient4: None,
        ItemIngredient5: None,
        GameContentLinks: Some(GameContentLinks { RecipeNotebookList: vec![("Recipe3".to_string(), vec![10])] }),
    }
}

#[test]
fn recipe_filter_picks_first_wanted() {
    let results = vec![api_recipe(1, "Cotton Yarn", 4), api_recipe(2, "cotton yarn", 5)];
    let r = Recipe::filter(&results, "COTTON YARN", Some(5)).unwrap();
    assert_eq!(r.id, 2);
    assert_eq!(r.index, 1);
    assert_eq!(r.job, 5);
    assert_eq!(r.durability, 40);
    assert_eq!(r.difficulty, 100);
    assert_eq!(r.quality, 800);
    assert_eq!(r.mats, vec![RecipeMaterial { id: 5343, count: 3, name: "Cotton Boll".to_string() }]);
    assert_eq!(Recipe::filter(&results, "cotton yarn", None).unwrap().id, 1);
    assert!(Recipe::filter(&results, "cotton yarn", Some(2)).is_none());
    // A single result is taken whatever job was asked for.
    assert_eq!(Recipe::filter(&results[..1], "cotton yarn", Some(2)).unwrap().id, 1);
    match recipe_response(Some(&results), "Cotton Yarn", Some(4), 6) {
        Some(Response::Recipe { recipe: Some(r), count }) => {
            assert_eq!(r.id, 1);
            assert_eq!(count, 6);
        }
        _ => panic!("unexpected reply"),
    }
    assert!(matches!(recipe_response(None, "x", None, 2), Some(Response::Recipe { recipe: None, count: 2 })));
}

#[test]
fn default_config_is_empty() {
    let c = Config::default();
    assert_eq!(c.version, 0);
    assert!(c.tasks.is_empty());
    assert!(c.options.should_clear_window_on_craft);
    assert!(c.options.remove_finished_tasks);
    assert!(!c.options.use_trial_synthesis);
}

#[test]
fn window_state_follows_the_worker() {
    let mut g = GuiState::new();
    assert_eq!(g.worker, WorkerStatus::Idle);
    let options = Options::default();
    let macros: Vec<Macro> = Vec::new();
    let mut tasks: Vec<Task> = Vec::new();
    g.receive(Response::Recipe { recipe: Some(mats_recipe()), count: 2 }, &mut tasks, &macros, &options);
    assert_eq!(tasks.len(), 1);
    assert_eq!(tasks[0].quantity, 2);
    g.search_job = 5;
    g.search_str = "Cloud Pearl".to_string();
    g.receive(Response::Recipe { recipe: None, count: 1 }, &mut tasks, &macros, &options);
    assert_eq!(tasks.len(), 1);
    assert!(g.modal_popup.has_msg);
    assert_eq!(g.modal_popup.title, "Item not found");
    assert_eq!(g.modal_popup.msg, "No WVR results found on XIVApi for \"Cloud Pearl\"");
    g.dismiss_modal();
    assert!(!g.modal_popup.has_msg);
    let s = Status { name: "Iron Ingot".to_string(), finished: 1, total: 2 };
    assert_eq!(progress_label(&s), "Iron Ingot 1/2");
    g.receive(Response::Craft(vec![s]), &mut tasks, &macros, &options);
    assert_eq!(g.worker, WorkerStatus::Crafting);
    assert_eq!(g.craft_status.as_ref().unwrap()[0].finished, 1);
    g.stop();
    g.receive(Response::Craft(Vec::new()), &mut tasks, &macros, &options);
    assert_eq!(g.worker, WorkerStatus::Stopping);
    g.receive(Response::Idle, &mut tasks, &macros, &options);
    assert_eq!(g.worker, WorkerStatus::Idle);
    assert!(g.craft_status.is_none());
    match g.search_request() {
        Request::Recipe { item, job, count } => {
            assert_eq!(item, "Cloud Pearl");
            assert_eq!(job, Some(5));
            assert_eq!(count, 1);
        }
        _ => panic!("unexpected request"),
    }
}

#[test]
fn window_edits_and_checks() {
    let mut g = GuiState::new();
    let mut tasks = vec![Task::new(mats_recipe(), 1), Task::new(plain_recipe(35), 1)];
    g.task_list_modification = Some(TaskListModification::Delete(0));
    g.apply_task_list_modification(&mut tasks);
    assert!(g.task_list_modification.is_none());
    assert_eq!(tasks.len(), 1);
    assert_eq!(tasks[0].recipe.durability, 35);
    g.apply_task_list_modification(&mut tasks);
    assert_eq!(tasks.len(), 1);
    let mut options = Options::default();
    assert!(!g.check_gear_sets(&options, &tasks));
    assert_eq!(g.modal_popup.title, "Unconfigured gear sets");
    assert_eq!(g.modal_popup.msg, "Please set a gear set for CRP to continue");
    options.gear[0] = 1;
    g.dismiss_modal();
    assert!(g.check_gear_sets(&options, &tasks));
    assert!(!g.modal_popup.has_msg);
    let reqs = import_requests(&[ListItem { item: "Loquat".to_string(), count: 3 }]);
    assert_eq!(reqs.len(), 1);
    assert!(matches!(&reqs[0], Request::Recipe { item, job: None, count: 3 } if item == "Loquat"));
}

#[test]
fn macro_line_spellings_agree() {
    for line in [
        "/ac Waste Not II",
        "/ac \"Waste Not II\"",
        "/ac Waste Not II <wait.2>",
        "/ac \"Waste Not II\" <wait.2>",
    ] {
        let a = talan_parse_line(line).unwrap();
        assert_eq!(a.name, "Waste Not II");
        assert_eq!(a.wait_ms, 1500);
    }
}

#[test]
fn macro_line_case_ignored() {
    for line in [
        "/ac byregot's blessing",
        "/ac \"BYREGOT'S BLESSING\"",
        "/ac Byregot's Blessing <wait.3>",
        "/ac \"bYrEgOt's BlEsSiNg\" <wait.2>",
    ] {
        let a = talan_parse_line(line).unwrap();
        assert_eq!(a.name, "Byregot's Blessing");
        assert_eq!(a.wait_ms, 2500);
    }
}

#[test]
fn macro_errors_name_the_problem() {
    assert_eq!(talan_parse_line("ac Innovation").unwrap_err().message(), "Macro is invalid: \"ac Innovation\"");
    assert_eq!(talan_parse_line("/ac Inno-vation").unwrap_err().message(), "Error at character '-'");
    assert_eq!(talan_parse_line("/ac Nothing Here").unwrap_err().message(), "Unknown action name \"Nothing Here\"");
}

#[test]
fn window_unimplemented_popup() {
    let mut g = GuiState::new();
    g.display_unimplemented();
    assert!(g.modal_popup.has_msg);
    assert_eq!(g.modal_popup.title, "Unimplemented");
    assert_eq!(g.modal_popup.msg, "This feature is not yet implemented, sorry!");
}

#[test]
fn modification_fits_the_list() {
    assert!(modification_fits(TaskListModification::MoveUp(1), 2));
    assert!(!modification_fits(TaskListModification::MoveUp(0), 2));
    assert!(!modification_fits(TaskListModification::MoveDown(1), 2));
    assert!(modification_fits(TaskListModification::MoveDown(0), 2));
    assert!(!modification_fits(TaskListModification::Delete(2), 2));
}
