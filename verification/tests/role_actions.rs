use xivtools::cli::role_actions::RoleActions as CliRoleActions;
use xivtools::talan::role_actions::RoleActions;

#[test]
fn test_role_actions() {
    let mut ra = CliRoleActions::new();
    ra.add_action("Tricks of the Trade");
    ra.add_action("Byregot's Blessing");
    ra.add_action("Tricks of the Trade");
    assert_eq!(2, ra.count());
    ra.add_action("ingenuity ii");
    ra.add_action("ingenuity");
    ra.add_action("innovation");
    ra.add_action("maker's mark");
    ra.add_action("manipulation");
    ra.add_action("muscle memory");
    ra.add_action("name of earth");
    ra.add_action("name of fire");
    ra.add_action("name of ice");
    ra.add_action("name of lightning");
    assert_eq!(10, ra.count());
    assert_eq!(false, ra.contains("Tricks of the Trade"));
    assert_eq!(false, ra.contains("Byregot's Blessing"));
    println!("{:?}", ra);
}

#[test]
fn cli_role_action_names_any_case() {
    let ra = CliRoleActions::new();
    assert!(ra.is_role_action("INNOVATION"));
    assert!(ra.is_role_action("Name Of Wind"));
    assert!(!ra.is_role_action("Basic Synthesis"));
}

#[test]
fn cli_role_action_reuse_moves_to_back() {
    let mut ra = CliRoleActions::new();
    assert_eq!(ra.add_action("reclaim"), Some(None));
    assert_eq!(ra.add_action("innovation"), Some(None));
    // Using reclaim again makes innovation the oldest.
    assert_eq!(ra.add_action("reclaim"), None);
    for a in ["rumination", "waste not", "waste not ii", "hasty touch", "ingenuity", "ingenuity ii", "comfort zone", "manipulation"] {
        assert_eq!(ra.add_action(a), Some(None));
    }
    assert_eq!(ra.count(), 10);
    assert_eq!(ra.add_action("muscle memory"), Some(Some("innovation".to_string())));
    assert!(ra.contains("reclaim"));
    assert_eq!(ra.add_action("piece by piece"), Some(Some("reclaim".to_string())));
}

#[test]
fn role_actions() {
    let mut ra = RoleActions::new();
    ra.add_action("tricks of the trade");
    ra.add_action("reclaim");
    assert_eq!(2, ra.count());
    ra.add_action("ingenuity ii");
    ra.add_action("ingenuity");
    ra.add_action("innovation");
    ra.add_action("maker's mark");
    ra.add_action("manipulation");
    ra.add_action("muscle memory");
    ra.add_action("waste not ii");
    ra.add_action("hasty touch");
    assert_eq!(10, ra.count());
    ra.add_action("careful synthesis ii");
    assert_eq!(false, ra.contains("tricks of the trade"));
    assert_eq!(10, ra.count());
    ra.add_action("rumination");
    assert_eq!(false, ra.contains("reclaim"));
    assert_eq!(10, ra.count());
}

#[test]
fn role_action_set_twice_changes_nothing() {
    let mut ra = RoleActions::new();
    assert_eq!(ra.add_action("reclaim"), Some(None));
    assert_eq!(ra.add_action("innovation"), Some(None));
    assert_eq!(ra.add_action("reclaim"), None);
    assert_eq!(ra.count(), 2);
    assert!(ra.is_role_action("waste not"));
    assert!(!ra.is_role_action("Waste Not"));
}

#[test]
fn cli_role_action_checked_form() {
    let mut ra = CliRoleActions::new();
    assert_eq!(ra.try_add_action("Basic Synthesis"), None);
    assert_eq!(ra.count(), 0);
    assert_eq!(ra.try_add_action("Steady Hand II"), Some(Some(None)));
    assert!(ra.contains("Steady Hand II"));
}
