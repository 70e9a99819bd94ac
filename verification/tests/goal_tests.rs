use colmena::goal::Goal;

#[test]
fn goal_parses_every_name() {
    assert_eq!(Goal::from_name("push"), Some(Goal::Push));
    assert_eq!(Goal::from_name("switch"), Some(Goal::Switch));
    assert_eq!(Goal::from_name("boot"), Some(Goal::Boot));
    assert_eq!(Goal::from_name("test"), Some(Goal::Test));
    assert_eq!(Goal::from_name("dry-activate"), Some(Goal::DryActivate));
}

#[test]
fn goal_rejects_unknown_names() {
    assert_eq!(Goal::from_name(""), None);
    assert_eq!(Goal::from_name("reboot"), None);
    assert_eq!(Goal::from_name("Switch"), None);
    assert_eq!(Goal::from_name("dry-activate "), None);
}

#[test]
fn goal_names_round_trip() {
    for goal in [Goal::Push, Goal::Switch, Goal::Boot, Goal::Test, Goal::DryActivate] {
        assert_eq!(Goal::from_name(goal.as_name()), Some(goal));
    }
}

#[test]
fn should_switch_profile_only_for_switch_boot_test() {
    assert!(!Goal::Push.should_switch_profile());
    assert!(Goal::Switch.should_switch_profile());
    assert!(Goal::Boot.should_switch_profile());
    assert!(Goal::Test.should_switch_profile());
    assert!(!Goal::DryActivate.should_switch_profile());
}
