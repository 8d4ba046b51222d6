use pinoc::clean::{keypair_entries, plan_clean};

fn names(v: &[&str]) -> Vec<String> {
    v.iter().map(|s| s.to_string()).collect()
}

#[test]
fn preserving_clean_keeps_keypair_files() {
    let entries = names(&["foo-keypair.json", "foo.so", "build.log"]);
    let plan = plan_clean(true, true, true, &entries);
    assert!(plan.remove_target);
    assert!(plan.recreate_deploy);
    assert_eq!(plan.preserve, vec!["foo-keypair.json".to_string()]);
}

#[test]
fn non_preserving_clean_keeps_nothing() {
    let entries = names(&["foo-keypair.json", "foo.so"]);
    let plan = plan_clean(true, true, false, &entries);
    assert!(plan.remove_target);
    assert!(!plan.recreate_deploy);
    assert!(plan.preserve.is_empty());
}

#[test]
fn missing_target_is_a_no_op() {
    let plan = plan_clean(false, false, true, &Vec::new());
    assert!(!plan.remove_target);
    assert!(!plan.recreate_deploy);
    assert!(plan.preserve.is_empty());
}

#[test]
fn missing_deploy_dir_still_recreates_it() {
    let plan = plan_clean(true, false, true, &Vec::new());
    assert!(plan.remove_target);
    assert!(plan.recreate_deploy);
    assert!(plan.preserve.is_empty());
}

#[test]
fn keypair_entries_keep_order() {
    let entries = names(&["b-keypair.json", "x", "a-keypair.json", "-keypair.json.bak"]);
    assert_eq!(keypair_entries(&entries), names(&["b-keypair.json", "a-keypair.json"]));
}
