use ecsdb::schedule::{last_run, After, Always, Every, Manually, Once, SchedulingMode, Timestamp};

fn runs(entries: &[(&str, Timestamp)]) -> Vec<(String, Timestamp)> {
    entries
        .iter()
        .map(|(name, time)| (name.to_string(), *time))
        .collect()
}

#[test]
fn the_last_run_is_found_by_name() {
    let runs = runs(&[("a", 10), ("b", 20), ("a", 30)]);
    assert_eq!(last_run(&runs, "a"), Some(10));
    assert_eq!(last_run(&runs, "b"), Some(20));
    assert_eq!(last_run(&runs, "c"), None);
    assert_eq!(last_run(&vec![], "a"), None);
}

#[test]
fn manually_and_always() {
    let runs = runs(&[("a", 10)]);
    assert!(!Manually.should_run(&runs, "a", 11));
    assert!(!Manually.should_run(&runs, "b", 11));
    assert!(Always.should_run(&runs, "a", 11));
    assert!(Always.should_run(&runs, "b", 11));
}

#[test]
fn once_runs_until_it_ran() {
    let runs = runs(&[("a", 10)]);
    assert!(!Once.should_run(&runs, "a", 11));
    assert!(Once.should_run(&runs, "b", 11));
}

#[test]
fn every_runs_when_more_than_the_interval_has_passed() {
    let runs = runs(&[("a", 1_000), ("far", i64::MIN)]);
    let mode = Every(500);
    assert!(!mode.should_run(&runs, "a", 1_000));
    assert!(!mode.should_run(&runs, "a", 1_500));
    assert!(mode.should_run(&runs, "a", 1_501));
    assert!(mode.should_run(&runs, "never", 0));
    assert!(mode.should_run(&runs, "far", i64::MAX));
    assert!(!Every(i64::MAX).should_run(&runs, "a", i64::MAX));
}

#[test]
fn after_runs_when_its_predecessor_ran_since() {
    let mode = After("first".to_string());
    assert!(!mode.should_run(&runs(&[]), "second", 0));
    assert!(!mode.should_run(&runs(&[("second", 5)]), "second", 0));
    assert!(mode.should_run(&runs(&[("first", 5)]), "second", 0));
    assert!(mode.should_run(&runs(&[("first", 6), ("second", 5)]), "second", 0));
    assert!(!mode.should_run(&runs(&[("first", 5), ("second", 5)]), "second", 0));
    assert!(!mode.should_run(&runs(&[("first", 4), ("second", 5)]), "second", 0));
}
