use mirror_sync::Config;
use mirror_sync::Interval;
use mirror_sync::default_repos;
use mirror_sync::default_task_count;

#[test]
fn default_interval_is_forty_seconds() {
    let interval = Interval::default();
    assert_eq!(interval.0, 40);
    assert_eq!(u64::from(interval), 40);
    assert_eq!(interval.seconds(), 40);
}

#[test]
fn default_config_values() {
    let config = Config::default();
    assert_eq!(config.update_interval.0, 40);
    assert_eq!(config.repos, "repos");
    assert_eq!(config.task_count, 4);
    assert_eq!(default_repos(), "repos");
    assert_eq!(default_task_count(), 4);
}

#[test]
fn config_new_keeps_valid_values() {
    let config = Config::new(90, "jobs".to_string(), 2);
    assert_eq!(config.update_interval.0, 90);
    assert_eq!(config.repos, "jobs");
    assert_eq!(config.task_count, 2);
}

#[test]
fn config_new_replaces_unusable_values_with_defaults() {
    let config = Config::new(0, "jobs".to_string(), 0);
    assert_eq!(config.update_interval.0, 40);
    assert_eq!(config.task_count, 4);
    assert_eq!(config.repos, "jobs");
}

#[test]
fn job_deadline_equals_the_interval() {
    let config = Config::new(25, "repos".to_string(), 3);
    assert_eq!(config.job_deadline(), 25);
    assert!(config.job_deadline() <= config.update_interval.0);
}
